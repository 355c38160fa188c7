use vstd::prelude::*;

use crate::error::OwnerError;
use crate::msg::{OwnerInit, OwnerUpdate};
use crate::state::RoleModel;

verus! {

/// What an initialization event does to the role: it is legal only while no
/// owner was ever set, and anyone may perform it.
pub open spec fn initial_transition(s: RoleModel, init: OwnerInit) -> Result<RoleModel, OwnerError> {
    if s is Uninitialized {
        match init {
            OwnerInit::SetInitialOwner { owner } => Ok(
                RoleModel::Std { owner: owner@, emergency_owner: None },
            ),
            OwnerInit::AbolishOwnerRole => Ok(RoleModel::Abolished),
        }
    } else {
        Err(OwnerError::StateTransitionError {})
    }
}

/// What an update event by `caller` does to the role. Authorization is judged
/// on the state before the event; a pair of state and event that is not legal
/// fails whoever the caller is.
pub open spec fn transition(s: RoleModel, event: OwnerUpdate, caller: Seq<char>) -> Result<
    RoleModel,
    OwnerError,
> {
    match s {
        RoleModel::Std { owner, emergency_owner } => match event {
            OwnerUpdate::ProposeNewOwner { proposed } => if caller == owner {
                Ok(RoleModel::Proposed { owner, proposed: proposed@, emergency_owner })
            } else {
                Err(OwnerError::NotOwner {})
            },
            OwnerUpdate::AbolishOwnerRole => if caller == owner {
                Ok(RoleModel::Abolished)
            } else {
                Err(OwnerError::NotOwner {})
            },
            OwnerUpdate::SetEmergencyOwner { emergency_owner: e } => if caller == owner {
                Ok(RoleModel::Std { owner, emergency_owner: Some(e@) })
            } else {
                Err(OwnerError::NotOwner {})
            },
            OwnerUpdate::ClearEmergencyOwner => if caller == owner {
                Ok(RoleModel::Std { owner, emergency_owner: None })
            } else {
                Err(OwnerError::NotOwner {})
            },
            _ => Err(OwnerError::StateTransitionError {}),
        },
        RoleModel::Proposed { owner, proposed, emergency_owner } => match event {
            OwnerUpdate::AcceptProposed => if caller == proposed {
                Ok(RoleModel::Std { owner: proposed, emergency_owner })
            } else {
                Err(OwnerError::NotProposedOwner {})
            },
            OwnerUpdate::ClearProposed => if caller == owner {
                Ok(RoleModel::Std { owner, emergency_owner })
            } else {
                Err(OwnerError::NotOwner {})
            },
            OwnerUpdate::AbolishOwnerRole => if caller == owner {
                Ok(RoleModel::Abolished)
            } else {
                Err(OwnerError::NotOwner {})
            },
            _ => Err(OwnerError::StateTransitionError {}),
        },
        _ => Err(OwnerError::StateTransitionError {}),
    }
}

/// The text that stands for an absent identity in the observability attributes.
pub open spec fn shown(id: Option<Seq<char>>) -> Seq<char> {
    match id {
        Some(s) => s,
        None => "None"@,
    }
}

/// The observability attributes of a successful update that left the role in `s`.
pub open spec fn update_attributes(s: RoleModel, sender: Seq<char>) -> Seq<(Seq<char>, Seq<char>)> {
    seq![
        ("action"@, "update_owner"@),
        ("owner"@, shown(s.current())),
        ("proposed"@, shown(s.proposed())),
        ("sender"@, sender),
    ]
}

} // verus!
