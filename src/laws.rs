use vstd::prelude::*;

use crate::error::OwnerError;
use crate::fsm::{initial_transition, transition};
use crate::msg::{OwnerInit, OwnerUpdate};
use crate::state::RoleModel;

verus! {

/// The events that only the current owner may perform.
pub open spec fn owner_gated(event: OwnerUpdate) -> bool {
    ||| event is ProposeNewOwner
    ||| event is ClearProposed
    ||| event is AbolishOwnerRole
    ||| event is SetEmergencyOwner
    ||| event is ClearEmergencyOwner
}

/// Setting an initial owner on a role that was never initialized makes that
/// owner current, with no proposal pending, initialized and not abolished.
pub proof fn initial_owner_becomes_current(owner: String)
    ensures
        initial_transition(RoleModel::Uninitialized, (OwnerInit::SetInitialOwner { owner }))
            matches Ok(s) && s.current() == Some(owner@) && s.proposed() is None
            && s.initialized() && !s.abolished(),
{
}

/// The two-phase handover: the owner proposes a successor, the successor
/// accepts and becomes owner with nothing left pending, and an acceptance by
/// anyone else fails with `NotProposedOwner`.
pub proof fn handover_round_trip(
    owner: Seq<char>,
    successor: String,
    other: Seq<char>,
    emergency_owner: Option<Seq<char>>,
)
    requires
        other != successor@,
    ensures
        ({
            let set = RoleModel::Std { owner, emergency_owner };
            let proposed = RoleModel::Proposed { owner, proposed: successor@, emergency_owner };
            &&& transition(set, (OwnerUpdate::ProposeNewOwner { proposed: successor }), owner)
                == Ok::<RoleModel, OwnerError>(proposed)
            &&& transition(proposed, OwnerUpdate::AcceptProposed, successor@) matches Ok(s)
                && s.current() == Some(successor@) && s.proposed() is None
            &&& transition(proposed, OwnerUpdate::AcceptProposed, other) == Err::<
                RoleModel,
                OwnerError,
            >(OwnerError::NotProposedOwner {})
        }),
{
}

/// Once abolished, the role stays abolished: every event fails with
/// `StateTransitionError`, whoever performs it.
pub proof fn abolished_is_absorbing(event: OwnerUpdate, caller: Seq<char>, init: OwnerInit)
    ensures
        transition(RoleModel::Abolished, event, caller) == Err::<RoleModel, OwnerError>(
            OwnerError::StateTransitionError {},
        ),
        initial_transition(RoleModel::Abolished, init) == Err::<RoleModel, OwnerError>(
            OwnerError::StateTransitionError {},
        ),
{
}

/// An owner-gated event that the current owner could perform fails with
/// `NotOwner` when anyone else performs it.
pub proof fn owner_gated_events_need_the_owner(s: RoleModel, event: OwnerUpdate, caller: Seq<char>)
    requires
        owner_gated(event),
        s.current() matches Some(owner) && caller != owner && transition(s, event, owner) is Ok,
    ensures
        transition(s, event, caller) == Err::<RoleModel, OwnerError>(OwnerError::NotOwner {}),
{
}

} // verus!
