use vstd::prelude::*;

verus! {

/// The persisted value of the ownership role.
///
/// Identities are addresses that the host has already validated.
#[derive(Debug, Clone, PartialEq)]
pub enum OwnerState {
    /// No owner has ever been set.
    Uninitialized,
    /// An owner exists and no successor is pending.
    Std { owner: String, emergency_owner: Option<String> },
    /// An owner exists and a successor has been nominated but has not accepted yet.
    Proposed { owner: String, proposed: String, emergency_owner: Option<String> },
    /// The role was discarded for good.
    Abolished,
}

/// The mathematical model of an [`OwnerState`]: identities as character sequences.
pub ghost enum RoleModel {
    Uninitialized,
    Std { owner: Seq<char>, emergency_owner: Option<Seq<char>> },
    Proposed { owner: Seq<char>, proposed: Seq<char>, emergency_owner: Option<Seq<char>> },
    Abolished,
}

impl View for OwnerState {
    type V = RoleModel;

    open spec fn view(&self) -> RoleModel {
        match self {
            OwnerState::Uninitialized => RoleModel::Uninitialized,
            OwnerState::Std { owner, emergency_owner } => RoleModel::Std {
                owner: owner@,
                emergency_owner: emergency_owner.deep_view(),
            },
            OwnerState::Proposed { owner, proposed, emergency_owner } => RoleModel::Proposed {
                owner: owner@,
                proposed: proposed@,
                emergency_owner: emergency_owner.deep_view(),
            },
            OwnerState::Abolished => RoleModel::Abolished,
        }
    }
}

impl RoleModel {
    /// The current owner, present while the role has one.
    pub open spec fn current(self) -> Option<Seq<char>> {
        match self {
            RoleModel::Std { owner, .. } => Some(owner),
            RoleModel::Proposed { owner, .. } => Some(owner),
            _ => None,
        }
    }

    /// The nominated successor, present only while a proposal is pending.
    pub open spec fn proposed(self) -> Option<Seq<char>> {
        match self {
            RoleModel::Proposed { proposed, .. } => Some(proposed),
            _ => None,
        }
    }

    /// The emergency owner, present only while the role has an owner.
    pub open spec fn emergency(self) -> Option<Seq<char>> {
        match self {
            RoleModel::Std { emergency_owner, .. } => emergency_owner,
            RoleModel::Proposed { emergency_owner, .. } => emergency_owner,
            _ => None,
        }
    }

    pub open spec fn initialized(self) -> bool {
        !(self is Uninitialized)
    }

    pub open spec fn abolished(self) -> bool {
        self is Abolished
    }
}

} // verus!
