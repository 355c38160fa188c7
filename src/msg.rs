use vstd::prelude::*;

verus! {

/// Events accepted once the role has been initialized.
#[derive(Debug, Clone, PartialEq)]
pub enum OwnerUpdate {
    /// Proposes a new owner to take the role. Only the current owner can execute.
    ProposeNewOwner { proposed: String },
    /// Clears the currently proposed owner. Only the current owner can execute.
    ClearProposed,
    /// Promotes the proposed owner to be the current one. Only the proposed owner can execute.
    AcceptProposed,
    /// Throws away the keys to the owner role forever.
    AbolishOwnerRole,
    /// Names a separate entity, managed by the owner, that holds emergency powers.
    SetEmergencyOwner { emergency_owner: String },
    /// Removes the entity in the emergency owner role.
    ClearEmergencyOwner,
}

/// Events accepted only while no owner has ever been set.
#[derive(Debug, Clone, PartialEq)]
pub enum OwnerInit {
    /// Sets the initial owner. Anyone may execute.
    SetInitialOwner { owner: String },
    /// Throws away the keys to the owner role forever. Anyone may execute.
    AbolishOwnerRole,
}

/// Read-only projection of the role, as returned by `Owner::query`.
#[derive(Debug, Clone, PartialEq)]
pub struct OwnerResponse {
    pub owner: Option<String>,
    pub proposed: Option<String>,
    pub initialized: bool,
    pub abolished: bool,
    pub emergency_owner: Option<String>,
}

impl OwnerUpdate {
    /// The address that the event carries, which the host must validate
    /// before the resulting state is committed.
    pub open spec fn spec_address(&self) -> Option<Seq<char>> {
        match self {
            OwnerUpdate::ProposeNewOwner { proposed } => Some(proposed@),
            OwnerUpdate::SetEmergencyOwner { emergency_owner } => Some(emergency_owner@),
            _ => None,
        }
    }

    pub fn address(&self) -> (r: Option<&str>)
        ensures
            r.deep_view() == self.spec_address(),
    {
        match self {
            OwnerUpdate::ProposeNewOwner { proposed } => Some(proposed.as_str()),
            OwnerUpdate::SetEmergencyOwner { emergency_owner } => Some(emergency_owner.as_str()),
            _ => None,
        }
    }
}

impl OwnerInit {
    /// The address that the event carries, which the host must validate
    /// before the resulting state is committed.
    pub open spec fn spec_address(&self) -> Option<Seq<char>> {
        match self {
            OwnerInit::SetInitialOwner { owner } => Some(owner@),
            OwnerInit::AbolishOwnerRole => None,
        }
    }

    pub fn address(&self) -> (r: Option<&str>)
        ensures
            r.deep_view() == self.spec_address(),
    {
        match self {
            OwnerInit::SetInitialOwner { owner } => Some(owner.as_str()),
            OwnerInit::AbolishOwnerRole => None,
        }
    }
}

} // verus!
