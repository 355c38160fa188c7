use vstd::prelude::*;

use crate::error::OwnerError;
use crate::fsm::{initial_transition, shown, transition, update_attributes};
use crate::msg::{OwnerInit, OwnerResponse, OwnerUpdate};
use crate::state::{OwnerState, RoleModel};

verus! {

/// The ownership role held in one store slot, named by its namespace key.
///
/// The host loads the slot into an `Owner`, applies events to it, and writes
/// `state()` back when an event succeeds.
pub struct Owner {
    namespace: String,
    state: OwnerState,
}

impl View for Owner {
    type V = RoleModel;

    closed spec fn view(&self) -> RoleModel {
        self.state@
    }
}

impl Owner {
    /// The namespace key of the slot.
    pub closed spec fn spec_namespace(&self) -> Seq<char> {
        self.namespace@
    }

    /// A role in a slot that holds nothing yet.
    pub fn new(namespace: &str) -> (r: Owner)
        ensures
            r@ == RoleModel::Uninitialized,
            r.spec_namespace() == namespace@,
    {
        Owner { namespace: namespace.to_owned(), state: OwnerState::Uninitialized }
    }

    /// The role as read from its slot: an empty slot means no owner was ever set.
    pub fn from_stored(namespace: &str, stored: Option<OwnerState>) -> (r: Owner)
        ensures
            r@ == match stored {
                Some(s) => s@,
                None => RoleModel::Uninitialized,
            },
            r.spec_namespace() == namespace@,
    {
        let state = match stored {
            Some(s) => s,
            None => OwnerState::Uninitialized,
        };
        Owner { namespace: namespace.to_owned(), state }
    }

    pub fn namespace(&self) -> (r: &str)
        ensures
            r@ == self.spec_namespace(),
    {
        self.namespace.as_str()
    }

    /// The value to persist in the slot.
    pub fn state(&self) -> (r: &OwnerState)
        ensures
            r@ == self@,
    {
        &self.state
    }

    //----------------------------------------------------------------------------------------
    // Queries
    //----------------------------------------------------------------------------------------
    pub fn current(&self) -> (r: Option<String>)
        ensures
            r.deep_view() == self@.current(),
    {
        match &self.state {
            OwnerState::Std { owner, .. } => Some(owner.clone()),
            OwnerState::Proposed { owner, .. } => Some(owner.clone()),
            _ => None,
        }
    }

    pub fn is_owner(&self, addr: &String) -> (r: bool)
        ensures
            r == (self@.current() == Some(addr@)),
    {
        match &self.state {
            OwnerState::Std { owner, .. } => *owner == *addr,
            OwnerState::Proposed { owner, .. } => *owner == *addr,
            _ => false,
        }
    }

    pub fn proposed(&self) -> (r: Option<String>)
        ensures
            r.deep_view() == self@.proposed(),
    {
        match &self.state {
            OwnerState::Proposed { proposed, .. } => Some(proposed.clone()),
            _ => None,
        }
    }

    pub fn is_proposed(&self, addr: &String) -> (r: bool)
        ensures
            r == (self@.proposed() == Some(addr@)),
    {
        match &self.state {
            OwnerState::Proposed { proposed, .. } => *proposed == *addr,
            _ => false,
        }
    }

    pub fn emergency_owner(&self) -> (r: Option<String>)
        ensures
            r.deep_view() == self@.emergency(),
    {
        match &self.state {
            OwnerState::Std { emergency_owner: Some(e), .. } => Some(e.clone()),
            OwnerState::Proposed { emergency_owner: Some(e), .. } => Some(e.clone()),
            _ => None,
        }
    }

    pub fn is_emergency_owner(&self, addr: &String) -> (r: bool)
        ensures
            r == (self@.emergency() == Some(addr@)),
    {
        match &self.state {
            OwnerState::Std { emergency_owner: Some(e), .. } => *e == *addr,
            OwnerState::Proposed { emergency_owner: Some(e), .. } => *e == *addr,
            _ => false,
        }
    }

    pub fn query(&self) -> (r: OwnerResponse)
        ensures
            r.owner.deep_view() == self@.current(),
            r.proposed.deep_view() == self@.proposed(),
            r.initialized == self@.initialized(),
            r.abolished == self@.abolished(),
            r.emergency_owner.deep_view() == self@.emergency(),
    {
        OwnerResponse {
            owner: self.current(),
            proposed: self.proposed(),
            initialized: !matches!(self.state, OwnerState::Uninitialized),
            abolished: matches!(self.state, OwnerState::Abolished),
            emergency_owner: self.emergency_owner(),
        }
    }

    //----------------------------------------------------------------------------------------
    // Transitions
    //----------------------------------------------------------------------------------------
    /// Decides the state that `event` by `sender` leads to, without changing the role.
    pub fn transition_state(&self, sender: &String, event: OwnerUpdate) -> (r: Result<
        OwnerState,
        OwnerError,
    >)
        ensures
            match transition(self@, event, sender@) {
                Ok(s) => r matches Ok(n) && n@ == s,
                Err(e) => r == Err::<OwnerState, OwnerError>(e),
            },
    {
        match &self.state {
            OwnerState::Std { owner, emergency_owner } => match event {
                OwnerUpdate::ProposeNewOwner { proposed } => {
                    if let Err(e) = self.assert_owner(sender) {
                        return Err(e);
                    }
                    Ok(
                        OwnerState::Proposed {
                            owner: owner.clone(),
                            proposed,
                            emergency_owner: emergency_owner.clone(),
                        },
                    )
                },
                OwnerUpdate::SetEmergencyOwner { emergency_owner: appointed } => {
                    if let Err(e) = self.assert_owner(sender) {
                        return Err(e);
                    }
                    Ok(OwnerState::Std { owner: owner.clone(), emergency_owner: Some(appointed) })
                },
                OwnerUpdate::ClearEmergencyOwner => {
                    if let Err(e) = self.assert_owner(sender) {
                        return Err(e);
                    }
                    Ok(OwnerState::Std { owner: owner.clone(), emergency_owner: None })
                },
                OwnerUpdate::AbolishOwnerRole => {
                    if let Err(e) = self.assert_owner(sender) {
                        return Err(e);
                    }
                    Ok(OwnerState::Abolished)
                },
                _ => Err(OwnerError::StateTransitionError {}),
            },
            OwnerState::Proposed { owner, proposed, emergency_owner } => match event {
                OwnerUpdate::AcceptProposed => {
                    if let Err(e) = self.assert_proposed(sender) {
                        return Err(e);
                    }
                    Ok(
                        OwnerState::Std {
                            owner: proposed.clone(),
                            emergency_owner: emergency_owner.clone(),
                        },
                    )
                },
                OwnerUpdate::ClearProposed => {
                    if let Err(e) = self.assert_owner(sender) {
                        return Err(e);
                    }
                    Ok(
                        OwnerState::Std {
                            owner: owner.clone(),
                            emergency_owner: emergency_owner.clone(),
                        },
                    )
                },
                OwnerUpdate::AbolishOwnerRole => {
                    if let Err(e) = self.assert_owner(sender) {
                        return Err(e);
                    }
                    Ok(OwnerState::Abolished)
                },
                _ => Err(OwnerError::StateTransitionError {}),
            },
            _ => Err(OwnerError::StateTransitionError {}),
        }
    }

    //----------------------------------------------------------------------------------------
    // Mutations
    //----------------------------------------------------------------------------------------
    /// Applies an initialization event. It succeeds only while no owner was ever set;
    /// on failure the role is left as it was.
    pub fn initialize(&mut self, init_action: OwnerInit) -> (r: Result<(), OwnerError>)
        ensures
            final(self).spec_namespace() == old(self).spec_namespace(),
            match initial_transition(old(self)@, init_action) {
                Ok(s) => r is Ok && final(self)@ == s,
                Err(e) => r == Err::<(), OwnerError>(e) && *final(self) == *old(self),
            },
            !(old(self)@ is Uninitialized) ==> r == Err::<(), OwnerError>(
                OwnerError::StateTransitionError {},
            ),
    {
        match self.state {
            OwnerState::Uninitialized => {
                self.state =
                    match init_action {
                        OwnerInit::SetInitialOwner { owner } => OwnerState::Std {
                            owner,
                            emergency_owner: None,
                        },
                        OwnerInit::AbolishOwnerRole => OwnerState::Abolished,
                    };
                Ok(())
            },
            // Only a role that was never initialized accepts these events.
            _ => Err(OwnerError::StateTransitionError {}),
        }
    }

    /// Applies an update event by `sender`. On success it returns the observability
    /// attributes of the new state; on failure the role is left as it was.
    pub fn update(&mut self, sender: &String, update: OwnerUpdate) -> (r: Result<
        Vec<(String, String)>,
        OwnerError,
    >)
        ensures
            final(self).spec_namespace() == old(self).spec_namespace(),
            match transition(old(self)@, update, sender@) {
                Ok(s) => r matches Ok(attrs) && final(self)@ == s && attributes_view(attrs@)
                    == update_attributes(s, sender@),
                Err(e) => r == Err::<Vec<(String, String)>, OwnerError>(e) && *final(self)
                    == *old(self),
            },
    {
        match self.transition_state(sender, update) {
            Ok(new_state) => {
                self.state = new_state;
                let res = self.query();
                Ok(
                    vec![
                        ("action".to_string(), "update_owner".to_string()),
                        ("owner".to_string(), shown_or_none(res.owner)),
                        ("proposed".to_string(), shown_or_none(res.proposed)),
                        ("sender".to_string(), sender.clone()),
                    ],
                )
            },
            Err(e) => Err(e),
        }
    }

    //----------------------------------------------------------------------------------------
    // Assertions
    //----------------------------------------------------------------------------------------
    /// Like `is_owner`, but fails with `NotOwner` when the caller is not the current owner.
    pub fn assert_owner(&self, caller: &String) -> (r: Result<(), OwnerError>)
        ensures
            r == if self@.current() == Some(caller@) {
                Ok::<(), OwnerError>(())
            } else {
                Err(OwnerError::NotOwner {})
            },
    {
        if !self.is_owner(caller) {
            Err(OwnerError::NotOwner {})
        } else {
            Ok(())
        }
    }

    /// Like `is_proposed`, but fails with `NotProposedOwner` when the caller is not the
    /// proposed owner.
    pub fn assert_proposed(&self, caller: &String) -> (r: Result<(), OwnerError>)
        ensures
            r == if self@.proposed() == Some(caller@) {
                Ok::<(), OwnerError>(())
            } else {
                Err(OwnerError::NotProposedOwner {})
            },
    {
        if !self.is_proposed(caller) {
            Err(OwnerError::NotProposedOwner {})
        } else {
            Ok(())
        }
    }

    /// Like `is_emergency_owner`, but fails with `NotEmergencyOwner` when the caller is not
    /// the emergency owner.
    pub fn assert_emergency_owner(&self, caller: &String) -> (r: Result<(), OwnerError>)
        ensures
            r == if self@.emergency() == Some(caller@) {
                Ok::<(), OwnerError>(())
            } else {
                Err(OwnerError::NotEmergencyOwner {})
            },
    {
        if !self.is_emergency_owner(caller) {
            Err(OwnerError::NotEmergencyOwner {})
        } else {
            Ok(())
        }
    }
}

/// The view of a list of key and value attributes.
pub open spec fn attributes_view(attrs: Seq<(String, String)>) -> Seq<(Seq<char>, Seq<char>)> {
    attrs.map_values(|a: (String, String)| (a.0@, a.1@))
}

/// An identity as it is shown in the attributes, `None` where there is none.
fn shown_or_none(id: Option<String>) -> (r: String)
    ensures
        r@ == shown(id.deep_view()),
{
    match id {
        Some(s) => s,
        None => "None".to_string(),
    }
}

} // verus!
