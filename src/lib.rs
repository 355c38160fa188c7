//! A persisted ownership role with a two-phase handover and an optional
//! emergency owner, modelled as a finite state machine.

mod error;
mod fsm;
mod laws;
mod msg;
mod owner;
mod state;

pub use error::OwnerError;
pub use fsm::{initial_transition, shown, transition, update_attributes};
pub use laws::{
    abolished_is_absorbing, handover_round_trip, initial_owner_becomes_current, owner_gated,
    owner_gated_events_need_the_owner,
};
pub use msg::{OwnerInit, OwnerResponse, OwnerUpdate};
pub use owner::{attributes_view, Owner};
pub use state::{OwnerState, RoleModel};
