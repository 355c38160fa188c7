use vstd::prelude::*;

verus! {

/// Declares cosmwasm_std::StdError, the error of the host's storage layer, so that
/// `OwnerError` can pass it through unchanged. Nothing is assumed of its contents.
#[verifier::external_type_specification]
#[verifier::external_body]
pub struct ExStdError(cosmwasm_std::StdError);

/// Errors returned from owner state transitions.
#[derive(Debug, PartialEq)]
pub enum OwnerError {
    /// A failure reported by the store that holds the state.
    Std(cosmwasm_std::StdError),
    /// The caller is not the current owner.
    NotOwner {},
    /// The caller is not the proposed owner.
    NotProposedOwner {},
    /// The requested event is not legal in the current state.
    StateTransitionError {},
    /// The caller is not the emergency owner.
    NotEmergencyOwner {},
}

} // verus!
