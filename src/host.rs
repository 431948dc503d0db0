//! Types of the host runtime that the contract passes through untouched.
use vstd::prelude::*;

verus! {

/// The host's error type. The contract never inspects one: it only hands back
/// the errors the host gave it.
#[verifier::external_type_specification]
#[verifier::external_body]
pub struct ExStdError(cosmwasm_std::StdError);

} // verus!
