//! The one read of the Soroban environment that the library makes: the
//! current ledger sequence number.
use vstd::prelude::*;

use soroban_sdk::Env;

verus! {

/// The Soroban environment handle, carried through opaquely.
#[verifier::external_type_specification]
#[verifier::external_body]
pub struct ExEnv(soroban_sdk::Env);

/// Calls `soroban_sdk::Env::ledger()` and then `Ledger::sequence()`: the
/// sequence number of the ledger the transaction runs in.  It depends on the
/// network's state, not on the argument, so nothing is claimed of it.
#[verifier::external_body]
pub fn current_ledger_sequence(env: &Env) -> (seq: u32) {
    env.ledger().sequence()
}

} // verus!
