use vstd::prelude::*;

use crate::account::AccountId;

verus! {

/// What the host tells an invocation about itself. Read-only to the logic.
pub struct InvocationContext {
    /// The account of the contract that runs.
    pub current_account: AccountId,
    /// The public key of the account that signed the transaction, in the
    /// host's byte encoding.
    pub signer_public_key: Vec<u8>,
    /// The value attached to this invocation, in the smallest unit.
    pub attached_deposit: u128,
    /// The compute budget available to this invocation.
    pub prepaid_gas: u64,
}

} // verus!
