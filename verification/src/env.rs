//! The blockchain context in which a contract endpoint runs.
use vstd::prelude::*;

use crate::amount::BigAmount;

verus! {

/// What the virtual machine tells an endpoint about the current call.
pub struct BlockchainEnv {
    /// The address that signed the transaction.
    pub caller: Vec<u8>,
    /// The address that owns the contract.
    pub owner: Vec<u8>,
    /// The address of the contract being called.
    pub contract: Vec<u8>,
    pub block_round: u64,
    pub block_epoch: u64,
    /// The block timestamp, in seconds.
    pub block_timestamp: u64,
}

/// A token payment attached to a call.
pub struct Payment {
    pub token_id: Vec<u8>,
    pub token_nonce: u64,
    pub amount: BigAmount,
}

/// A token transfer that an endpoint asks the virtual machine to perform.
pub struct Transfer {
    pub to: Vec<u8>,
    pub token_id: Vec<u8>,
    pub amount: BigAmount,
}

} // verus!
