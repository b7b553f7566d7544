//! The ways in which a call on the pool can be turned down.

use cosmwasm_std::StdError;
use vstd::prelude::*;

verus! {

/// Why a call was turned down. Every variant aborts the whole call: the pool
/// is left exactly as it was and nothing is retried.
#[derive(Debug, PartialEq)]
pub enum ContractError {
    /// No native asset came with the deposit.
    InvalidDeposit,
    /// The reserve or the share supply would leave the range of `u128`.
    ArithmeticOverflow,
    /// The pool's record is missing, or what was stored is no pool.
    StateLoadFailure,
    /// The token ledger turned the transfer down; its own error is handed on
    /// as it came.
    LedgerAdapterFailure(StdError),
    /// The pool was set up before.
    AlreadyInitialized,
}

} // verus!
