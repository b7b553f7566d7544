//! Reserve and share accounting for a single-asset liquidity pool.
//!
//! The pool holds a reserve of one native asset, is paired with one fungible
//! token, and issues liquidity shares to those who deposit. This crate is the
//! pool's state machine: it decides what a call does to the pool's record and
//! what it asks of the share ledger and of the host, and leaves storage and
//! the ledger itself to its caller.
//!
//! - [`contract`]: the calls (`instantiate`, `execute`, `query`), with what
//!   each does stated as a function of the record, the call and the token
//!   ledger's answer, and the laws that follow.
//! - [`state`]: the pool's record and the deposit as a transition on it.
//! - [`ratio`]: the exact `a * b / d` on `u128` that the share of a deposit
//!   is worked out with.
//! - [`msg`], [`response`], [`error`]: what goes in and what comes out.
//! - [`ledger`]: the wire form of the transfer message, which is the token
//!   ledger's to define and is taken on trust.

pub mod contract;
pub mod error;
pub mod ledger;
pub mod msg;
pub mod ratio;
pub mod response;
pub mod state;
