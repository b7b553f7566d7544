//! What a call carries in: the messages of the command surface and what the
//! host tells about the call.

use vstd::prelude::*;

verus! {

/// Sets the pool up.
#[allow(non_snake_case)]
#[derive(Clone, Debug, PartialEq)]
pub struct InstantiateMsg {
    /// The native asset that the pool accepts.
    pub nativeDenom: String,
    /// The contract of the paired token.
    pub tokenAddress: String,
}

/// The commands that change the pool.
#[allow(non_snake_case)]
#[derive(Clone, Debug, PartialEq)]
pub enum ExecuteMsg {
    /// Deposit the native asset that comes with the call, and offer
    /// `tokenAmount` of the paired token with it.
    AddLiquidity { tokenAmount: u128 },
}

/// The questions that can be put to the pool.
#[derive(Clone, Debug, PartialEq)]
pub enum QueryMsg {
    /// The pool's record as it stands.
    PoolState {  },
    /// The share balance of `address`, 0 if unset.
    Balance { address: String },
}

/// An amount of one native asset.
#[derive(Clone, Debug, PartialEq)]
pub struct Coin {
    pub denom: String,
    pub amount: u128,
}

/// A [`Coin`] as a mathematical value.
pub struct CoinView {
    pub denom: Seq<char>,
    pub amount: nat,
}

impl View for Coin {
    type V = CoinView;

    open spec fn view(&self) -> CoinView {
        CoinView { denom: self.denom@, amount: self.amount as nat }
    }
}

impl DeepView for Coin {
    type V = CoinView;

    open spec fn deep_view(&self) -> CoinView {
        self@
    }
}

/// Who calls, and what they sent along.
#[derive(Clone, Debug, PartialEq)]
pub struct MessageInfo {
    /// The caller.
    pub sender: String,
    /// The native assets that the host moved to the callee with the call.
    pub funds: Vec<Coin>,
}

/// A [`MessageInfo`] as a mathematical value.
pub struct MessageInfoView {
    pub sender: Seq<char>,
    pub funds: Seq<CoinView>,
}

impl View for MessageInfo {
    type V = MessageInfoView;

    open spec fn view(&self) -> MessageInfoView {
        MessageInfoView { sender: self.sender@, funds: self.funds.deep_view() }
    }
}

impl DeepView for MessageInfo {
    type V = MessageInfoView;

    open spec fn deep_view(&self) -> MessageInfoView {
        self@
    }
}

/// Where the call runs.
#[derive(Clone, Debug, PartialEq)]
pub struct Env {
    /// The pool's own address.
    pub contract_address: String,
}

/// The native amount that came with a call: that of the first coin sent, and
/// nothing where no coin was sent.
pub open spec fn attached_amount(funds: Seq<Coin>) -> u128 {
    if funds.len() > 0 {
        funds[0].amount
    } else {
        0
    }
}

impl MessageInfo {
    /// The native amount that came with the call.
    pub fn native_amount_sent(&self) -> (amount: u128)
        ensures
            amount == attached_amount(self.funds@),
    {
        if self.funds.len() > 0 {
            self.funds[0].amount
        } else {
            0
        }
    }
}

} // verus!
