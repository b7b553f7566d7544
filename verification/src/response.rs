//! What a call hands back: the work that the pool asks others to do, and the
//! answers to queries.

use crate::error::ContractError;
use crate::msg::{Coin, CoinView, MessageInfo, MessageInfoView};
use crate::state::{PoolState, PoolStateView};
use vstd::prelude::*;

verus! {

/// A message for the host to deliver once the call has returned: move
/// `amount` of the token at `token` from `owner` to `recipient`.
#[derive(Clone, Debug, PartialEq)]
pub struct TokenTransfer {
    /// The contract of the token to move.
    pub token: String,
    pub owner: String,
    pub recipient: String,
    pub amount: u128,
    /// The message as the token contract reads it.
    pub payload: Vec<u8>,
    /// Native assets to send along with the message.
    pub funds: Vec<Coin>,
}

/// A [`TokenTransfer`] as a mathematical value.
pub struct TokenTransferView {
    pub token: Seq<char>,
    pub owner: Seq<char>,
    pub recipient: Seq<char>,
    pub amount: nat,
    pub payload: Seq<u8>,
    pub funds: Seq<CoinView>,
}

impl View for TokenTransfer {
    type V = TokenTransferView;

    open spec fn view(&self) -> TokenTransferView {
        TokenTransferView {
            token: self.token@,
            owner: self.owner@,
            recipient: self.recipient@,
            amount: self.amount as nat,
            payload: self.payload@,
            funds: self.funds.deep_view(),
        }
    }
}

impl DeepView for TokenTransfer {
    type V = TokenTransferView;

    open spec fn deep_view(&self) -> TokenTransferView {
        self@
    }
}

/// Shares that an account holds from the moment the share ledger is opened.
#[derive(Clone, Debug, PartialEq)]
pub struct InitialBalance {
    pub address: String,
    pub amount: u128,
}

/// An [`InitialBalance`] as a mathematical value.
pub struct InitialBalanceView {
    pub address: Seq<char>,
    pub amount: nat,
}

impl View for InitialBalance {
    type V = InitialBalanceView;

    open spec fn view(&self) -> InitialBalanceView {
        InitialBalanceView { address: self.address@, amount: self.amount as nat }
    }
}

impl DeepView for InitialBalance {
    type V = InitialBalanceView;

    open spec fn deep_view(&self) -> InitialBalanceView {
        self@
    }
}

/// Work for the share ledger, to be done before the call's result stands.
#[derive(Clone, Debug, PartialEq)]
pub enum LedgerCall {
    /// Open the ledger with the balances in `initial_balances`, with
    /// `minter` as the only one who may mint, and with `cap` as the most that
    /// may ever be out, if there is one.
    Create {
        name: String,
        symbol: String,
        decimals: u8,
        initial_balances: Vec<InitialBalance>,
        minter: String,
        cap: Option<u128>,
    },
    /// Credit `recipient` with `amount` new shares, on the authority of the
    /// sender of `info`.
    Mint { info: MessageInfo, recipient: String, amount: u128 },
}

/// A [`LedgerCall`] as a mathematical value.
pub enum LedgerCallView {
    Create {
        name: Seq<char>,
        symbol: Seq<char>,
        decimals: u8,
        initial_balances: Seq<InitialBalanceView>,
        minter: Seq<char>,
        cap: Option<nat>,
    },
    Mint { info: MessageInfoView, recipient: Seq<char>, amount: nat },
}

impl View for LedgerCall {
    type V = LedgerCallView;

    open spec fn view(&self) -> LedgerCallView {
        match self {
            LedgerCall::Create {
                name,
                symbol,
                decimals,
                initial_balances,
                minter,
                cap,
            } => LedgerCallView::Create {
                name: name@,
                symbol: symbol@,
                decimals: *decimals,
                initial_balances: initial_balances.deep_view(),
                minter: minter@,
                cap: match cap {
                    Some(most) => Some(*most as nat),
                    None => None,
                },
            },
            LedgerCall::Mint { info, recipient, amount } => LedgerCallView::Mint {
                info: info@,
                recipient: recipient@,
                amount: *amount as nat,
            },
        }
    }
}

impl DeepView for LedgerCall {
    type V = LedgerCallView;

    open spec fn deep_view(&self) -> LedgerCallView {
        self@
    }
}

/// What a call that changed the pool asks of its surroundings.
#[derive(Clone, Debug, PartialEq)]
pub struct Response {
    /// Messages for the host, in the order in which to deliver them.
    pub messages: Vec<TokenTransfer>,
    /// Work for the share ledger, if the call gave rise to any.
    pub ledger_call: Option<LedgerCall>,
}

/// A [`Response`] as a mathematical value.
pub struct ResponseView {
    pub messages: Seq<TokenTransferView>,
    pub ledger_call: Option<LedgerCallView>,
}

impl ResponseView {
    /// The shares that the response orders to be minted, to whomever.
    pub open spec fn minted(self) -> nat {
        match self.ledger_call {
            Some(LedgerCallView::Mint { amount, .. }) => amount,
            _ => 0,
        }
    }
}

impl View for Response {
    type V = ResponseView;

    open spec fn view(&self) -> ResponseView {
        ResponseView {
            messages: self.messages.deep_view(),
            ledger_call: self.ledger_call.deep_view(),
        }
    }
}

/// The answer to a query.
#[derive(Debug, PartialEq)]
pub enum QueryResponse {
    /// The pool's record as it stood when asked.
    PoolState(PoolState),
    /// The answer is what the share ledger holds for `address`.
    LedgerBalance { address: String },
}

/// A [`QueryResponse`] as a mathematical value.
pub enum QueryResponseView {
    PoolState(PoolStateView),
    LedgerBalance { address: Seq<char> },
}

impl View for QueryResponse {
    type V = QueryResponseView;

    open spec fn view(&self) -> QueryResponseView {
        match self {
            QueryResponse::PoolState(pool) => QueryResponseView::PoolState(pool@),
            QueryResponse::LedgerBalance { address } => QueryResponseView::LedgerBalance {
                address: address@,
            },
        }
    }
}

/// The result of a call that may change the pool, as a mathematical value.
pub open spec fn response_view(
    res: Result<Response, ContractError>,
) -> Result<ResponseView, ContractError> {
    match res {
        Ok(response) => Ok(response@),
        Err(e) => Err(e),
    }
}

/// The result of a query, as a mathematical value.
pub open spec fn answer_view(
    res: Result<QueryResponse, ContractError>,
) -> Result<QueryResponseView, ContractError> {
    match res {
        Ok(answer) => Ok(answer@),
        Err(e) => Err(e),
    }
}

} // verus!
