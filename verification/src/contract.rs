//! The command surface: set the pool up, deposit into it, ask about it.
//!
//! The pool's record lives in a slot that is empty until the pool is set up.
//! Each call gets the slot and hands back what is to be done outside: the
//! caller loads the slot before the call, does the work that the response asks
//! for, and stores the slot only if all of that went through.

use crate::error::ContractError;
use crate::ledger::{encode_transfer_from, transfer_from_json};
use crate::msg::{
    attached_amount, Coin, Env, ExecuteMsg, InstantiateMsg, MessageInfo, MessageInfoView, QueryMsg,
};
use crate::response::{
    answer_view, response_view, InitialBalance, LedgerCall, LedgerCallView, QueryResponse,
    QueryResponseView, Response, ResponseView, TokenTransfer, TokenTransferView,
};
use crate::state::{PoolState, PoolStateView};
use cosmwasm_std::StdError;
use vstd::prelude::*;

verus! {

/// The name under which the share ledger is opened.
pub open spec fn share_name() -> Seq<char> {
    "liquidity"@
}

/// The symbol under which the share ledger is opened.
pub open spec fn share_symbol() -> Seq<char> {
    "AAAA"@
}

/// What setting the pool up does to the slot, and what it hands back: no
/// message for the host, and the order to open the share ledger without
/// balances and without a cap, with the pool as its minter.
pub open spec fn instantiate_outcome(
    slot: Option<PoolStateView>,
    pool_address: Seq<char>,
    native_denom: Seq<char>,
    paired_token_address: Seq<char>,
) -> (Option<PoolStateView>, Result<ResponseView, ContractError>) {
    match slot {
        Some(_) => (slot, Err(ContractError::AlreadyInitialized)),
        None => (
            Some(PoolStateView::empty(native_denom, paired_token_address)),
            Ok(
                ResponseView {
                    messages: Seq::empty(),
                    ledger_call: Some(
                        LedgerCallView::Create {
                            name: share_name(),
                            symbol: share_symbol(),
                            decimals: 0,
                            initial_balances: Seq::empty(),
                            minter: pool_address,
                            cap: None,
                        },
                    ),
                },
            ),
        ),
    }
}

/// The message that moves `amount` of the token at `token` from `owner` to
/// `recipient`. No native asset goes with it.
pub open spec fn transfer_order(
    token: Seq<char>,
    owner: Seq<char>,
    recipient: Seq<char>,
    amount: u128,
    payload: Seq<u8>,
) -> TokenTransferView {
    TokenTransferView {
        token,
        owner,
        recipient,
        amount: amount as nat,
        payload,
        funds: Seq::empty(),
    }
}

/// The order to mint `amount` shares to `recipient`. The pool itself asks
/// for it, being the ledger's minter, and sends no funds along.
pub open spec fn mint_order(
    pool_address: Seq<char>,
    recipient: Seq<char>,
    amount: nat,
) -> LedgerCallView {
    LedgerCallView::Mint {
        info: MessageInfoView { sender: pool_address, funds: Seq::empty() },
        recipient,
        amount,
    }
}

/// What a deposit does to the slot, and what it hands back, for each answer
/// `transfer` that the token ledger can give when asked for the transfer
/// message.
///
/// The checks come in this order: the amount sent, the pool's record, the
/// range of the new amounts, the ledger's answer.
pub open spec fn deposit_outcome(
    slot: Option<PoolStateView>,
    caller: Seq<char>,
    pool_address: Seq<char>,
    native_amount_sent: u128,
    token_amount_requested: u128,
    transfer: Result<Seq<u8>, StdError>,
) -> (Option<PoolStateView>, Result<ResponseView, ContractError>) {
    if native_amount_sent == 0 {
        (slot, Err(ContractError::InvalidDeposit))
    } else {
        match slot {
            None => (slot, Err(ContractError::StateLoadFailure)),
            Some(pool) => match pool.deposit(native_amount_sent as nat) {
                Err(e) => (slot, Err(e)),
                Ok((next, minted)) => match transfer {
                    Err(e) => (slot, Err(ContractError::LedgerAdapterFailure(e))),
                    Ok(payload) => (
                        Some(next),
                        Ok(
                            ResponseView {
                                messages: seq![
                                    transfer_order(
                                        pool.paired_token_address,
                                        caller,
                                        pool_address,
                                        token_amount_requested,
                                        payload,
                                    ),
                                ],
                                ledger_call: if minted > 0 {
                                    Some(mint_order(pool_address, caller, minted))
                                } else {
                                    None
                                },
                            },
                        ),
                    ),
                },
            },
        }
    }
}

/// The ledger's answer as a mathematical value.
pub open spec fn transfer_view(transfer: Result<Vec<u8>, StdError>) -> Result<Seq<u8>, StdError> {
    match transfer {
        Ok(payload) => Ok(payload@),
        Err(e) => Err(e),
    }
}

/// The answer to a query on the slot.
pub open spec fn query_outcome(
    slot: Option<PoolStateView>,
    msg: QueryMsg,
) -> Result<QueryResponseView, ContractError> {
    match msg {
        QueryMsg::PoolState {  } => match slot {
            Some(pool) => Ok(QueryResponseView::PoolState(pool)),
            None => Err(ContractError::StateLoadFailure),
        },
        QueryMsg::Balance { address } => Ok(QueryResponseView::LedgerBalance { address: address@ }),
    }
}

/// Sets the pool up in an empty slot: a pool without reserve and without
/// shares, and the order to open the share ledger with the pool as the only
/// minter. A slot that holds a pool is left alone.
pub fn instantiate(
    slot: &mut Option<PoolState>,
    env: &Env,
    _info: &MessageInfo,
    msg: InstantiateMsg,
) -> (res: Result<Response, ContractError>)
    ensures
        (final(slot).deep_view(), response_view(res)) == instantiate_outcome(
            old(slot).deep_view(),
            env.contract_address@,
            msg.nativeDenom@,
            msg.tokenAddress@,
        ),
        res is Err ==> *final(slot) == *old(slot),
{
    if slot.is_some() {
        return Err(ContractError::AlreadyInitialized);
    }
    let pool = PoolState::new(msg.nativeDenom, msg.tokenAddress);
    let initial_balances: Vec<InitialBalance> = Vec::new();
    assert(initial_balances.deep_view() =~= Seq::empty());
    let create = LedgerCall::Create {
        name: "liquidity".to_owned(),
        symbol: "AAAA".to_owned(),
        decimals: 0,
        initial_balances,
        minter: env.contract_address.clone(),
        cap: None,
    };
    let response = Response { messages: Vec::new(), ledger_call: Some(create) };
    assert(response@.messages =~= Seq::empty());
    *slot = Some(pool);
    Ok(response)
}

/// Carries out one command.
pub fn execute(
    slot: &mut Option<PoolState>,
    env: &Env,
    info: &MessageInfo,
    msg: ExecuteMsg,
) -> (res: Result<Response, ContractError>)
    ensures
        match msg {
            ExecuteMsg::AddLiquidity { tokenAmount } => (
                final(slot).deep_view(),
                response_view(res),
            ) == deposit_outcome(
                old(slot).deep_view(),
                info.sender@,
                env.contract_address@,
                attached_amount(info.funds@),
                tokenAmount,
                Ok(transfer_from_json(info.sender@, env.contract_address@, tokenAmount)),
            ),
        },
        attached_amount(info.funds@) == 0 ==> res == Err::<Response, ContractError>(
            ContractError::InvalidDeposit,
        ),
        res is Err ==> *final(slot) == *old(slot),
{
    match msg {
        ExecuteMsg::AddLiquidity { tokenAmount } => try_add_liquidity(slot, info, env, tokenAmount),
    }
}

/// Deposits what came with the call, and offers `token_amount` of the paired
/// token with it: the result is the one that [`deposit_outcome`] gives for
/// the message that moves those tokens from the caller to the pool.
pub fn try_add_liquidity(
    slot: &mut Option<PoolState>,
    info: &MessageInfo,
    env: &Env,
    token_amount: u128,
) -> (res: Result<Response, ContractError>)
    ensures
        (final(slot).deep_view(), response_view(res)) == deposit_outcome(
            old(slot).deep_view(),
            info.sender@,
            env.contract_address@,
            attached_amount(info.funds@),
            token_amount,
            Ok(transfer_from_json(info.sender@, env.contract_address@, token_amount)),
        ),
        attached_amount(info.funds@) == 0 ==> res == Err::<Response, ContractError>(
            ContractError::InvalidDeposit,
        ),
        res is Err ==> *final(slot) == *old(slot),
{
    let transfer = encode_transfer_from(
        info.sender.as_str(),
        env.contract_address.as_str(),
        token_amount,
    );
    add_liquidity(
        slot,
        info.sender.as_str(),
        env.contract_address.as_str(),
        info.native_amount_sent(),
        token_amount,
        transfer,
    )
}

/// Settles a deposit of `native_amount_sent` by `caller`, given the token
/// ledger's answer `transfer`: the transfer message, or its refusal. This is
/// the deposit for a caller that gets the message elsewhere.
///
/// The new record is worked out on a copy and put in the slot only when
/// nothing stands in the way, so every failure leaves the slot as it was.
pub fn add_liquidity(
    slot: &mut Option<PoolState>,
    caller: &str,
    pool_address: &str,
    native_amount_sent: u128,
    token_amount_requested: u128,
    transfer: Result<Vec<u8>, StdError>,
) -> (res: Result<Response, ContractError>)
    ensures
        (final(slot).deep_view(), response_view(res)) == deposit_outcome(
            old(slot).deep_view(),
            caller@,
            pool_address@,
            native_amount_sent,
            token_amount_requested,
            transfer_view(transfer),
        ),
        native_amount_sent == 0 ==> res == Err::<Response, ContractError>(
            ContractError::InvalidDeposit,
        ),
        transfer is Err ==> res is Err,
        res is Err ==> *final(slot) == *old(slot),
{
    if native_amount_sent == 0 {
        return Err(ContractError::InvalidDeposit);
    }
    let (staged, token): (Result<(PoolState, u128), ContractError>, String) = match slot.as_ref() {
        None => { return Err(ContractError::StateLoadFailure); },
        Some(pool) => (pool.deposit(native_amount_sent), pool.paired_token_address().to_owned()),
    };
    let (next, minted): (PoolState, u128) = match staged {
        Err(e) => { return Err(e); },
        Ok(pair) => pair,
    };
    let payload = match transfer {
        Err(e) => { return Err(ContractError::LedgerAdapterFailure(e)); },
        Ok(bytes) => bytes,
    };
    let no_funds: Vec<Coin> = Vec::new();
    assert(no_funds.deep_view() =~= Seq::empty());
    let message = TokenTransfer {
        token,
        owner: caller.to_owned(),
        recipient: pool_address.to_owned(),
        amount: token_amount_requested,
        payload,
        funds: no_funds,
    };
    let ledger_call = if minted > 0 {
        let as_pool = MessageInfo { sender: pool_address.to_owned(), funds: Vec::new() };
        assert(as_pool.funds.deep_view() =~= Seq::empty());
        Some(LedgerCall::Mint { info: as_pool, recipient: caller.to_owned(), amount: minted })
    } else {
        None
    };
    let mut messages: Vec<TokenTransfer> = Vec::new();
    messages.push(message);
    let response = Response { messages, ledger_call };
    assert(response@.messages =~= seq![message@]);
    *slot = Some(next);
    Ok(response)
}

/// Answers one question. The pool's record is answered from the slot; a
/// balance is the share ledger's to give, so the answer names the address to
/// look up there.
pub fn query(
    slot: &Option<PoolState>,
    _env: &Env,
    msg: QueryMsg,
) -> (res: Result<QueryResponse, ContractError>)
    ensures
        answer_view(res) == query_outcome(slot.deep_view(), msg),
{
    match msg {
        QueryMsg::PoolState {  } => query_pool_state(slot),
        QueryMsg::Balance { address } => Ok(QueryResponse::LedgerBalance { address }),
    }
}

/// The pool's record as it stands, if the pool was set up.
pub fn query_pool_state(slot: &Option<PoolState>) -> (res: Result<QueryResponse, ContractError>)
    ensures
        answer_view(res) == query_outcome(slot.deep_view(), QueryMsg::PoolState {  }),
{
    match slot {
        Some(pool) => Ok(QueryResponse::PoolState(pool.snapshot())),
        None => Err(ContractError::StateLoadFailure),
    }
}

/// A deposit that goes through finds a pool in the slot and leaves one there:
/// consistent, its reserve higher by exactly the amount sent, its share
/// supply higher by exactly the shares that the response orders to be
/// minted. One message goes to the host, for the tokens offered.
pub proof fn lemma_successful_deposit_grows_pool(
    slot: Option<PoolStateView>,
    caller: Seq<char>,
    pool_address: Seq<char>,
    native_amount_sent: u128,
    token_amount_requested: u128,
    transfer: Result<Seq<u8>, StdError>,
)
    requires
        slot matches Some(before) ==> before.consistent(),
        deposit_outcome(
            slot,
            caller,
            pool_address,
            native_amount_sent,
            token_amount_requested,
            transfer,
        ).1 is Ok,
    ensures
        slot matches Some(before) && deposit_outcome(
            slot,
            caller,
            pool_address,
            native_amount_sent,
            token_amount_requested,
            transfer,
        ) matches (Some(after), Ok(response)) && after.consistent() && after.native_reserve
            == before.native_reserve + native_amount_sent && after.share_supply
            == before.share_supply + response.minted() && response.messages.len() == 1
            && response.messages[0].amount == token_amount_requested,
{
    let before = slot->Some_0;
    before.lemma_deposit_keeps_pool_valid(native_amount_sent as nat);
    before.lemma_deposit_raises_reserve(native_amount_sent as nat);
}

/// A deposit that goes through raises the share supply strictly, and orders
/// the minting of exactly the difference to the caller. Left out are the
/// deposits whose part of the supply rounds down to no share at all.
pub proof fn lemma_successful_deposit_raises_supply(
    before: PoolStateView,
    caller: Seq<char>,
    pool_address: Seq<char>,
    native_amount_sent: u128,
    token_amount_requested: u128,
    transfer: Result<Seq<u8>, StdError>,
)
    requires
        before.consistent(),
        deposit_outcome(
            Some(before),
            caller,
            pool_address,
            native_amount_sent,
            token_amount_requested,
            transfer,
        ).1 is Ok,
        before.share_supply == 0 || before.share_supply * native_amount_sent
            >= before.native_reserve,
    ensures
        deposit_outcome(
            Some(before),
            caller,
            pool_address,
            native_amount_sent,
            token_amount_requested,
            transfer,
        ) matches (Some(after), Ok(response)) && after.share_supply > before.share_supply
            && response.ledger_call == Some(
            mint_order(
                pool_address,
                caller,
                (after.share_supply - before.share_supply) as nat,
            ),
        ),
{
    before.lemma_deposit_raises_supply(native_amount_sent as nat);
}

/// The first deposit into an empty pool: `n` of the native asset sent makes a
/// reserve of `n` and a supply of `n`, with one message that moves the
/// offered tokens from the caller to the pool and the order to mint `n`
/// shares to the caller.
pub proof fn lemma_bootstrap_deposit(
    before: PoolStateView,
    caller: Seq<char>,
    pool_address: Seq<char>,
    n: u128,
    token_amount_requested: u128,
    payload: Seq<u8>,
)
    requires
        before.share_supply == 0,
        before.native_reserve == 0,
        n > 0,
    ensures
        deposit_outcome(
            Some(before),
            caller,
            pool_address,
            n,
            token_amount_requested,
            Ok(payload),
        ) matches (Some(after), Ok(response)) && after == (PoolStateView {
            native_reserve: n as nat,
            share_supply: n as nat,
            ..before
        }) && response == (ResponseView {
            messages: seq![
                transfer_order(
                    before.paired_token_address,
                    caller,
                    pool_address,
                    token_amount_requested,
                    payload,
                ),
            ],
            ledger_call: Some(mint_order(pool_address, caller, n as nat)),
        }),
{
    before.lemma_bootstrap_mints_amount(n as nat);
}

/// Asking twice, with the slot untouched in between, gives the same answer;
/// and the record that is answered is the one in the slot.
pub proof fn lemma_query_repeatable(
    slot: Option<PoolStateView>,
    msg: QueryMsg,
    first: Result<QueryResponseView, ContractError>,
    second: Result<QueryResponseView, ContractError>,
)
    requires
        first == query_outcome(slot, msg),
        second == query_outcome(slot, msg),
    ensures
        first == second,
        first matches Ok(QueryResponseView::PoolState(pool)) ==> slot == Some(pool),
{
}

} // verus!
