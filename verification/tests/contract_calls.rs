use cosmwasm_std::testing::{mock_env, mock_info};
use cosmwasm_std::{coins, from_binary, Binary, StdError, Uint128};
use cw20::Cw20ExecuteMsg;
use liquidity_pool::contract::{add_liquidity, execute, instantiate, query, try_add_liquidity};
use liquidity_pool::error::ContractError;
use liquidity_pool::msg::{Coin, Env, ExecuteMsg, InstantiateMsg, MessageInfo, QueryMsg};
use liquidity_pool::response::{LedgerCall, QueryResponse, Response, TokenTransfer};
use liquidity_pool::state::PoolState;

fn env() -> Env {
    Env { contract_address: mock_env().contract.address.to_string() }
}

fn info(sender: &str, funds: &[cosmwasm_std::Coin]) -> MessageInfo {
    let mocked = mock_info(sender, funds);
    MessageInfo {
        sender: mocked.sender.to_string(),
        funds: mocked
            .funds
            .iter()
            .map(|coin| Coin { denom: coin.denom.clone(), amount: coin.amount.u128() })
            .collect(),
    }
}

fn fresh_pool(native_denom: &str, token: &str) -> Option<PoolState> {
    let mut slot = None;
    let msg = InstantiateMsg { nativeDenom: native_denom.to_string(), tokenAddress: token.to_string() };
    instantiate(&mut slot, &env(), &info("creator", &[]), msg).unwrap();
    slot
}

fn stored(native_reserve: u128, share_supply: u128) -> Option<PoolState> {
    Some(PoolState::restore("uusd".to_string(), "tok1".to_string(), native_reserve, share_supply).unwrap())
}

fn mint(pool: &str, recipient: &str, amount: u128) -> Option<LedgerCall> {
    Some(LedgerCall::Mint {
        info: MessageInfo { sender: pool.to_string(), funds: vec![] },
        recipient: recipient.to_string(),
        amount,
    })
}

fn transfer_json(owner: &str, recipient: &str, amount: &str) -> Vec<u8> {
    format!(
        "{{\"transfer_from\":{{\"owner\":\"{}\",\"recipient\":\"{}\",\"amount\":\"{}\"}}}}",
        owner, recipient, amount
    )
    .into_bytes()
}

#[test]
fn proper_initialization() {
    let mut slot = None;

    let msg = InstantiateMsg { nativeDenom: "test".to_string(), tokenAddress: "asdf".to_string() };
    let info = info("creator", &coins(1000, "earth"));

    // we can just call .unwrap() to assert this was a success
    let res = instantiate(&mut slot, &env(), &info, msg).unwrap();
    assert_eq!(0, res.messages.len());
}

#[test]
fn add_liqudity() {
    let mut slot = None;

    let msg = InstantiateMsg { nativeDenom: "test".to_string(), tokenAddress: "asdf".to_string() };
    let creator = info("creator", &coins(2, "token"));
    let _res = instantiate(&mut slot, &env(), &creator, msg).unwrap();

    let anyone = info("anyone", &coins(2, "token"));
    let msg = ExecuteMsg::AddLiquidity { tokenAmount: 1 };
    let _res = execute(&mut slot, &env(), &anyone, msg).unwrap();
}

#[test]
fn instantiate_makes_an_empty_pool_and_orders_the_ledger() {
    let mut slot = None;
    let msg = InstantiateMsg { nativeDenom: "uusd".to_string(), tokenAddress: "tok1".to_string() };
    let res = instantiate(&mut slot, &env(), &info("creator", &[]), msg).unwrap();

    let pool = slot.unwrap();
    assert_eq!(pool.native_denom(), "uusd");
    assert_eq!(pool.paired_token_address(), "tok1");
    assert_eq!(pool.native_reserve(), 0);
    assert_eq!(pool.share_supply(), 0);
    assert_eq!(
        res,
        Response {
            messages: vec![],
            ledger_call: Some(LedgerCall::Create {
                name: "liquidity".to_string(),
                symbol: "AAAA".to_string(),
                decimals: 0,
                initial_balances: vec![],
                minter: "cosmos2contract".to_string(),
                cap: None,
            }),
        }
    );
}

#[test]
fn instantiate_twice_is_refused() {
    let mut slot = fresh_pool("uusd", "tok1");
    execute(&mut slot, &env(), &info("anyone", &coins(7, "uusd")), ExecuteMsg::AddLiquidity { tokenAmount: 1 })
        .unwrap();

    let again = InstantiateMsg { nativeDenom: "other".to_string(), tokenAddress: "tok2".to_string() };
    let res = instantiate(&mut slot, &env(), &info("creator", &[]), again);

    assert_eq!(res, Err(ContractError::AlreadyInitialized));
    assert_eq!(slot, stored(7, 7));
}

#[test]
fn first_deposit_mints_one_to_one() {
    let mut slot = fresh_pool("uusd", "tok1");

    let res = execute(
        &mut slot,
        &env(),
        &info("anyone", &coins(1000, "uusd")),
        ExecuteMsg::AddLiquidity { tokenAmount: 500 },
    )
    .unwrap();

    let pool = slot.unwrap();
    assert_eq!(pool.native_reserve(), 1000);
    assert_eq!(pool.share_supply(), 1000);
    assert_eq!(
        res,
        Response {
            messages: vec![TokenTransfer {
                token: "tok1".to_string(),
                owner: "anyone".to_string(),
                recipient: "cosmos2contract".to_string(),
                amount: 500,
                payload: transfer_json("anyone", "cosmos2contract", "500"),
                funds: vec![],
            }],
            ledger_call: mint("cosmos2contract", "anyone", 1000),
        }
    );
}

#[test]
fn transfer_payload_is_the_cw20_message() {
    let mut slot = fresh_pool("uusd", "tok1");
    let res = try_add_liquidity(&mut slot, &info("any\"one", &coins(3, "uusd")), &env(), u128::MAX).unwrap();

    assert_eq!(res.messages.len(), 1);
    let payload = res.messages[0].payload.clone();
    assert_eq!(
        payload,
        transfer_json("any\\\"one", "cosmos2contract", "340282366920938463463374607431768211455")
    );
    let decoded: Cw20ExecuteMsg = from_binary(&Binary(payload)).unwrap();
    assert_eq!(
        decoded,
        Cw20ExecuteMsg::TransferFrom {
            owner: "any\"one".to_string(),
            recipient: "cosmos2contract".to_string(),
            amount: Uint128::new(u128::MAX),
        }
    );
}

#[test]
fn deposits_into_a_grown_pool_keep_minting_one_to_one() {
    let mut slot = fresh_pool("uusd", "tok1");
    execute(&mut slot, &env(), &info("a", &coins(1000, "uusd")), ExecuteMsg::AddLiquidity { tokenAmount: 1 })
        .unwrap();
    let res =
        execute(&mut slot, &env(), &info("b", &coins(250, "uusd")), ExecuteMsg::AddLiquidity { tokenAmount: 2 })
            .unwrap();

    assert_eq!(res.ledger_call, mint("cosmos2contract", "b", 250));
    assert_eq!(slot, stored(1250, 1250));
}

#[test]
fn later_deposit_mints_its_part_of_the_supply() {
    let mut slot = stored(1000, 500);

    let res = execute(
        &mut slot,
        &env(),
        &info("anyone", &coins(100, "uusd")),
        ExecuteMsg::AddLiquidity { tokenAmount: 9 },
    )
    .unwrap();

    assert_eq!(res.ledger_call, mint("cosmos2contract", "anyone", 50));
    assert_eq!(slot, stored(1100, 550));
}

#[test]
fn later_deposit_rounds_its_shares_down() {
    let mut slot = stored(3, 2);
    let res =
        execute(&mut slot, &env(), &info("anyone", &coins(5, "uusd")), ExecuteMsg::AddLiquidity { tokenAmount: 0 })
            .unwrap();

    // 2 * 5 / 3
    assert_eq!(res.ledger_call, mint("cosmos2contract", "anyone", 3));
    assert_eq!(slot, stored(8, 5));
}

#[test]
fn deposit_too_small_for_a_share_mints_nothing() {
    let mut slot = stored(1000, 1);
    let res =
        execute(&mut slot, &env(), &info("anyone", &coins(1, "uusd")), ExecuteMsg::AddLiquidity { tokenAmount: 4 })
            .unwrap();

    assert_eq!(res.messages.len(), 1);
    assert_eq!(res.messages[0].amount, 4);
    assert_eq!(res.ledger_call, None);
    assert_eq!(slot, stored(1001, 1));
}

#[test]
fn first_coin_counts_whatever_its_denom() {
    let mut slot = fresh_pool("uusd", "tok1");
    let funds = vec![cosmwasm_std::coin(5, "ujuno"), cosmwasm_std::coin(70, "uusd")];
    let res = execute(&mut slot, &env(), &info("anyone", &funds), ExecuteMsg::AddLiquidity { tokenAmount: 1 })
        .unwrap();

    assert_eq!(res.ledger_call, mint("cosmos2contract", "anyone", 5));
    assert_eq!(slot, stored(5, 5));
    assert_eq!(info("anyone", &funds).native_amount_sent(), 5);
}

#[test]
fn zero_deposit_is_rejected_and_changes_nothing() {
    let mut slot = stored(40, 10);
    let res = execute(
        &mut slot,
        &env(),
        &info("anyone", &coins(0, "uusd")),
        ExecuteMsg::AddLiquidity { tokenAmount: 500 },
    );
    assert_eq!(res, Err(ContractError::InvalidDeposit));
    assert_eq!(slot, stored(40, 10));

    let mut empty = fresh_pool("uusd", "tok1");
    let res = try_add_liquidity(&mut empty, &info("anyone", &coins(0, "uusd")), &env(), 500);
    assert_eq!(res, Err(ContractError::InvalidDeposit));
    assert_eq!(empty, fresh_pool("uusd", "tok1"));
}

#[test]
fn deposit_without_funds_is_rejected() {
    let mut slot = fresh_pool("uusd", "tok1");
    let res = execute(&mut slot, &env(), &info("anyone", &[]), ExecuteMsg::AddLiquidity { tokenAmount: 500 });
    assert_eq!(res, Err(ContractError::InvalidDeposit));
    assert_eq!(slot, fresh_pool("uusd", "tok1"));
    assert_eq!(info("anyone", &[]).native_amount_sent(), 0);
}

#[test]
fn zero_deposit_is_rejected_before_the_slot_is_read() {
    let mut slot = None;
    let res = add_liquidity(&mut slot, "anyone", "pool", 0, 1, Err(StdError::generic_err("refused")));
    assert_eq!(res, Err(ContractError::InvalidDeposit));
    assert_eq!(slot, None);
}

#[test]
fn deposit_into_an_empty_slot_fails_to_load() {
    let mut slot = None;
    let res = execute(
        &mut slot,
        &env(),
        &info("anyone", &coins(10, "uusd")),
        ExecuteMsg::AddLiquidity { tokenAmount: 1 },
    );
    assert_eq!(res, Err(ContractError::StateLoadFailure));
    assert_eq!(slot, None);
}

#[test]
fn reserve_overflow_is_reported_and_changes_nothing() {
    let mut slot = stored(u128::MAX, 1);
    let res = execute(
        &mut slot,
        &env(),
        &info("anyone", &coins(1, "uusd")),
        ExecuteMsg::AddLiquidity { tokenAmount: 1 },
    );
    assert_eq!(res, Err(ContractError::ArithmeticOverflow));
    assert_eq!(slot, stored(u128::MAX, 1));
}

#[test]
fn supply_overflow_is_reported_and_changes_nothing() {
    // 2^127 shares on a reserve of 1: two more units would earn 2^128 shares.
    let mut slot = stored(1, 1 << 127);
    let res = execute(
        &mut slot,
        &env(),
        &info("anyone", &coins(2, "uusd")),
        ExecuteMsg::AddLiquidity { tokenAmount: 1 },
    );
    assert_eq!(res, Err(ContractError::ArithmeticOverflow));
    assert_eq!(slot, stored(1, 1 << 127));

    // one more unit earns 2^127 shares, which no longer fit beside the supply
    let res = execute(
        &mut slot,
        &env(),
        &info("anyone", &coins(1, "uusd")),
        ExecuteMsg::AddLiquidity { tokenAmount: 1 },
    );
    assert_eq!(res, Err(ContractError::ArithmeticOverflow));
    assert_eq!(slot, stored(1, 1 << 127));
}

#[test]
fn product_wider_than_u128_is_no_overflow() {
    let mut slot = stored(1 << 120, 1 << 100);
    let res = execute(
        &mut slot,
        &env(),
        &info("anyone", &coins(1 << 100, "uusd")),
        ExecuteMsg::AddLiquidity { tokenAmount: 1 },
    )
    .unwrap();
    assert_eq!(res.ledger_call, mint("cosmos2contract", "anyone", 1 << 80));
    assert_eq!(slot, stored((1 << 120) + (1 << 100), (1 << 100) + (1 << 80)));
}

#[test]
fn refused_transfer_is_handed_on_and_changes_nothing() {
    let mut slot = stored(40, 10);
    let res = add_liquidity(&mut slot, "anyone", "pool", 8, 500, Err(StdError::generic_err("no allowance")));
    assert_eq!(res, Err(ContractError::LedgerAdapterFailure(StdError::generic_err("no allowance"))));
    assert_eq!(slot, stored(40, 10));
}

#[test]
fn overflow_comes_before_a_refused_transfer() {
    let mut slot = stored(u128::MAX, 1);
    let res = add_liquidity(&mut slot, "anyone", "pool", 8, 500, Err(StdError::generic_err("no allowance")));
    assert_eq!(res, Err(ContractError::ArithmeticOverflow));
    assert_eq!(slot, stored(u128::MAX, 1));
}

#[test]
fn settled_deposit_carries_the_given_payload() {
    let mut slot = stored(40, 10);
    let res = add_liquidity(&mut slot, "anyone", "pool", 8, 500, Ok(vec![1, 2, 3])).unwrap();
    assert_eq!(
        res,
        Response {
            messages: vec![TokenTransfer {
                token: "tok1".to_string(),
                owner: "anyone".to_string(),
                recipient: "pool".to_string(),
                amount: 500,
                payload: vec![1, 2, 3],
                funds: vec![],
            }],
            ledger_call: mint("pool", "anyone", 2),
        }
    );
    assert_eq!(slot, stored(48, 12));
}

#[test]
fn pool_state_query_is_repeatable() {
    let mut slot = fresh_pool("uusd", "tok1");
    execute(&mut slot, &env(), &info("a", &coins(1000, "uusd")), ExecuteMsg::AddLiquidity { tokenAmount: 500 })
        .unwrap();

    let first = query(&slot, &env(), QueryMsg::PoolState {}).unwrap();
    let second = query(&slot, &env(), QueryMsg::PoolState {}).unwrap();

    assert_eq!(first, second);
    assert_eq!(first, QueryResponse::PoolState(stored(1000, 1000).unwrap()));
    assert_eq!(slot, stored(1000, 1000));
}

#[test]
fn pool_state_query_on_an_empty_slot_fails_to_load() {
    assert_eq!(query(&None, &env(), QueryMsg::PoolState {}), Err(ContractError::StateLoadFailure));
}

#[test]
fn balance_query_is_passed_to_the_ledger() {
    let asked = QueryMsg::Balance { address: "anyone".to_string() };
    let expected = Ok(QueryResponse::LedgerBalance { address: "anyone".to_string() });
    assert_eq!(query(&None, &env(), asked.clone()), expected);
    assert_eq!(query(&stored(5, 5), &env(), asked), expected);
}
