use icov3::contract::{_send_tokens, execute, execute_add_funds, execute_close_fundraise, instantiate, query};
use icov3::decimal::{checked_mul_floor, Decimal, DECIMAL_FRACTIONAL};
use icov3::error::ContractError;
use icov3::msg::{Coin, Env, ExecuteMsg, InstantiateMsg, LedgerOp, MessageInfo, QueryMsg, QueryResponse, RateInit, Response};
use icov3::rates::{find_ratio, sort_rates, Rate};
use icov3::state::ICOInfo;

const SELF_ADDR: &str = "cosmos2contract";

fn env() -> Env {
    Env { contract_address: SELF_ADDR.to_string() }
}

fn info(sender: &str, funds: Vec<Coin>) -> MessageInfo {
    MessageInfo { sender: sender.to_string(), funds }
}

fn coin(amount: u128, denom: &str) -> Coin {
    Coin { denom: denom.to_string(), amount }
}

fn msg(goal: u128, num: u128, den: u128, rates: Option<Vec<RateInit>>) -> InstantiateMsg {
    InstantiateMsg {
        fundraise_goal: goal,
        base_conv_ratio_num: num,
        base_conv_ratio_den: den,
        fundraise_denom: "uluna".to_string(),
        rates,
        name: "Shark Coin".to_string(),
        symbol: "ushark".to_string(),
        decimals: 6,
    }
}

fn open_with(goal: u128, num: u128, den: u128, rates: Option<Vec<RateInit>>) -> ICOInfo {
    instantiate(&env(), &info("god", vec![]), msg(goal, num, den, rates)).unwrap().0
}

fn fund(ico: &mut ICOInfo, who: &str, amount: u128) -> Result<Response, ContractError> {
    execute_add_funds(ico, &info(who, vec![coin(amount, "uluna")]))
}

fn distribute(ico: &ICOInfo) -> Response {
    _send_tokens(ico, &env(), &info(SELF_ADDR, vec![])).unwrap()
}

fn mint_amount(res: &Response) -> u128 {
    assert_eq!(res.ledger.len(), 1);
    match &res.ledger[0] {
        LedgerOp::Mint { recipient, amount } => {
            assert_eq!(recipient, SELF_ADDR);
            *amount
        }
        other => panic!("expected a mint, got {:?}", other),
    }
}

fn transfers(res: &Response) -> Vec<(String, u128)> {
    res.messages
        .iter()
        .map(|m| {
            assert_eq!(m.contract_addr, SELF_ADDR);
            match &m.msg {
                ExecuteMsg::Transfer { recipient, amount } => (recipient.clone(), *amount),
                other => panic!("expected a transfer, got {:?}", other),
            }
        })
        .collect()
}

#[test]
fn raised_is_sum_of_contributions() {
    let mut ico = open_with(1000, 1, 1, None);
    fund(&mut ico, "a", 7).unwrap();
    fund(&mut ico, "b", 3).unwrap();
    fund(&mut ico, "a", 5).unwrap();
    assert_eq!(ico.fundraise_bal, 15);
    assert_eq!(ico.fundraisers.len(), 2);
    assert_eq!(ico.fundraisers[0].source, "a");
    assert_eq!(ico.fundraisers[0].balance, 12);
    assert_eq!(ico.fundraisers[1].balance, 3);
    let sum: u128 = ico.fundraisers.iter().map(|f| f.balance).sum();
    assert_eq!(sum, ico.fundraise_bal);
}

#[test]
fn add_funds_event_names_contributor() {
    let mut ico = open_with(1000, 1, 1, None);
    let res = fund(&mut ico, "casper", 1).unwrap();
    assert_eq!(res.attributes.len(), 2);
    assert_eq!(res.attributes[1].key, "id");
    assert_eq!(res.attributes[1].value, "casper");
    assert!(res.ledger.is_empty());
}

#[test]
fn zero_amount_is_empty_balance() {
    let mut ico = open_with(100, 1, 1, None);
    let before = ico.clone();
    assert_eq!(fund(&mut ico, "a", 0), Err(ContractError::EmptyBalance));
    assert_eq!(ico, before);
}

#[test]
fn wrong_denom_is_empty_balance() {
    let mut ico = open_with(100, 1, 1, None);
    let r = execute_add_funds(&mut ico, &info("a", vec![coin(10, "uatom")]));
    assert_eq!(r, Err(ContractError::EmptyBalance));
    let r = execute_add_funds(&mut ico, &info("a", vec![]));
    assert_eq!(r, Err(ContractError::EmptyBalance));
    assert_eq!(ico.fundraise_bal, 0);
}

#[test]
fn first_matching_payment_counts() {
    let mut ico = open_with(100, 1, 1, None);
    let funds = vec![coin(9, "uatom"), coin(0, "uluna"), coin(4, "uluna"), coin(6, "uluna")];
    execute_add_funds(&mut ico, &info("a", funds)).unwrap();
    assert_eq!(ico.fundraise_bal, 4);
}

#[test]
fn no_funds_after_close() {
    let mut ico = open_with(100, 1, 1, None);
    execute_close_fundraise(&mut ico, &env(), &"god".to_string()).unwrap();
    assert_eq!(fund(&mut ico, "a", 5), Err(ContractError::FundraiseClosed));
    assert_eq!(ico.fundraise_bal, 0);
}

#[test]
fn owner_closes_below_goal() {
    let mut ico = open_with(100, 1, 1, None);
    fund(&mut ico, "a", 1).unwrap();
    let res = execute_close_fundraise(&mut ico, &env(), &"god".to_string()).unwrap();
    assert!(!ico.fundraising_open);
    assert_eq!(res.messages.len(), 1);
    assert_eq!(res.messages[0].msg, ExecuteMsg::_SendTokens {});
}

#[test]
fn stranger_cannot_close_below_goal() {
    let mut ico = open_with(100, 1, 1, None);
    fund(&mut ico, "a", 99).unwrap();
    let r = execute_close_fundraise(&mut ico, &env(), &"a".to_string());
    assert_eq!(r, Err(ContractError::Unauthorized));
    assert!(ico.fundraising_open);
}

#[test]
fn anyone_closes_at_goal() {
    let mut ico = open_with(100, 1, 1, None);
    fund(&mut ico, "a", 100).unwrap();
    assert!(execute_close_fundraise(&mut ico, &env(), &"stranger".to_string()).is_ok());
}

#[test]
fn close_twice_fails() {
    let mut ico = open_with(100, 1, 1, None);
    execute_close_fundraise(&mut ico, &env(), &"god".to_string()).unwrap();
    let r = execute(&mut ico, &env(), &info("god", vec![]), ExecuteMsg::CloseFundraise {});
    assert_eq!(r, Err(ContractError::FundraiseClosed));
}

#[test]
fn distribution_by_stranger_refused() {
    let mut ico = open_with(100, 1, 1, None);
    fund(&mut ico, "a", 100).unwrap();
    execute_close_fundraise(&mut ico, &env(), &"god".to_string()).unwrap();
    let before = ico.clone();
    let r = execute(&mut ico, &env(), &info("a", vec![]), ExecuteMsg::_SendTokens {});
    assert_eq!(r, Err(ContractError::Unauthorized));
    assert_eq!(ico, before);
}

#[test]
fn single_tier_owes_amount() {
    let mut ico = open_with(100, 1, 1, None);
    fund(&mut ico, "a", 5).unwrap();
    let res = distribute(&ico);
    assert_eq!(mint_amount(&res), 5);
    assert_eq!(transfers(&res), vec![("a".to_string(), 5)]);
}

#[test]
fn tiers_price_each_contribution() {
    let rates = vec![RateInit { min: 10, ratio_num: 1, ratio_den: 2 }, RateInit { min: 20, ratio_num: 1, ratio_den: 3 }];
    let mut ico = open_with(10, 1, 1, Some(rates));
    let mins: Vec<u128> = ico.rates.iter().map(|r| r.min).collect();
    assert_eq!(mins, vec![20, 10, 0]);
    fund(&mut ico, "casper", 5).unwrap();
    fund(&mut ico, "marcel", 10).unwrap();
    fund(&mut ico, "kanye", 50).unwrap();
    let res = distribute(&ico);
    assert_eq!(
        transfers(&res),
        vec![("casper".to_string(), 5), ("marcel".to_string(), 20), ("kanye".to_string(), 150)]
    );
    assert_eq!(mint_amount(&res), 175);
    assert_eq!(res.attributes[0].value, "transfer");
}

#[test]
fn two_contributors_at_one_to_one() {
    let mut ico = open_with(100, 1, 1, None);
    fund(&mut ico, "casper", 100).unwrap();
    fund(&mut ico, "marcel", 50).unwrap();
    execute_close_fundraise(&mut ico, &env(), &"casper".to_string()).unwrap();
    let res = distribute(&ico);
    assert_eq!(mint_amount(&res), 150);
    assert_eq!(transfers(&res), vec![("casper".to_string(), 100), ("marcel".to_string(), 50)]);
}

#[test]
fn fractional_tokens_round_down() {
    let mut ico = open_with(100, 2, 1, None);
    assert_eq!(ico.base_conv_ratio.atomics, DECIMAL_FRACTIONAL / 2);
    fund(&mut ico, "a", 3).unwrap();
    let res = distribute(&ico);
    assert_eq!(transfers(&res), vec![("a".to_string(), 1)]);
    assert_eq!(mint_amount(&res), 1);
    assert_eq!(checked_mul_floor(3, Decimal::from_ratio(1, 2)), Some(1));
    assert_eq!(checked_mul_floor(10, Decimal::from_ratio(1, 3)), Some(3));
}

#[test]
fn mul_floor_exact_values() {
    assert_eq!(checked_mul_floor(0, Decimal::percent(120)), Some(0));
    assert_eq!(checked_mul_floor(7, Decimal::percent(150)), Some(10));
    assert_eq!(checked_mul_floor(u128::MAX, Decimal::one()), Some(u128::MAX));
    assert_eq!(checked_mul_floor(u128::MAX, Decimal::percent(200)), None);
    let big = 3 * DECIMAL_FRACTIONAL + 7;
    assert_eq!(checked_mul_floor(big, Decimal::from_ratio(3, 1)), Some(3 * big));
}

#[test]
fn ratio_bounds() {
    assert_eq!(Decimal::from_ratio(1, 4).atomics, DECIMAL_FRACTIONAL / 4);
    assert_eq!(Decimal::checked_from_ratio(2, 3).map(|d| d.atomics), Some(666_666_666_666_666_666));
    assert_eq!(Decimal::checked_from_ratio(1, 0), None);
    let limit = u128::MAX / DECIMAL_FRACTIONAL;
    assert!(Decimal::checked_from_ratio(limit, 1).is_some());
    assert_eq!(Decimal::checked_from_ratio(limit + 1, 1), None);
}

#[test]
fn zero_ratio_part_is_invalid() {
    let r = instantiate(&env(), &info("god", vec![]), msg(100, 0, 1, None));
    assert_eq!(r, Err(ContractError::InvalidRatio));
    let bad = vec![RateInit { min: 5, ratio_num: 0, ratio_den: 1 }];
    let r = instantiate(&env(), &info("god", vec![]), msg(100, 1, 1, Some(bad)));
    assert_eq!(r, Err(ContractError::InvalidRatio));
}

#[test]
fn instantiate_sets_terms() {
    let (ico, token) = instantiate(&env(), &info("god", vec![]), msg(100, 4, 1, None)).unwrap();
    assert_eq!(ico.owner, "god");
    assert!(ico.fundraising_open);
    assert_eq!(ico.fundraise_goal, 100);
    assert_eq!(ico.fundraise_denom, "uluna");
    assert_eq!(ico.rates, vec![Rate { min: 0, ratio: Decimal::percent(25) }]);
    assert_eq!(token.decimals, 6);
    assert_eq!(token.minter, SELF_ADDR);
}

#[test]
fn equal_thresholds_keep_given_order() {
    let a = Rate { min: 10, ratio: Decimal::percent(100) };
    let b = Rate { min: 10, ratio: Decimal::percent(300) };
    let c = Rate { min: 0, ratio: Decimal::percent(50) };
    let d = Rate { min: 20, ratio: Decimal::percent(400) };
    let sorted = sort_rates(&vec![a, c, b, d]);
    assert_eq!(sorted, vec![d, a, b, c]);
    assert_eq!(find_ratio(&sorted, Decimal::one(), 15), a.ratio);
    assert_eq!(find_ratio(&sorted, Decimal::one(), 25), d.ratio);
    assert_eq!(find_ratio(&sorted, Decimal::one(), 3), c.ratio);
    assert_eq!(find_ratio(&vec![], Decimal::percent(7), 3), Decimal::percent(7));

    let rates = vec![RateInit { min: 0, ratio_num: 1, ratio_den: 2 }];
    let ico = open_with(1, 1, 1, Some(rates));
    assert_eq!(ico.rates[0].ratio, Decimal::percent(200));
    assert_eq!(ico.rates[1].ratio, Decimal::one());
}

#[test]
fn add_funds_overflow_refused() {
    let mut ico = open_with(1, 1, 1, None);
    fund(&mut ico, "a", u128::MAX).unwrap();
    let before = ico.clone();
    assert_eq!(fund(&mut ico, "b", 1), Err(ContractError::Overflow));
    assert_eq!(ico, before);
}

#[test]
fn distribution_overflow_refused() {
    let mut ico = open_with(1, 1, 1, None);
    fund(&mut ico, "a", u128::MAX / 2 + 1).unwrap();
    fund(&mut ico, "b", u128::MAX / 2).unwrap();
    assert!(_send_tokens(&ico, &env(), &info(SELF_ADDR, vec![])).is_ok());
    let mut ico = open_with(1, 1, 2, None);
    fund(&mut ico, "a", u128::MAX / 2 + 1).unwrap();
    let r = _send_tokens(&ico, &env(), &info(SELF_ADDR, vec![]));
    assert_eq!(r, Err(ContractError::Overflow));
}

#[test]
fn transfer_goes_to_token_ledger() {
    let mut ico = open_with(1, 1, 1, None);
    let before = ico.clone();
    let m = ExecuteMsg::Transfer { recipient: "b".to_string(), amount: 9 };
    let res = execute(&mut ico, &env(), &info("a", vec![]), m).unwrap();
    assert_eq!(
        res.ledger,
        vec![LedgerOp::Transfer { sender: "a".to_string(), recipient: "b".to_string(), amount: 9 }]
    );
    assert_eq!(ico, before);
}

#[test]
fn queries_answer_from_ledger() {
    let mut ico = open_with(100, 1, 1, None);
    fund(&mut ico, "a", 3).unwrap();
    match query(&ico, &QueryMsg::StakedInfo {}) {
        QueryResponse::StakedInfo(l) => {
            assert_eq!(l.total_staked, 3);
            assert_eq!(l.fundraisers, ico.fundraisers);
        }
        other => panic!("unexpected {:?}", other),
    }
    match query(&ico, &QueryMsg::FundraiseInfo {}) {
        QueryResponse::FundraiseInfo(f) => assert_eq!(f.fundraise_bal, 3),
        other => panic!("unexpected {:?}", other),
    }
    assert_eq!(query(&ico, &QueryMsg::TokenInfo {}), QueryResponse::TokenLedger);
    assert_eq!(query(&ico, &QueryMsg::Balance { address: "a".to_string() }), QueryResponse::TokenLedger);
}

#[test]
fn ledger_invariant_is_checked() {
    let mut ico = open_with(100, 1, 1, Some(vec![RateInit { min: 10, ratio_num: 1, ratio_den: 2 }]));
    assert!(ico.is_wf());
    fund(&mut ico, "a", 4).unwrap();
    fund(&mut ico, "b", 6).unwrap();
    assert!(ico.is_wf());

    let mut bad = ico.clone();
    bad.fundraise_bal = 11;
    assert!(!bad.is_wf());

    let mut bad = ico.clone();
    bad.fundraisers[1].source = "a".to_string();
    assert!(!bad.is_wf());

    let mut bad = ico.clone();
    bad.rates.reverse();
    assert!(!bad.is_wf());

    let mut bad = ico.clone();
    bad.rates.pop();
    assert!(!bad.is_wf());

    let mut bad = ico.clone();
    bad.fundraisers[0].balance = u128::MAX;
    assert!(!bad.is_wf());
}
