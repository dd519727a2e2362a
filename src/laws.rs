use vstd::prelude::*;

use crate::contract::{add_funds_post, close_post, execute_post, first_payment};
use crate::decimal::{mul_floor, DECIMAL_FRACTIONAL};
use crate::error::ContractError;
use crate::msg::{Coin, Env, ExecuteMsg, MessageInfo, Response};
use crate::state::{lemma_balance_le_sum, lemma_source_index, lemma_sum_update, source_index, sum_balances, ICOInfo};

verus! {

proof fn lemma_no_payment(funds: Seq<Coin>, denom: Seq<char>)
    requires
        forall|i: int| 0 <= i < funds.len() ==> (#[trigger] funds[i]).denom@ != denom || funds[i].amount == 0,
    ensures
        first_payment(funds, denom) == None::<u128>,
    decreases funds.len(),
{
    if funds.len() > 0 {
        let rest = funds.drop_first();
        assert forall|i: int| 0 <= i < rest.len() implies (#[trigger] rest[i]).denom@ != denom || rest[i].amount == 0 by {
            assert(rest[i] == funds[i + 1]);
        }
        lemma_no_payment(rest, denom);
    }
}

/// A contribution keeps the raised total equal to the sum of all
/// contributions, whether it is recorded or refused.
pub proof fn law_add_funds_keeps_total(old: ICOInfo, new: ICOInfo, info: MessageInfo, r: Result<Response, ContractError>)
    requires
        old.fundraise_bal == sum_balances(old.fundraisers@),
        add_funds_post(old, new, info, r),
    ensures
        new.fundraise_bal == sum_balances(new.fundraisers@),
{
    if r.is_ok() {
        let amount = first_payment(info.funds@, old.fundraise_denom@).unwrap();
        let s = old.fundraisers@;
        lemma_source_index(s, info.sender@);
        let i = source_index(s, info.sender@);
        if i >= 0 {
            lemma_balance_le_sum(s, i);
            lemma_sum_update(s, i, new.fundraisers@[i]);
        } else {
            let t = new.fundraisers@;
            assert(t.drop_last() == s);
            assert(sum_balances(t) == sum_balances(t.drop_last()) + t.last().balance);
        }
    }
}

/// A contribution that carries no positive amount of the accepted asset is
/// refused with `EmptyBalance` while the fundraise is open, and changes
/// nothing.
pub proof fn law_add_funds_without_payment(old: ICOInfo, new: ICOInfo, info: MessageInfo, r: Result<Response, ContractError>)
    requires
        old.fundraising_open,
        forall|i: int|
            0 <= i < info.funds@.len() ==> (#[trigger] info.funds@[i]).denom@ != old.fundraise_denom@
                || info.funds@[i].amount == 0,
        add_funds_post(old, new, info, r),
    ensures
        r == Err::<Response, ContractError>(ContractError::EmptyBalance),
        new == old,
{
    lemma_no_payment(info.funds@, old.fundraise_denom@);
}

/// Once the fundraise has been closed, every contribution is refused with
/// `FundraiseClosed`.
pub proof fn law_no_funds_after_close(
    s0: ICOInfo,
    s1: ICOInfo,
    s2: ICOInfo,
    env: Env,
    closer: Seq<char>,
    info: MessageInfo,
    r1: Result<Response, ContractError>,
    r2: Result<Response, ContractError>,
)
    requires
        close_post(s0, s1, env, closer, r1),
        r1.is_ok(),
        add_funds_post(s1, s2, info, r2),
    ensures
        r2 == Err::<Response, ContractError>(ContractError::FundraiseClosed),
        s2 == s1,
{
}

/// While the fundraise is open, closing succeeds exactly for its owner, at
/// any raised level, and for anyone once the raised total meets the goal;
/// otherwise it is refused and changes nothing.
pub proof fn law_who_may_close(old: ICOInfo, new: ICOInfo, env: Env, sender: Seq<char>, r: Result<Response, ContractError>)
    requires
        old.fundraising_open,
        close_post(old, new, env, sender, r),
    ensures
        r.is_ok() <==> (sender == old.owner@ || old.fundraise_bal >= old.fundraise_goal),
        !r.is_ok() ==> new == old && r == Err::<Response, ContractError>(ContractError::Unauthorized),
        r.is_ok() ==> !new.fundraising_open,
{
}

/// Closing a second time, after a successful close, is refused with
/// `FundraiseClosed` and asks for no distribution.
pub proof fn law_close_once(
    s0: ICOInfo,
    s1: ICOInfo,
    s2: ICOInfo,
    env: Env,
    first: Seq<char>,
    second: Seq<char>,
    r1: Result<Response, ContractError>,
    r2: Result<Response, ContractError>,
)
    requires
        close_post(s0, s1, env, first, r1),
        r1.is_ok(),
        close_post(s1, s2, env, second, r2),
    ensures
        r2 == Err::<Response, ContractError>(ContractError::FundraiseClosed),
        s2 == s1,
{
}

/// Distribution asked for by anyone but the fundraise itself is refused with
/// `Unauthorized`: no mint, no transfer, and the ledger is unchanged.
pub proof fn law_distribution_only_by_self(
    old: ICOInfo,
    new: ICOInfo,
    env: Env,
    info: MessageInfo,
    r: Result<Response, ContractError>,
)
    requires
        info.sender@ != env.contract_address@,
        execute_post(old, new, env, info, ExecuteMsg::_SendTokens {}, r),
    ensures
        r == Err::<Response, ContractError>(ContractError::Unauthorized),
        new == old,
{
}

/// The tokens for an amount at a ratio are the exact product rounded down:
/// the largest whole number not above it.
pub proof fn law_owed_rounds_down(amount: nat, atomics: nat)
    ensures
        mul_floor(amount as int, atomics as int) * DECIMAL_FRACTIONAL <= (amount as int) * (atomics as int),
        (amount as int) * (atomics as int) < (mul_floor(amount as int, atomics as int) + 1) * DECIMAL_FRACTIONAL,
        mul_floor(amount as int, atomics as int) >= 0,
{
    let f = DECIMAL_FRACTIONAL as int;
    let p: int = (amount as int) * (atomics as int);
    vstd::arithmetic::div_mod::lemma_fundamental_div_mod(p, f);
    vstd::arithmetic::div_mod::lemma_mod_bound(p, f);
    vstd::arithmetic::div_mod::lemma_div_pos_is_pos(p, f);
    assert(f * (p / f) == (p / f) * f) by (nonlinear_arith);
    assert((p / f + 1) * f == (p / f) * f + f) by (nonlinear_arith);
}

/// A closed fundraise stays closed: no operation reopens it or changes its
/// contributions or raised total, and every contribution is refused with
/// `FundraiseClosed`.
pub proof fn law_closed_stays_closed(
    old: ICOInfo,
    new: ICOInfo,
    env: Env,
    info: MessageInfo,
    msg: ExecuteMsg,
    r: Result<Response, ContractError>,
)
    requires
        !old.fundraising_open,
        execute_post(old, new, env, info, msg, r),
    ensures
        !new.fundraising_open,
        new.fundraisers == old.fundraisers,
        new.fundraise_bal == old.fundraise_bal,
        msg == (ExecuteMsg::AddFunds {}) ==> r == Err::<Response, ContractError>(ContractError::FundraiseClosed),
{
}

} // verus!
