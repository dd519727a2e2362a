use vstd::prelude::*;

use crate::decimal::{checked_mul_floor, ratio_atomics, ratio_ok, Decimal, DECIMAL_FRACTIONAL};
use crate::error::ContractError;
use crate::msg::{
    attr, Attribute, Coin, Env, ExecuteMsg, FundraiseInfoResponse, ListResponse, QueryMsg, QueryResponse, InstantiateMsg, LedgerOp, MessageInfo, RateInit, Response, TokenInfo,
    WasmExecute,
};
use crate::rates::{find_ratio, lemma_sort_desc_props, owed, sort_desc, sort_rates, Rate};
use crate::state::{
    credited, lemma_balance_le_sum, lemma_source_index, lemma_sum_update, source_index, sum_balances,
    Fundraiser, ICOInfo,
};

verus! {

/// The tokens owed to all the contributors together.
pub open spec fn total_owed(s: Seq<Fundraiser>, rates: Seq<Rate>, base: Decimal) -> int
    decreases s.len(),
{
    if s.len() == 0 {
        0
    } else {
        total_owed(s.drop_last(), rates, base) + owed(rates, base, s.last().balance as int)
    }
}

pub open spec fn is_attr(a: Attribute, key: Seq<char>, value: Seq<char>) -> bool {
    a.key@ == key && a.value@ == value
}

/// `m` asks the fundraise at `contract` to move `amount` of its tokens to `who`.
pub open spec fn is_transfer_call(m: WasmExecute, contract: Seq<char>, who: Seq<char>, amount: int) -> bool {
    &&& m.contract_addr@ == contract
    &&& m.send@.len() == 0
    &&& match m.msg {
        ExecuteMsg::Transfer { recipient, amount: a } => recipient@ == who && a == amount,
        _ => false,
    }
}

/// `op` mints `amount` new tokens to `who`.
pub open spec fn is_mint(op: LedgerOp, who: Seq<char>, amount: int) -> bool {
    match op {
        LedgerOp::Mint { recipient, amount: a } => recipient@ == who && a == amount,
        _ => false,
    }
}

/// What distribution hands back: one mint of the whole amount owed to the
/// fundraise itself, then one transfer to each contributor of what they are
/// owed, in the order of the ledger.
pub open spec fn is_distribution(res: Response, state: ICOInfo, contract: Seq<char>) -> bool {
    let s = state.fundraisers@;
    &&& res.ledger@.len() == 1
    &&& is_mint(res.ledger@[0], contract, total_owed(s, state.rates@, state.base_conv_ratio))
    &&& res.messages@.len() == s.len()
    &&& forall|i: int|
        0 <= i < s.len() ==> is_transfer_call(
            #[trigger] res.messages@[i],
            contract,
            s[i].source@,
            owed(state.rates@, state.base_conv_ratio, s[i].balance as int),
        )
    &&& res.attributes@.len() == 1
    &&& is_attr(res.attributes@[0], "action"@, "transfer"@)
}

/// What distribution does, for every state and caller.
pub open spec fn send_tokens_post(state: ICOInfo, env: Env, info: MessageInfo, r: Result<Response, ContractError>) -> bool {
    if info.sender@ != env.contract_address@ {
        r == Err::<Response, ContractError>(ContractError::Unauthorized)
    } else if total_owed(state.fundraisers@, state.rates@, state.base_conv_ratio) > u128::MAX {
        r == Err::<Response, ContractError>(ContractError::Overflow)
    } else {
        r.is_ok() && is_distribution(r.unwrap(), state, env.contract_address@)
    }
}

proof fn lemma_owed_nonneg(rates: Seq<Rate>, base: Decimal, amount: int)
    requires
        amount >= 0,
    ensures
        owed(rates, base, amount) >= 0,
{
    let d = crate::rates::tier_ratio(rates, base, amount).atomics as int;
    let f = DECIMAL_FRACTIONAL as int;
    assert((amount * d) / f >= 0) by (nonlinear_arith)
        requires
            amount >= 0,
            d >= 0,
            f > 0,
    ;
}

proof fn lemma_total_owed_prefix(s: Seq<Fundraiser>, rates: Seq<Rate>, base: Decimal, j: int)
    requires
        0 <= j <= s.len(),
    ensures
        0 <= total_owed(s.take(j), rates, base) <= total_owed(s, rates, base),
    decreases s.len(),
{
    if s.len() > 0 {
        lemma_owed_nonneg(rates, base, s.last().balance as int);
        if j == s.len() {
            assert(s.take(j) =~= s);
            lemma_total_owed_prefix(s.drop_last(), rates, base, j - 1);
        } else {
            lemma_total_owed_prefix(s.drop_last(), rates, base, j);
            assert(s.drop_last().take(j) =~= s.take(j));
        }
    } else {
        assert(s.take(j) =~= s);
    }
}

/// Mints what the contributors are owed to the fundraise itself, and hands
/// back one transfer to each contributor. Only the fundraise itself may call
/// it.
pub fn _send_tokens(state: &ICOInfo, env: &Env, info: &MessageInfo) -> (r: Result<Response, ContractError>)
    ensures
        send_tokens_post(*state, *env, *info, r),
{
    if info.sender != env.contract_address {
        return Err(ContractError::Unauthorized);
    }
    let ghost s = state.fundraisers@;
    let ghost rates = state.rates@;
    let ghost base = state.base_conv_ratio;
    let mut messages: Vec<WasmExecute> = Vec::new();
    let mut to_mint: u128 = 0;
    let mut i: usize = 0;
    while i < state.fundraisers.len()
        invariant
            info.sender@ == env.contract_address@,
            s == state.fundraisers@,
            rates == state.rates@,
            base == state.base_conv_ratio,
            i <= s.len(),
            to_mint == total_owed(s.take(i as int), rates, base),
            messages@.len() == i,
            forall|k: int|
                0 <= k < i ==> is_transfer_call(
                    #[trigger] messages@[k],
                    env.contract_address@,
                    s[k].source@,
                    owed(rates, base, s[k].balance as int),
                ),
        decreases s.len() - i,
    {
        let f = &state.fundraisers[i];
        let ratio = find_ratio(&state.rates, state.base_conv_ratio, f.balance);
        proof {
            assert(s.take(i + 1).drop_last() =~= s.take(i as int));
            lemma_total_owed_prefix(s, rates, base, i + 1);
            lemma_total_owed_prefix(s, rates, base, i as int);
            lemma_owed_nonneg(rates, base, s[i as int].balance as int);
        }
        let receives = match checked_mul_floor(f.balance, ratio) {
            Some(v) => v,
            None => return Err(ContractError::Overflow),
        };
        to_mint = match to_mint.checked_add(receives) {
            Some(v) => v,
            None => return Err(ContractError::Overflow),
        };
        messages.push(
            WasmExecute {
                contract_addr: env.contract_address.clone(),
                msg: ExecuteMsg::Transfer { recipient: f.source.clone(), amount: receives },
                send: Vec::new(),
            },
        );
        i = i + 1;
    }
    proof {
        assert(s.take(s.len() as int) =~= s);
    }
    let mut ledger: Vec<LedgerOp> = Vec::new();
    ledger.push(LedgerOp::Mint { recipient: env.contract_address.clone(), amount: to_mint });
    let mut attributes: Vec<Attribute> = Vec::new();
    attributes.push(attr("action", "transfer"));
    Ok(Response { ledger, messages, attributes })
}

/// The multiplier that a creator's numerator and denominator stand for:
/// `den / num`.
pub open spec fn init_ratio(num: u128, den: u128) -> Decimal {
    Decimal { atomics: ratio_atomics(den as int, num as int) as u128 }
}

pub open spec fn init_rate(r: RateInit) -> Rate {
    Rate { min: r.min, ratio: init_ratio(r.ratio_num, r.ratio_den) }
}

pub open spec fn init_ratio_ok(num: u128, den: u128) -> bool {
    ratio_ok(den as int, num as int)
}

/// Every ratio that the creation message gives can be built.
pub open spec fn msg_ratios_ok(msg: InstantiateMsg) -> bool {
    &&& init_ratio_ok(msg.base_conv_ratio_num, msg.base_conv_ratio_den)
    &&& match msg.rates {
        Some(v) => forall|i: int| 0 <= i < v@.len() ==> init_ratio_ok(#[trigger] v@[i].ratio_num, v@[i].ratio_den),
        None => true,
    }
}

/// The base tier: threshold zero at the base ratio.
pub open spec fn base_rate(msg: InstantiateMsg) -> Rate {
    Rate { min: 0, ratio: init_ratio(msg.base_conv_ratio_num, msg.base_conv_ratio_den) }
}

/// The given tiers and the base tier after them, sorted by descending
/// threshold; tiers of equal threshold keep that order.
pub open spec fn initial_rates(msg: InstantiateMsg) -> Seq<Rate> {
    match msg.rates {
        Some(v) => sort_desc(v@.map_values(|r: RateInit| init_rate(r)).push(base_rate(msg))),
        None => seq![base_rate(msg)],
    }
}

/// The ledger and the token metadata as a fundraise is created.
pub open spec fn is_initial(ico: ICOInfo, token: TokenInfo, env: Env, info: MessageInfo, msg: InstantiateMsg) -> bool {
    &&& ico.fundraise_goal == msg.fundraise_goal
    &&& ico.fundraise_bal == 0
    &&& ico.base_conv_ratio == init_ratio(msg.base_conv_ratio_num, msg.base_conv_ratio_den)
    &&& ico.owner@ == info.sender@
    &&& ico.fundraising_open
    &&& ico.fundraise_denom@ == msg.fundraise_denom@
    &&& ico.fundraisers@.len() == 0
    &&& ico.rates@ == initial_rates(msg)
    &&& ico.wf()
    &&& token.name@ == msg.name@
    &&& token.symbol@ == msg.symbol@
    &&& token.decimals == msg.decimals
    &&& token.total_supply == 0
    &&& token.minter@ == env.contract_address@
}

fn convert_rates(v: &Vec<RateInit>) -> (r: Option<Vec<Rate>>)
    ensures
        match r {
            Some(out) => {
                &&& forall|i: int| 0 <= i < v@.len() ==> init_ratio_ok(#[trigger] v@[i].ratio_num, v@[i].ratio_den)
                &&& out@ == v@.map_values(|x: RateInit| init_rate(x))
            },
            None => exists|i: int| 0 <= i < v@.len() && !init_ratio_ok(#[trigger] v@[i].ratio_num, v@[i].ratio_den),
        },
{
    let mut out: Vec<Rate> = Vec::new();
    let mut i: usize = 0;
    while i < v.len()
        invariant
            i <= v.len(),
            forall|k: int| 0 <= k < i ==> init_ratio_ok(#[trigger] v@[k].ratio_num, v@[k].ratio_den),
            out@ == v@.take(i as int).map_values(|x: RateInit| init_rate(x)),
        decreases v.len() - i,
    {
        let x = v[i];
        match Decimal::checked_from_ratio(x.ratio_den, x.ratio_num) {
            Some(ratio) => {
                out.push(Rate { min: x.min, ratio });
                assert(v@.take(i + 1).map_values(|x: RateInit| init_rate(x)) =~= v@.take(i as int).map_values(
                    |x: RateInit| init_rate(x),
                ).push(init_rate(x)));
            },
            None => {
                assert(!init_ratio_ok(v@[i as int].ratio_num, v@[i as int].ratio_den));
                return None;
            },
        }
        i = i + 1;
    }
    assert(v@.take(v.len() as int) =~= v@);
    Some(out)
}

/// Creates the fundraise: its ledger, open and empty, and its token's
/// metadata, with the fundraise itself as the only minter.
pub fn instantiate(env: &Env, info: &MessageInfo, msg: InstantiateMsg) -> (r: Result<(ICOInfo, TokenInfo), ContractError>)
    ensures
        !msg_ratios_ok(msg) ==> r == Err::<(ICOInfo, TokenInfo), ContractError>(ContractError::InvalidRatio),
        msg_ratios_ok(msg) ==> r.is_ok() && is_initial(r.unwrap().0, r.unwrap().1, *env, *info, msg),
{
    let base_ratio = match Decimal::checked_from_ratio(msg.base_conv_ratio_den, msg.base_conv_ratio_num) {
        Some(d) => d,
        None => return Err(ContractError::InvalidRatio),
    };
    let base = Rate { min: 0, ratio: base_ratio };
    let ico_rates: Vec<Rate> = match &msg.rates {
        Some(init_rates) => {
            let mut rates = match convert_rates(init_rates) {
                Some(v) => v,
                None => return Err(ContractError::InvalidRatio),
            };
            rates.push(base);
            let sorted = sort_rates(&rates);
            proof {
                lemma_sort_desc_props(rates@);
                assert(rates@[rates@.len() - 1] == base);
                assert(sorted@.contains(base));
            }
            sorted
        },
        None => {
            let mut v: Vec<Rate> = Vec::new();
            v.push(base);
            assert(v@ =~= seq![base]);
            assert(v@[0].min == 0);
            v
        },
    };
    let ico_info = ICOInfo {
        fundraise_goal: msg.fundraise_goal,
        fundraise_bal: 0,
        base_conv_ratio: base_ratio,
        owner: info.sender.clone(),
        fundraising_open: true,
        fundraise_denom: msg.fundraise_denom,
        fundraisers: Vec::new(),
        rates: ico_rates,
    };
    assert(sum_balances(ico_info.fundraisers@) == 0);
    let token_info = TokenInfo {
        name: msg.name,
        symbol: msg.symbol,
        decimals: msg.decimals,
        total_supply: 0,
        minter: env.contract_address.clone(),
    };
    Ok((ico_info, token_info))
}

/// The first attached amount of `denom` that is not zero.
pub open spec fn first_payment(funds: Seq<Coin>, denom: Seq<char>) -> Option<u128>
    decreases funds.len(),
{
    if funds.len() == 0 {
        None
    } else if funds[0].denom@ == denom && funds[0].amount != 0 {
        Some(funds[0].amount)
    } else {
        first_payment(funds.drop_first(), denom)
    }
}

/// Everything but the contributions, the raised total and the open flag is
/// the same in both.
pub open spec fn same_terms(a: ICOInfo, b: ICOInfo) -> bool {
    &&& a.fundraise_goal == b.fundraise_goal
    &&& a.base_conv_ratio == b.base_conv_ratio
    &&& a.owner == b.owner
    &&& a.fundraise_denom == b.fundraise_denom
    &&& a.rates == b.rates
}

/// What `add_funds` does, for every state and caller.
pub open spec fn add_funds_post(old: ICOInfo, new: ICOInfo, info: MessageInfo, r: Result<Response, ContractError>) -> bool {
    if !old.fundraising_open {
        r == Err::<Response, ContractError>(ContractError::FundraiseClosed) && new == old
    } else {
        match first_payment(info.funds@, old.fundraise_denom@) {
            None => r == Err::<Response, ContractError>(ContractError::EmptyBalance) && new == old,
            Some(amount) => if old.fundraise_bal + amount > u128::MAX {
                r == Err::<Response, ContractError>(ContractError::Overflow) && new == old
            } else {
                &&& r.is_ok()
                &&& r.unwrap().ledger@.len() == 0
                &&& r.unwrap().messages@.len() == 0
                &&& r.unwrap().attributes@.len() == 2
                &&& is_attr(r.unwrap().attributes@[0], "action"@, "add_funds"@)
                &&& is_attr(r.unwrap().attributes@[1], "id"@, info.sender@)
                &&& new.fundraise_bal == old.fundraise_bal + amount
                &&& credited(old.fundraisers@, new.fundraisers@, info.sender@, amount as int)
                &&& new.fundraising_open
                &&& same_terms(old, new)
            },
        }
    }
}

fn find_payment(funds: &Vec<Coin>, denom: &String) -> (r: Option<u128>)
    ensures
        r == first_payment(funds@, denom@),
{
    let mut i: usize = 0;
    assert(funds@.skip(0) =~= funds@);
    while i < funds.len()
        invariant
            i <= funds.len(),
            first_payment(funds@, denom@) == first_payment(funds@.skip(i as int), denom@),
        decreases funds.len() - i,
    {
        assert(funds@.skip(i as int).drop_first() =~= funds@.skip(i as int + 1));
        if funds[i].denom == *denom && funds[i].amount != 0 {
            return Some(funds[i].amount);
        }
        i = i + 1;
    }
    assert(funds@.skip(i as int).len() == 0);
    None
}

fn find_source(s: &Vec<Fundraiser>, who: &String) -> (r: Option<usize>)
    ensures
        match r {
            Some(i) => i == source_index(s@, who@),
            None => source_index(s@, who@) < 0,
        },
{
    let mut i: usize = s.len();
    assert(s@.take(i as int) =~= s@);
    while i > 0
        invariant
            i <= s.len(),
            source_index(s@, who@) == source_index(s@.take(i as int), who@),
        decreases i,
    {
        assert(s@.take(i as int).drop_last() =~= s@.take(i - 1));
        if s[i - 1].source == *who {
            return Some(i - 1);
        }
        i = i - 1;
    }
    None
}

/// Records a contribution: the first non-zero amount of the accepted asset
/// that came with the call is added to the caller's total and to the raised
/// total.
pub fn execute_add_funds(state: &mut ICOInfo, info: &MessageInfo) -> (r: Result<Response, ContractError>)
    requires
        old(state).wf(),
    ensures
        final(state).wf(),
        add_funds_post(*old(state), *final(state), *info, r),
{
    if !state.fundraising_open {
        return Err(ContractError::FundraiseClosed);
    }
    let amount = match find_payment(&info.funds, &state.fundraise_denom) {
        Some(a) => a,
        None => return Err(ContractError::EmptyBalance),
    };
    let new_bal = match state.fundraise_bal.checked_add(amount) {
        Some(b) => b,
        None => return Err(ContractError::Overflow),
    };
    let ghost s0 = state.fundraisers@;
    proof {
        lemma_source_index(s0, info.sender@);
    }
    match find_source(&state.fundraisers, &info.sender) {
        Some(idx) => {
            proof {
                lemma_balance_le_sum(s0, idx as int);
            }
            let source = state.fundraisers[idx].source.clone();
            let balance = state.fundraisers[idx].balance + amount;
            let f = Fundraiser { source, balance };
            proof {
                lemma_sum_update(s0, idx as int, f);
            }
            state.fundraisers.set(idx, f);
        },
        None => {
            state.fundraisers.push(Fundraiser { source: info.sender.clone(), balance: amount });
            proof {
                assert(state.fundraisers@.drop_last() =~= s0);
            }
        },
    }
    state.fundraise_bal = new_bal;
    let mut attributes: Vec<Attribute> = Vec::new();
    attributes.push(attr("action", "add_funds"));
    attributes.push(attr("id", info.sender.as_str()));
    Ok(Response { ledger: Vec::new(), messages: Vec::new(), attributes })
}

/// Whoever may close the fundraise: its owner, or anyone once the goal is met.
pub open spec fn may_close(state: ICOInfo, sender: Seq<char>) -> bool {
    sender == state.owner@ || state.fundraise_bal >= state.fundraise_goal
}

/// What `close_fundraise` does, for every state and caller.
pub open spec fn close_post(old: ICOInfo, new: ICOInfo, env: Env, sender: Seq<char>, r: Result<Response, ContractError>) -> bool {
    if !old.fundraising_open {
        r == Err::<Response, ContractError>(ContractError::FundraiseClosed) && new == old
    } else if !may_close(old, sender) {
        r == Err::<Response, ContractError>(ContractError::Unauthorized) && new == old
    } else {
        &&& r.is_ok()
        &&& r.unwrap().ledger@.len() == 0
        &&& r.unwrap().messages@.len() == 1
        &&& r.unwrap().messages@[0].contract_addr@ == env.contract_address@
        &&& r.unwrap().messages@[0].msg == ExecuteMsg::_SendTokens {}
        &&& r.unwrap().messages@[0].send@.len() == 0
        &&& r.unwrap().attributes@.len() == 1
        &&& is_attr(r.unwrap().attributes@[0], "action"@, "close_fundraise"@)
        &&& new == ICOInfo { fundraising_open: false, ..old }
    }
}

/// Closes the fundraise and asks the fundraise itself, as a later and separate
/// call, to distribute the tokens.
pub fn execute_close_fundraise(state: &mut ICOInfo, env: &Env, sender: &String) -> (r: Result<Response, ContractError>)
    ensures
        close_post(*old(state), *final(state), *env, sender@, r),
{
    if !state.fundraising_open {
        return Err(ContractError::FundraiseClosed);
    }
    if !(*sender == state.owner || state.fundraise_bal >= state.fundraise_goal) {
        return Err(ContractError::Unauthorized);
    }
    state.fundraising_open = false;
    let mut messages: Vec<WasmExecute> = Vec::new();
    messages.push(
        WasmExecute { contract_addr: env.contract_address.clone(), msg: ExecuteMsg::_SendTokens {}, send: Vec::new() },
    );
    let mut attributes: Vec<Attribute> = Vec::new();
    attributes.push(attr("action", "close_fundraise"));
    Ok(Response { ledger: Vec::new(), messages, attributes })
}

/// What `execute` does with each message.
pub open spec fn execute_post(
    old: ICOInfo,
    new: ICOInfo,
    env: Env,
    info: MessageInfo,
    msg: ExecuteMsg,
    r: Result<Response, ContractError>,
) -> bool {
    match msg {
        ExecuteMsg::AddFunds {} => add_funds_post(old, new, info, r),
        ExecuteMsg::CloseFundraise {} => close_post(old, new, env, info.sender@, r),
        ExecuteMsg::_SendTokens {} => new == old && send_tokens_post(old, env, info, r),
        ExecuteMsg::Transfer { recipient, amount } => {
            &&& new == old
            &&& r.is_ok()
            &&& r.unwrap().ledger@.len() == 1
            &&& match r.unwrap().ledger@[0] {
                LedgerOp::Transfer { sender, recipient: to, amount: a } => {
                    sender@ == info.sender@ && to@ == recipient@ && a == amount
                },
                _ => false,
            }
            &&& r.unwrap().messages@.len() == 0
            &&& r.unwrap().attributes@.len() == 0
        },
    }
}

/// Runs one operation against the ledger.
pub fn execute(state: &mut ICOInfo, env: &Env, info: &MessageInfo, msg: ExecuteMsg) -> (r: Result<Response, ContractError>)
    requires
        old(state).wf(),
    ensures
        final(state).wf(),
        execute_post(*old(state), *final(state), *env, *info, msg, r),
{
    match msg {
        ExecuteMsg::AddFunds {} => execute_add_funds(state, info),
        ExecuteMsg::CloseFundraise {} => execute_close_fundraise(state, env, &info.sender),
        ExecuteMsg::_SendTokens {} => _send_tokens(state, env, info),
        ExecuteMsg::Transfer { recipient, amount } => {
            let mut ledger: Vec<LedgerOp> = Vec::new();
            ledger.push(LedgerOp::Transfer { sender: info.sender.clone(), recipient, amount });
            Ok(Response { ledger, messages: Vec::new(), attributes: Vec::new() })
        },
    }
}

fn copy_rates(v: &Vec<Rate>) -> (r: Vec<Rate>)
    ensures
        r@ == v@,
{
    let mut out: Vec<Rate> = Vec::new();
    let mut i: usize = 0;
    while i < v.len()
        invariant
            i <= v.len(),
            out@ == v@.take(i as int),
        decreases v.len() - i,
    {
        out.push(v[i]);
        assert(v@.take(i + 1) =~= v@.take(i as int).push(v@[i as int]));
        i = i + 1;
    }
    assert(v@.take(v.len() as int) =~= v@);
    out
}

fn copy_fundraisers(v: &Vec<Fundraiser>) -> (r: Vec<Fundraiser>)
    ensures
        r@ == v@,
{
    let mut out: Vec<Fundraiser> = Vec::new();
    let mut i: usize = 0;
    while i < v.len()
        invariant
            i <= v.len(),
            out@ == v@.take(i as int),
        decreases v.len() - i,
    {
        out.push(Fundraiser { source: v[i].source.clone(), balance: v[i].balance });
        assert(v@.take(i + 1) =~= v@.take(i as int).push(v@[i as int]));
        i = i + 1;
    }
    assert(v@.take(v.len() as int) =~= v@);
    out
}

/// The fundraise's summary: goal, raised total, base ratio, owner, whether it
/// is open, the accepted asset and the tiers.
pub fn query_fundraise(state: &ICOInfo) -> (r: FundraiseInfoResponse)
    ensures
        r.fundraise_goal == state.fundraise_goal,
        r.fundraise_bal == state.fundraise_bal,
        r.base_conv_ratio == state.base_conv_ratio,
        r.owner == state.owner,
        r.fundraising_open == state.fundraising_open,
        r.fundraise_denom == state.fundraise_denom,
        r.rates@ == state.rates@,
{
    FundraiseInfoResponse {
        fundraise_goal: state.fundraise_goal,
        fundraise_bal: state.fundraise_bal,
        base_conv_ratio: state.base_conv_ratio,
        owner: state.owner.clone(),
        fundraising_open: state.fundraising_open,
        fundraise_denom: state.fundraise_denom.clone(),
        rates: copy_rates(&state.rates),
    }
}

/// The raised total and every contributor with their total.
pub fn query_staked(state: &ICOInfo) -> (r: ListResponse)
    ensures
        r.total_staked == state.fundraise_bal,
        r.fundraisers@ == state.fundraisers@,
{
    ListResponse { total_staked: state.fundraise_bal, fundraisers: copy_fundraisers(&state.fundraisers) }
}

/// Answers a query about the fundraise; questions about the token are left
/// to its ledger.
pub fn query(state: &ICOInfo, msg: &QueryMsg) -> (r: QueryResponse)
    ensures
        match *msg {
            QueryMsg::FundraiseInfo {} => match r {
                QueryResponse::FundraiseInfo(f) => {
                    &&& f.fundraise_goal == state.fundraise_goal
                    &&& f.fundraise_bal == state.fundraise_bal
                    &&& f.base_conv_ratio == state.base_conv_ratio
                    &&& f.owner == state.owner
                    &&& f.fundraising_open == state.fundraising_open
                    &&& f.fundraise_denom == state.fundraise_denom
                    &&& f.rates@ == state.rates@
                },
                _ => false,
            },
            QueryMsg::StakedInfo {} => match r {
                QueryResponse::StakedInfo(l) => l.total_staked == state.fundraise_bal && l.fundraisers@
                    == state.fundraisers@,
                _ => false,
            },
            _ => r == QueryResponse::TokenLedger,
        },
{
    match msg {
        QueryMsg::FundraiseInfo {} => QueryResponse::FundraiseInfo(query_fundraise(state)),
        QueryMsg::StakedInfo {} => QueryResponse::StakedInfo(query_staked(state)),
        _ => QueryResponse::TokenLedger,
    }
}

} // verus!
