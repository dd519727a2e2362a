use vstd::prelude::*;

verus! {

/// An amount of one asset.
#[derive(Clone, Debug, PartialEq)]
pub struct Coin {
    pub denom: String,
    pub amount: u128,
}

/// Who calls an operation, and what they attached to it.
#[derive(Clone, Debug, PartialEq)]
pub struct MessageInfo {
    pub sender: String,
    pub funds: Vec<Coin>,
}

/// Where an operation runs: the identity of the fundraise itself.
#[derive(Clone, Debug, PartialEq)]
pub struct Env {
    pub contract_address: String,
}

/// A tier as its creator gives it: the multiplier is `ratio_den / ratio_num`.
#[derive(Clone, Copy, Debug, PartialEq, Eq, Structural)]
pub struct RateInit {
    pub min: u128,
    pub ratio_num: u128,
    pub ratio_den: u128,
}

/// What creates a fundraise.
#[derive(Clone, Debug, PartialEq)]
pub struct InstantiateMsg {
    /// goal fundraise amount
    pub fundraise_goal: u128,
    /// the base multiplier is `base_conv_ratio_den / base_conv_ratio_num`
    pub base_conv_ratio_num: u128,
    pub base_conv_ratio_den: u128,
    /// denom of coins sent to this contract for fundraising
    pub fundraise_denom: String,
    /// further tiers, if any
    pub rates: Option<Vec<RateInit>>,
    /// name of the derivative token
    pub name: String,
    /// symbol / ticker of the derivative token
    pub symbol: String,
    /// decimal places of the derivative token (for UI)
    pub decimals: u8,
}

#[derive(Clone, Debug, PartialEq)]
pub enum ExecuteMsg {
    CloseFundraise {},
    AddFunds {},
    /// Distributes the tokens; only the fundraise itself may send it.
    _SendTokens {},
    /// Moves tokens to another account.
    Transfer { recipient: String, amount: u128 },
}

#[derive(Clone, Debug, PartialEq)]
pub enum QueryMsg {
    /// Shows how much we have raised so far and our goal
    FundraiseInfo {},
    /// Shows how much has been staked for each address
    StakedInfo {},
    /// The token balance of the given address, 0 if unset.
    Balance { address: String },
    /// The token's name, symbol, decimals and supply.
    TokenInfo {},
}

/// A call to a contract that the host makes once the operation has committed,
/// in the order given.
#[derive(Clone, Debug, PartialEq)]
pub struct WasmExecute {
    pub contract_addr: String,
    pub msg: ExecuteMsg,
    pub send: Vec<Coin>,
}

/// A change to the token ledger, applied with the operation itself.
#[derive(Clone, Debug, PartialEq)]
pub enum LedgerOp {
    /// new tokens for `recipient`, authorised as the fundraise itself
    Mint { recipient: String, amount: u128 },
    /// tokens moved from `sender` to `recipient`
    Transfer { sender: String, recipient: String, amount: u128 },
}

#[derive(Clone, Debug, PartialEq)]
pub struct Attribute {
    pub key: String,
    pub value: String,
}

/// What an operation hands back to its host.
#[derive(Clone, Debug, PartialEq)]
pub struct Response {
    /// token ledger changes, in order, before any message
    pub ledger: Vec<LedgerOp>,
    /// calls to dispatch afterwards, in order
    pub messages: Vec<WasmExecute>,
    pub attributes: Vec<Attribute>,
}

/// The token's metadata at creation.
#[derive(Clone, Debug, PartialEq)]
pub struct TokenInfo {
    pub name: String,
    pub symbol: String,
    pub decimals: u8,
    pub total_supply: u128,
    /// the only identity allowed to mint
    pub minter: String,
}

#[derive(Clone, Debug, PartialEq)]
pub struct ListResponse {
    /// total staked
    pub total_staked: u128,
    /// list all stakers and how much
    pub fundraisers: Vec<crate::state::Fundraiser>,
}

#[derive(Clone, Debug, PartialEq)]
pub struct FundraiseInfoResponse {
    /// value of the goal we want to raise
    pub fundraise_goal: u128,
    /// value of how much we have raised so far
    pub fundraise_bal: u128,
    /// the ratio used where no tier applies
    pub base_conv_ratio: crate::decimal::Decimal,
    /// who created this fundraise
    pub owner: String,
    /// If fundraising is open to contributions or not
    pub fundraising_open: bool,
    /// Denom of token accepted to fundraise with
    pub fundraise_denom: String,
    /// rates offered
    pub rates: Vec<crate::rates::Rate>,
}

/// What a query answers.
#[derive(Clone, Debug, PartialEq)]
pub enum QueryResponse {
    FundraiseInfo(FundraiseInfoResponse),
    StakedInfo(ListResponse),
    /// The question is about the token, which its ledger answers.
    TokenLedger,
}

/// A key and value describing what an operation did.
pub fn attr(key: &str, value: &str) -> (r: Attribute)
    ensures
        r.key@ == key@,
        r.value@ == value@,
{
    Attribute { key: key.to_owned(), value: value.to_owned() }
}

} // verus!
