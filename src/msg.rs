//! Requests to the engine and what it answers.

use vstd::prelude::*;
use crate::expiry::Expiry;
use crate::state::{AssetId, OTCInfo, UserInfo};

verus! {

/// An amount of a native coin.
#[derive(Clone, Debug, PartialEq, Eq)]
pub struct Coin {
    pub denom: String,
    pub amount: u128,
}

/// An amount of a cw20 token, by the token's contract address.
#[derive(Clone, Debug, PartialEq, Eq)]
pub struct Cw20Coin {
    pub address: String,
    pub amount: u128,
}

/// Assets handed to or asked of the engine: native coins, or one cw20 token.
#[derive(Clone, Debug, PartialEq, Eq)]
pub enum Balance {
    Native(Vec<Coin>),
    Cw20(Cw20Coin),
}

/// The fee rates to start with, in basis points (two by default for the
/// taker, one for the maker).
#[derive(Clone, Copy, Debug, PartialEq, Eq, Structural)]
pub struct InstantiateMsg {
    pub taker_fee: Option<u16>,
    pub maker_fee: Option<u16>,
}

/// A new offer: what is asked, when it expires, and free-form details.
#[derive(Clone, Debug, PartialEq, Eq)]
pub struct NewOTC {
    pub ask_balances: Vec<Balance>,
    pub expires: Option<Expiry>,
    pub user_info: Option<UserInfo>,
    pub description: Option<String>,
}

/// A token contract's notice that `amount` of its token was sent to the
/// engine by `sender`, with the request that goes with it.
#[derive(Clone, Debug, PartialEq, Eq)]
pub struct Cw20ReceiveMsg {
    pub sender: String,
    pub amount: u128,
    pub msg: ReceiveMsg,
}

/// The commands of the engine.
#[derive(Clone, Debug, PartialEq, Eq)]
pub enum ExecuteMsg {
    Create(NewOTC),
    Swap { otc_id: u32 },
    Cancel { otc_id: u32 },
    SetActive { active: bool },
    RemoveExpired,
    Receive(Cw20ReceiveMsg),
}

/// The requests that may come with a cw20 token.
#[derive(Clone, Debug, PartialEq, Eq)]
pub enum ReceiveMsg {
    Create(NewOTC),
    Swap { otc_id: u32 },
}

/// The read-only requests.
#[derive(Clone, Debug, PartialEq, Eq)]
pub enum QueryMsg {
    GetOtcs { include_expired: Option<bool>, start_after: Option<u32>, limit: Option<u32> },
    GetAddressOtcs {
        address: String,
        include_expired: Option<bool>,
        start_after: Option<u32>,
        limit: Option<u32>,
    },
    GetOtc { otc_id: u32 },
    Config,
}

/// A page of offers with their ids, in ascending id order.
#[derive(Clone, Debug, PartialEq, Eq)]
pub struct GetOTCsResponse {
    pub otcs: Vec<(u32, OTCInfo)>,
}

/// The configuration as callers see it.
#[derive(Clone, Debug, PartialEq, Eq)]
pub struct GetConfigResponse {
    pub taker_fee: u16,
    pub maker_fee: u16,
    pub active: bool,
    pub admin: String,
}

/// The id given to a new offer, and the offer.
#[derive(Clone, Debug, PartialEq, Eq)]
pub struct NewOTCResponse {
    pub id: u32,
    pub otc: OTCInfo,
}

/// An answer to a read-only request.
#[derive(Clone, Debug, PartialEq, Eq)]
pub enum QueryResponse {
    Otcs(GetOTCsResponse),
    Otc(OTCInfo),
    Config(GetConfigResponse),
}

/// An instruction to move `amount` of `asset` to `recipient`.
#[derive(Clone, Debug, PartialEq, Eq)]
pub struct Transfer {
    pub recipient: String,
    pub asset: AssetId,
    pub amount: u128,
}

/// One refund made by a sweep of expired offers.
#[derive(Clone, Debug, PartialEq, Eq)]
pub struct Refund {
    pub otc_id: u32,
    pub amount: u128,
    pub token: AssetId,
    pub seller: String,
}

/// The record of what a call did.
#[derive(Clone, Debug, PartialEq, Eq)]
pub enum Event {
    Instantiated { owner: String },
    ActiveSet { active: bool },
    Created { otc_id: u32, seller: String, amount: u128, token: AssetId },
    Swapped {
        completed: bool,
        seller: String,
        otc_id: u32,
        /// What the payer took out of the offer.
        given_amount: u128,
        given_token: AssetId,
        /// What the payer paid.
        sent_amount: u128,
        sent_token: AssetId,
    },
    Cancelled { otc_id: u32, amount: u128, token: AssetId },
    ExpiredRemoved { refunded: Vec<Refund> },
}

/// The transfers a call asks the ledger to make, its event, and the data
/// it hands back.
#[derive(Clone, Debug, PartialEq, Eq)]
pub struct Response {
    pub messages: Vec<Transfer>,
    pub event: Event,
    pub data: Option<NewOTCResponse>,
}

} // verus!
