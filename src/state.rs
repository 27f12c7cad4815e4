//! What is kept between calls: the configuration and the offers.

use vstd::prelude::*;
use crate::expiry::Expiry;

verus! {

/// The kind and identifier of an asset: a native coin by its denomination,
/// or a cw20 token by its contract address.
#[derive(Clone, Debug, PartialEq, Eq)]
pub enum AssetId {
    Native(String),
    Cw20(String),
}

/// Whether two asset ids name the same asset.
pub open spec fn same_asset(a: AssetId, b: AssetId) -> bool {
    match (a, b) {
        (AssetId::Native(x), AssetId::Native(y)) => x@ == y@,
        (AssetId::Cw20(x), AssetId::Cw20(y)) => x@ == y@,
        _ => false,
    }
}

impl AssetId {
    /// Whether `self` and `other` name the same asset.
    pub fn same_as(&self, other: &AssetId) -> (r: bool)
        ensures
            r == same_asset(*self, *other),
    {
        match (self, other) {
            (AssetId::Native(x), AssetId::Native(y)) => *x == *y,
            (AssetId::Cw20(x), AssetId::Cw20(y)) => *x == *y,
            _ => false,
        }
    }

    /// A copy of this id.
    pub fn duplicate(&self) -> (r: AssetId)
        ensures
            r == *self,
    {
        match self {
            AssetId::Native(d) => AssetId::Native(d.clone()),
            AssetId::Cw20(a) => AssetId::Cw20(a.clone()),
        }
    }
}

/// Free-form details a seller attaches to an offer.
#[derive(Clone, Debug, PartialEq, Eq)]
pub struct UserInfo {
    pub user: String,
    pub account_type: Option<String>,
}

/// A copy of an optional string.
pub fn copy_text(s: &Option<String>) -> (r: Option<String>)
    ensures
        r == *s,
{
    match s {
        Some(t) => Some(t.clone()),
        None => None,
    }
}

impl UserInfo {
    /// A copy of these details.
    pub fn duplicate(&self) -> (r: UserInfo)
        ensures
            r == *self,
    {
        UserInfo { user: self.user.clone(), account_type: copy_text(&self.account_type) }
    }
}

/// A copy of optional user details.
pub fn copy_user_info(u: &Option<UserInfo>) -> (r: Option<UserInfo>)
    ensures
        r == *u,
{
    match u {
        Some(i) => Some(i.duplicate()),
        None => None,
    }
}

/// One asset an offer accepts, with the amount that buys the whole offer.
#[derive(Clone, Debug, PartialEq, Eq)]
pub struct AskFor {
    /// The amount asked when the offer was made.
    pub initial_amount: u128,
    /// The amount that now buys what is left of the offer.
    pub amount: u128,
    pub asset: AssetId,
}

impl AskFor {
    /// A copy of this ask.
    pub fn duplicate(&self) -> (r: AskFor)
        ensures
            r == *self,
    {
        AskFor { initial_amount: self.initial_amount, amount: self.amount, asset: self.asset.duplicate() }
    }
}

/// An offer: an escrowed asset and what the seller accepts for it.
#[derive(Clone, Debug, PartialEq, Eq)]
pub struct OTCInfo {
    pub seller: String,
    pub sell_asset: AssetId,
    /// What is still escrowed.
    pub sell_amount: u128,
    /// What was escrowed when the offer was made.
    pub initial_sell_amount: u128,
    pub ask_for: Vec<AskFor>,
    pub expires: Expiry,
    pub user_info: Option<UserInfo>,
    pub description: Option<String>,
}

/// Whether two offers hold the same values, field by field.
pub open spec fn same_offer(a: OTCInfo, b: OTCInfo) -> bool {
    &&& a.seller == b.seller
    &&& a.sell_asset == b.sell_asset
    &&& a.sell_amount == b.sell_amount
    &&& a.initial_sell_amount == b.initial_sell_amount
    &&& a.ask_for@ == b.ask_for@
    &&& a.expires == b.expires
    &&& a.user_info == b.user_info
    &&& a.description == b.description
}

/// No ask of `legs` is for the asset `sell`, and no two asks are for the
/// same asset.
pub open spec fn distinct_legs(sell: AssetId, legs: Seq<AskFor>) -> bool {
    &&& forall|i: int| 0 <= i < legs.len() ==> !same_asset(sell, #[trigger] legs[i].asset)
    &&& forall|i: int, j: int| 0 <= i < j < legs.len() ==> !same_asset(#[trigger] legs[i].asset, #[trigger] legs[j].asset)
}

/// An offer that can stand in the store: something is still escrowed, and
/// neither the escrow nor any ask exceeds what it started at, and its asks
/// are for distinct assets other than the escrowed one.
pub open spec fn offer_valid(o: OTCInfo) -> bool {
    &&& 0 < o.sell_amount <= o.initial_sell_amount
    &&& distinct_legs(o.sell_asset, o.ask_for@)
    &&& forall|j: int| 0 <= j < o.ask_for@.len() ==> (#[trigger] o.ask_for@[j]).amount <= o.ask_for@[j].initial_amount
}

/// A copy of a list of asks.
pub fn copy_asks(v: &Vec<AskFor>) -> (r: Vec<AskFor>)
    ensures
        r@ == v@,
{
    let mut r: Vec<AskFor> = Vec::new();
    let mut i: usize = 0;
    while i < v.len()
        invariant
            i <= v@.len(),
            r@ == v@.subrange(0, i as int),
        decreases v@.len() - i,
    {
        r.push(v[i].duplicate());
        i = i + 1;
    }
    assert(r@ == v@.subrange(0, v@.len() as int));
    assert(v@.subrange(0, v@.len() as int) =~= v@);
    r
}

impl OTCInfo {
    /// A copy of this offer.
    pub fn duplicate(&self) -> (r: OTCInfo)
        ensures
            same_offer(r, *self),
    {
        OTCInfo {
            seller: self.seller.clone(),
            sell_asset: self.sell_asset.duplicate(),
            sell_amount: self.sell_amount,
            initial_sell_amount: self.initial_sell_amount,
            ask_for: copy_asks(&self.ask_for),
            expires: self.expires,
            user_info: copy_user_info(&self.user_info),
            description: copy_text(&self.description),
        }
    }
}

/// The configuration: who administers the engine, whether it takes new
/// offers, the next id to try, and the two fee rates in basis points.
#[derive(Clone, Debug, PartialEq, Eq)]
pub struct State {
    pub admin: String,
    pub index: u32,
    pub active: bool,
    pub taker_fee: u16,
    pub maker_fee: u16,
}

impl State {
    /// Fee rates are at most one whole.
    pub open spec fn wf(&self) -> bool {
        self.taker_fee <= 10000 && self.maker_fee <= 10000
    }
}

} // verus!
