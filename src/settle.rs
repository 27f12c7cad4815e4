//! Settling a payment against an offer: which ask it meets, how much of the
//! escrow it releases, and how every ask shrinks.

use vstd::prelude::*;
use crate::create::MIN_AMOUNT;
use crate::error::ContractError;
use crate::expiry::{expired, Block};
use crate::fixed::{apply_fraction, remaining_ratio};
use crate::msg::Balance;
use crate::state::{same_asset, AskFor, AssetId, OTCInfo};

verus! {

/// What a payment brings: its asset and amount, or why it is refused.
/// Native funds must be exactly one coin.
pub open spec fn payment_outcome(payment: Balance) -> Result<(AssetId, u128), ContractError> {
    match payment {
        Balance::Native(coins) => {
            if coins@.len() == 0 {
                Err(ContractError::WrongDenom)
            } else if coins@.len() > 1 {
                Err(ContractError::TooManyDenoms)
            } else {
                Ok((AssetId::Native(coins@[0].denom), coins@[0].amount))
            }
        },
        Balance::Cw20(token) => Ok((AssetId::Cw20(token.address), token.amount)),
    }
}

/// `i` is the first ask of `legs` for `asset`.
pub open spec fn first_leg(legs: Seq<AskFor>, asset: AssetId, i: int) -> bool {
    &&& 0 <= i < legs.len()
    &&& same_asset(legs[i].asset, asset)
    &&& forall|j: int| 0 <= j < i ==> !same_asset(#[trigger] legs[j].asset, asset)
}

/// Some ask of `legs` is for `asset`.
pub open spec fn asks_asset(legs: Seq<AskFor>, asset: AssetId) -> bool {
    exists|i: int| 0 <= i < legs.len() && same_asset(#[trigger] legs[i].asset, asset)
}

/// The first ask of `o` for `asset` (meaningful when there is one).
pub open spec fn matched_leg(o: OTCInfo, asset: AssetId) -> AskFor {
    o.ask_for@[choose|i: int| first_leg(o.ask_for@, asset, i)]
}

/// Why a payment against offer `o` is refused, first reason first: the
/// offer has expired, the payment is malformed or asks nothing of the
/// offer, or it is dust that does not meet its ask in full.
pub open spec fn swap_error(o: OTCInfo, block: Block, payment: Balance) -> Option<ContractError> {
    if expired(o.expires, block) {
        Some(ContractError::Expired)
    } else {
        match payment_outcome(payment) {
            Err(e) => Some(e),
            Ok(p) => {
                if !asks_asset(o.ask_for@, p.0) {
                    Some(ContractError::WrongDenom)
                } else if p.1 != matched_leg(o, p.0).amount && p.1 < MIN_AMOUNT {
                    Some(ContractError::TooSmall)
                } else {
                    None
                }
            },
        }
    }
}

/// The fraction of offer `o` that stays open after `paid` of `asset`.
pub open spec fn swap_ratio(o: OTCInfo, asset: AssetId, paid: u128) -> int {
    remaining_ratio(matched_leg(o, asset).amount, paid)
}

/// What stays escrowed after the payment.
pub open spec fn kept_amount(o: OTCInfo, asset: AssetId, paid: u128) -> int {
    apply_fraction(o.sell_amount as int, swap_ratio(o, asset, paid))
}

/// What the payment releases from the escrow.
pub open spec fn released_amount(o: OTCInfo, asset: AssetId, paid: u128) -> int {
    o.sell_amount - kept_amount(o, asset, paid)
}

/// `new` is `old` with the escrow and every ask scaled by `ratio`.
pub open spec fn shrunk(old: OTCInfo, new: OTCInfo, ratio: int) -> bool {
    &&& new.seller == old.seller
    &&& new.sell_asset == old.sell_asset
    &&& new.sell_amount == apply_fraction(old.sell_amount as int, ratio)
    &&& new.initial_sell_amount == old.initial_sell_amount
    &&& new.ask_for@.len() == old.ask_for@.len()
    &&& forall|j: int| 0 <= j < old.ask_for@.len() ==> {
        &&& (#[trigger] new.ask_for@[j]).amount == apply_fraction(old.ask_for@[j].amount as int, ratio)
        &&& new.ask_for@[j].initial_amount == old.ask_for@[j].initial_amount
        &&& new.ask_for@[j].asset == old.ask_for@[j].asset
    }
    &&& new.expires == old.expires
    &&& new.user_info == old.user_info
    &&& new.description == old.description
}

/// Checks a payment and returns the asset and amount it brings.
pub fn check_payment(payment: &Balance) -> (r: Result<(AssetId, u128), ContractError>)
    ensures
        r == payment_outcome(*payment),
{
    match payment {
        Balance::Native(coins) => {
            if coins.len() == 0 {
                Err(ContractError::WrongDenom)
            } else if coins.len() > 1 {
                Err(ContractError::TooManyDenoms)
            } else {
                Ok((AssetId::Native(coins[0].denom.clone()), coins[0].amount))
            }
        },
        Balance::Cw20(token) => Ok((AssetId::Cw20(token.address.clone()), token.amount)),
    }
}

/// The position of the first ask of `legs` for `asset`, if any.
pub fn find_leg(legs: &Vec<AskFor>, asset: &AssetId) -> (r: Option<usize>)
    ensures
        match r {
            Some(i) => first_leg(legs@, *asset, i as int),
            None => !asks_asset(legs@, *asset),
        },
{
    let mut i: usize = 0;
    while i < legs.len()
        invariant
            i <= legs@.len(),
            forall|j: int| 0 <= j < i ==> !same_asset(#[trigger] legs@[j].asset, *asset),
        decreases legs@.len() - i,
    {
        if legs[i].asset.same_as(asset) {
            return Some(i);
        }
        i = i + 1;
    }
    None
}

/// The first ask for an asset is the one `matched_leg` names.
pub proof fn lemma_matched_leg(o: OTCInfo, asset: AssetId, i: int)
    requires
        first_leg(o.ask_for@, asset, i),
    ensures
        matched_leg(o, asset) == o.ask_for@[i],
        asks_asset(o.ask_for@, asset),
{
    let c = choose|c: int| first_leg(o.ask_for@, asset, c);
    assert(first_leg(o.ask_for@, asset, c));
    if c < i {
        assert(!same_asset(o.ask_for@[c].asset, asset));
    } else if c > i {
        assert(!same_asset(o.ask_for@[i].asset, asset));
    }
}

} // verus!
