//! Making an offer: checking the deposit and the asks, and building the offer.

use vstd::prelude::*;
use crate::error::ContractError;
use crate::expiry::{expired, Block, Expiry};
use crate::msg::{Balance, Coin};
use crate::state::{distinct_legs, same_asset, AskFor, AssetId};

verus! {

/// The least amount an offer may escrow or a partial payment may bring.
pub const MIN_AMOUNT: u128 = 10000;

/// The expiration asked for, never by default.
pub open spec fn expiry_or_never(expires: Option<Expiry>) -> Expiry {
    match expires {
        Some(e) => e,
        None => Expiry::Never,
    }
}

/// What a deposit escrows: its asset and amount, or why it is refused.
/// Native funds must be a single coin.
pub open spec fn deposit_outcome(deposit: Balance) -> Result<(AssetId, u128), ContractError> {
    match deposit {
        Balance::Native(coins) => {
            if coins@.len() == 0 {
                Err(ContractError::TooSmall)
            } else if coins@.len() > 1 {
                Err(ContractError::TooManyGiveTokens)
            } else if coins@[0].amount < MIN_AMOUNT {
                Err(ContractError::TooSmall)
            } else {
                Ok((AssetId::Native(coins@[0].denom), coins@[0].amount))
            }
        },
        Balance::Cw20(token) => {
            if token.amount < MIN_AMOUNT {
                Err(ContractError::TooSmall)
            } else {
                Ok((AssetId::Cw20(token.address), token.amount))
            }
        },
    }
}

/// The ask that one native coin makes.
pub open spec fn coin_leg(c: Coin) -> AskFor {
    AskFor { initial_amount: c.amount, amount: c.amount, asset: AssetId::Native(c.denom) }
}

/// The asks that one requested balance makes, in order.
pub open spec fn balance_legs(b: Balance) -> Seq<AskFor> {
    match b {
        Balance::Native(coins) => coins@.map_values(|c: Coin| coin_leg(c)),
        Balance::Cw20(token) => seq![
            AskFor { initial_amount: token.amount, amount: token.amount, asset: AssetId::Cw20(token.address) },
        ],
    }
}

/// Why one requested balance is refused when `sell` is escrowed and the
/// earlier requests made the asks `prior`: a native request without coins,
/// or a request for the escrowed asset or for an asset already asked for.
pub open spec fn balance_error(sell: AssetId, prior: Seq<AskFor>, b: Balance) -> Option<ContractError> {
    if b is Native && b->Native_0@.len() == 0 {
        Some(ContractError::NoAskTokens)
    } else if !distinct_legs(sell, prior + balance_legs(b)) {
        Some(ContractError::SameToken)
    } else {
        None
    }
}

/// The first refusal among the requested balances, in order.
pub open spec fn asks_error(sell: AssetId, asks: Seq<Balance>) -> Option<ContractError>
    decreases asks.len(),
{
    if asks.len() == 0 {
        None
    } else {
        match asks_error(sell, asks.drop_last()) {
            Some(e) => Some(e),
            None => balance_error(sell, asks_legs(asks.drop_last()), asks.last()),
        }
    }
}

/// All the asks that the requested balances make, in order.
pub open spec fn asks_legs(asks: Seq<Balance>) -> Seq<AskFor>
    decreases asks.len(),
{
    if asks.len() == 0 {
        Seq::empty()
    } else {
        asks_legs(asks.drop_last()) + balance_legs(asks.last())
    }
}

/// Why a new offer is refused, first reason first: the engine is paused,
/// the expiration has passed, nothing is asked, the deposit is refused, or
/// a request is.
pub open spec fn create_error(
    active: bool,
    block: Block,
    deposit: Balance,
    asks: Seq<Balance>,
    expires: Option<Expiry>,
) -> Option<ContractError> {
    if !active {
        Some(ContractError::Stopped)
    } else if expired(expiry_or_never(expires), block) {
        Some(ContractError::Expired)
    } else if asks.len() == 0 {
        Some(ContractError::NoAskTokens)
    } else {
        match deposit_outcome(deposit) {
            Err(e) => Some(e),
            Ok(d) => asks_error(d.0, asks),
        }
    }
}

/// Checks a deposit and returns the asset and amount it escrows.
pub fn check_deposit(deposit: &Balance) -> (r: Result<(AssetId, u128), ContractError>)
    ensures
        r == deposit_outcome(*deposit),
{
    match deposit {
        Balance::Native(coins) => {
            if coins.len() == 0 {
                Err(ContractError::TooSmall)
            } else if coins.len() > 1 {
                Err(ContractError::TooManyGiveTokens)
            } else if coins[0].amount < MIN_AMOUNT {
                Err(ContractError::TooSmall)
            } else {
                Ok((AssetId::Native(coins[0].denom.clone()), coins[0].amount))
            }
        },
        Balance::Cw20(token) => {
            if token.amount < MIN_AMOUNT {
                Err(ContractError::TooSmall)
            } else {
                Ok((AssetId::Cw20(token.address.clone()), token.amount))
            }
        },
    }
}

/// Whether a new ask for `asset` would be for the escrowed asset `sell` or
/// for an asset that `legs` already asks for.
fn clashes(sell: &AssetId, legs: &Vec<AskFor>, asset: &AssetId) -> (r: bool)
    ensures
        r == (same_asset(*sell, *asset) || exists|j: int| 0 <= j < legs@.len() && same_asset(#[trigger] legs@[j].asset, *asset)),
{
    if sell.same_as(asset) {
        return true;
    }
    let mut j: usize = 0;
    while j < legs.len()
        invariant
            j <= legs@.len(),
            forall|k: int| 0 <= k < j ==> !same_asset(#[trigger] legs@[k].asset, *asset),
        decreases legs@.len() - j,
    {
        if legs[j].asset.same_as(asset) {
            return true;
        }
        j = j + 1;
    }
    false
}

/// Asks that stay distinct when one more ask, clashing with none of them
/// nor with `sell`, is added.
proof fn lemma_distinct_push(sell: AssetId, legs: Seq<AskFor>, leg: AskFor)
    requires
        distinct_legs(sell, legs),
        !same_asset(sell, leg.asset),
        forall|j: int| 0 <= j < legs.len() ==> !same_asset(#[trigger] legs[j].asset, leg.asset),
    ensures
        distinct_legs(sell, legs.push(leg)),
{
    let l = legs.push(leg);
    assert forall|i: int, j: int| 0 <= i < j < l.len() implies !same_asset(#[trigger] l[i].asset, #[trigger] l[j].asset) by {
        if j < legs.len() {
            assert(l[i] == legs[i] && l[j] == legs[j]);
        } else {
            assert(l[i] == legs[i] && l[j] == leg);
        }
    }
    assert forall|i: int| 0 <= i < l.len() implies !same_asset(sell, #[trigger] l[i].asset) by {
        if i < legs.len() {
            assert(l[i] == legs[i]);
        }
    }
}

/// An ask that clashes with `sell` or with an earlier ask breaks
/// distinctness of any list that extends the earlier asks with it.
proof fn lemma_clash_breaks(sell: AssetId, legs: Seq<AskFor>, leg: AskFor, whole: Seq<AskFor>)
    requires
        whole.len() > legs.len(),
        whole.subrange(0, legs.len() as int) == legs,
        whole[legs.len() as int] == leg,
        same_asset(sell, leg.asset) || exists|j: int| 0 <= j < legs.len() && same_asset(#[trigger] legs[j].asset, leg.asset),
    ensures
        !distinct_legs(sell, whole),
{
    let n = legs.len() as int;
    if same_asset(sell, leg.asset) {
        assert(!same_asset(sell, whole[n].asset) ==> false);
    } else {
        let j = choose|j: int| 0 <= j < legs.len() && same_asset(#[trigger] legs[j].asset, leg.asset);
        assert(whole[j] == whole.subrange(0, n)[j]);
        assert(same_asset(whole[j].asset, whole[n].asset));
    }
}

/// Appends the asks of one requested balance, or says why it is refused.
fn push_balance_legs(sell: &AssetId, b: &Balance, legs: &mut Vec<AskFor>) -> (r: Option<ContractError>)
    requires
        distinct_legs(*sell, old(legs)@),
    ensures
        r == balance_error(*sell, old(legs)@, *b),
        r is None ==> final(legs)@ == old(legs)@ + balance_legs(*b),
{
    let ghost start = legs@;
    let ghost whole = start + balance_legs(*b);
    match b {
        Balance::Native(coins) => {
            if coins.len() == 0 {
                return Some(ContractError::NoAskTokens);
            }
            let mut i: usize = 0;
            while i < coins.len()
                invariant
                    i <= coins@.len(),
                    coins@.len() > 0,
                    *b == Balance::Native(*coins),
                    whole == start + balance_legs(*b),
                    start == old(legs)@,
                    legs@ == start + coins@.subrange(0, i as int).map_values(|c: Coin| coin_leg(c)),
                    distinct_legs(*sell, legs@),
                decreases coins@.len() - i,
            {
                let leg = AskFor {
                    initial_amount: coins[i].amount,
                    amount: coins[i].amount,
                    asset: AssetId::Native(coins[i].denom.clone()),
                };
                assert(leg == coin_leg(coins@[i as int]));
                if clashes(sell, legs, &leg.asset) {
                    proof {
                        let all = coins@.map_values(|c: Coin| coin_leg(c));
                        assert(balance_legs(*b) == all);
                        assert(all[i as int] == coin_leg(coins@[i as int]));
                        assert(legs@.len() == start.len() + i);
                        assert(whole[legs@.len() as int] == all[i as int]);
                        assert forall|k: int| 0 <= k < legs@.len() implies whole[k] == legs@[k] by {
                            if k >= start.len() {
                                assert(all[k - start.len()] == coin_leg(coins@[k - start.len()]));
                            }
                        }
                        assert(whole.subrange(0, legs@.len() as int) =~= legs@);
                        assert(whole[legs@.len() as int] == leg);
                        lemma_clash_breaks(*sell, legs@, leg, whole);
                    }
                    return Some(ContractError::SameToken);
                }
                proof {
                    lemma_distinct_push(*sell, legs@, leg);
                }
                legs.push(leg);
                assert(coins@.subrange(0, i + 1).map_values(|c: Coin| coin_leg(c))
                    =~= coins@.subrange(0, i as int).map_values(|c: Coin| coin_leg(c)).push(coin_leg(coins@[i as int])));
                i = i + 1;
            }
            assert(coins@.subrange(0, coins@.len() as int) =~= coins@);
            assert(legs@ =~= whole);
            None
        },
        Balance::Cw20(token) => {
            let asset = AssetId::Cw20(token.address.clone());
            let leg = AskFor { initial_amount: token.amount, amount: token.amount, asset };
            if clashes(sell, legs, &leg.asset) {
                proof {
                    assert(whole.subrange(0, legs@.len() as int) =~= legs@);
                    assert(whole[legs@.len() as int] == leg);
                    lemma_clash_breaks(*sell, legs@, leg, whole);
                }
                return Some(ContractError::SameToken);
            }
            proof {
                lemma_distinct_push(*sell, legs@, leg);
            }
            legs.push(leg);
            assert(legs@ =~= whole);
            None
        },
    }
}

/// Builds the asks of a new offer escrowing `sell`, or says why the
/// requested balances are refused.
pub fn build_legs(sell: &AssetId, asks: &Vec<Balance>) -> (r: Result<Vec<AskFor>, ContractError>)
    ensures
        match asks_error(*sell, asks@) {
            Some(e) => r == Err::<Vec<AskFor>, ContractError>(e),
            None => r is Ok && r->Ok_0@ == asks_legs(asks@),
        },
{
    let mut legs: Vec<AskFor> = Vec::new();
    let mut i: usize = 0;
    while i < asks.len()
        invariant
            i <= asks@.len(),
            asks_error(*sell, asks@.subrange(0, i as int)) is None,
            legs@ == asks_legs(asks@.subrange(0, i as int)),
            distinct_legs(*sell, legs@),
        decreases asks@.len() - i,
    {
        let ghost prefix = asks@.subrange(0, i + 1);
        assert(prefix.drop_last() =~= asks@.subrange(0, i as int));
        assert(prefix.last() == asks@[i as int]);
        match push_balance_legs(sell, &asks[i], &mut legs) {
            Some(e) => {
                proof {
                    lemma_first_error_kept(*sell, asks@, i as int + 1);
                }
                return Err(e);
            },
            None => {},
        }
        i = i + 1;
        proof {
            lemma_accepted_distinct(*sell, asks@.subrange(0, i as int));
        }
    }
    assert(asks@.subrange(0, asks@.len() as int) =~= asks@);
    Ok(legs)
}

/// Accepted requests make asks for distinct assets other than `sell`.
pub proof fn lemma_accepted_distinct(sell: AssetId, asks: Seq<Balance>)
    requires
        asks_error(sell, asks) is None,
    ensures
        distinct_legs(sell, asks_legs(asks)),
{
    if asks.len() > 0 {
        assert(asks_legs(asks) == asks_legs(asks.drop_last()) + balance_legs(asks.last()));
    }
}

/// Once a prefix of the requests is refused, the whole list is refused for
/// the same reason.
proof fn lemma_first_error_kept(sell: AssetId, asks: Seq<Balance>, n: int)
    requires
        0 <= n <= asks.len(),
        asks_error(sell, asks.subrange(0, n)) is Some,
    ensures
        asks_error(sell, asks) == asks_error(sell, asks.subrange(0, n)),
    decreases asks.len() - n,
{
    if n < asks.len() {
        let longer = asks.subrange(0, n + 1);
        assert(longer.drop_last() =~= asks.subrange(0, n));
        lemma_first_error_kept(sell, asks, n + 1);
    } else {
        assert(asks.subrange(0, n) =~= asks);
    }
}

/// Every ask of a new offer still wants all it asked for.
pub proof fn lemma_legs_unspent(asks: Seq<Balance>)
    ensures
        forall|j: int| 0 <= j < asks_legs(asks).len()
            ==> (#[trigger] asks_legs(asks)[j]).amount == asks_legs(asks)[j].initial_amount,
    decreases asks.len(),
{
    if asks.len() > 0 {
        lemma_legs_unspent(asks.drop_last());
        let front = asks_legs(asks.drop_last());
        let back = balance_legs(asks.last());
        assert(asks_legs(asks) == front + back);
        assert forall|j: int| 0 <= j < asks_legs(asks).len()
            implies (#[trigger] asks_legs(asks)[j]).amount == asks_legs(asks)[j].initial_amount by {
            if j >= front.len() {
                assert(asks_legs(asks)[j] == back[j - front.len()]);
            } else {
                assert(asks_legs(asks)[j] == front[j]);
            }
        }
    }
}

} // verus!
