//! Properties that hold across the engine's commands.

use vstd::prelude::*;
use crate::contract::{created, offer_at, swapped, swept};
use crate::create::{
    asks_error, asks_legs, balance_legs, deposit_outcome,
    expiry_or_never, MIN_AMOUNT,
};
use crate::error::ContractError;
use crate::expiry::{expired, Block, Expiry};
use crate::msg::{Balance, Response};
use crate::fixed::{apply_fraction, FRACTIONAL};
use crate::settle::{asks_asset, kept_amount, matched_leg, payment_outcome, shrunk, swap_error, swap_ratio};
use crate::state::{distinct_legs, same_asset, AskFor, AssetId, UserInfo};
use crate::store::{has_id, Store};

verus! {

/// Every native request names at least one coin.
pub open spec fn no_empty_requests(asks: Seq<Balance>) -> bool {
    forall|i: int| 0 <= i < asks.len() ==> match #[trigger] asks[i] {
        Balance::Native(coins) => coins@.len() > 0,
        Balance::Cw20(_) => true,
    }
}

/// Some requested ask is for the asset `sell`.
pub open spec fn asks_for_asset(sell: AssetId, asks: Seq<Balance>) -> bool {
    exists|j: int| 0 <= j < asks_legs(asks).len() && same_asset(sell, #[trigger] asks_legs(asks)[j].asset)
}

/// Asks that are not distinct stay so when more asks follow.
pub proof fn lemma_clash_kept(sell: AssetId, front: Seq<AskFor>, back: Seq<AskFor>)
    requires
        !distinct_legs(sell, front),
    ensures
        !distinct_legs(sell, front + back),
{
    let whole = front + back;
    if exists|i: int| 0 <= i < front.len() && same_asset(sell, #[trigger] front[i].asset) {
        let i = choose|i: int| 0 <= i < front.len() && same_asset(sell, #[trigger] front[i].asset);
        assert(whole[i] == front[i]);
    } else {
        let (i, j) = choose|i: int, j: int|
            0 <= i < j < front.len() && same_asset(#[trigger] front[i].asset, #[trigger] front[j].asset);
        assert(whole[i] == front[i]);
        assert(whole[j] == front[j]);
    }
}

/// With no empty native request, the requests are refused exactly when an
/// ask is for the escrowed asset or two asks are for the same asset, and
/// then with `SameToken`.
pub proof fn lemma_asks_refused_on_clash(sell: AssetId, asks: Seq<Balance>)
    requires
        no_empty_requests(asks),
    ensures
        asks_error(sell, asks) is Some <==> !distinct_legs(sell, asks_legs(asks)),
        asks_error(sell, asks) is Some ==> asks_error(sell, asks) == Some(ContractError::SameToken),
    decreases asks.len(),
{
    if asks.len() > 0 {
        let init = asks.drop_last();
        let last = asks.last();
        assert(no_empty_requests(init)) by {
            assert forall|i: int| 0 <= i < init.len() implies match #[trigger] init[i] {
                Balance::Native(coins) => coins@.len() > 0,
                Balance::Cw20(_) => true,
            } by {
                assert(init[i] == asks[i]);
            }
        }
        assert(match last {
            Balance::Native(coins) => coins@.len() > 0,
            Balance::Cw20(_) => true,
        }) by {
            assert(asks[asks.len() - 1] == last);
        }
        lemma_asks_refused_on_clash(sell, init);
        assert(asks_legs(asks) == asks_legs(init) + balance_legs(last));
        if asks_error(sell, init) is Some {
            lemma_clash_kept(sell, asks_legs(init), balance_legs(last));
        }
    }
}

/// No self-swap: an offer whose requests ask for the very asset it escrows,
/// or ask twice for one asset, is refused with `SameToken` (once the engine
/// is active, the expiration is ahead, the deposit is accepted and no
/// native request is empty); an accepted offer never asks for its own
/// asset and asks for each asset at most once.
pub proof fn lemma_no_self_swap(
    old: Store,
    new: Store,
    r: Result<Response, ContractError>,
    block: Block,
    seller: String,
    deposit: Balance,
    asks: Seq<Balance>,
    expires: Option<Expiry>,
    user_info: Option<UserInfo>,
    description: Option<String>,
)
    requires
        created(old, new, r, block, seller, deposit, asks, expires, user_info, description),
        old.state.active,
        !expired(expiry_or_never(expires), block),
        asks.len() > 0,
        deposit_outcome(deposit) is Ok,
        no_empty_requests(asks),
    ensures
        !distinct_legs(deposit_outcome(deposit)->Ok_0.0, asks_legs(asks))
            ==> r == Err::<Response, ContractError>(ContractError::SameToken) && new == old,
        asks_for_asset(deposit_outcome(deposit)->Ok_0.0, asks)
            ==> r == Err::<Response, ContractError>(ContractError::SameToken) && new == old,
        r is Ok ==> !asks_for_asset(deposit_outcome(deposit)->Ok_0.0, asks)
            && distinct_legs(deposit_outcome(deposit)->Ok_0.0, asks_legs(asks)),
{
    lemma_asks_refused_on_clash(deposit_outcome(deposit)->Ok_0.0, asks);
}

/// Dust floor on creation: a deposit of a single coin or token below the
/// least amount is refused with `TooSmall` (once the engine is active, the
/// expiration is ahead and something is asked).
pub proof fn lemma_create_dust_floor(
    old: Store,
    new: Store,
    r: Result<Response, ContractError>,
    block: Block,
    seller: String,
    deposit: Balance,
    asks: Seq<Balance>,
    expires: Option<Expiry>,
    user_info: Option<UserInfo>,
    description: Option<String>,
)
    requires
        created(old, new, r, block, seller, deposit, asks, expires, user_info, description),
        old.state.active,
        !expired(expiry_or_never(expires), block),
        asks.len() > 0,
        match deposit {
            Balance::Native(coins) => coins@.len() == 1 && coins@[0].amount < MIN_AMOUNT,
            Balance::Cw20(token) => token.amount < MIN_AMOUNT,
        },
    ensures
        r == Err::<Response, ContractError>(ContractError::TooSmall),
        new == old,
{
}

/// Dust floor on swaps: a well-formed payment for an asset that an open
/// offer asks for, below the least amount, is refused with `TooSmall`
/// unless it is exactly what that ask still wants, in which case it is
/// settled.
pub proof fn lemma_swap_dust_floor(
    old: Store,
    new: Store,
    r: Result<Response, ContractError>,
    block: Block,
    payer: String,
    otc_id: u32,
    payment: Balance,
    k: int,
)
    requires
        swapped(old, new, r, block, payer, otc_id, payment),
        offer_at(old.otcs@, otc_id, k),
        !expired(old.otcs@[k].1.expires, block),
        payment_outcome(payment) is Ok,
        asks_asset(old.otcs@[k].1.ask_for@, payment_outcome(payment)->Ok_0.0),
        payment_outcome(payment)->Ok_0.1 < MIN_AMOUNT,
    ensures
        ({
            let p = payment_outcome(payment)->Ok_0;
            if p.1 == matched_leg(old.otcs@[k].1, p.0).amount {
                r is Ok
            } else {
                r == Err::<Response, ContractError>(ContractError::TooSmall) && new == old
            }
        }),
{
}

/// Completion: a settled swap removes the offer exactly when nothing of its
/// escrow is left, and otherwise keeps it with what is left.
pub proof fn lemma_completion(
    old: Store,
    new: Store,
    r: Result<Response, ContractError>,
    block: Block,
    payer: String,
    otc_id: u32,
    payment: Balance,
    k: int,
)
    requires
        old.wf(),
        swapped(old, new, r, block, payer, otc_id, payment),
        offer_at(old.otcs@, otc_id, k),
        swap_error(old.otcs@[k].1, block, payment) is None,
    ensures
        ({
            let p = payment_outcome(payment)->Ok_0;
            let kept = kept_amount(old.otcs@[k].1, p.0, p.1);
            &&& !has_id(new.otcs@, otc_id) <==> kept <= 0
            &&& kept > 0 ==> new.otcs@[k].0 == otc_id && new.otcs@[k].1.sell_amount == kept
        }),
{
    let p = payment_outcome(payment)->Ok_0;
    let kept = kept_amount(old.otcs@[k].1, p.0, p.1);
    if kept <= 0 {
        assert(new.otcs@ == old.otcs@.remove(k));
        if has_id(new.otcs@, otc_id) {
            let j = choose|j: int| 0 <= j < new.otcs@.len() && new.otcs@[j].0 == otc_id;
            if j < k {
                assert(new.otcs@[j] == old.otcs@[j]);
                assert(old.otcs@[j].0 < old.otcs@[k].0);
            } else {
                assert(new.otcs@[j] == old.otcs@[j + 1]);
                assert(old.otcs@[k].0 < old.otcs@[j + 1].0);
            }
        }
    } else {
        assert(new.otcs@[k].0 == otc_id);
    }
}

/// Idempotent sweep: a second sweep at the same block, with no offer made
/// in between, refunds nothing and leaves the offers as they are.
pub proof fn lemma_second_sweep_refunds_nothing(
    first: Store,
    middle: Store,
    last: Store,
    r1: Response,
    r2: Response,
    block: Block,
)
    requires
        swept(first, middle, r1, block),
        swept(middle, last, r2, block),
    ensures
        r2.messages@.len() == 0,
        last.otcs@ == middle.otcs@,
{
    crate::sweep::lemma_sweep_idempotent(first.otcs@, block);
}

/// `part` is `whole` times the fraction `ratio`, to within the one atomic
/// unit that rounding down may drop.
pub open spec fn scaled_within_rounding(part: int, whole: int, ratio: int) -> bool {
    part * (FRACTIONAL as int) <= whole * ratio < (part + 1) * (FRACTIONAL as int)
}

/// Rounding down a fraction of an amount drops less than one unit.
pub proof fn lemma_fraction_rounding(amount: int, ratio: int)
    requires
        0 <= amount,
        0 <= ratio,
    ensures
        scaled_within_rounding(apply_fraction(amount, ratio), amount, ratio),
{
    let f = FRACTIONAL as int;
    let q = apply_fraction(amount, ratio);
    assert(q == (amount * ratio) / f);
    assert(q * f <= amount * ratio < (q + 1) * f) by (nonlinear_arith)
        requires q == (amount * ratio) / f, f > 0, amount * ratio >= 0;
}

/// Proportional shrink: after a partial swap the escrow and every ask of
/// the offer keep the same share of what they were, the share that the
/// payment left unmet, each to within one unit of rounding.
pub proof fn lemma_proportional_shrink(
    old: Store,
    new: Store,
    r: Result<Response, ContractError>,
    block: Block,
    payer: String,
    otc_id: u32,
    payment: Balance,
    k: int,
)
    requires
        swapped(old, new, r, block, payer, otc_id, payment),
        offer_at(old.otcs@, otc_id, k),
        swap_error(old.otcs@[k].1, block, payment) is None,
        kept_amount(old.otcs@[k].1, payment_outcome(payment)->Ok_0.0, payment_outcome(payment)->Ok_0.1) > 0,
    ensures
        ({
            let o = old.otcs@[k].1;
            let n = new.otcs@[k].1;
            let ratio = swap_ratio(o, payment_outcome(payment)->Ok_0.0, payment_outcome(payment)->Ok_0.1);
            &&& 0 <= ratio <= FRACTIONAL as int
            &&& scaled_within_rounding(n.sell_amount as int, o.sell_amount as int, ratio)
            &&& n.ask_for@.len() == o.ask_for@.len()
            &&& forall|j: int| 0 <= j < o.ask_for@.len() ==> scaled_within_rounding(
                (#[trigger] n.ask_for@[j]).amount as int,
                o.ask_for@[j].amount as int,
                ratio,
            )
        }),
{
    let o = old.otcs@[k].1;
    let n = new.otcs@[k].1;
    let p = payment_outcome(payment)->Ok_0;
    let ratio = swap_ratio(o, p.0, p.1);
    let wanted = matched_leg(o, p.0).amount;
    if wanted > p.1 {
        crate::fixed::lemma_ratio_bounded((wanted - p.1) as int, wanted as int);
    }
    assert(shrunk(o, n, ratio));
    lemma_fraction_rounding(o.sell_amount as int, ratio);
    assert forall|j: int| 0 <= j < o.ask_for@.len() implies scaled_within_rounding(
        (#[trigger] n.ask_for@[j]).amount as int,
        o.ask_for@[j].amount as int,
        ratio,
    ) by {
        lemma_fraction_rounding(o.ask_for@[j].amount as int, ratio);
    }
}

} // verus!
