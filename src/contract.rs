//! The commands of the engine: set-up, creating, swapping, cancelling,
//! pausing and sweeping offers.

use vstd::prelude::*;
use crate::create::{
    asks_legs, build_legs, check_deposit, create_error, deposit_outcome, expiry_or_never, MIN_AMOUNT,
};
use crate::error::ContractError;
use crate::expiry::{expiration_reached, expired, Block, Expiry};
use crate::fixed::{apply_fraction, fee_of, fee_rate, remaining_fraction, scale, FRACTIONAL};
use crate::msg::{
    Balance, Coin, Cw20Coin, Cw20ReceiveMsg, Event, ExecuteMsg, InstantiateMsg, NewOTCResponse, ReceiveMsg,
    Refund, Response, Transfer,
};
use crate::settle::{
    check_payment, find_leg, kept_amount, lemma_matched_leg, payment_outcome,
    released_amount, shrunk, swap_error, swap_ratio,
};
use crate::state::{offer_valid, same_offer, AskFor, AssetId, OTCInfo, State, UserInfo};
use crate::store::{all_live, ascending, first_free, has_id, probe, Store};
use crate::sweep::{expired_offers, live_offers, refund_of, refund_record};

verus! {

/// The fee rate given, or the default.
pub open spec fn fee_or(fee: Option<u16>, default: u16) -> u16 {
    match fee {
        Some(f) => f,
        None => default,
    }
}

/// The state of a fresh engine set up by `sender`: active, no offers, the
/// fee rates of `msg` (two basis points for the taker and one for the maker
/// by default). Fee rates above one whole are not accepted.
pub fn instantiate(sender: &String, msg: InstantiateMsg) -> (r: (Store, Response))
    requires
        fee_or(msg.taker_fee, 2) <= 10000,
        fee_or(msg.maker_fee, 1) <= 10000,
    ensures
        r.0.wf(),
        r.0.otcs@.len() == 0,
        r.0.state == (State {
            admin: *sender,
            index: 0,
            active: true,
            taker_fee: fee_or(msg.taker_fee, 2),
            maker_fee: fee_or(msg.maker_fee, 1),
        }),
        r.1.messages@.len() == 0,
        r.1.event == (Event::Instantiated { owner: *sender }),
        r.1.data is None,
{
    let taker_fee = match msg.taker_fee {
        Some(f) => f,
        None => 2,
    };
    let maker_fee = match msg.maker_fee {
        Some(f) => f,
        None => 1,
    };
    let state = State { admin: sender.clone(), index: 0, active: true, taker_fee, maker_fee };
    let store = Store { state, otcs: Vec::new() };
    let response = Response {
        messages: Vec::new(),
        event: Event::Instantiated { owner: sender.clone() },
        data: None,
    };
    (store, response)
}

/// What a set-active call does: refuses a sender other than the admin,
/// leaving the store as it was, or sets the active flag.
pub open spec fn active_set(
    old: Store,
    new: Store,
    r: Result<Response, ContractError>,
    sender: String,
    active: bool,
) -> bool {
    &&& sender@ != old.state.admin@ ==> r == Err::<Response, ContractError>(ContractError::Unauthorized)
        && new == old
    &&& sender@ == old.state.admin@ ==> r is Ok && new.otcs == old.otcs
        && new.state == (State { active, ..old.state })
        && r->Ok_0.messages@.len() == 0 && r->Ok_0.event == (Event::ActiveSet { active })
        && r->Ok_0.data is None
}

/// Pauses or resumes the taking of new offers; only the admin may.
pub fn try_set_active(store: &mut Store, sender: &String, active: bool) -> (r: Result<Response, ContractError>)
    requires
        old(store).wf(),
    ensures
        final(store).wf(),
        active_set(*old(store), *final(store), r, *sender, active),
{
    if *sender != store.state.admin {
        return Err(ContractError::Unauthorized);
    }
    store.state.active = active;
    Ok(Response { messages: Vec::new(), event: Event::ActiveSet { active }, data: None })
}

/// `o` is the offer that `seller` makes by depositing `deposit` and asking
/// for `asks`.
pub open spec fn offer_made(
    o: OTCInfo,
    seller: String,
    deposit: Balance,
    asks: Seq<Balance>,
    expires: Option<Expiry>,
    user_info: Option<UserInfo>,
    description: Option<String>,
) -> bool {
    let d = deposit_outcome(deposit)->Ok_0;
    &&& o.seller == seller
    &&& o.sell_asset == d.0
    &&& o.sell_amount == d.1
    &&& o.initial_sell_amount == d.1
    &&& o.ask_for@ == asks_legs(asks)
    &&& o.expires == expiry_or_never(expires)
    &&& o.user_info == user_info
    &&& o.description == description
}

/// What a create call does: refuses for the first reason there is, leaving
/// the store as it was, or stores the new offer under the first free id and
/// answers with the id and the offer.
pub open spec fn created(
    old: Store,
    new: Store,
    r: Result<Response, ContractError>,
    block: Block,
    seller: String,
    sell_balance: Balance,
    ask_balances: Seq<Balance>,
    expires: Option<Expiry>,
    user_info: Option<UserInfo>,
    description: Option<String>,
) -> bool {
    match create_error(old.state.active, block, sell_balance, ask_balances, expires) {
        Some(e) => r == Err::<Response, ContractError>(e) && new == old,
        None => match r {
            Err(e) => e == ContractError::NoFreeId && new == old
                && forall|j: int| 0 <= j < 0x1_0000_0000
                    ==> has_id(old.otcs@, #[trigger] probe(old.state.index, j)),
            Ok(resp) => {
                let id = resp.data->Some_0.id;
                &&& resp.data is Some
                &&& resp.messages@.len() == 0
                &&& first_free(old.otcs@, old.state.index, id)
                &&& new.state == (State { index: id, ..old.state })
                &&& exists|i: int| 0 <= i <= old.otcs@.len()
                    && new.otcs@ == old.otcs@.insert(i, (id, new.otcs@[i].1))
                    && offer_made(new.otcs@[i].1, seller, sell_balance, ask_balances,
                        expires, user_info, description)
                    && same_offer(resp.data->Some_0.otc, new.otcs@[i].1)
                &&& resp.event == (Event::Created {
                    otc_id: id,
                    seller: seller,
                    amount: deposit_outcome(sell_balance)->Ok_0.1,
                    token: deposit_outcome(sell_balance)->Ok_0.0,
                })
            },
        },
    }
}

/// Makes an offer: escrows the deposit of `seller`, records what is asked
/// for it, and gives it the first free id from the stored cursor on. The
/// response carries the id and the offer.
pub fn try_create_otc(
    store: &mut Store,
    block: Block,
    seller: &String,
    sell_balance: Balance,
    ask_balances: Vec<Balance>,
    expires: Option<Expiry>,
    user_info: Option<UserInfo>,
    description: Option<String>,
) -> (r: Result<Response, ContractError>)
    requires
        old(store).wf(),
    ensures
        final(store).wf(),
        created(*old(store), *final(store), r, block, *seller, sell_balance, ask_balances@, expires, user_info,
            description),
{
    if !store.state.active {
        return Err(ContractError::Stopped);
    }
    let expires_at = match expires {
        Some(e) => e,
        None => Expiry::Never,
    };
    if expiration_reached(expires_at, block) {
        return Err(ContractError::Expired);
    }
    if ask_balances.len() == 0 {
        return Err(ContractError::NoAskTokens);
    }
    let (sell_asset, sell_amount) = match check_deposit(&sell_balance) {
        Ok(d) => d,
        Err(e) => {
            return Err(e);
        },
    };
    let ask_for = match build_legs(&sell_asset, &ask_balances) {
        Ok(legs) => legs,
        Err(e) => {
            return Err(e);
        },
    };
    let id = match store.free_id(store.state.index) {
        Some(id) => id,
        None => {
            return Err(ContractError::NoFreeId);
        },
    };
    let token = sell_asset.duplicate();
    let offer = OTCInfo {
        seller: seller.clone(),
        sell_asset,
        sell_amount,
        initial_sell_amount: sell_amount,
        ask_for,
        expires: expires_at,
        user_info,
        description,
    };
    proof {
        crate::create::lemma_legs_unspent(ask_balances@);
    }
    let copy = offer.duplicate();
    let ghost before = store.otcs@;
    store.insert_new(id, offer);
    store.state.index = id;
    proof {
        let i = choose|i: int| 0 <= i <= before.len() && store.otcs@ == before.insert(i, (id, offer));
        assert(store.otcs@[i].1 == offer);
        assert(all_live(store.otcs@)) by {
            assert forall|j: int| 0 <= j < store.otcs@.len() implies offer_valid(store.otcs@[j].1) by {
                if j < i {
                    assert(store.otcs@[j] == before[j]);
                } else if j > i {
                    assert(store.otcs@[j] == before[j - 1]);
                }
            }
        }
    }
    Ok(Response {
        messages: Vec::new(),
        event: Event::Created { otc_id: id, seller: seller.clone(), amount: sell_amount, token },
        data: Some(NewOTCResponse { id, otc: copy }),
    })
}

/// The asks scaled by the fraction `ratio` (at most one whole).
pub fn shrink_asks(legs: &Vec<AskFor>, ratio: u128) -> (r: Vec<AskFor>)
    requires
        ratio <= FRACTIONAL,
    ensures
        r@.len() == legs@.len(),
        forall|j: int| 0 <= j < legs@.len() ==> {
            &&& (#[trigger] r@[j]).amount == apply_fraction(legs@[j].amount as int, ratio as int)
            &&& r@[j].amount <= legs@[j].amount
            &&& r@[j].initial_amount == legs@[j].initial_amount
            &&& r@[j].asset == legs@[j].asset
        },
{
    let mut r: Vec<AskFor> = Vec::new();
    let mut i: usize = 0;
    while i < legs.len()
        invariant
            i <= legs@.len(),
            ratio <= FRACTIONAL,
            r@.len() == i,
            forall|j: int| 0 <= j < i ==> {
                &&& (#[trigger] r@[j]).amount == apply_fraction(legs@[j].amount as int, ratio as int)
                &&& r@[j].amount <= legs@[j].amount
                &&& r@[j].initial_amount == legs@[j].initial_amount
                &&& r@[j].asset == legs@[j].asset
            },
        decreases legs@.len() - i,
    {
        let leg = &legs[i];
        r.push(AskFor { initial_amount: leg.initial_amount, amount: scale(leg.amount, ratio), asset: leg.asset.duplicate() });
        i = i + 1;
    }
    r
}

/// The four transfers of a settled swap: the payment, less the taker fee,
/// to the seller, and that fee to the admin; the released escrow, less the
/// maker fee, to the payer, and that fee to the admin.
pub open spec fn swap_transfers(
    state: State,
    o: OTCInfo,
    payer: String,
    paid: (AssetId, u128),
    released: int,
) -> Seq<Transfer> {
    let taker = apply_fraction(paid.1 as int, fee_rate(state.taker_fee));
    let maker = apply_fraction(released, fee_rate(state.maker_fee));
    seq![
        Transfer { recipient: o.seller, asset: paid.0, amount: (paid.1 - taker) as u128 },
        Transfer { recipient: state.admin, asset: paid.0, amount: taker as u128 },
        Transfer { recipient: payer, asset: o.sell_asset, amount: (released - maker) as u128 },
        Transfer { recipient: state.admin, asset: o.sell_asset, amount: maker as u128 },
    ]
}

/// The entry at position `k` of `s` is the offer with id `id`.
pub open spec fn offer_at(s: Seq<(u32, OTCInfo)>, id: u32, k: int) -> bool {
    0 <= k < s.len() && s[k].0 == id
}

/// What a swap call does: refuses when the offer is missing or for the
/// first reason there is, leaving the store as it was; or settles the
/// payment against the offer.
pub open spec fn swapped(
    old: Store,
    new: Store,
    r: Result<Response, ContractError>,
    block: Block,
    payer: String,
    otc_id: u32,
    balance: Balance,
) -> bool {
    &&& (!has_id(old.otcs@, otc_id) ==> r == Err::<Response, ContractError>(ContractError::NotFound)
        && new == old)
    &&& forall|k: int| #[trigger] offer_at(old.otcs@, otc_id, k) ==> {
        let o = old.otcs@[k].1;
        let paid = payment_outcome(balance)->Ok_0;
        let kept = kept_amount(o, paid.0, paid.1);
        let released = released_amount(o, paid.0, paid.1);
        match swap_error(o, block, balance) {
            Some(e) => r == Err::<Response, ContractError>(e) && new == old,
            None => {
                &&& r is Ok
                &&& new.state == old.state
                &&& r->Ok_0.messages@ == swap_transfers(old.state, o, payer, paid, released)
                &&& r->Ok_0.messages@[0].amount + r->Ok_0.messages@[1].amount == paid.1
                &&& r->Ok_0.messages@[2].amount + r->Ok_0.messages@[3].amount == released
                &&& r->Ok_0.event == (Event::Swapped {
                    completed: kept == 0,
                    seller: o.seller,
                    otc_id,
                    given_amount: released as u128,
                    given_token: o.sell_asset,
                    sent_amount: paid.1,
                    sent_token: paid.0,
                })
                &&& r->Ok_0.data is None
                &&& kept == 0 ==> new.otcs@ == old.otcs@.remove(k)
                &&& kept > 0 ==> new.otcs@.len() == old.otcs@.len()
                    && new.otcs@ == old.otcs@.update(k, (otc_id, new.otcs@[k].1))
                    && shrunk(o, new.otcs@[k].1, swap_ratio(o, paid.0, paid.1))
            },
        }
    }
}

/// Takes a payment from `payer` against offer `otc_id`. The payment meets
/// the first ask for its asset; what share of that ask it meets, that share
/// of the escrow is released, and the escrow and every ask shrink to what
/// is left. An offer with nothing left is removed. `native` says which way
/// the payment came, and must match its kind.
pub fn try_swap(
    store: &mut Store,
    block: Block,
    payer: &String,
    otc_id: u32,
    balance: Balance,
    native: bool,
) -> (r: Result<Response, ContractError>)
    requires
        old(store).wf(),
        native == (balance is Native),
    ensures
        final(store).wf(),
        swapped(*old(store), *final(store), r, block, *payer, otc_id, balance),
{
    let k = match store.position(otc_id) {
        Some(k) => k,
        None => {
            return Err(ContractError::NotFound);
        },
    };
    let ghost o = store.otcs@[k as int].1;
    assert forall|k2: int| #[trigger] offer_at(store.otcs@, otc_id, k2) implies k2 == k by {
        if k2 < k {
            assert(store.otcs@[k2].0 < store.otcs@[k as int].0);
        } else if k2 > k {
            assert(store.otcs@[k as int].0 < store.otcs@[k2].0);
        }
    }
    if expiration_reached(store.otcs[k].1.expires, block) {
        return Err(ContractError::Expired);
    }
    let (paid_asset, paid) = match check_payment(&balance) {
        Ok(p) => p,
        Err(e) => {
            return Err(e);
        },
    };
    let i = match find_leg(&store.otcs[k].1.ask_for, &paid_asset) {
        Some(i) => i,
        None => {
            return Err(ContractError::WrongDenom);
        },
    };
    proof {
        lemma_matched_leg(o, paid_asset, i as int);
    }
    let wanted = store.otcs[k].1.ask_for[i].amount;
    if paid != wanted && paid < MIN_AMOUNT {
        return Err(ContractError::TooSmall);
    }
    let ratio = remaining_fraction(wanted, paid);
    let sell_amount = store.otcs[k].1.sell_amount;
    let kept = scale(sell_amount, ratio);
    let released = sell_amount - kept;
    let taker_fee = fee_of(paid, store.state.taker_fee);
    let maker_fee = fee_of(released, store.state.maker_fee);
    let mut messages: Vec<Transfer> = Vec::new();
    messages.push(Transfer { recipient: store.otcs[k].1.seller.clone(), asset: paid_asset.duplicate(), amount: paid - taker_fee });
    messages.push(Transfer { recipient: store.state.admin.clone(), asset: paid_asset.duplicate(), amount: taker_fee });
    messages.push(Transfer { recipient: payer.clone(), asset: store.otcs[k].1.sell_asset.duplicate(), amount: released - maker_fee });
    messages.push(Transfer { recipient: store.state.admin.clone(), asset: store.otcs[k].1.sell_asset.duplicate(), amount: maker_fee });
    let event = Event::Swapped {
        completed: kept == 0,
        seller: store.otcs[k].1.seller.clone(),
        otc_id,
        given_amount: released,
        given_token: store.otcs[k].1.sell_asset.duplicate(),
        sent_amount: paid,
        sent_token: paid_asset,
    };
    let ghost before = store.otcs@;
    assert(offer_valid(before[k as int].1));
    let (id, offer) = store.otcs.remove(k);
    if kept > 0 {
        let ask_for = shrink_asks(&offer.ask_for, ratio);
        let updated = OTCInfo {
            seller: offer.seller,
            sell_asset: offer.sell_asset,
            sell_amount: kept,
            initial_sell_amount: offer.initial_sell_amount,
            ask_for,
            expires: offer.expires,
            user_info: offer.user_info,
            description: offer.description,
        };
        assert(offer_valid(offer));
        assert(offer_valid(updated)) by {
            assert forall|j: int| 0 <= j < updated.ask_for@.len() implies (#[trigger] updated.ask_for@[j]).amount
                <= updated.ask_for@[j].initial_amount by {
                assert(offer.ask_for@[j].amount <= offer.ask_for@[j].initial_amount);
            }
        }
        store.otcs.insert(k, (id, updated));
        assert(store.otcs@ =~= before.update(k as int, (otc_id, updated)));
        assert(all_live(store.otcs@)) by {
            assert forall|j: int| 0 <= j < store.otcs@.len() implies offer_valid(store.otcs@[j].1) by {
                if j != k {
                    assert(store.otcs@[j] == before[j]);
                }
            }
        }
    } else {
        assert(all_live(store.otcs@)) by {
            assert forall|j: int| 0 <= j < store.otcs@.len() implies offer_valid(store.otcs@[j].1) by {
                if j < k {
                    assert(store.otcs@[j] == before[j]);
                } else {
                    assert(store.otcs@[j] == before[j + 1]);
                }
            }
        }
    }
    assert(messages@ =~= swap_transfers(store.state, o, *payer, (paid_asset, paid), released as int));
    Ok(Response { messages, event, data: None })
}

/// The transfer that gives the whole escrow of `otc` back to its seller.
pub fn refund_payment(otc: &OTCInfo) -> (r: Transfer)
    ensures
        r == refund_of(*otc),
{
    Transfer { recipient: otc.seller.clone(), asset: otc.sell_asset.duplicate(), amount: otc.sell_amount }
}

/// What a cancel call does: refuses a missing offer or a sender other than
/// its seller, leaving the store as it was; or removes the offer and gives
/// its escrow back to the seller.
pub open spec fn cancelled(
    old: Store,
    new: Store,
    r: Result<Response, ContractError>,
    sender: String,
    otc_id: u32,
) -> bool {
    &&& (!has_id(old.otcs@, otc_id) ==> r == Err::<Response, ContractError>(ContractError::NotFound)
        && new == old)
    &&& forall|k: int| #[trigger] offer_at(old.otcs@, otc_id, k) ==> {
        let o = old.otcs@[k].1;
        if sender@ != o.seller@ {
            r == Err::<Response, ContractError>(ContractError::Unauthorized) && new == old
        } else {
            &&& r is Ok
            &&& new.state == old.state
            &&& new.otcs@ == old.otcs@.remove(k)
            &&& r->Ok_0.messages@ == seq![refund_of(o)]
            &&& r->Ok_0.event == (Event::Cancelled { otc_id, amount: o.sell_amount, token: o.sell_asset })
            &&& r->Ok_0.data is None
        }
    }
}

/// Withdraws offer `otc_id`; only its seller may.
pub fn try_cancel_otc(store: &mut Store, sender: &String, otc_id: u32) -> (r: Result<Response, ContractError>)
    requires
        old(store).wf(),
    ensures
        final(store).wf(),
        cancelled(*old(store), *final(store), r, *sender, otc_id),
{
    let k = match store.position(otc_id) {
        Some(k) => k,
        None => {
            return Err(ContractError::NotFound);
        },
    };
    assert forall|k2: int| #[trigger] offer_at(store.otcs@, otc_id, k2) implies k2 == k by {
        if k2 < k {
            assert(store.otcs@[k2].0 < store.otcs@[k as int].0);
        } else if k2 > k {
            assert(store.otcs@[k as int].0 < store.otcs@[k2].0);
        }
    }
    if *sender != store.otcs[k].1.seller {
        return Err(ContractError::Unauthorized);
    }
    let ghost before = store.otcs@;
    let (_, offer) = store.otcs.remove(k);
    assert(all_live(store.otcs@)) by {
        assert forall|j: int| 0 <= j < store.otcs@.len() implies offer_valid(store.otcs@[j].1) by {
            if j < k {
                assert(store.otcs@[j] == before[j]);
            } else {
                assert(store.otcs@[j] == before[j + 1]);
            }
        }
    }
    let payment = refund_payment(&offer);
    let mut messages: Vec<Transfer> = Vec::new();
    messages.push(payment);
    assert(messages@ =~= seq![refund_of(offer)]);
    Ok(Response {
        messages,
        event: Event::Cancelled { otc_id, amount: offer.sell_amount, token: offer.sell_asset },
        data: None,
    })
}

/// What a sweep does: keeps the offers not expired at `block`, in order,
/// and gives the escrow of every expired one back to its seller, in
/// ascending id order, recording each refund.
pub open spec fn swept(old: Store, new: Store, r: Response, block: Block) -> bool {
    &&& new.state == old.state
    &&& new.otcs@ == live_offers(old.otcs@, block)
    &&& r.messages@ == expired_offers(old.otcs@, block).map_values(|e: (u32, OTCInfo)| refund_of(e.1))
    &&& r.event is ExpiredRemoved
    &&& r.event->ExpiredRemoved_refunded@ == expired_offers(old.otcs@, block).map_values(
        |e: (u32, OTCInfo)| refund_record(e),
    )
    &&& r.data is None
}

/// Removes every offer expired at `block` and refunds its seller.
pub fn remove_expired(store: &mut Store, block: Block) -> (r: Response)
    requires
        old(store).wf(),
    ensures
        final(store).wf(),
        swept(*old(store), *final(store), r, block),
{
    let ghost orig = store.otcs@;
    let mut rest: Vec<(u32, OTCInfo)> = Vec::new();
    std::mem::swap(&mut rest, &mut store.otcs);
    let mut kept: Vec<(u32, OTCInfo)> = Vec::new();
    let mut messages: Vec<Transfer> = Vec::new();
    let mut refunded: Vec<Refund> = Vec::new();
    let ghost mut i: int = 0;
    while rest.len() > 0
        invariant
            0 <= i <= orig.len(),
            rest@ == orig.subrange(i, orig.len() as int),
            kept@ == live_offers(orig.subrange(0, i), block),
            messages@ == expired_offers(orig.subrange(0, i), block).map_values(|e: (u32, OTCInfo)| refund_of(e.1)),
            refunded@ == expired_offers(orig.subrange(0, i), block).map_values(|e: (u32, OTCInfo)| refund_record(e)),
        decreases rest@.len(),
    {
        let entry = rest.remove(0);
        proof {
            assert(entry == orig[i]);
            let next = orig.subrange(0, i + 1);
            assert(next.drop_last() =~= orig.subrange(0, i));
            assert(next.last() == orig[i]);
            i = i + 1;
            assert(rest@ =~= orig.subrange(i, orig.len() as int));
        }
        if expiration_reached(entry.1.expires, block) {
            messages.push(refund_payment(&entry.1));
            refunded.push(Refund {
                otc_id: entry.0,
                amount: entry.1.sell_amount,
                token: entry.1.sell_asset.duplicate(),
                seller: entry.1.seller.clone(),
            });
            proof {
                let ex = expired_offers(orig.subrange(0, i - 1), block);
                assert(ex.push(entry).map_values(|e: (u32, OTCInfo)| refund_of(e.1))
                    =~= ex.map_values(|e: (u32, OTCInfo)| refund_of(e.1)).push(refund_of(entry.1)));
                assert(ex.push(entry).map_values(|e: (u32, OTCInfo)| refund_record(e))
                    =~= ex.map_values(|e: (u32, OTCInfo)| refund_record(e)).push(refund_record(entry)));
            }
        } else {
            kept.push(entry);
        }
    }
    assert(orig.subrange(0, i) =~= orig);
    proof {
        lemma_live_kept_in_order(orig, block);
    }
    store.otcs = kept;
    Response { messages, event: Event::ExpiredRemoved { refunded }, data: None }
}

/// The entries a sweep keeps are entries of the store, in the same order.
proof fn lemma_live_kept_in_order(s: Seq<(u32, OTCInfo)>, block: Block)
    requires
        ascending(s),
        all_live(s),
    ensures
        ascending(live_offers(s, block)),
        all_live(live_offers(s, block)),
        forall|j: int| 0 <= j < live_offers(s, block).len() ==> exists|i: int| 0 <= i < s.len()
            && (#[trigger] live_offers(s, block)[j]) == s[i],
    decreases s.len(),
{
    if s.len() > 0 {
        let init = s.drop_last();
        assert(ascending(init));
        assert(all_live(init));
        lemma_live_kept_in_order(init, block);
        let l = live_offers(init, block);
        if !expired(s.last().1.expires, block) {
            let l2 = l.push(s.last());
            assert forall|j: int| 0 <= j < l2.len() implies exists|i: int| 0 <= i < s.len() && (#[trigger] l2[j]) == s[i] by {
                if j < l.len() {
                    let i = choose|i: int| 0 <= i < init.len() && l[j] == init[i];
                    assert(l2[j] == s[i]);
                } else {
                    assert(l2[j] == s[s.len() - 1]);
                }
            }
            assert forall|a: int, b: int| 0 <= a < b < l2.len() implies l2[a].0 < l2[b].0 by {
                if b == l.len() {
                    let i = choose|i: int| 0 <= i < init.len() && l[a] == init[i];
                    assert(s[i].0 < s[s.len() - 1].0);
                }
            }
        }
    }
}

/// What a request that came with `amount` of the cw20 token `token`, sent
/// by `wrapper.sender`, does.
pub open spec fn received(
    old: Store,
    new: Store,
    r: Result<Response, ContractError>,
    block: Block,
    token: String,
    wrapper: Cw20ReceiveMsg,
) -> bool {
    let deposit = Balance::Cw20(Cw20Coin { address: token, amount: wrapper.amount });
    match wrapper.msg {
        ReceiveMsg::Create(m) => created(old, new, r, block, wrapper.sender, deposit, m.ask_balances@,
            m.expires, m.user_info, m.description),
        ReceiveMsg::Swap { otc_id } => swapped(old, new, r, block, wrapper.sender, otc_id, deposit),
    }
}

/// Handles a request that came with a cw20 token: `token` is the token's
/// contract, which sends the notice.
pub fn execute_receive(store: &mut Store, block: Block, token: &String, wrapper: Cw20ReceiveMsg) -> (r: Result<Response, ContractError>)
    requires
        old(store).wf(),
    ensures
        final(store).wf(),
        received(*old(store), *final(store), r, block, *token, wrapper),
{
    let deposit = Balance::Cw20(Cw20Coin { address: token.clone(), amount: wrapper.amount });
    match wrapper.msg {
        ReceiveMsg::Create(m) => try_create_otc(store, block, &wrapper.sender, deposit, m.ask_balances,
            m.expires, m.user_info, m.description),
        ReceiveMsg::Swap { otc_id } => try_swap(store, block, &wrapper.sender, otc_id, deposit, false),
    }
}

/// What a command from `sender`, with the native `funds` attached, does.
pub open spec fn executed(
    old: Store,
    new: Store,
    r: Result<Response, ContractError>,
    block: Block,
    sender: String,
    funds: Vec<Coin>,
    msg: ExecuteMsg,
) -> bool {
    match msg {
        ExecuteMsg::Create(m) => created(old, new, r, block, sender, Balance::Native(funds), m.ask_balances@,
            m.expires, m.user_info, m.description),
        ExecuteMsg::Swap { otc_id } => swapped(old, new, r, block, sender, otc_id, Balance::Native(funds)),
        ExecuteMsg::Cancel { otc_id } => cancelled(old, new, r, sender, otc_id),
        ExecuteMsg::SetActive { active } => active_set(old, new, r, sender, active),
        ExecuteMsg::RemoveExpired => r is Ok && swept(old, new, r->Ok_0, block),
        ExecuteMsg::Receive(wrapper) => received(old, new, r, block, sender, wrapper),
    }
}

/// Runs a command from `sender`, with the native `funds` attached.
pub fn execute(
    store: &mut Store,
    block: Block,
    sender: &String,
    funds: Vec<Coin>,
    msg: ExecuteMsg,
) -> (r: Result<Response, ContractError>)
    requires
        old(store).wf(),
    ensures
        final(store).wf(),
        executed(*old(store), *final(store), r, block, *sender, funds, msg),
{
    match msg {
        ExecuteMsg::Create(m) => try_create_otc(store, block, sender, Balance::Native(funds), m.ask_balances,
            m.expires, m.user_info, m.description),
        ExecuteMsg::Swap { otc_id } => try_swap(store, block, sender, otc_id, Balance::Native(funds), true),
        ExecuteMsg::Cancel { otc_id } => try_cancel_otc(store, sender, otc_id),
        ExecuteMsg::SetActive { active } => try_set_active(store, sender, active),
        ExecuteMsg::RemoveExpired => Ok(remove_expired(store, block)),
        ExecuteMsg::Receive(wrapper) => execute_receive(store, block, sender, wrapper),
    }
}

} // verus!
