//! Which offers a sweep at a given block refunds and which it keeps.

use vstd::prelude::*;
use crate::expiry::{expired, Block};
use crate::msg::{Refund, Transfer};
use crate::state::OTCInfo;

verus! {

/// The entries of `s` not expired at `block`, in order.
pub open spec fn live_offers(s: Seq<(u32, OTCInfo)>, block: Block) -> Seq<(u32, OTCInfo)>
    decreases s.len(),
{
    if s.len() == 0 {
        s
    } else if expired(s.last().1.expires, block) {
        live_offers(s.drop_last(), block)
    } else {
        live_offers(s.drop_last(), block).push(s.last())
    }
}

/// The entries of `s` expired at `block`, in order.
pub open spec fn expired_offers(s: Seq<(u32, OTCInfo)>, block: Block) -> Seq<(u32, OTCInfo)>
    decreases s.len(),
{
    if s.len() == 0 {
        s
    } else if expired(s.last().1.expires, block) {
        expired_offers(s.drop_last(), block).push(s.last())
    } else {
        expired_offers(s.drop_last(), block)
    }
}

/// The transfer that gives an offer's whole escrow back to its seller.
pub open spec fn refund_of(o: OTCInfo) -> Transfer {
    Transfer { recipient: o.seller, asset: o.sell_asset, amount: o.sell_amount }
}

/// The record of the refund of an entry.
pub open spec fn refund_record(e: (u32, OTCInfo)) -> Refund {
    Refund { otc_id: e.0, amount: e.1.sell_amount, token: e.1.sell_asset, seller: e.1.seller }
}

/// No entry that a sweep keeps is expired at that block.
pub proof fn lemma_live_not_expired(s: Seq<(u32, OTCInfo)>, block: Block)
    ensures
        forall|i: int| 0 <= i < live_offers(s, block).len()
            ==> !expired(#[trigger] live_offers(s, block)[i].1.expires, block),
    decreases s.len(),
{
    if s.len() > 0 {
        lemma_live_not_expired(s.drop_last(), block);
    }
}

/// A sequence none of whose entries has expired is kept whole.
pub proof fn lemma_none_expired(s: Seq<(u32, OTCInfo)>, block: Block)
    requires
        forall|i: int| 0 <= i < s.len() ==> !expired(#[trigger] s[i].1.expires, block),
    ensures
        live_offers(s, block) == s,
        expired_offers(s, block).len() == 0,
    decreases s.len(),
{
    if s.len() > 0 {
        assert forall|i: int| 0 <= i < s.drop_last().len() implies !expired(#[trigger] s.drop_last()[i].1.expires, block) by {
            assert(s.drop_last()[i] == s[i]);
        }
        lemma_none_expired(s.drop_last(), block);
        assert(s.drop_last().push(s.last()) =~= s);
    }
}

/// Sweeping twice at the same block with no offer made in between: the
/// second sweep refunds nothing and keeps every offer.
pub proof fn lemma_sweep_idempotent(s: Seq<(u32, OTCInfo)>, block: Block)
    ensures
        expired_offers(live_offers(s, block), block).len() == 0,
        live_offers(live_offers(s, block), block) == live_offers(s, block),
{
    lemma_live_not_expired(s, block);
    lemma_none_expired(live_offers(s, block), block);
}

} // verus!
