//! Read-only views of the store: pages of offers, one offer, the configuration.

use vstd::prelude::*;
use crate::error::ContractError;
use crate::expiry::{expiration_reached, expired, Block};
use crate::msg::{GetConfigResponse, GetOTCsResponse, QueryMsg, QueryResponse};
use crate::state::{same_offer, OTCInfo};
use crate::store::{has_id, Store};

verus! {

/// The page size when none is asked for.
pub const DEFAULT_LIMIT: u32 = 20;

/// The largest page size.
pub const MAX_LIMIT: u32 = 60;

/// The page size for a requested limit: the default when none is given,
/// never above the largest.
pub open spec fn page_limit(limit: Option<u32>) -> int {
    let l = match limit {
        Some(l) => l,
        None => DEFAULT_LIMIT,
    };
    if l > MAX_LIMIT {
        MAX_LIMIT as int
    } else {
        l as int
    }
}

/// Whether a listing shows entry `e`: its id comes after `start_after`, it
/// has not expired unless expired ones are included, and it belongs to
/// `seller` when one is named.
pub open spec fn shown(
    e: (u32, OTCInfo),
    block: Block,
    include_expired: bool,
    start_after: Option<u32>,
    seller: Option<Seq<char>>,
) -> bool {
    &&& match start_after {
        Some(a) => e.0 > a,
        None => true,
    }
    &&& include_expired || !expired(e.1.expires, block)
    &&& match seller {
        Some(w) => e.1.seller@ == w,
        None => true,
    }
}

/// The entries of `s` that a listing shows, in order.
pub open spec fn listed(
    s: Seq<(u32, OTCInfo)>,
    block: Block,
    include_expired: bool,
    start_after: Option<u32>,
    seller: Option<Seq<char>>,
) -> Seq<(u32, OTCInfo)>
    decreases s.len(),
{
    if s.len() == 0 {
        s
    } else {
        let rest = listed(s.drop_last(), block, include_expired, start_after, seller);
        if shown(s.last(), block, include_expired, start_after, seller) {
            rest.push(s.last())
        } else {
            rest
        }
    }
}

/// `page` holds copies of the first `limit` entries of `all` (or all of
/// them when there are fewer).
pub open spec fn page_of(page: Seq<(u32, OTCInfo)>, all: Seq<(u32, OTCInfo)>, limit: int) -> bool {
    &&& page.len() == if all.len() < limit { all.len() as int } else { limit }
    &&& forall|j: int| 0 <= j < page.len() ==> (#[trigger] page[j]).0 == all[j].0 && same_offer(page[j].1, all[j].1)
}

/// Copies of the first entries that a listing shows, at most `limit`.
fn list_offers(
    store: &Store,
    block: Block,
    include_expired: bool,
    start_after: Option<u32>,
    seller: Option<&String>,
    limit: u32,
) -> (r: Vec<(u32, OTCInfo)>)
    ensures
        page_of(
            r@,
            listed(store.otcs@, block, include_expired, start_after, match seller {
                Some(w) => Some(w@),
                None => None,
            }),
            limit as int,
        ),
{
    let ghost who: Option<Seq<char>> = match seller {
        Some(w) => Some(w@),
        None => None,
    };
    let ghost s = store.otcs@;
    let mut out: Vec<(u32, OTCInfo)> = Vec::new();
    let mut i: usize = 0;
    while i < store.otcs.len()
        invariant
            s == store.otcs@,
            i <= s.len(),
            who == match seller {
                Some(w) => Some(w@),
                None => None::<Seq<char>>,
            },
            page_of(out@, listed(s.subrange(0, i as int), block, include_expired, start_after, who), limit as int),
        decreases s.len() - i,
    {
        let ghost before = listed(s.subrange(0, i as int), block, include_expired, start_after, who);
        proof {
            let next = s.subrange(0, i + 1);
            assert(next.drop_last() =~= s.subrange(0, i as int));
            assert(next.last() == s[i as int]);
        }
        let entry = &store.otcs[i];
        let after_start = match start_after {
            Some(a) => entry.0 > a,
            None => true,
        };
        let fresh = include_expired || !expiration_reached(entry.1.expires, block);
        let owned = match seller {
            Some(w) => entry.1.seller == *w,
            None => true,
        };
        if after_start && fresh && owned && out.len() < limit as usize {
            out.push((entry.0, entry.1.duplicate()));
        }
        i = i + 1;
        proof {
            let now = listed(s.subrange(0, i as int), block, include_expired, start_after, who);
            assert forall|j: int| 0 <= j < out@.len() implies (#[trigger] out@[j]).0 == now[j].0
                && same_offer(out@[j].1, now[j].1) by {
                if j < before.len() {
                    assert(now[j] == before[j]);
                }
            }
        }
    }
    assert(s.subrange(0, s.len() as int) =~= s);
    out
}

/// A page of offers in ascending id order, after `start_after` when given,
/// leaving out expired ones unless asked to include them.
pub fn query_otcs(
    store: &Store,
    block: Block,
    include_expired: bool,
    start_after: Option<u32>,
    limit: Option<u32>,
) -> (r: GetOTCsResponse)
    ensures
        page_of(r.otcs@, listed(store.otcs@, block, include_expired, start_after, None), page_limit(limit)),
{
    let l = match limit {
        Some(l) => l,
        None => DEFAULT_LIMIT,
    };
    let l = if l > MAX_LIMIT { MAX_LIMIT } else { l };
    GetOTCsResponse { otcs: list_offers(store, block, include_expired, start_after, None, l) }
}

/// A page of the offers of `address`, as `query_otcs` pages all offers.
pub fn query_addr_otcs(
    store: &Store,
    block: Block,
    address: &String,
    include_expired: bool,
    start_after: Option<u32>,
    limit: Option<u32>,
) -> (r: GetOTCsResponse)
    ensures
        page_of(
            r.otcs@,
            listed(store.otcs@, block, include_expired, start_after, Some(address@)),
            page_limit(limit),
        ),
{
    let l = match limit {
        Some(l) => l,
        None => DEFAULT_LIMIT,
    };
    let l = if l > MAX_LIMIT { MAX_LIMIT } else { l };
    GetOTCsResponse { otcs: list_offers(store, block, include_expired, start_after, Some(address), l) }
}

/// A copy of offer `otc_id`.
pub fn query_otc(store: &Store, otc_id: u32) -> (r: Result<OTCInfo, ContractError>)
    requires
        store.wf(),
    ensures
        !has_id(store.otcs@, otc_id) ==> r == Err::<OTCInfo, ContractError>(ContractError::NotFound),
        forall|k: int| 0 <= k < store.otcs@.len() && #[trigger] store.otcs@[k].0 == otc_id
            ==> r is Ok && same_offer(r->Ok_0, store.otcs@[k].1),
{
    match store.position(otc_id) {
        Some(k) => {
            assert forall|k2: int| 0 <= k2 < store.otcs@.len() && #[trigger] store.otcs@[k2].0 == otc_id implies k2 == k by {
                if k2 < k {
                    assert(store.otcs@[k2].0 < store.otcs@[k as int].0);
                } else if k2 > k {
                    assert(store.otcs@[k as int].0 < store.otcs@[k2].0);
                }
            }
            Ok(store.otcs[k].1.duplicate())
        },
        None => Err(ContractError::NotFound),
    }
}

/// The configuration as callers see it.
pub fn query_config(store: &Store) -> (r: GetConfigResponse)
    ensures
        r == (GetConfigResponse {
            taker_fee: store.state.taker_fee,
            maker_fee: store.state.maker_fee,
            active: store.state.active,
            admin: store.state.admin,
        }),
{
    GetConfigResponse {
        taker_fee: store.state.taker_fee,
        maker_fee: store.state.maker_fee,
        active: store.state.active,
        admin: store.state.admin.clone(),
    }
}

/// What a read-only request answers.
pub open spec fn answered(store: Store, block: Block, msg: QueryMsg, r: Result<QueryResponse, ContractError>) -> bool {
    match msg {
        QueryMsg::GetOtcs { include_expired, start_after, limit } => {
            let inc = match include_expired {
                Some(b) => b,
                None => false,
            };
            r is Ok && r->Ok_0 is Otcs && page_of(
                r->Ok_0->Otcs_0.otcs@,
                listed(store.otcs@, block, inc, start_after, None),
                page_limit(limit),
            )
        },
        QueryMsg::GetAddressOtcs { address, include_expired, start_after, limit } => {
            let inc = match include_expired {
                Some(b) => b,
                None => false,
            };
            r is Ok && r->Ok_0 is Otcs && page_of(
                r->Ok_0->Otcs_0.otcs@,
                listed(store.otcs@, block, inc, start_after, Some(address@)),
                page_limit(limit),
            )
        },
        QueryMsg::GetOtc { otc_id } => {
            &&& !has_id(store.otcs@, otc_id) ==> r == Err::<QueryResponse, ContractError>(ContractError::NotFound)
            &&& forall|k: int| 0 <= k < store.otcs@.len() && #[trigger] store.otcs@[k].0 == otc_id
                ==> r is Ok && r->Ok_0 is Otc && same_offer(r->Ok_0->Otc_0, store.otcs@[k].1)
        },
        QueryMsg::Config => r == Ok::<QueryResponse, ContractError>(QueryResponse::Config(GetConfigResponse {
            taker_fee: store.state.taker_fee,
            maker_fee: store.state.maker_fee,
            active: store.state.active,
            admin: store.state.admin,
        })),
    }
}

/// Answers a read-only request.
pub fn query(store: &Store, block: Block, msg: QueryMsg) -> (r: Result<QueryResponse, ContractError>)
    requires
        store.wf(),
    ensures
        answered(*store, block, msg, r),
{
    match msg {
        QueryMsg::GetOtcs { include_expired, start_after, limit } => {
            let inc = match include_expired {
                Some(b) => b,
                None => false,
            };
            Ok(QueryResponse::Otcs(query_otcs(store, block, inc, start_after, limit)))
        },
        QueryMsg::GetAddressOtcs { address, include_expired, start_after, limit } => {
            let inc = match include_expired {
                Some(b) => b,
                None => false,
            };
            Ok(QueryResponse::Otcs(query_addr_otcs(store, block, &address, inc, start_after, limit)))
        },
        QueryMsg::GetOtc { otc_id } => match query_otc(store, otc_id) {
            Ok(o) => Ok(QueryResponse::Otc(o)),
            Err(e) => Err(e),
        },
        QueryMsg::Config => Ok(QueryResponse::Config(query_config(store))),
    }
}

} // verus!
