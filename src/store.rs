//! The offer store: offers keyed by id, kept in ascending id order, beside
//! the configuration.

use vstd::prelude::*;
use crate::state::{offer_valid, OTCInfo, State};

verus! {

/// Ids strictly ascend along the sequence.
pub open spec fn ascending(s: Seq<(u32, OTCInfo)>) -> bool {
    forall|i: int, j: int| 0 <= i < j < s.len() ==> s[i].0 < s[j].0
}

/// Some entry of `s` has id `id`.
pub open spec fn has_id(s: Seq<(u32, OTCInfo)>, id: u32) -> bool {
    exists|i: int| 0 <= i < s.len() && s[i].0 == id
}

/// Every stored offer is valid.
pub open spec fn all_live(s: Seq<(u32, OTCInfo)>) -> bool {
    forall|i: int| 0 <= i < s.len() ==> offer_valid(#[trigger] s[i].1)
}

/// The id `k` steps after `start`, wrapping at 2^32.
pub open spec fn probe(start: u32, k: int) -> u32 {
    ((start as int + k) % 0x1_0000_0000) as u32
}

/// `id` is the first id, probing upward from `start` and wrapping at
/// 2^32, that no entry of `s` holds.
pub open spec fn first_free(s: Seq<(u32, OTCInfo)>, start: u32, id: u32) -> bool {
    exists|k: int|
        0 <= k < 0x1_0000_0000 && id == probe(start, k) && !has_id(s, id)
            && forall|j: int| 0 <= j < k ==> has_id(s, #[trigger] probe(start, j))
}

/// The engine's persistent state.
pub struct Store {
    pub state: State,
    pub otcs: Vec<(u32, OTCInfo)>,
}

impl Store {
    /// Ids ascend, every offer is valid, and fees are at most one whole.
    pub open spec fn wf(&self) -> bool {
        &&& ascending(self.otcs@)
        &&& all_live(self.otcs@)
        &&& self.state.wf()
    }

    /// The position of the offer with id `id`, if there is one.
    pub fn position(&self, id: u32) -> (r: Option<usize>)
        ensures
            match r {
                Some(i) => i < self.otcs@.len() && self.otcs@[i as int].0 == id,
                None => !has_id(self.otcs@, id),
            },
    {
        let mut i: usize = 0;
        while i < self.otcs.len()
            invariant
                i <= self.otcs@.len(),
                forall|j: int| 0 <= j < i ==> self.otcs@[j].0 != id,
            decreases self.otcs@.len() - i,
        {
            if self.otcs[i].0 == id {
                return Some(i);
            }
            i = i + 1;
        }
        None
    }

    /// The first id, probing upward from `start` and wrapping at 2^32, that
    /// no offer holds; `None` when every id is held.
    pub fn free_id(&self, start: u32) -> (r: Option<u32>)
        ensures
            match r {
                Some(id) => first_free(self.otcs@, start, id),
                None => forall|j: int| 0 <= j < 0x1_0000_0000 ==> has_id(self.otcs@, #[trigger] probe(start, j)),
            },
    {
        let mut k: u64 = 0;
        let mut id: u32 = start;
        while k < 0x1_0000_0000
            invariant
                k <= 0x1_0000_0000,
                k < 0x1_0000_0000 ==> id == probe(start, k as int),
                forall|j: int| 0 <= j < k ==> has_id(self.otcs@, #[trigger] probe(start, j)),
            decreases 0x1_0000_0000 - k,
        {
            match self.position(id) {
                None => {
                    return Some(id);
                },
                Some(_) => {},
            }
            assert(has_id(self.otcs@, probe(start, k as int)));
            id = id.wrapping_add(1);
            k = k + 1;
            assert(k < 0x1_0000_0000 ==> id == probe(start, k as int));
        }
        None
    }

    /// Puts a new offer under an id that no offer holds, keeping ids in order.
    pub fn insert_new(&mut self, id: u32, offer: OTCInfo)
        requires
            ascending(old(self).otcs@),
            !has_id(old(self).otcs@, id),
        ensures
            ascending(final(self).otcs@),
            final(self).state == old(self).state,
            exists|i: int| 0 <= i <= old(self).otcs@.len()
                && final(self).otcs@ == old(self).otcs@.insert(i, (id, offer)),
    {
        let mut pos: usize = 0;
        while pos < self.otcs.len() && self.otcs[pos].0 < id
            invariant
                pos <= self.otcs@.len(),
                forall|j: int| 0 <= j < pos ==> self.otcs@[j].0 < id,
            decreases self.otcs@.len() - pos,
        {
            pos = pos + 1;
        }
        let ghost before = self.otcs@;
        assert(forall|j: int| pos <= j < before.len() ==> before[j].0 > id) by {
            assert forall|j: int| pos <= j < before.len() implies before[j].0 > id by {
                assert(before[pos as int].0 >= id);
                assert(before[j].0 != id);
                if j > pos {
                    assert(before[pos as int].0 < before[j].0);
                }
            }
        }
        self.otcs.insert(pos, (id, offer));
        assert(self.otcs@ == before.insert(pos as int, (id, offer)));
    }
}

} // verus!
