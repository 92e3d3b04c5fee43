//! Choosing the fork whose cases a unit runs.

use vstd::prelude::*;
use crate::fixture::{SpecCases, spec_ids};

verus! {

/// Entry `k` is the choice among the first `n` entries: it is supported, no
/// supported entry among them is more advanced, and none before it shares its
/// place.
pub open spec fn is_pick_upto(ids: Seq<u8>, max: u8, n: int, k: int) -> bool {
    &&& 0 <= k < n <= ids.len()
    &&& ids[k] <= max
    &&& forall|i: int| 0 <= i < n && #[trigger] ids[i] <= max ==> ids[i] <= ids[k]
    &&& forall|i: int| 0 <= i < k ==> #[trigger] ids[i] != ids[k]
}

/// Entry `k` is the choice among all entries.
pub open spec fn is_pick(ids: Seq<u8>, max: u8, k: int) -> bool {
    is_pick_upto(ids, max, ids.len() as int, k)
}

/// No entry is supported.
pub open spec fn none_supported(ids: Seq<u8>, max: u8) -> bool {
    forall|i: int| 0 <= i < ids.len() ==> #[trigger] ids[i] > max
}

/// The choice among all entries, if any entry is supported.
pub open spec fn picked(ids: Seq<u8>, max: u8) -> Option<int> {
    if exists|k: int| is_pick(ids, max, k) {
        Some(choose|k: int| is_pick(ids, max, k))
    } else {
        None
    }
}

/// Entry `i` repeats the place of the choice made among the entries before it.
pub open spec fn is_tie(ids: Seq<u8>, max: u8, i: int) -> bool {
    exists|k: int| #[trigger] is_pick_upto(ids, max, i, k) && ids[k] == ids[i]
}

/// The entries among the first `n` that are ties, in ascending order.
pub open spec fn tie_indices(ids: Seq<u8>, max: u8, n: nat) -> Seq<int>
    decreases n,
{
    if n == 0 {
        Seq::empty()
    } else {
        let before = tie_indices(ids, max, (n - 1) as nat);
        if is_tie(ids, max, n - 1) {
            before.push(n - 1)
        } else {
            before
        }
    }
}

/// The records list every tie among the entries, in the order met, each with
/// the entry that stayed the candidate.
pub open spec fn lists_ties(duplicates: Seq<Duplicate>, ids: Seq<u8>, max: u8) -> bool {
    &&& duplicates.len() == tie_indices(ids, max, ids.len()).len()
    &&& forall|j: int|
        0 <= j < duplicates.len() ==> {
            let d = #[trigger] duplicates[j];
            &&& d.repeated as int == tie_indices(ids, max, ids.len())[j]
            &&& is_pick_upto(ids, max, d.repeated as int, d.kept as int)
        }
}

/// Two fork names with the same place: the one that stays the candidate and
/// the later one that was passed over.
#[derive(Clone, Copy, Debug, PartialEq, Eq, Structural)]
pub struct Duplicate {
    pub kept: usize,
    pub repeated: usize,
}

/// The outcome of a selection.
#[derive(Debug)]
pub struct SpecChoice {
    /// Index of the selected group, if any fork is supported.
    pub chosen: Option<usize>,
    /// One record for every tie met on the way, in the order met.
    pub duplicates: Vec<Duplicate>,
}

/// At most one entry is the choice.
pub proof fn lemma_pick_unique(ids: Seq<u8>, max: u8, n: int, a: int, b: int)
    requires
        is_pick_upto(ids, max, n, a),
        is_pick_upto(ids, max, n, b),
    ensures
        a == b,
{
}

/// Selects, among the groups whose fork is not beyond `max_spec_id`, the first
/// one of the most advanced fork, and records every tie met while scanning.
pub fn pick_spec(specs: &Vec<SpecCases>, max_spec_id: u8) -> (r: SpecChoice)
    ensures
        match r.chosen {
            Some(k) => is_pick(spec_ids(specs@), max_spec_id, k as int),
            None => none_supported(spec_ids(specs@), max_spec_id),
        },
        match r.chosen {
            Some(k) => picked(spec_ids(specs@), max_spec_id) == Some(k as int),
            None => picked(spec_ids(specs@), max_spec_id) is None,
        },
        lists_ties(r.duplicates@, spec_ids(specs@), max_spec_id),
{
    let ghost ids = spec_ids(specs@);
    let mut chosen: Option<usize> = None;
    let mut duplicates: Vec<Duplicate> = Vec::new();
    let mut i: usize = 0;
    while i < specs.len()
        invariant
            i <= specs.len(),
            ids == spec_ids(specs@),
            ids.len() == specs@.len(),
            match chosen {
                Some(k) => is_pick_upto(ids, max_spec_id, i as int, k as int),
                None => forall|j: int| 0 <= j < i ==> #[trigger] ids[j] > max_spec_id,
            },
            duplicates@.len() == tie_indices(ids, max_spec_id, i as nat).len(),
            forall|j: int| 0 <= j < duplicates@.len() ==> {
                let d = #[trigger] duplicates@[j];
                &&& d.repeated as int == tie_indices(ids, max_spec_id, i as nat)[j]
                &&& is_pick_upto(ids, max_spec_id, d.repeated as int, d.kept as int)
            },
        decreases specs.len() - i,
    {
        let id: u8 = specs[i].spec_id;
        let ghost prev = chosen;
        let mut tied: bool = false;
        if id <= max_spec_id {
            match chosen {
                None => {
                    chosen = Some(i);
                },
                Some(k) => {
                    let best: u8 = specs[k].spec_id;
                    if id > best {
                        chosen = Some(i);
                    } else if id == best {
                        tied = true;
                        duplicates.push(Duplicate { kept: k, repeated: i });
                    }
                },
            }
        }
        proof {
            if !tied && is_tie(ids, max_spec_id, i as int) {
                let k = choose|k: int| #[trigger]
                    is_pick_upto(ids, max_spec_id, i as int, k) && ids[k] == ids[i as int];
                if let Some(p) = prev {
                    lemma_pick_unique(ids, max_spec_id, i as int, k, p as int);
                }
            }
        }
        i += 1;
    }
    proof {
        match chosen {
            Some(k) => {
                assert(is_pick(ids, max_spec_id, k as int));
                let other = choose|k: int| is_pick(ids, max_spec_id, k);
                lemma_pick_unique(ids, max_spec_id, ids.len() as int, k as int, other);
            },
            None => {
                assert forall|k: int| !is_pick(ids, max_spec_id, k) by {
                    if is_pick(ids, max_spec_id, k) {
                        assert(ids[k] > max_spec_id);
                    }
                }
            },
        }
    }
    SpecChoice { chosen, duplicates }
}

} // verus!
