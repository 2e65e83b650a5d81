//! The sorted, deduplicated set of authority principals.
//!
//! The set lives in a plain vector kept in strictly ascending address
//! order; binary search is the only lookup path, and every mutation must
//! keep the order, so insertion happens at the search's insertion index.

use vstd::prelude::*;
use crate::pubkey::{lemma_pubkey_order_total, Pubkey};

verus! {

/// The vector is strictly ascending in address order; this also means no
/// duplicates.
pub open spec fn sorted_pubkeys(s: Seq<Pubkey>) -> bool {
    forall|i: int, j: int| 0 <= i < j < s.len() ==> Pubkey::spec_lt(s[i], s[j])
}

/// Binary search over a sorted vector of principals.
///
/// `Ok(i)` gives the position of `key`; `Err(i)` gives the insertion index
/// that keeps the order, and then `key` is not in the vector at all.
pub fn binary_search_pubkeys(v: &Vec<Pubkey>, key: &Pubkey) -> (r: Result<usize, usize>)
    requires
        sorted_pubkeys(v@),
    ensures
        match r {
            Ok(i) => i < v@.len() && v@[i as int] == *key,
            Err(i) => {
                &&& i <= v@.len()
                &&& forall|j: int| 0 <= j < i ==> Pubkey::spec_lt(v@[j], *key)
                &&& forall|j: int| i <= j < v@.len() ==> Pubkey::spec_lt(*key, v@[j])
                &&& !v@.contains(*key)
            },
        },
{
    let mut lo: usize = 0;
    let mut hi: usize = v.len();
    while lo < hi
        invariant
            lo <= hi <= v@.len(),
            sorted_pubkeys(v@),
            forall|j: int| 0 <= j < lo ==> Pubkey::spec_lt(v@[j], *key),
            forall|j: int| hi <= j < v@.len() ==> Pubkey::spec_lt(*key, v@[j]),
        decreases hi - lo,
    {
        let mid = lo + (hi - lo) / 2;
        if v[mid].lt(key) {
            proof {
                assert forall|j: int| 0 <= j < mid + 1 implies Pubkey::spec_lt(
                    v@[j],
                    *key,
                ) by {
                    if j < mid {
                        assert(Pubkey::spec_lt(v@[j], v@[mid as int]));
                    }
                }
            }
            lo = mid + 1;
        } else if key.lt(&v[mid]) {
            proof {
                assert forall|j: int| mid <= j < v@.len() implies Pubkey::spec_lt(
                    *key,
                    v@[j],
                ) by {
                    if j > mid {
                        assert(Pubkey::spec_lt(v@[mid as int], v@[j]));
                    }
                }
            }
            hi = mid;
        } else {
            proof {
                lemma_pubkey_order_total(v@[mid as int], *key, *key);
            }
            return Ok(mid);
        }
    }
    proof {
        assert forall|k: int| 0 <= k < v@.len() implies v@[k] != *key by {
            if k < lo {
                assert(Pubkey::spec_lt(v@[k], *key));
            } else {
                assert(Pubkey::spec_lt(*key, v@[k]));
            }
        }
        if v@.contains(*key) {
            let k = choose|k: int| 0 <= k < v@.len() && v@[k] == *key;
            assert(false);
        }
    }
    Err(lo)
}

/// Inserting at the insertion index of a member not yet present keeps the
/// order strictly ascending.
pub proof fn lemma_sorted_insert(s: Seq<Pubkey>, i: int, p: Pubkey)
    requires
        sorted_pubkeys(s),
        0 <= i <= s.len(),
        forall|j: int| 0 <= j < i ==> Pubkey::spec_lt(s[j], p),
        forall|j: int| i <= j < s.len() ==> Pubkey::spec_lt(p, s[j]),
    ensures
        sorted_pubkeys(s.insert(i, p)),
        s.insert(i, p).len() == s.len() + 1,
        s.insert(i, p).contains(p),
{
    let t = s.insert(i, p);
    assert(t[i] == p);
    assert forall|a: int, b: int| 0 <= a < b < t.len() implies Pubkey::spec_lt(t[a], t[b]) by {
        if a < i && b < i {
            assert(t[a] == s[a] && t[b] == s[b]);
        } else if a < i && b == i {
            assert(t[a] == s[a]);
        } else if a < i && b > i {
            assert(t[a] == s[a] && t[b] == s[b - 1]);
            assert(Pubkey::spec_lt(s[a], p) && Pubkey::spec_lt(p, s[b - 1]));
        } else if a == i && b > i {
            assert(t[b] == s[b - 1]);
        } else {
            assert(t[a] == s[a - 1] && t[b] == s[b - 1]);
        }
    }
}

/// Removing a member keeps the order strictly ascending, and removes the
/// member entirely: a sorted vector holds it at most once.
pub proof fn lemma_sorted_remove(s: Seq<Pubkey>, i: int)
    requires
        sorted_pubkeys(s),
        0 <= i < s.len(),
    ensures
        sorted_pubkeys(s.remove(i)),
        s.remove(i).len() == s.len() - 1,
        !s.remove(i).contains(s[i]),
{
    let t = s.remove(i);
    assert forall|a: int, b: int| 0 <= a < b < t.len() implies Pubkey::spec_lt(t[a], t[b]) by {
        if b < i {
            assert(t[a] == s[a] && t[b] == s[b]);
        } else if a < i && b >= i {
            assert(t[a] == s[a] && t[b] == s[b + 1]);
        } else {
            assert(t[a] == s[a + 1] && t[b] == s[b + 1]);
        }
    }
    assert forall|k: int| 0 <= k < t.len() implies t[k] != s[i] by {
        if k < i {
            assert(Pubkey::spec_lt(t[k], s[i]));
        } else {
            assert(t[k] == s[k + 1]);
            assert(Pubkey::spec_lt(s[i], s[k + 1]));
        }
    }
    if t.contains(s[i]) {
        let k = choose|k: int| 0 <= k < t.len() && t[k] == s[i];
        assert(false);
    }
}

} // verus!
