use vstd::prelude::*;

use crate::asteroid::{spec_score, Size};
use crate::collisions::{lemma_live_indices, live_indices};

verus! {

/// How many asteroids in `s` have size `x`.
pub open spec fn count(s: Seq<Size>, x: Size) -> int
    decreases s.len(),
{
    if s.len() == 0 {
        0
    } else {
        count(s.drop_last(), x) + if s.last() == x {
            1int
        } else {
            0int
        }
    }
}

/// Large asteroids that went away between field `a` and field `b`.
pub open spec fn destroyed_large(a: Seq<Size>, b: Seq<Size>) -> int {
    count(a, Size::Large) - count(b, Size::Large)
}

/// Medium asteroids that went away between `a` and `b`, counting the two
/// medium pieces each destroyed large asteroid left behind.
pub open spec fn destroyed_medium(a: Seq<Size>, b: Seq<Size>) -> int {
    count(a, Size::Medium) - count(b, Size::Medium) + 2 * destroyed_large(a, b)
}

/// Small asteroids that went away between `a` and `b`, counting the two
/// small pieces each destroyed medium asteroid left behind.
pub open spec fn destroyed_small(a: Seq<Size>, b: Seq<Size>) -> int {
    count(a, Size::Small) - count(b, Size::Small) + 2 * destroyed_medium(a, b)
}

/// The points that the change of the field from `a` to `b` is worth: each
/// destroyed asteroid scores what its size is worth.
pub open spec fn earned(a: Seq<Size>, b: Seq<Size>) -> int {
    destroyed_large(a, b) * spec_score(Size::Large) + destroyed_medium(a, b) * spec_score(
        Size::Medium,
    ) + destroyed_small(a, b) * spec_score(Size::Small)
}

/// The asteroids left in play once the remnants are cleared away.
pub open spec fn survivors(s: Seq<Size>) -> Seq<Size> {
    live_indices(s).map_values(|i: usize| s[i as int])
}

pub proof fn lemma_count_concat(a: Seq<Size>, b: Seq<Size>, x: Size)
    ensures
        count(a + b, x) == count(a, x) + count(b, x),
    decreases b.len(),
{
    if b.len() == 0 {
        assert(a + b =~= a);
    } else {
        assert((a + b).drop_last() =~= a + b.drop_last());
        lemma_count_concat(a, b.drop_last(), x);
    }
}

pub proof fn lemma_count_update(s: Seq<Size>, k: int, v: Size, x: Size)
    requires
        0 <= k < s.len(),
    ensures
        count(s.update(k, v), x) == count(s, x) - (if s[k] == x {
            1int
        } else {
            0int
        }) + (if v == x {
            1int
        } else {
            0int
        }),
    decreases s.len(),
{
    let u = s.update(k, v);
    if k == s.len() - 1 {
        assert(u.drop_last() =~= s.drop_last());
    } else {
        assert(u.drop_last() =~= s.drop_last().update(k, v));
        lemma_count_update(s.drop_last(), k, v, x);
    }
}

/// Clearing the remnants away keeps every asteroid that is still in play.
pub proof fn lemma_survivors_count(s: Seq<Size>, x: Size)
    requires
        s.len() <= usize::MAX,
        x != Size::Destroyed,
    ensures
        count(survivors(s), x) == count(s, x),
    decreases s.len(),
{
    if s.len() > 0 {
        let p = s.drop_last();
        lemma_survivors_count(p, x);
        lemma_live_indices(p);
        let lp = live_indices(p);
        let fs = |i: usize| s[i as int];
        let fp = |i: usize| p[i as int];
        assert(lp.map_values(fs) =~= lp.map_values(fp)) by {
            assert forall|w: int| 0 <= w < lp.len() implies lp.map_values(fs)[w] == lp.map_values(
                fp,
            )[w] by {
                assert(lp[w] < p.len());
            }
        }
        if s.last() == Size::Destroyed {
            assert(survivors(s) =~= survivors(p));
        } else {
            assert(survivors(s) =~= survivors(p).push(s.last()));
            assert(survivors(s).drop_last() =~= survivors(p));
        }
    }
}

/// Law: scores add up along a run. What the field's change from `a` to `b`
/// is worth, plus what its change from `b` to `c` is worth, is what its
/// change from `a` to `c` is worth.
pub proof fn lemma_earned_chains(a: Seq<Size>, b: Seq<Size>, c: Seq<Size>)
    ensures
        earned(a, b) + earned(b, c) == earned(a, c),
{
}

/// Law: clearing destroyed remnants off the field is worth no points.
pub proof fn lemma_clearing_remnants_earns_nothing(s: Seq<Size>)
    requires
        s.len() <= usize::MAX,
    ensures
        earned(s, survivors(s)) == 0,
{
    lemma_survivors_count(s, Size::Large);
    lemma_survivors_count(s, Size::Medium);
    lemma_survivors_count(s, Size::Small);
}

} // verus!
