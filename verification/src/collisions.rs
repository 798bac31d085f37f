use vstd::prelude::*;

use crate::asteroid::{score_from_size, spec_score, spec_split, split_size, Size};
use crate::score::{
    count, earned, lemma_clearing_remnants_earns_nothing, lemma_count_concat, lemma_count_update,
    lemma_earned_chains, survivors,
};

verus! {

/// The indices of the asteroids that can still be hit, in field order.
pub open spec fn live_indices(s: Seq<Size>) -> Seq<usize>
    decreases s.len(),
{
    if s.len() == 0 {
        Seq::empty()
    } else {
        let rest = live_indices(s.drop_last());
        if s.last() == Size::Destroyed {
            rest
        } else {
            rest.push((s.len() - 1) as usize)
        }
    }
}

/// The first position holding `true`, if any.
pub open spec fn first_true(h: Seq<bool>) -> Option<int>
    decreases h.len(),
{
    if h.len() == 0 {
        None
    } else if h[0] {
        Some(0)
    } else {
        match first_true(h.drop_first()) {
            Some(j) => Some(j + 1),
            None => None,
        }
    }
}

/// The live indices are in range, point at live asteroids, rise strictly,
/// and include every live asteroid.
pub proof fn lemma_live_indices(s: Seq<Size>)
    requires
        s.len() <= usize::MAX,
    ensures
        live_indices(s).len() <= s.len(),
        forall|j: int|
            0 <= j < live_indices(s).len() ==> {
                &&& #[trigger] live_indices(s)[j] < s.len()
                &&& s[live_indices(s)[j] as int] != Size::Destroyed
            },
        forall|i: int, j: int|
            0 <= i < j < live_indices(s).len() ==> live_indices(s)[i] < live_indices(s)[j],
        forall|k: int|
            0 <= k < s.len() && s[k] != Size::Destroyed ==> live_indices(s).contains(
                k as usize,
            ),
    decreases s.len(),
{
    if s.len() > 0 {
        let p = s.drop_last();
        lemma_live_indices(p);
        let l = live_indices(s);
        let lp = live_indices(p);
        assert forall|j: int| 0 <= j < l.len() implies #[trigger] l[j] < s.len() && s[l[j] as int]
            != Size::Destroyed by {
            if j < lp.len() {
                assert(l[j] == lp[j]);
                assert(p[lp[j] as int] == s[lp[j] as int]);
            }
        }
        assert forall|i: int, j: int| 0 <= i < j < l.len() implies l[i] < l[j] by {
            if j < lp.len() {
                assert(l[i] == lp[i] && l[j] == lp[j]);
            } else {
                assert(l[i] == lp[i]);
            }
        }
        assert forall|k: int| 0 <= k < s.len() && s[k] != Size::Destroyed implies live_indices(
            s,
        ).contains(k as usize) by {
            if k < s.len() - 1 {
                assert(p[k] == s[k]);
                let w = choose|w: int| 0 <= w < live_indices(p).len() && live_indices(p)[w] == k as usize;
                assert(live_indices(s)[w] == k as usize);
            } else {
                assert(live_indices(s).last() == k as usize);
            }
        }
    }
}

/// `first_true` is the first position holding `true`.
pub proof fn lemma_first_true(h: Seq<bool>, j: int)
    requires
        0 <= j <= h.len(),
        forall|i: int| 0 <= i < j ==> !h[i],
    ensures
        j < h.len() && h[j] ==> first_true(h) == Some(j),
        j == h.len() ==> first_true(h) is None,
    decreases j,
{
    if j > 0 {
        assert(!h[0]);
        let t = h.drop_first();
        assert forall|i: int| 0 <= i < j - 1 implies !t[i] by {
            assert(t[i] == h[i + 1]);
        }
        lemma_first_true(t, j - 1);
        if j < h.len() {
            assert(t[j - 1] == h[j]);
        }
    }
}

/// The first result of `first_true` holds `true`, and nothing before it does.
pub proof fn lemma_first_true_found(h: Seq<bool>)
    ensures
        first_true(h) matches Some(j) ==> 0 <= j < h.len() && h[j] && forall|i: int|
            0 <= i < j ==> !h[i],
        first_true(h) is None ==> forall|i: int| 0 <= i < h.len() ==> !h[i],
    decreases h.len(),
{
    if h.len() > 0 && !h[0] {
        let t = h.drop_first();
        lemma_first_true_found(t);
        assert forall|i: int| 1 <= i < h.len() implies h[i] == t[i - 1] by {}
    }
}

/// The indices of the asteroids a shot or the ship can collide with, in
/// field order: every asteroid that is not a destroyed remnant.
pub fn live_targets(sizes: &Vec<Size>) -> (targets: Vec<usize>)
    ensures
        targets@ == live_indices(sizes@),
{
    let mut targets: Vec<usize> = Vec::new();
    let mut i: usize = 0;
    while i < sizes.len()
        invariant
            i <= sizes.len(),
            targets@ == live_indices(sizes@.take(i as int)),
        decreases sizes.len() - i,
    {
        assert(sizes@.take(i + 1).drop_last() == sizes@.take(i as int));
        assert(sizes@.take(i + 1).last() == sizes@[i as int]);
        if sizes[i] != Size::Destroyed {
            targets.push(i);
        }
        i += 1;
    }
    assert(sizes@.take(sizes.len() as int) == sizes@);
    targets
}

/// The position of the first collision reported in `hits`, if any.
pub fn first_hit(hits: &Vec<bool>) -> (found: Option<usize>)
    ensures
        match found {
            Some(j) => first_true(hits@) == Some(j as int),
            None => first_true(hits@) is None,
        },
{
    let mut i: usize = 0;
    while i < hits.len()
        invariant
            i <= hits.len(),
            forall|k: int| 0 <= k < i ==> !hits@[k],
        decreases hits.len() - i,
    {
        if hits[i] {
            proof {
                lemma_first_true(hits@, i as int);
            }
            return Some(i);
        }
        i += 1;
    }
    proof {
        lemma_first_true(hits@, i as int);
    }
    None
}

/// What a single live shot struck, if anything.
#[derive(Debug, Clone, Copy, PartialEq, Eq, Structural)]
pub enum ShotHit {
    /// The shot struck nothing and flies on.
    Miss,
    /// The shot struck the asteroid at this index of the field.
    Asteroid(usize),
    /// The shot struck the saucer.
    Ufo,
}

/// What a shot strikes: the first target, in the order of the live
/// asteroids followed by the saucer, that it collides with. `hits` holds one
/// collision flag per live asteroid and a last one for the saucer.
pub open spec fn shot_outcome(sizes: Seq<Size>, hits: Seq<bool>) -> ShotHit {
    let t = live_indices(sizes);
    match first_true(hits) {
        None => ShotHit::Miss,
        Some(j) => if j < t.len() {
            ShotHit::Asteroid(t[j])
        } else {
            ShotHit::Ufo
        },
    }
}

/// The pieces a hit asteroid of size `sz` leaves at the end of the field.
pub open spec fn pieces(sz: Size) -> Seq<Size> {
    match spec_split(sz) {
        Some(c) => seq![c, c],
        None => seq![],
    }
}

/// The field after the asteroid at index `k` is hit: it becomes a remnant
/// and its two pieces join the end of the field.
pub open spec fn after_hit(sizes: Seq<Size>, k: int) -> Seq<Size> {
    sizes.update(k, Size::Destroyed) + pieces(sizes[k])
}

/// The field after a shot with outcome `r`.
pub open spec fn sizes_after(sizes: Seq<Size>, r: ShotHit) -> Seq<Size> {
    match r {
        ShotHit::Asteroid(k) => after_hit(sizes, k as int),
        _ => sizes,
    }
}

/// The points a shot with outcome `r` scores; the saucer is worth none.
pub open spec fn points_for(sizes: Seq<Size>, r: ShotHit) -> int {
    match r {
        ShotHit::Asteroid(k) => spec_score(sizes[k as int]),
        _ => 0,
    }
}

/// What the ship runs into: the first live asteroid it collides with, or
/// nothing when the ship is already wrecked. `hits` holds one collision flag
/// per live asteroid.
pub open spec fn ship_outcome(ship_alive: bool, sizes: Seq<Size>, hits: Seq<bool>) -> Option<
    usize,
> {
    if !ship_alive {
        None
    } else {
        match first_true(hits) {
            Some(j) => Some(live_indices(sizes)[j]),
            None => None,
        }
    }
}

/// Law: a hit on a live asteroid is worth exactly its size's points, when
/// the points are counted from the sizes on the field before and after.
pub proof fn lemma_hit_earns(s: Seq<Size>, k: int)
    requires
        0 <= k < s.len(),
        s[k] != Size::Destroyed,
    ensures
        earned(s, after_hit(s, k)) == spec_score(s[k]),
{
    let u = s.update(k, Size::Destroyed);
    let ps = pieces(s[k]);
    assert forall|x: Size| #[trigger] count(after_hit(s, k), x) == count(u, x) + count(ps, x) by {
        lemma_count_concat(u, ps, x);
    }
    assert forall|x: Size| #[trigger] count(u, x) == count(s, x) - (if s[k] == x {
        1int
    } else {
        0int
    }) + (if x == Size::Destroyed {
        1int
    } else {
        0int
    }) by {
        lemma_count_update(s, k, Size::Destroyed, x);
    }
    reveal_with_fuel(count, 3);
    assert(ps.drop_last().drop_last() =~= Seq::<Size>::empty());
}

/// Law: every shot outcome is worth what the change of the field it causes
/// is worth.
pub proof fn lemma_shot_earns(sizes: Seq<Size>, hits: Seq<bool>)
    requires
        sizes.len() <= usize::MAX,
        hits.len() == live_indices(sizes).len() + 1,
    ensures
        points_for(sizes, shot_outcome(sizes, hits)) == earned(
            sizes,
            sizes_after(sizes, shot_outcome(sizes, hits)),
        ),
{
    lemma_live_indices(sizes);
    let r = shot_outcome(sizes, hits);
    if let ShotHit::Asteroid(k) = r {
        lemma_first_true_found(hits);
        let j = first_true(hits)->0;
        assert(live_indices(sizes)[j] == k);
        lemma_hit_earns(sizes, k as int);
    }
}

/// Law: a shot misses exactly when it touches nothing, and it strikes an
/// asteroid exactly when it touches some live asteroid.
pub proof fn lemma_shot_misses_iff_untouched(sizes: Seq<Size>, hits: Seq<bool>)
    requires
        hits.len() == live_indices(sizes).len() + 1,
    ensures
        shot_outcome(sizes, hits) == ShotHit::Miss <==> forall|i: int|
            0 <= i < hits.len() ==> !hits[i],
        shot_outcome(sizes, hits) is Asteroid <==> exists|i: int|
            0 <= i < live_indices(sizes).len() && #[trigger] hits[i],
{
    lemma_first_true_found(hits);
    if exists|i: int| 0 <= i < live_indices(sizes).len() && #[trigger] hits[i] {
        let i = choose|i: int| 0 <= i < live_indices(sizes).len() && #[trigger] hits[i];
        assert(first_true(hits) is Some);
    }
    if exists|i: int| 0 <= i < hits.len() && #[trigger] hits[i] {
        let i = choose|i: int| 0 <= i < hits.len() && #[trigger] hits[i];
        assert(first_true(hits) is Some);
    }
}

/// Law: a shot that touches no live asteroid but touches the saucer strikes
/// the saucer, also on a field with no live asteroid left; the field and the
/// score stay as they were.
pub proof fn lemma_saucer_struck_when_asteroids_missed(sizes: Seq<Size>, hits: Seq<bool>)
    requires
        hits.len() == live_indices(sizes).len() + 1,
        forall|i: int| 0 <= i < hits.len() - 1 ==> !hits[i],
        hits.last(),
    ensures
        shot_outcome(sizes, hits) == ShotHit::Ufo,
        sizes_after(sizes, shot_outcome(sizes, hits)) == sizes,
        points_for(sizes, shot_outcome(sizes, hits)) == 0,
{
    lemma_first_true(hits, hits.len() - 1);
}

/// The points the first target a shot collides with is worth.
pub fn shot_points(sizes: &Vec<Size>, hits: &Vec<bool>) -> (points: i32)
    requires
        hits.len() == live_indices(sizes@).len() + 1,
    ensures
        points == points_for(sizes@, shot_outcome(sizes@, hits@)),
{
    let targets = live_targets(sizes);
    proof {
        assert(sizes@.len() == sizes.len());
        lemma_live_indices(sizes@);
        lemma_first_true_found(hits@);
    }
    match first_hit(hits) {
        Some(j) => {
            if j < targets.len() {
                score_from_size(&sizes[targets[j]])
            } else {
                0
            }
        },
        None => 0,
    }
}

/// Resolves one shot against the field. A spent shot (`shot_alive` false)
/// strikes nothing. A live shot strikes the first target it collides with,
/// in the order of the live asteroids and then the saucer, and is spent by
/// it. A struck asteroid scores its points, becomes a remnant and leaves its
/// two pieces at the end of the field.
pub fn resolve_shot(
    sizes: &mut Vec<Size>,
    score: &mut i32,
    shot_alive: &mut bool,
    hits: &Vec<bool>,
) -> (r: ShotHit)
    requires
        *old(shot_alive) ==> hits.len() == live_indices(old(sizes)@).len() + 1,
        *old(shot_alive) ==> *old(score) + points_for(
            old(sizes)@,
            shot_outcome(old(sizes)@, hits@),
        ) <= i32::MAX,
    ensures
        r == (if *old(shot_alive) {
            shot_outcome(old(sizes)@, hits@)
        } else {
            ShotHit::Miss
        }),
        final(sizes)@ == sizes_after(old(sizes)@, r),
        *final(score) == *old(score) + points_for(old(sizes)@, r),
        *final(score) - *old(score) == earned(old(sizes)@, final(sizes)@),
        *final(score) > *old(score) ==> r is Asteroid,
        *final(shot_alive) == (*old(shot_alive) && r == ShotHit::Miss),
        *old(shot_alive) ==> (r == ShotHit::Miss <==> forall|i: int|
            0 <= i < hits.len() ==> !hits[i]),
        *old(shot_alive) && hits@.last() && (forall|i: int|
            0 <= i < hits.len() - 1 ==> !hits[i]) ==> r == ShotHit::Ufo && !*final(shot_alive),
{
    if !*shot_alive {
        return ShotHit::Miss;
    }
    let targets = live_targets(sizes);
    proof {
        assert(sizes@.len() == sizes.len());
        lemma_live_indices(sizes@);
        lemma_first_true_found(hits@);
        lemma_shot_earns(sizes@, hits@);
        lemma_shot_misses_iff_untouched(sizes@, hits@);
        if hits@.last() && (forall|i: int| 0 <= i < hits.len() - 1 ==> !hits[i]) {
            lemma_saucer_struck_when_asteroids_missed(sizes@, hits@);
        }
    }
    match first_hit(hits) {
        None => ShotHit::Miss,
        Some(j) => {
            *shot_alive = false;
            if j < targets.len() {
                let k = targets[j];
                let sz = sizes[k];
                *score = *score + score_from_size(&sz);
                match split_size(sz) {
                    Some(piece) => {
                        sizes.push(piece);
                        sizes.push(piece);
                    },
                    None => {},
                }
                sizes.set(k, Size::Destroyed);
                assert(sizes@ =~= after_hit(old(sizes)@, k as int));
                ShotHit::Asteroid(k)
            } else {
                ShotHit::Ufo
            }
        },
    }
}

/// Resolves the ship against the field: a live ship is wrecked by the first
/// live asteroid it collides with, whose index is returned so that the
/// wreck can take on its velocity.
pub fn resolve_ship(ship_alive: bool, sizes: &Vec<Size>, hits: &Vec<bool>) -> (r: Option<usize>)
    requires
        ship_alive ==> hits.len() == live_indices(sizes@).len(),
    ensures
        r == ship_outcome(ship_alive, sizes@, hits@),
        r matches Some(k) ==> k < sizes.len() && sizes@[k as int] != Size::Destroyed,
{
    if !ship_alive {
        return None;
    }
    let targets = live_targets(sizes);
    proof {
        assert(sizes@.len() == sizes.len());
        lemma_live_indices(sizes@);
        lemma_first_true_found(hits@);
    }
    match first_hit(hits) {
        Some(j) => Some(targets[j]),
        None => None,
    }
}

/// A volley: the shots of one tick resolved one after another. Field
/// `fields[i + 1]` and score `scores[i + 1]` are what resolving a shot with
/// the collision flags `hits[i]` makes of field `fields[i]` and score
/// `scores[i]`.
pub open spec fn is_volley(fields: Seq<Seq<Size>>, hits: Seq<Seq<bool>>, scores: Seq<int>) -> bool {
    &&& fields.len() == hits.len() + 1
    &&& scores.len() == fields.len()
    &&& forall|i: int|
        0 <= i < hits.len() ==> {
            &&& #[trigger] hits[i].len() == live_indices(fields[i]).len() + 1
            &&& fields[i + 1] == sizes_after(fields[i], shot_outcome(fields[i], hits[i]))
            &&& scores[i + 1] == scores[i] + points_for(fields[i], shot_outcome(fields[i], hits[i]))
        }
}

/// Every volley minus its last shot is a volley.
proof fn lemma_volley_prefix(fields: Seq<Seq<Size>>, hits: Seq<Seq<bool>>, scores: Seq<int>)
    requires
        is_volley(fields, hits, scores),
        hits.len() > 0,
    ensures
        is_volley(fields.drop_last(), hits.drop_last(), scores.drop_last()),
{
    let pf = fields.drop_last();
    let ph = hits.drop_last();
    let ps = scores.drop_last();
    assert forall|i: int| 0 <= i < ph.len() implies {
        &&& #[trigger] ph[i].len() == live_indices(pf[i]).len() + 1
        &&& pf[i + 1] == sizes_after(pf[i], shot_outcome(pf[i], ph[i]))
        &&& ps[i + 1] == ps[i] + points_for(pf[i], shot_outcome(pf[i], ph[i]))
    } by {
        assert(hits[i].len() == live_indices(fields[i]).len() + 1);
    }
}

/// Law: over a tick, the score rises by exactly what the asteroids
/// destroyed are worth, counting the pieces each destroyed large or medium
/// asteroid leaves, once the remnants are cleared off the field; and when the
/// score rises, some shot struck an asteroid (and was spent).
pub proof fn lemma_volley_score(fields: Seq<Seq<Size>>, hits: Seq<Seq<bool>>, scores: Seq<int>)
    requires
        is_volley(fields, hits, scores),
        forall|i: int| 0 <= i < fields.len() ==> #[trigger] fields[i].len() <= usize::MAX,
    ensures
        scores.last() - scores[0] == earned(fields[0], survivors(fields.last())),
        scores.last() > scores[0] ==> exists|i: int|
            0 <= i < hits.len() && #[trigger] shot_outcome(fields[i], hits[i]) is Asteroid,
    decreases hits.len(),
{
    let n = hits.len() as int;
    if n == 0 {
        lemma_clearing_remnants_earns_nothing(fields[0]);
    } else {
        let pf = fields.drop_last();
        let ph = hits.drop_last();
        let ps = scores.drop_last();
        lemma_volley_prefix(fields, hits, scores);
        assert forall|i: int| 0 <= i < pf.len() implies #[trigger] pf[i].len() <= usize::MAX by {
            assert(fields[i].len() <= usize::MAX);
        }
        lemma_volley_score(pf, ph, ps);
        let a = fields[0];
        let b = fields[n - 1];
        let c = fields[n];
        assert(hits[n - 1].len() == live_indices(fields[n - 1]).len() + 1);
        assert(b.len() <= usize::MAX);
        assert(c.len() <= usize::MAX);
        lemma_shot_earns(b, hits[n - 1]);
        lemma_clearing_remnants_earns_nothing(b);
        lemma_clearing_remnants_earns_nothing(c);
        lemma_earned_chains(a, survivors(b), b);
        lemma_earned_chains(a, b, c);
        lemma_earned_chains(a, c, survivors(c));
        if scores.last() > scores[0] && !(exists|i: int|
            0 <= i < ph.len() && #[trigger] shot_outcome(pf[i], ph[i]) is Asteroid) {
            assert(shot_outcome(fields[n - 1], hits[n - 1]) is Asteroid);
        }
    }
}

/// The ship's state after the ship collision step: whether it is still
/// alive, and how many pieces of wreckage there are. A ship wrecked by an
/// asteroid leaves one piece per edge of its outline of `corners` corners.
pub open spec fn ship_after(
    alive: bool,
    wreckage: nat,
    corners: nat,
    impact: Option<usize>,
) -> (bool, nat) {
    match impact {
        Some(_) => (false, wreckage + spec_edges_count(corners)),
        None => (alive, wreckage),
    }
}

/// The number of edges of a closed outline of `corners` corners.
pub open spec fn spec_edges_count(corners: nat) -> nat {
    crate::polygon::spec_edges(corners).len()
}

/// Law: wreckage follows the ship. While the ship is alive there is no
/// wreckage, and once it is wrecked there is one piece per edge of its
/// outline; the ship collision step keeps this so.
pub proof fn lemma_wreckage_follows_ship(
    alive: bool,
    wreckage: nat,
    corners: nat,
    sizes: Seq<Size>,
    hits: Seq<bool>,
)
    requires
        wreckage == (if alive {
            0
        } else {
            corners
        }),
    ensures
        ({
            let (alive2, wreckage2) = ship_after(
                alive,
                wreckage,
                corners,
                ship_outcome(alive, sizes, hits),
            );
            wreckage2 == (if alive2 {
                0
            } else {
                corners
            })
        }),
{
}

} // verus!
