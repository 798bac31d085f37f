use vstd::prelude::*;

verus! {

/// The edges of a closed polygon with `n` corners: corner `i` joined to
/// the next corner, the last corner joined back to the first.
pub open spec fn spec_edges(n: nat) -> Seq<(usize, usize)> {
    Seq::new(n, |i: int| (i as usize, ((i + 1) % (n as int)) as usize))
}

/// Pairs of corner indices along the boundary of a closed polygon with `n`
/// corners, in order.
pub fn polygon_edges(n: usize) -> (edges: Vec<(usize, usize)>)
    ensures
        edges@ == spec_edges(n as nat),
{
    let mut edges: Vec<(usize, usize)> = Vec::new();
    let mut i: usize = 0;
    while i < n
        invariant
            i <= n,
            edges@ == spec_edges(n as nat).take(i as int),
        decreases n - i,
    {
        let next = if i + 1 == n {
            0
        } else {
            i + 1
        };
        assert(next == (i + 1) % (n as int)) by {
            if i + 1 == n {
                vstd::arithmetic::div_mod::lemma_mod_self_0(n as int);
            } else {
                vstd::arithmetic::div_mod::lemma_small_mod((i + 1) as nat, n as nat);
            }
        }
        edges.push((i, next));
        assert(edges@ =~= spec_edges(n as nat).take(i + 1));
        i += 1;
    }
    assert(edges@ =~= spec_edges(n as nat));
    edges
}

/// How many of the flags are set.
pub open spec fn count_true(flags: Seq<bool>) -> nat
    decreases flags.len(),
{
    if flags.len() == 0 {
        0
    } else {
        count_true(flags.drop_last()) + if flags.last() {
            1nat
        } else {
            0nat
        }
    }
}

/// The verdict of the ray-casting test on one flag per edge: an error for a
/// polygon of fewer than three corners, otherwise whether the edges are
/// crossed an odd number of times.
pub open spec fn spec_verdict(crossings: Seq<bool>) -> Result<bool, &'static str> {
    if crossings.len() < 3 {
        Err("Polygon must have at least 3 points")
    } else {
        Ok(count_true(crossings) % 2 == 1)
    }
}

/// The verdict of the ray-casting test: a point lies inside a polygon when
/// a ray from it crosses the polygon's edges an odd number of times.
/// `crossings` holds one flag per edge, in the order of `polygon_edges`.
/// A polygon needs at least three corners.
pub fn ray_cast_verdict(crossings: &Vec<bool>) -> (inside: Result<bool, &'static str>)
    ensures
        inside == spec_verdict(crossings@),
{
    if crossings.len() < 3 {
        return Err("Polygon must have at least 3 points");
    }
    let mut intersections: usize = 0;
    let mut i: usize = 0;
    while i < crossings.len()
        invariant
            i <= crossings.len(),
            intersections == count_true(crossings@.take(i as int)),
            intersections <= i,
        decreases crossings.len() - i,
    {
        assert(crossings@.take(i + 1).drop_last() =~= crossings@.take(i as int));
        if crossings[i] {
            intersections += 1;
        }
        i += 1;
    }
    assert(crossings@.take(crossings.len() as int) =~= crossings@);
    Ok(intersections % 2 == 1)
}

/// The polygon `poly` walked from corner `k` on, around to corner `k`.
pub open spec fn rotate<T>(poly: Seq<T>, k: int) -> Seq<T> {
    poly.skip(k) + poly.take(k)
}

/// One flag per edge of the closed polygon `poly`, in the order of
/// `polygon_edges`: whether the ray crosses that edge, as `crosses` tells
/// from the edge's two corners.
pub open spec fn edge_crossings<T>(poly: Seq<T>, crosses: spec_fn(T, T) -> bool) -> Seq<bool> {
    spec_edges(poly.len()).map_values(
        |e: (usize, usize)| crosses(poly[e.0 as int], poly[e.1 as int]),
    )
}

pub proof fn lemma_count_true_concat(a: Seq<bool>, b: Seq<bool>)
    ensures
        count_true(a + b) == count_true(a) + count_true(b),
    decreases b.len(),
{
    if b.len() == 0 {
        assert(a + b =~= a);
    } else {
        assert((a + b).drop_last() =~= a + b.drop_last());
        lemma_count_true_concat(a, b.drop_last());
    }
}

/// For `0 <= x < 2n`, `x % n` is `x` or `x - n`.
proof fn lemma_mod_below_twice(x: int, n: int)
    requires
        0 < n,
        0 <= x < 2 * n,
    ensures
        x % n == if x < n {
            x
        } else {
            x - n
        },
{
    if x < n {
        vstd::arithmetic::div_mod::lemma_small_mod(x as nat, n as nat);
    } else {
        vstd::arithmetic::div_mod::lemma_mod_add_multiples_vanish(x - n, n);
        vstd::arithmetic::div_mod::lemma_small_mod((x - n) as nat, n as nat);
    }
}

/// Walking a closed polygon from another corner only rotates its edge
/// crossings.
pub proof fn lemma_rotated_crossings<T>(poly: Seq<T>, k: int, crosses: spec_fn(T, T) -> bool)
    requires
        poly.len() <= usize::MAX,
        0 <= k < poly.len(),
    ensures
        edge_crossings(rotate(poly, k), crosses) =~= rotate(edge_crossings(poly, crosses), k),
{
    let n = poly.len() as int;
    let rot = rotate(poly, k);
    let c = edge_crossings(poly, crosses);
    let cr = edge_crossings(rot, crosses);
    assert(rot.len() == n);
    assert forall|j: int| 0 <= j < n implies #[trigger] rot[j] == poly[(j + k) % n] by {
        lemma_mod_below_twice(j + k, n);
    }
    assert forall|i: int| 0 <= i < n implies #[trigger] cr[i] == rotate(c, k)[i] by {
        lemma_mod_below_twice(i + 1, n);
        let i1 = (i + 1) % n;
        assert(0 <= i1 < n);
        lemma_mod_below_twice(i + k, n);
        let ik = (i + k) % n;
        lemma_mod_below_twice(ik + 1, n);
        lemma_mod_below_twice(i1 + k, n);
        assert((i1 + k) % n == (ik + 1) % n);
        assert(spec_edges(n as nat)[i] == (i as usize, i1 as usize));
        assert(cr[i] == crosses(rot[i], rot[i1]));
        assert(spec_edges(n as nat)[ik] == (ik as usize, ((ik + 1) % n) as usize));
        assert(c[ik] == crosses(poly[ik], poly[(ik + 1) % n]));
        if i < n - k {
            assert(rotate(c, k)[i] == c[i + k]);
        } else {
            assert(rotate(c, k)[i] == c[i + k - n]);
        }
    }
}

/// Law: the ray-casting verdict does not depend on the corner a closed
/// polygon's outline starts at.
pub proof fn lemma_verdict_ignores_start<T>(
    poly: Seq<T>,
    k: int,
    crosses: spec_fn(T, T) -> bool,
)
    requires
        poly.len() <= usize::MAX,
        0 <= k < poly.len(),
    ensures
        spec_verdict(edge_crossings(rotate(poly, k), crosses)) == spec_verdict(
            edge_crossings(poly, crosses),
        ),
{
    let c = edge_crossings(poly, crosses);
    lemma_rotated_crossings(poly, k, crosses);
    lemma_count_true_concat(c.skip(k), c.take(k));
    lemma_count_true_concat(c.take(k), c.skip(k));
    assert(c.take(k) + c.skip(k) =~= c);
}

pub proof fn lemma_count_true_update(c: Seq<bool>, i: int, b: bool)
    requires
        0 <= i < c.len(),
    ensures
        count_true(c.update(i, b)) + (if c[i] {
            1int
        } else {
            0int
        }) == count_true(c) + (if b {
            1int
        } else {
            0int
        }),
    decreases c.len(),
{
    let u = c.update(i, b);
    if i == c.len() - 1 {
        assert(u.drop_last() =~= c.drop_last());
    } else {
        assert(u.drop_last() =~= c.drop_last().update(i, b));
        lemma_count_true_update(c.drop_last(), i, b);
    }
}

/// Law: a point is inside exactly when the ray crosses an odd number of
/// edges: with no crossing at all it is outside, two more crossed edges
/// never change the verdict, and flipping whether one edge is crossed
/// always flips it.
pub proof fn lemma_verdict_is_parity(c: Seq<bool>, i: int)
    requires
        c.len() >= 3,
        0 <= i < c.len(),
    ensures
        (forall|j: int| 0 <= j < c.len() ==> !c[j]) ==> spec_verdict(c) == Ok::<
            bool,
            &'static str,
        >(false),
        spec_verdict(c.push(true).push(true)) == spec_verdict(c),
        spec_verdict(c.update(i, !c[i])) is Ok,
        spec_verdict(c) is Ok,
        spec_verdict(c.update(i, !c[i]))->Ok_0 == !(spec_verdict(c)->Ok_0),
{
    if forall|j: int| 0 <= j < c.len() ==> !c[j] {
        lemma_count_true_none(c);
    }
    let c1 = c.push(true);
    let c2 = c1.push(true);
    assert(c2.drop_last() =~= c1);
    assert(c1.drop_last() =~= c);
    assert(count_true(c1) == count_true(c) + 1);
    assert(count_true(c2) == count_true(c) + 2);
    assert((count_true(c) + 2) % 2 == count_true(c) % 2);
    lemma_count_true_update(c, i, !c[i]);
}

proof fn lemma_count_true_none(c: Seq<bool>)
    requires
        forall|j: int| 0 <= j < c.len() ==> !c[j],
    ensures
        count_true(c) == 0,
    decreases c.len(),
{
    if c.len() > 0 {
        lemma_count_true_none(c.drop_last());
    }
}

} // verus!
