use rand::rngs::StdRng;

use vstd::prelude::*;

use crate::common::random_in_range;

verus! {

/// The size class of an asteroid. A hit asteroid splits into two of the
/// next smaller class; a small one splits into two `Destroyed` remnants.
#[derive(Debug, Clone, Copy, PartialEq, Eq, Hash, Structural)]
pub enum Size {
    Small,
    Medium,
    Large,
    Destroyed,
}

/// Points scored for hitting an asteroid of the given size.
pub open spec fn spec_score(sz: Size) -> int {
    match sz {
        Size::Large => 10,
        Size::Medium => 20,
        Size::Small => 50,
        Size::Destroyed => 0,
    }
}

/// Points scored for hitting an asteroid of size `sz`.
pub fn score_from_size(sz: &Size) -> (points: i32)
    ensures
        points == spec_score(*sz),
{
    match sz {
        Size::Large => 10,
        Size::Medium => 20,
        Size::Small => 50,
        Size::Destroyed => 0,
    }
}

/// The size the two pieces of a hit asteroid have; `None` for a remnant,
/// which cannot be split any more.
pub open spec fn spec_split(sz: Size) -> Option<Size> {
    match sz {
        Size::Large => Some(Size::Medium),
        Size::Medium => Some(Size::Small),
        Size::Small => Some(Size::Destroyed),
        Size::Destroyed => None,
    }
}

/// The size of each of the two pieces an asteroid of size `sz` breaks into
/// when hit, or `None` when it is already a remnant.
pub fn split_size(sz: Size) -> (piece: Option<Size>)
    ensures
        piece == spec_split(sz),
{
    match sz {
        Size::Large => Some(Size::Medium),
        Size::Medium => Some(Size::Small),
        Size::Small => Some(Size::Destroyed),
        Size::Destroyed => None,
    }
}

/// Whether an asteroid of this size is still in play.
pub fn is_alive(sz: Size) -> (alive: bool)
    ensures
        alive == (sz != Size::Destroyed),
{
    !matches!(sz, Size::Destroyed)
}

/// The size drawn for a new asteroid from a number drawn in `0..3`.
pub open spec fn spec_size_from_draw(draw: u32) -> Size {
    if draw == 0 {
        Size::Large
    } else if draw == 1 {
        Size::Medium
    } else if draw == 2 {
        Size::Small
    } else {
        Size::Destroyed
    }
}

/// The size of a freshly spawned asteroid, given the number drawn for it.
pub fn size_from_draw(draw: u32) -> (sz: Size)
    ensures
        sz == spec_size_from_draw(draw),
{
    match draw {
        0 => Size::Large,
        1 => Size::Medium,
        2 => Size::Small,
        _ => Size::Destroyed,
    }
}

/// Draws the size of a freshly spawned asteroid from `rng`: a number in
/// `0..3`, mapped by `size_from_draw`, so never a remnant.
pub fn spawn_size(rng: &mut StdRng) -> (sz: Size)
    ensures
        exists|draw: u32| draw < 3 && sz == #[trigger] spec_size_from_draw(draw),
        sz != Size::Destroyed,
{
    let draw = random_in_range(rng, 0, 3);
    size_from_draw(draw as u32)
}

/// The border of the field a new asteroid enters from.
#[derive(Debug, Clone, Copy, PartialEq, Eq, Structural)]
pub enum Border {
    /// Somewhere along the top edge.
    Top,
    /// Somewhere along the bottom edge.
    Bottom,
    /// Somewhere along the left edge.
    Left,
    /// Somewhere along the right edge.
    Right,
}

/// The border picked by a number drawn in `0..4`.
pub open spec fn spec_border_from_draw(draw: i32) -> Border {
    if draw == 0 {
        Border::Top
    } else if draw == 1 {
        Border::Bottom
    } else if draw == 2 {
        Border::Left
    } else {
        Border::Right
    }
}

/// The border a new asteroid enters from, given the number drawn for it.
pub fn border_from_draw(draw: i32) -> (border: Border)
    requires
        0 <= draw < 4,
    ensures
        border == spec_border_from_draw(draw),
{
    match draw {
        0 => Border::Top,
        1 => Border::Bottom,
        2 => Border::Left,
        _ => Border::Right,
    }
}

/// Draws the border a new asteroid enters from: a number in `0..4`, mapped
/// by `border_from_draw`.
pub fn spawn_border(rng: &mut StdRng) -> (border: Border)
    ensures
        exists|draw: i32| 0 <= draw < 4 && border == #[trigger] spec_border_from_draw(draw),
{
    let draw = random_in_range(rng, 0, 4);
    border_from_draw(draw)
}

/// How many hits an asteroid of this size still takes to vanish.
pub open spec fn rank(sz: Size) -> nat {
    match sz {
        Size::Destroyed => 0,
        Size::Small => 1,
        Size::Medium => 2,
        Size::Large => 3,
    }
}

/// Splitting always yields pieces one class smaller, each worth more points
/// than the piece they came from unless they are remnants; only remnants
/// cannot be split.
pub proof fn lemma_split_shrinks(sz: Size)
    ensures
        spec_split(sz) is None <==> sz == Size::Destroyed,
        spec_split(sz) matches Some(c) ==> rank(c) + 1 == rank(sz),
        spec_split(sz) matches Some(c) ==> (c != Size::Destroyed ==> spec_score(c) > spec_score(sz)),
{
}

/// Every size that can be drawn for a new asteroid is one that is in play.
pub proof fn lemma_spawned_sizes_are_alive(draw: u32)
    requires
        draw < 3,
    ensures
        spec_size_from_draw(draw) != Size::Destroyed,
{
}

} // verus!
