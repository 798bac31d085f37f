use rand::rngs::StdRng;

use vstd::prelude::*;

use crate::common::{choose_item, get_rng, random_in_range};

verus! {

/// The phases of the flying saucer.
#[derive(Debug, Clone, Copy, PartialEq, Eq, Structural)]
pub enum UfoState {
    /// Shot down; its score is on show until it hides.
    Destroyed,
    /// Off the field, waiting to respawn.
    Hidden,
    /// Crossing the field as the small saucer.
    InViewSmall,
    /// Crossing the field as the large saucer.
    InViewLarge,
}

/// The direction the saucer crosses the field in.
#[derive(Debug, Clone, Copy, PartialEq, Eq, Structural)]
pub enum Heading {
    Right,
    Left,
}

/// How a saucer enters the field.
#[derive(Debug, Clone, Copy, PartialEq, Eq, Structural)]
pub struct UfoSpawn {
    pub state: UfoState,
    pub heading: Heading,
}

/// The four ways a saucer may enter, one of which is drawn at random.
pub open spec fn spec_spawn_choices() -> Seq<UfoSpawn> {
    seq![
        UfoSpawn { state: UfoState::InViewSmall, heading: Heading::Right },
        UfoSpawn { state: UfoState::InViewSmall, heading: Heading::Left },
        UfoSpawn { state: UfoState::InViewLarge, heading: Heading::Right },
        UfoSpawn { state: UfoState::InViewLarge, heading: Heading::Left },
    ]
}

/// The entry used should the draw among the choices come back empty.
pub open spec fn fallback_spawn() -> UfoSpawn {
    UfoSpawn { state: UfoState::InViewLarge, heading: Heading::Right }
}

/// The four ways a saucer may enter the field.
pub fn spawn_choices() -> (choices: [UfoSpawn; 4])
    ensures
        choices@ == spec_spawn_choices(),
{
    let choices = [
        UfoSpawn { state: UfoState::InViewSmall, heading: Heading::Right },
        UfoSpawn { state: UfoState::InViewSmall, heading: Heading::Left },
        UfoSpawn { state: UfoState::InViewLarge, heading: Heading::Right },
        UfoSpawn { state: UfoState::InViewLarge, heading: Heading::Left },
    ];
    assert(choices@ =~= spec_spawn_choices());
    choices
}

/// The spawn decided by a roll in `0..10` and, when the roll was drawn, the
/// entry picked among the choices: one roll in ten brings a saucer.
pub open spec fn spawn_from_draws(roll: i32, pick: Option<UfoSpawn>) -> Option<UfoSpawn> {
    if roll == 0 {
        Some(
            match pick {
                Some(c) => c,
                None => fallback_spawn(),
            },
        )
    } else {
        None
    }
}

/// Decides a spawn from the numbers drawn for it.
pub fn spawn_from(roll: i32, pick: Option<UfoSpawn>) -> (spawn: Option<UfoSpawn>)
    ensures
        spawn == spawn_from_draws(roll, pick),
{
    if roll == 0 {
        match pick {
            Some(c) => Some(c),
            None => Some(UfoSpawn { state: UfoState::InViewLarge, heading: Heading::Right }),
        }
    } else {
        None
    }
}

/// Whether a saucer in this phase may spawn: it must be hidden, and its
/// respawn delay (`respawn_due`) must have run out.
pub open spec fn may_spawn(state: UfoState, respawn_due: bool) -> bool {
    state == UfoState::Hidden && respawn_due
}

/// Maybe brings a saucer onto the field. A hidden saucer whose respawn
/// delay has run out comes back on one roll in ten, entering in one of the
/// four ways of `spawn_choices`; otherwise nothing spawns.
pub fn maybe_spawn(state: UfoState, respawn_due: bool, maybe_seed: Option<u64>) -> (spawn:
    Option<UfoSpawn>)
    ensures
        !may_spawn(state, respawn_due) ==> spawn is None,
        spawn matches Some(c) ==> spec_spawn_choices().contains(c),
        may_spawn(state, respawn_due) ==> exists|roll: i32, pick: Option<UfoSpawn>|
            {
                &&& 0 <= roll < 10
                &&& (roll == 0 ==> (pick matches Some(c) && spec_spawn_choices().contains(c)))
                &&& spawn == #[trigger] spawn_from_draws(roll, pick)
            },
{
    if state == UfoState::Hidden && respawn_due {
        let mut rng: StdRng = get_rng(maybe_seed);
        let roll = random_in_range(&mut rng, 0, 10);
        let pick = if roll == 0 {
            let choices = spawn_choices();
            choose_item(&mut rng, choices.as_slice())
        } else {
            None
        };
        spawn_from(roll, pick)
    } else {
        None
    }
}

/// The phase after a tick. A crossing saucer that has left the field
/// (`in_bounds` false) hides; a shot-down saucer hides once its score has
/// been shown long enough (`score_expired`); a hidden saucer stays hidden.
pub open spec fn spec_next_state(state: UfoState, in_bounds: bool, score_expired: bool) -> UfoState {
    match state {
        UfoState::InViewSmall | UfoState::InViewLarge => if in_bounds {
            state
        } else {
            UfoState::Hidden
        },
        UfoState::Destroyed => if score_expired {
            UfoState::Hidden
        } else {
            UfoState::Destroyed
        },
        UfoState::Hidden => UfoState::Hidden,
    }
}

/// The saucer's phase after a tick.
pub fn next_state(state: UfoState, in_bounds: bool, score_expired: bool) -> (next: UfoState)
    ensures
        next == spec_next_state(state, in_bounds, score_expired),
{
    match state {
        UfoState::InViewSmall | UfoState::InViewLarge => {
            if in_bounds {
                state
            } else {
                UfoState::Hidden
            }
        },
        UfoState::Destroyed => {
            if score_expired {
                UfoState::Hidden
            } else {
                UfoState::Destroyed
            }
        },
        UfoState::Hidden => UfoState::Hidden,
    }
}

/// Whether the saucer counts as alive: anything but shot down.
pub fn ufo_alive(state: UfoState) -> (alive: bool)
    ensures
        alive == (state != UfoState::Destroyed),
{
    !matches!(state, UfoState::Destroyed)
}

/// Whether a shot can strike the saucer: only while it crosses the field.
pub fn ufo_targetable(state: UfoState) -> (targetable: bool)
    ensures
        targetable == (state == UfoState::InViewSmall || state == UfoState::InViewLarge),
{
    matches!(state, UfoState::InViewSmall | UfoState::InViewLarge)
}

/// Law: ticks never bring a saucer onto the field or shoot it down; a
/// hidden saucer only reappears by spawning, and only a shot destroys it.
pub proof fn lemma_ticks_never_reveal(state: UfoState, in_bounds: bool, score_expired: bool)
    ensures
        state == UfoState::Hidden ==> spec_next_state(state, in_bounds, score_expired)
            == UfoState::Hidden,
        spec_next_state(state, in_bounds, score_expired) == UfoState::Destroyed ==> state
            == UfoState::Destroyed,
        spec_next_state(state, in_bounds, score_expired) == state || spec_next_state(
            state,
            in_bounds,
            score_expired,
        ) == UfoState::Hidden,
{
}

/// Law: a shot-down saucer hides as soon as its score has been shown long
/// enough and stays shot down until then, wherever it is on the field; a
/// crossing saucer hides exactly when it leaves the field, whatever the
/// score timer says.
pub proof fn lemma_phases_depend_on_their_own_signal(
    in_bounds: bool,
    other_bounds: bool,
    score_expired: bool,
    other_expired: bool,
)
    ensures
        spec_next_state(UfoState::Destroyed, in_bounds, score_expired) == spec_next_state(
            UfoState::Destroyed,
            other_bounds,
            score_expired,
        ),
        score_expired ==> spec_next_state(UfoState::Destroyed, in_bounds, score_expired)
            == UfoState::Hidden,
        !score_expired ==> spec_next_state(UfoState::Destroyed, in_bounds, score_expired)
            == UfoState::Destroyed,
        spec_next_state(UfoState::InViewLarge, in_bounds, score_expired) == spec_next_state(
            UfoState::InViewLarge,
            in_bounds,
            other_expired,
        ),
        spec_next_state(UfoState::InViewSmall, in_bounds, score_expired) == spec_next_state(
            UfoState::InViewSmall,
            in_bounds,
            other_expired,
        ),
        !in_bounds ==> spec_next_state(UfoState::InViewLarge, in_bounds, score_expired)
            == UfoState::Hidden && spec_next_state(UfoState::InViewSmall, in_bounds, score_expired)
            == UfoState::Hidden,
{
}

} // verus!
