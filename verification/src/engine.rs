use std::collections::HashMap;

use vstd::prelude::*;

verus! {

/// The most asteroids the engine tops the field up to on a tick.
pub const MAX_ASTEROIDS: usize = 10;

pub const A_CODE_U: u32 = 65;
pub const A_CODE_L: u32 = 97;
pub const D_CODE_U: u32 = 68;
pub const D_CODE_L: u32 = 100;
pub const W_CODE_U: u32 = 87;
pub const W_CODE_L: u32 = 119;
pub const H_CODE_U: u32 = 72;
pub const H_CODE_L: u32 = 104;
pub const SPACE_CODE: u32 = 32;

/// A message to the engine: a clock tick, or a key going down or up,
/// identified by its key code.
#[derive(Debug, Clone, Copy, PartialEq, Eq, Structural)]
pub enum Msg {
    Tick,
    Keydown(u32),
    Keyup(u32),
}

/// The last thing that happened to a key.
#[derive(Debug, Clone, Copy, PartialEq, Eq, Structural)]
pub enum KeyAction {
    Up,
    Down,
}

/// A command that a key press gives the ship directly.
#[derive(Debug, Clone, Copy, PartialEq, Eq, Structural)]
pub enum ShipCommand {
    RotateLeft,
    RotateRight,
    StopRotate,
    Hyperspace,
    Shoot,
}

/// What the engine does in answer to a message.
#[derive(Debug, Clone, Copy, PartialEq, Eq, Structural)]
pub enum Reaction {
    /// Advance the game by one tick, then redraw.
    Tick,
    /// Pass the command, if any, to the ship; no redraw.
    Steer(Option<ShipCommand>),
}

/// The state of the keys that are held rather than pressed, by key code.
pub struct KeyMap {
    keys: HashMap<u32, KeyAction>,
}

impl View for KeyMap {
    type V = Map<u32, KeyAction>;

    closed spec fn view(&self) -> Map<u32, KeyAction> {
        self.keys@
    }
}

/// The command a key going down gives the ship, if it is one of the
/// steering, hyperspace or fire keys.
pub open spec fn keydown_command(key: u32) -> Option<ShipCommand> {
    if key == A_CODE_L || key == A_CODE_U {
        Some(ShipCommand::RotateLeft)
    } else if key == D_CODE_L || key == D_CODE_U {
        Some(ShipCommand::RotateRight)
    } else if key == H_CODE_L || key == H_CODE_U {
        Some(ShipCommand::Hyperspace)
    } else if key == SPACE_CODE {
        Some(ShipCommand::Shoot)
    } else {
        None
    }
}

/// The command a key going up gives the ship: releasing a steering key
/// stops the rotation.
pub open spec fn keyup_command(key: u32) -> Option<ShipCommand> {
    if key == A_CODE_L || key == A_CODE_U || key == D_CODE_L || key == D_CODE_U {
        Some(ShipCommand::StopRotate)
    } else {
        None
    }
}

/// The code under which a key is recorded: capital letters are folded to
/// their lower-case codes.
pub open spec fn recorded_code(key: u32) -> u32 {
    if 65 <= key <= 90 {
        (key + 32) as u32
    } else {
        key
    }
}

/// The key map after a key goes down: keys that command the ship are not
/// recorded, every other key is recorded as down.
pub open spec fn after_keydown(m: Map<u32, KeyAction>, key: u32) -> Map<u32, KeyAction> {
    if keydown_command(key) is Some {
        m
    } else {
        m.insert(recorded_code(key), KeyAction::Down)
    }
}

/// The key map after a key goes up: the steering keys are not recorded,
/// every other key is recorded as up.
pub open spec fn after_keyup(m: Map<u32, KeyAction>, key: u32) -> Map<u32, KeyAction> {
    if keyup_command(key) is Some {
        m
    } else {
        m.insert(recorded_code(key), KeyAction::Up)
    }
}

/// Whether the thrust key is held in the key map `m`.
pub open spec fn thrust_held(m: Map<u32, KeyAction>) -> bool {
    m.contains_key(W_CODE_L) && m[W_CODE_L] == KeyAction::Down
}

impl KeyMap {
    /// An empty key map: no key has been seen.
    pub fn new() -> (m: KeyMap)
        ensures
            m@ == Map::<u32, KeyAction>::empty(),
    {
        KeyMap { keys: HashMap::new() }
    }

    /// The last action recorded for `key`, if any.
    pub fn get(&self, key: u32) -> (a: Option<KeyAction>)
        ensures
            a == (if self@.contains_key(key) {
                Some(self@[key])
            } else {
                None
            }),
    {
        match self.keys.get(&key) {
            Some(a) => Some(*a),
            None => None,
        }
    }

    /// Records `action` as the last thing that happened to `key`.
    pub fn record(&mut self, key: u32, action: KeyAction)
        ensures
            final(self)@ == old(self)@.insert(key, action),
    {
        self.keys.insert(key, action);
    }
}

/// Handles a key going down: a steering, hyperspace or fire key gives its
/// command to the ship; any other key is recorded as held, capital letters
/// under their lower-case code.
pub fn handle_keydown(keymap: &mut KeyMap, key_code: u32) -> (cmd: Option<ShipCommand>)
    ensures
        cmd == keydown_command(key_code),
        final(keymap)@ == after_keydown(old(keymap)@, key_code),
{
    if key_code == A_CODE_L || key_code == A_CODE_U {
        Some(ShipCommand::RotateLeft)
    } else if key_code == D_CODE_L || key_code == D_CODE_U {
        Some(ShipCommand::RotateRight)
    } else if key_code == H_CODE_L || key_code == H_CODE_U {
        Some(ShipCommand::Hyperspace)
    } else if key_code == SPACE_CODE {
        Some(ShipCommand::Shoot)
    } else if 65 <= key_code && key_code <= 90 {
        assert(65 <= key_code <= 90 ==> key_code | 0x20 == key_code + 32) by (bit_vector);
        keymap.record(key_code | 0x20, KeyAction::Down);
        None
    } else {
        keymap.record(key_code, KeyAction::Down);
        None
    }
}

/// Handles a key going up: releasing a steering key stops the ship's
/// rotation; any other key is recorded as released, capital letters under
/// their lower-case code.
pub fn handle_keyup(keymap: &mut KeyMap, key_code: u32) -> (cmd: Option<ShipCommand>)
    ensures
        cmd == keyup_command(key_code),
        final(keymap)@ == after_keyup(old(keymap)@, key_code),
{
    if key_code == A_CODE_L || key_code == A_CODE_U || key_code == D_CODE_L || key_code
        == D_CODE_U {
        Some(ShipCommand::StopRotate)
    } else if 65 <= key_code && key_code <= 90 {
        keymap.record(key_code + 32, KeyAction::Up);
        None
    } else {
        keymap.record(key_code, KeyAction::Up);
        None
    }
}

/// Whether the ship should thrust on this tick: the thrust key is held.
pub fn thrust_requested(keymap: &KeyMap) -> (thrust: bool)
    ensures
        thrust == thrust_held(keymap@),
{
    match keymap.get(W_CODE_L) {
        Some(KeyAction::Down) => true,
        _ => false,
    }
}

/// Dispatches a message: a tick advances the game, a key event updates the
/// key map and may command the ship.
pub fn react(keymap: &mut KeyMap, msg: Msg) -> (r: Reaction)
    ensures
        match msg {
            Msg::Tick => r == Reaction::Tick && final(keymap)@ == old(keymap)@,
            Msg::Keydown(k) => r == Reaction::Steer(keydown_command(k)) && final(keymap)@
                == after_keydown(old(keymap)@, k),
            Msg::Keyup(k) => r == Reaction::Steer(keyup_command(k)) && final(keymap)@
                == after_keyup(old(keymap)@, k),
        },
{
    match msg {
        Msg::Tick => Reaction::Tick,
        Msg::Keydown(k) => Reaction::Steer(handle_keydown(keymap, k)),
        Msg::Keyup(k) => Reaction::Steer(handle_keyup(keymap, k)),
    }
}

impl Reaction {
    /// Whether the view must be redrawn after this reaction: only after a
    /// tick.
    pub fn redraw(&self) -> (redraw: bool)
        ensures
            redraw == (*self is Tick),
    {
        match self {
            Reaction::Tick => true,
            Reaction::Steer(_) => false,
        }
    }
}

/// The number of asteroids a tick spawns: the field is topped up towards
/// `MAX_ASTEROIDS`, one difficulty point spent for each new asteroid.
pub open spec fn spawn_count(asteroid_count: usize, difficulty: u32) -> int {
    if asteroid_count < MAX_ASTEROIDS {
        if MAX_ASTEROIDS - asteroid_count <= difficulty {
            MAX_ASTEROIDS - asteroid_count
        } else {
            difficulty as int
        }
    } else {
        0
    }
}

/// Spends the difficulty budget on new asteroids for a field holding
/// `asteroid_count` of them, and returns how many to spawn.
pub fn spawn_budget(asteroid_count: usize, difficulty: &mut u32) -> (spawned: usize)
    ensures
        spawned == spawn_count(asteroid_count, *old(difficulty)),
        *final(difficulty) == *old(difficulty) - spawned,
{
    let mut spawned: usize = 0;
    let mut count: usize = asteroid_count;
    while count < MAX_ASTEROIDS && *difficulty > 0
        invariant
            count == asteroid_count + spawned,
            asteroid_count <= count,
            asteroid_count < MAX_ASTEROIDS ==> count <= MAX_ASTEROIDS,
            asteroid_count >= MAX_ASTEROIDS ==> spawned == 0,
            *difficulty == *old(difficulty) - spawned,
        decreases *difficulty,
    {
        count = count + 1;
        spawned = spawned + 1;
        *difficulty = *difficulty - 1;
    }
    spawned
}

/// Law: the ship thrusts exactly while the W key is held. Pressing W (in
/// either case) turns thrust on, releasing it turns thrust off, and no other
/// key changes it.
pub proof fn lemma_thrust_follows_w_key(m: Map<u32, KeyAction>, key: u32)
    ensures
        key == W_CODE_U || key == W_CODE_L ==> thrust_held(after_keydown(m, key)) && !thrust_held(
            after_keyup(m, key),
        ),
        key != W_CODE_U && key != W_CODE_L ==> thrust_held(after_keydown(m, key)) == thrust_held(m)
            && thrust_held(after_keyup(m, key)) == thrust_held(m),
{
}

/// Law: key handling ignores the case of letters. A capital letter key and
/// its lower-case key give the same command and leave the same key map.
pub proof fn lemma_keys_ignore_case(m: Map<u32, KeyAction>, key: u32)
    requires
        65 <= key <= 90,
    ensures
        keydown_command(key) == keydown_command((key + 32) as u32),
        keyup_command(key) == keyup_command((key + 32) as u32),
        after_keydown(m, key) == after_keydown(m, (key + 32) as u32),
        after_keyup(m, key) == after_keyup(m, (key + 32) as u32),
{
}

/// Law: a tick tops the field up to `MAX_ASTEROIDS` asteroids, unless the
/// difficulty budget runs out first; it never overfills the field, and every
/// new asteroid costs one point of budget.
pub proof fn lemma_spawn_tops_up(asteroid_count: usize, difficulty: u32)
    ensures
        0 <= spawn_count(asteroid_count, difficulty) <= difficulty,
        asteroid_count < MAX_ASTEROIDS ==> asteroid_count + spawn_count(asteroid_count, difficulty)
            <= MAX_ASTEROIDS,
        asteroid_count < MAX_ASTEROIDS ==> (asteroid_count + spawn_count(asteroid_count, difficulty)
            == MAX_ASTEROIDS || spawn_count(asteroid_count, difficulty) == difficulty),
        asteroid_count >= MAX_ASTEROIDS ==> spawn_count(asteroid_count, difficulty) == 0,
{
}

} // verus!
