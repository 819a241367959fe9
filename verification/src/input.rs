//! From the movement keys that are held to a walking direction.

use vstd::prelude::*;

verus! {

/// One of the four logical movement keys.
#[derive(Clone, Copy, Debug, PartialEq, Eq, Structural)]
pub enum MoveKey {
    Up,
    Down,
    Left,
    Right,
}

/// The set of movement keys that are held at the start of a frame.
#[derive(Clone, Copy, Debug, PartialEq, Eq, Structural)]
pub struct PressedKeys {
    up: bool,
    down: bool,
    left: bool,
    right: bool,
}

/// A direction along the grid axes before it is brought to unit length: each
/// component is -1, 0 or 1. Positive `x` points right, positive `y` points up.
#[derive(Clone, Copy, Debug, PartialEq, Eq, Structural)]
pub struct Heading {
    pub x: i8,
    pub y: i8,
}

/// What two opposing keys contribute to their axis: one step for the positive
/// key, one step back for the negative key.
pub open spec fn axis(positive: bool, negative: bool) -> int {
    (if positive { 1int } else { 0int }) - (if negative { 1int } else { 0int })
}

/// The direction that a set of held keys asks for, as `(x, y)`.
pub open spec fn direction_of(keys: Set<MoveKey>) -> (int, int) {
    (
        axis(keys.contains(MoveKey::Right), keys.contains(MoveKey::Left)),
        axis(keys.contains(MoveKey::Up), keys.contains(MoveKey::Down)),
    )
}

/// Opposing keys cancel: an axis of the direction is zero exactly where its
/// two keys are held together or released together, and is 1 or -1 otherwise.
/// With no key held the direction is zero.
pub proof fn lemma_opposing_keys_cancel(keys: Set<MoveKey>)
    ensures
        direction_of(keys).0 == 0 <==> keys.contains(MoveKey::Left) == keys.contains(
            MoveKey::Right,
        ),
        direction_of(keys).1 == 0 <==> keys.contains(MoveKey::Up) == keys.contains(MoveKey::Down),
        -1 <= direction_of(keys).0 <= 1,
        -1 <= direction_of(keys).1 <= 1,
        keys == Set::<MoveKey>::empty() ==> direction_of(keys) == (0int, 0int),
{
}

impl View for PressedKeys {
    type V = Set<MoveKey>;

    closed spec fn view(&self) -> Set<MoveKey> {
        Set::new(
            |key: MoveKey|
                match key {
                    MoveKey::Up => self.up,
                    MoveKey::Down => self.down,
                    MoveKey::Left => self.left,
                    MoveKey::Right => self.right,
                },
        )
    }
}

impl PressedKeys {
    /// No key is held.
    pub fn none() -> (keys: PressedKeys)
        ensures
            keys@ == Set::<MoveKey>::empty(),
    {
        let keys = PressedKeys { up: false, down: false, left: false, right: false };
        assert(keys@ =~= Set::<MoveKey>::empty());
        keys
    }

    /// The same keys, and `key` held too.
    pub fn press(self, key: MoveKey) -> (keys: PressedKeys)
        ensures
            keys@ == self@.insert(key),
    {
        let keys = match key {
            MoveKey::Up => PressedKeys { up: true, ..self },
            MoveKey::Down => PressedKeys { down: true, ..self },
            MoveKey::Left => PressedKeys { left: true, ..self },
            MoveKey::Right => PressedKeys { right: true, ..self },
        };
        assert(keys@ =~= self@.insert(key));
        keys
    }

    /// Whether `key` is held.
    pub fn is_pressed(&self, key: MoveKey) -> (held: bool)
        ensures
            held == self@.contains(key),
    {
        match key {
            MoveKey::Up => self.up,
            MoveKey::Down => self.down,
            MoveKey::Left => self.left,
            MoveKey::Right => self.right,
        }
    }
}

/// Maps the held keys to the direction they ask for: `Up` adds one to `y`,
/// `Down` takes one from it, `Right` adds one to `x`, `Left` takes one from
/// it.
pub fn map_keys(keys: &PressedKeys) -> (heading: Heading)
    ensures
        (heading.x as int, heading.y as int) == direction_of(keys@),
{
    let mut x: i8 = 0;
    let mut y: i8 = 0;
    if keys.up {
        y = y + 1;
    }
    if keys.down {
        y = y - 1;
    }
    if keys.left {
        x = x - 1;
    }
    if keys.right {
        x = x + 1;
    }
    Heading { x, y }
}

} // verus!
