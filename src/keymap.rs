use vstd::prelude::*;

verus! {

/// A physical key, identified by its position on a US keyboard.
#[derive(PartialEq, Eq, Structural, Clone, Copy, Debug)]
pub enum Key {
    A, B, C, D, E, F, G, H, I, J, K, L, M,
    N, O, P, Q, R, S, T, U, V, W, X, Y, Z,
    /// Any key that is not a letter.
    Other,
}

/// Whether a key translates the camera or turns it.
#[derive(PartialEq, Eq, Structural, Clone, Copy, Debug)]
pub enum Motion {
    Move,
    Rotate,
}

/// A camera-local axis.
#[derive(PartialEq, Eq, Structural, Clone, Copy, Debug)]
pub enum Axis {
    X,
    Y,
    Z,
}

#[derive(PartialEq, Eq, Structural, Clone, Copy, Debug)]
pub enum Sign {
    Positive,
    Negative,
}

/// What one key press does: a step of one sensitivity unit along (for a
/// move) or about (for a rotation) a camera-local axis.
#[derive(PartialEq, Eq, Structural, Clone, Copy, Debug)]
pub struct KeyAction {
    pub motion: Motion,
    pub axis: Axis,
    pub sign: Sign,
}

pub open spec fn act(motion: Motion, axis: Axis, sign: Sign) -> Option<KeyAction> {
    Some(KeyAction { motion, axis, sign })
}

/// The key table. W/S move forward/back along Y, A/D left/right along X,
/// Q/E down/up along Z; I/K turn about Y, L/J about X, U/O about Z.
pub open spec fn action_of(key: Key) -> Option<KeyAction> {
    match key {
        Key::W => act(Motion::Move, Axis::Y, Sign::Positive),
        Key::S => act(Motion::Move, Axis::Y, Sign::Negative),
        Key::A => act(Motion::Move, Axis::X, Sign::Negative),
        Key::D => act(Motion::Move, Axis::X, Sign::Positive),
        Key::Q => act(Motion::Move, Axis::Z, Sign::Negative),
        Key::E => act(Motion::Move, Axis::Z, Sign::Positive),
        Key::I => act(Motion::Rotate, Axis::Y, Sign::Positive),
        Key::K => act(Motion::Rotate, Axis::Y, Sign::Negative),
        Key::L => act(Motion::Rotate, Axis::X, Sign::Positive),
        Key::J => act(Motion::Rotate, Axis::X, Sign::Negative),
        Key::U => act(Motion::Rotate, Axis::Z, Sign::Positive),
        Key::O => act(Motion::Rotate, Axis::Z, Sign::Negative),
        _ => None,
    }
}

pub open spec fn sign_value(sign: Sign) -> int {
    match sign {
        Sign::Positive => 1,
        Sign::Negative => -1,
    }
}

/// The signed unit vector of an action, as (x, y, z).
pub open spec fn direction_of(a: KeyAction) -> (int, int, int) {
    let s = sign_value(a.sign);
    match a.axis {
        Axis::X => (s, 0, 0),
        Axis::Y => (0, s, 0),
        Axis::Z => (0, 0, s),
    }
}

/// Looks a key up in the table; keys outside it do nothing.
pub fn key_action(key: Key) -> (r: Option<KeyAction>)
    ensures
        r == action_of(key),
{
    match key {
        Key::W => Some(KeyAction { motion: Motion::Move, axis: Axis::Y, sign: Sign::Positive }),
        Key::S => Some(KeyAction { motion: Motion::Move, axis: Axis::Y, sign: Sign::Negative }),
        Key::A => Some(KeyAction { motion: Motion::Move, axis: Axis::X, sign: Sign::Negative }),
        Key::D => Some(KeyAction { motion: Motion::Move, axis: Axis::X, sign: Sign::Positive }),
        Key::Q => Some(KeyAction { motion: Motion::Move, axis: Axis::Z, sign: Sign::Negative }),
        Key::E => Some(KeyAction { motion: Motion::Move, axis: Axis::Z, sign: Sign::Positive }),
        Key::I => Some(KeyAction { motion: Motion::Rotate, axis: Axis::Y, sign: Sign::Positive }),
        Key::K => Some(KeyAction { motion: Motion::Rotate, axis: Axis::Y, sign: Sign::Negative }),
        Key::L => Some(KeyAction { motion: Motion::Rotate, axis: Axis::X, sign: Sign::Positive }),
        Key::J => Some(KeyAction { motion: Motion::Rotate, axis: Axis::X, sign: Sign::Negative }),
        Key::U => Some(KeyAction { motion: Motion::Rotate, axis: Axis::Z, sign: Sign::Positive }),
        Key::O => Some(KeyAction { motion: Motion::Rotate, axis: Axis::Z, sign: Sign::Negative }),
        _ => None,
    }
}

impl KeyAction {
    /// The signed unit vector along the action's axis, as (x, y, z).
    pub fn direction(&self) -> (r: (i8, i8, i8))
        ensures
            (r.0 as int, r.1 as int, r.2 as int) == direction_of(*self),
    {
        let s: i8 = match self.sign {
            Sign::Positive => 1,
            Sign::Negative => -1,
        };
        match self.axis {
            Axis::X => (s, 0, 0),
            Axis::Y => (0, s, 0),
            Axis::Z => (0, 0, s),
        }
    }
}

/// Keys that the table leaves out have no effect at all.
pub proof fn lemma_unmapped_keys_do_nothing(key: Key)
    requires
        !(key is W || key is S || key is A || key is D || key is Q || key is E
          || key is I || key is K || key is L || key is J || key is U || key is O),
    ensures
        action_of(key) is None,
{
}

} // verus!
