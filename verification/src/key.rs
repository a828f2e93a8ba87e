//! Special-key events, as the key decoder of the display server gives them.
use vstd::prelude::*;

verus! {

/// Number of the Alt key among the modifiers.
pub const MOD_ALT: u8 = 3;

/// The class of a special key.
#[derive(Clone, Copy, Debug, PartialEq, Eq, Structural)]
pub enum SkType {
    /// A key that moves: 0 left, 1 up, 2 right, 3 down, 6 page up,
    /// 7 page down.
    Direction(u8),
    /// A modifier key, by its number.
    Modifier(u8),
    /// A key of a class that the terminal does not act on.
    Other,
}

/// A special key going down or up.
#[derive(Clone, Copy, Debug, PartialEq, Eq, Structural)]
pub struct Skey {
    pub down: bool,
    pub ty: SkType,
}

} // verus!
