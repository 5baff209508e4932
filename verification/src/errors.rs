use vstd::prelude::*;

verus! {

/// Validation failures raised by the command value model's constructors.
///
/// Each variant carries the rejected raw value so a caller can report it.
#[derive(Debug, Clone, Copy, PartialEq, Eq, Structural)]
pub enum WhisperAtcError {
    /// A compass direction outside 1..=360 degrees.
    InvalidDirection(u32),
    /// An altitude outside -1355..=99999 feet.
    InvalidAltitude(i32),
    /// A turn outside 0..=179 degrees.
    InvalidTurn(u32),
}

} // verus!
