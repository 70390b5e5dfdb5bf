//! The keys the window listens to.

use vstd::prelude::*;

verus! {

/// A key, as far as the window tells any of them apart.
#[derive(Debug, Clone, Copy, PartialEq, Eq, Structural)]
pub enum Key {
    /// The up arrow.
    ArrowUp,
    /// The down arrow.
    ArrowDown,
    /// The left arrow.
    ArrowLeft,
    /// The right arrow.
    ArrowRight,
    /// `[`
    OpenBracket,
    /// `]`
    CloseBracket,
    /// `-`
    Minus,
    /// `=`
    Equals,
    /// Page up.
    PageUp,
    /// Page down.
    PageDown,
    /// `,`
    Comma,
    /// `.`
    Period,
    /// `1`
    Num1,
    /// `2`
    Num2,
    /// `3`
    Num3,
    /// `4`
    Num4,
    /// `5`
    Num5,
    /// `6`
    Num6,
    /// `f`
    F,
    /// `p`
    P,
    /// Any other key.
    Other,
}

} // verus!
