//! The reasons for which an operation is refused.

use vstd::prelude::*;

verus! {

/// Why an operation was refused.
///
/// A refused operation changes nothing: every check is made before the first
/// write, and the caller may try again with other inputs or at a later time.
#[derive(Clone, Copy, Debug, PartialEq, Eq, Structural)]
pub enum CustomError {
    /// A winner was to be declared while the pool holds no entry.
    NoEntries,
    /// A winner was to be declared before the cooldown since the last
    /// declaration has run out.
    SpinTooEarly,
    /// The account to be paid is not the owner of the winning entry.
    WinnerMismatch,
    /// The pool, or an entry with the same title and owner, exists already.
    AlreadyExists,
    /// A balance does not cover the amount to be taken from it.
    InsufficientFunds,
    /// A title or a content reference is longer than its limit.
    SizeLimitExceeded,
    /// A balance or a counter would exceed what 64 bits hold.
    Overflow,
    /// The time could not be read from the clock.
    ClockUnavailable,
}

} // verus!
