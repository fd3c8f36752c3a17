//! The kinds of badges.

use vstd::prelude::*;

verus! {

/// The kind of a badge.
#[derive(Debug, Clone, Copy, PartialEq, Eq, Structural)]
pub enum BadgeType {
    Success,
    Warning,
    Error,
    Info,
    Neutral,
}

} // verus!
