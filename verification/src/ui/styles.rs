//! Sizes and states shared by the styles.

use vstd::prelude::*;

verus! {

/// The visual state of a button.
#[derive(Debug, Clone, Copy, PartialEq, Eq, Structural)]
pub enum ButtonStatus {
    Active,
    Hovered,
    Pressed,
    Disabled,
}

/// Font sizes, in points.
pub const FONT_TINY: u16 = 10;

pub const FONT_SMALL: u16 = 12;

pub const FONT_MEDIUM: u16 = 14;

pub const FONT_LARGE: u16 = 18;

pub const FONT_XLARGE: u16 = 24;

} // verus!
