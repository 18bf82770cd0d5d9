//! Display colors: three 8-bit channels, and the clamping of a shaded
//! channel level into the displayable range.
use vstd::prelude::*;

verus! {

/// Brightest displayable channel level.
pub const MAX_LEVEL: u8 = 255;

/// A channel level clamped into `0 ..= MAX_LEVEL`.
pub open spec fn clamp_level(level: int) -> int {
    if level < 0 {
        0
    } else if level > MAX_LEVEL as int {
        MAX_LEVEL as int
    } else {
        level
    }
}

/// Clamps a channel level into the displayable range, without wrapping.
pub fn bound_channel(level: i64) -> (r: u8)
    ensures
        r as int == clamp_level(level as int),
{
    if level < 0 {
        0
    } else if level > MAX_LEVEL as i64 {
        MAX_LEVEL
    } else {
        level as u8
    }
}

/// A displayable pixel color.
#[derive(Debug, Clone, Copy, PartialEq, Eq, Structural)]
pub struct Rgb {
    pub red: u8,
    pub green: u8,
    pub blue: u8,
}

impl Rgb {
    pub fn new(red: u8, green: u8, blue: u8) -> (r: Rgb)
        ensures
            r == (Rgb { red, green, blue }),
    {
        Rgb { red, green, blue }
    }

    /// The background, shown where a ray meets nothing.
    pub fn black() -> (r: Rgb)
        ensures
            r == (Rgb { red: 0, green: 0, blue: 0 }),
    {
        Rgb { red: 0, green: 0, blue: 0 }
    }

    /// The displayable color of shaded channel levels: each channel clamped
    /// into `0 ..= MAX_LEVEL`.
    pub fn bound(red: i64, green: i64, blue: i64) -> (r: Rgb)
        ensures
            r.red as int == clamp_level(red as int),
            r.green as int == clamp_level(green as int),
            r.blue as int == clamp_level(blue as int),
    {
        Rgb { red: bound_channel(red), green: bound_channel(green), blue: bound_channel(blue) }
    }
}

/// The color of a pixel: its shade where its ray met an element, else the
/// background.
pub fn pixel_color(shade: Option<Rgb>) -> (r: Rgb)
    ensures
        r == match shade {
            Some(c) => c,
            None => Rgb { red: 0, green: 0, blue: 0 },
        },
{
    match shade {
        Some(c) => c,
        None => Rgb::black(),
    }
}

/// Clamping is idempotent, and keeps every level that is already
/// displayable.
pub proof fn clamp_keeps_displayable(level: int)
    ensures
        0 <= clamp_level(level) <= MAX_LEVEL as int,
        clamp_level(clamp_level(level)) == clamp_level(level),
        0 <= level <= MAX_LEVEL as int ==> clamp_level(level) == level,
        level > MAX_LEVEL as int ==> clamp_level(level) == MAX_LEVEL as int,
{
}

} // verus!
