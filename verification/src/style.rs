//! The lighting styles of the ring: which style a ring mode belongs to, and
//! which mode the choice of a style sets.

use vstd::prelude::*;

verus! {

/// The mode of a ring in one solid colour.
pub const MODE_SOLID: u32 = 0x00;

/// The mode of a ring that cycles through the spectrum.
pub const MODE_SPECTRUM: u32 = 0x01;

/// The mode of a ring that shows a gradient.
pub const MODE_GRADIENT: u32 = 0x03;

/// The first of the three meter modes: the whole ring, the bar going up,
/// the bar going down.
pub const MODE_METER_FIRST: u32 = 0x05;

/// The last of the three meter modes.
pub const MODE_METER_LAST: u32 = 0x07;

/// The first of the two sparkle modes: random, and driven by the meter.
pub const MODE_SPARKLE_FIRST: u32 = 0x0a;

/// The last of the two sparkle modes.
pub const MODE_SPARKLE_LAST: u32 = 0x0b;

/// A lighting style, as offered for choice. A style stands for one mode or
/// for a few neighbouring ones.
#[derive(Clone, Copy, Debug, PartialEq, Eq)]
pub enum LightingStyle {
    Solid,
    Gradient,
    Reactive,
    Sparkle,
    Spectrum,
}

impl LightingStyle {
    /// The style whose settings are shown for `mode`. Only the low byte of
    /// the mode counts; a mode of no style shows none.
    pub open spec fn spec_of_mode(mode: u32) -> Option<LightingStyle> {
        let low = mode % 0x100;
        if low == MODE_SOLID {
            Some(LightingStyle::Solid)
        } else if low == MODE_SPECTRUM {
            Some(LightingStyle::Spectrum)
        } else if low == MODE_GRADIENT {
            Some(LightingStyle::Gradient)
        } else if MODE_METER_FIRST <= low <= MODE_METER_LAST {
            Some(LightingStyle::Reactive)
        } else if MODE_SPARKLE_FIRST <= low <= MODE_SPARKLE_LAST {
            Some(LightingStyle::Sparkle)
        } else {
            None
        }
    }

    /// The mode that choosing the style sets while the ring is in mode
    /// `current`: the style's own mode, and for a style of several modes
    /// the current one if it is among them, else the first of them.
    pub open spec fn spec_mode(self, current: u32) -> u32 {
        match self {
            LightingStyle::Solid => MODE_SOLID,
            LightingStyle::Gradient => MODE_GRADIENT,
            LightingStyle::Reactive => if MODE_METER_FIRST <= current <= MODE_METER_LAST {
                current
            } else {
                MODE_METER_FIRST
            },
            LightingStyle::Sparkle => if MODE_SPARKLE_FIRST <= current <= MODE_SPARKLE_LAST {
                current
            } else {
                MODE_SPARKLE_FIRST
            },
            LightingStyle::Spectrum => MODE_SPECTRUM,
        }
    }

    /// The style whose settings are to be shown for `mode`.
    pub fn of_mode(mode: u32) -> (style: Option<LightingStyle>)
        ensures
            style == Self::spec_of_mode(mode),
    {
        let low: u32 = mode % 0x100;
        if low == MODE_SOLID {
            Some(LightingStyle::Solid)
        } else if low == MODE_SPECTRUM {
            Some(LightingStyle::Spectrum)
        } else if low == MODE_GRADIENT {
            Some(LightingStyle::Gradient)
        } else if MODE_METER_FIRST <= low && low <= MODE_METER_LAST {
            Some(LightingStyle::Reactive)
        } else if MODE_SPARKLE_FIRST <= low && low <= MODE_SPARKLE_LAST {
            Some(LightingStyle::Sparkle)
        } else {
            None
        }
    }

    /// The mode to set when the style is chosen while the ring is in mode
    /// `current`.
    pub fn mode(&self, current: u32) -> (mode: u32)
        ensures
            mode == self.spec_mode(current),
    {
        match self {
            LightingStyle::Solid => MODE_SOLID,
            LightingStyle::Gradient => MODE_GRADIENT,
            LightingStyle::Reactive => if MODE_METER_FIRST <= current && current
                <= MODE_METER_LAST {
                current
            } else {
                MODE_METER_FIRST
            },
            LightingStyle::Sparkle => if MODE_SPARKLE_FIRST <= current && current
                <= MODE_SPARKLE_LAST {
                current
            } else {
                MODE_SPARKLE_FIRST
            },
            LightingStyle::Spectrum => MODE_SPECTRUM,
        }
    }
}

/// The mode that a style sets belongs to that style, and a mode that
/// already belongs to a style is the one that the style sets.
pub proof fn lemma_style_of_its_mode(style: LightingStyle, current: u32)
    ensures
        LightingStyle::spec_of_mode(style.spec_mode(current)) == Some(style),
        current < 0x100 && LightingStyle::spec_of_mode(current) == Some(style) ==> style.spec_mode(
            current,
        ) == current,
{
}

} // verus!
