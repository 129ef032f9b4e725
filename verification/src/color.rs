//! Colours: the display encoding in which pixels arrive and leave, and the
//! perceptual space in which a tessera keeps its colour.

use palette::FromColor;
use vstd::prelude::*;

verus! {

/// `palette::Oklch`, a colour by lightness, chroma and hue. Verus sees no
/// more of it than that two values are equal or not.
#[verifier::external_type_specification]
#[verifier::external_body]
#[verifier::reject_recursive_types(T)]
pub struct ExOklch<T>(palette::Oklch<T>);

/// `core::array::TryFromSliceError`, which the conversions that `palette`
/// implements for its colour types mention. Nothing here makes or reads one.
#[verifier::external_type_specification]
#[verifier::external_body]
pub struct ExTryFromSliceError(core::array::TryFromSliceError);

/// A colour in display encoding: gamma-encoded sRGB with straight alpha,
/// eight bits per channel.
#[derive(Clone, Copy, Debug, PartialEq, Eq, Structural)]
pub struct DisplayColor {
    pub red: u8,
    pub green: u8,
    pub blue: u8,
    pub alpha: u8,
}

/// The perceptual colour that `palette` gives for a display colour: the
/// channels are widened to fractions of one, taken from sRGB to Oklch and
/// clamped to the bounds of that space.
pub uninterp spec fn spec_perceptual(red: u8, green: u8, blue: u8, alpha: u8) -> palette::Oklch;

/// The red, green and blue channels that `palette` gives for a perceptual
/// colour: the colour is taken from Oklch to sRGB, clamped to the bounds of
/// that space, and each channel is narrowed to eight bits.
pub uninterp spec fn spec_displayed(color: palette::Oklch) -> (u8, u8, u8);

/// The perceptual colour of a display colour.
pub open spec fn spec_to_perceptual(color: DisplayColor) -> palette::Oklch {
    spec_perceptual(color.red, color.green, color.blue, color.alpha)
}

/// The opaque display colour of a perceptual colour.
pub open spec fn spec_to_display(color: palette::Oklch) -> DisplayColor {
    DisplayColor {
        red: spec_displayed(color).0,
        green: spec_displayed(color).1,
        blue: spec_displayed(color).2,
        alpha: 255,
    }
}

/// Calls `palette`: `Srgba::from` on the four channels, `into` for the
/// channels as fractions, and `Oklch::from_color`. The contract claims only
/// that the result is the one colour that these calls give for these four
/// channels.
#[verifier::external_body]
fn perceptual_from_channels(red: u8, green: u8, blue: u8, alpha: u8) -> (color: palette::Oklch)
    ensures
        color == spec_perceptual(red, green, blue, alpha),
{
    let encoded: palette::Srgba = palette::Srgba::from([red, green, blue, alpha]).into();
    palette::Oklch::from_color(encoded)
}

/// Calls `palette`: `Srgba::from_color` on the colour and `into` for channels
/// of eight bits. The contract claims only that the result is the one triple
/// of channels that these calls give for this colour.
#[verifier::external_body]
fn channels_from_perceptual(color: palette::Oklch) -> (channels: (u8, u8, u8))
    ensures
        channels == spec_displayed(color),
{
    let encoded: palette::Srgba<u8> = palette::Srgba::from_color(color).into();
    (encoded.red, encoded.green, encoded.blue)
}

/// Takes a display colour to the perceptual space. Transparency is not kept.
pub fn to_perceptual(color: DisplayColor) -> (perceptual: palette::Oklch)
    ensures
        perceptual == spec_to_perceptual(color),
{
    perceptual_from_channels(color.red, color.green, color.blue, color.alpha)
}

/// Takes a perceptual colour back to display encoding, fully opaque.
pub fn to_display(color: palette::Oklch) -> (display: DisplayColor)
    ensures
        display == spec_to_display(color),
{
    let channels = channels_from_perceptual(color);
    DisplayColor { red: channels.0, green: channels.1, blue: channels.2, alpha: 255 }
}

/// An opaque display colour of the given channels.
pub open spec fn spec_opaque(red: u8, green: u8, blue: u8) -> DisplayColor {
    DisplayColor { red, green, blue, alpha: 255 }
}

/// Pure yellow, the colour of a tessera whose sample could not be taken.
pub open spec fn spec_fallback_color() -> DisplayColor {
    spec_opaque(255, 255, 0)
}

/// White, the colour of the tesserae of a blank mosaic.
pub open spec fn spec_blank_color() -> DisplayColor {
    spec_opaque(255, 255, 255)
}

/// Light blue, the colour that a tessera gets when it is edited by a click.
pub open spec fn spec_edit_color() -> DisplayColor {
    spec_opaque(173, 216, 230)
}

/// Light red, the colour of the lines of the grid.
pub open spec fn spec_grid_color() -> DisplayColor {
    spec_opaque(255, 128, 128)
}

/// No colour at all: every channel zero, alpha included.
pub open spec fn spec_transparent() -> DisplayColor {
    DisplayColor { red: 0, green: 0, blue: 0, alpha: 0 }
}

impl DisplayColor {
    /// An opaque colour of the given channels.
    pub fn from_rgb(red: u8, green: u8, blue: u8) -> (color: DisplayColor)
        ensures
            color == spec_opaque(red, green, blue),
    {
        DisplayColor { red, green, blue, alpha: 255 }
    }

    /// Pure yellow.
    pub fn fallback() -> (color: DisplayColor)
        ensures
            color == spec_fallback_color(),
    {
        DisplayColor::from_rgb(255, 255, 0)
    }

    /// White.
    pub fn blank() -> (color: DisplayColor)
        ensures
            color == spec_blank_color(),
    {
        DisplayColor::from_rgb(255, 255, 255)
    }

    /// Light blue.
    pub fn edit() -> (color: DisplayColor)
        ensures
            color == spec_edit_color(),
    {
        DisplayColor::from_rgb(173, 216, 230)
    }

    /// Light red.
    pub fn grid() -> (color: DisplayColor)
        ensures
            color == spec_grid_color(),
    {
        DisplayColor::from_rgb(255, 128, 128)
    }

    /// No colour at all.
    pub fn transparent() -> (color: DisplayColor)
        ensures
            color == spec_transparent(),
    {
        DisplayColor { red: 0, green: 0, blue: 0, alpha: 0 }
    }
}

} // verus!
