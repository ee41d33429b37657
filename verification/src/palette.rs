//! The five-colour palette used by every sprite, text and background.
use vstd::prelude::*;
use bevy::color::Color;

verus! {

/// Declares the engine's colour type, `bevy::color::Color`, as an opaque type.
#[verifier::external_type_specification]
#[verifier::external_body]
pub struct ExColor(Color);

/// The colour that `bevy::color::Color::srgb_u8` makes of the given sRGB bytes.
pub uninterp spec fn srgb_u8_color(red: u8, green: u8, blue: u8) -> Color;

/// The colour that `bevy::color::Color::srgba_u8` makes of the given sRGBA bytes.
pub uninterp spec fn srgba_u8_color(red: u8, green: u8, blue: u8, alpha: u8) -> Color;

/// Calls `Color::srgb_u8`, which builds an opaque sRGB colour from three bytes
/// (each divided by 255 into an `f32` channel). Its result is trusted to be a
/// function of the bytes alone; nothing is said of the channels themselves.
#[verifier::external_body]
fn color_from_srgb_u8(red: u8, green: u8, blue: u8) -> (color: Color)
    ensures
        color == srgb_u8_color(red, green, blue),
{
    Color::srgb_u8(red, green, blue)
}

/// Calls `Color::srgba_u8`, which builds an sRGB colour with alpha from four
/// bytes (each divided by 255 into an `f32` channel). Its result is trusted to
/// be a function of the bytes alone, and with alpha 255 (which gives the
/// channel exactly 1.0) to be the colour that `Color::srgb_u8` makes of the
/// other three; nothing else is said of the channels themselves.
#[verifier::external_body]
fn color_from_srgba_u8(red: u8, green: u8, blue: u8, alpha: u8) -> (color: Color)
    ensures
        color == srgba_u8_color(red, green, blue, alpha),
        alpha == 255 ==> color == srgb_u8_color(red, green, blue),
{
    Color::srgba_u8(red, green, blue, alpha)
}

/// General five-colour palette used across all sprites, UI, gizmos, and backgrounds.
#[derive(Debug, Clone, Copy, PartialEq, Eq, Structural)]
pub enum Palette {
    /// #120021, the dark background.
    Void,
    /// #AEEFB9, the bright primary colour.
    Mint,
    /// #727272, the mid grey.
    Slate,
    /// #341E44, the dark purple.
    Plum,
    /// #FF3333, the bright warning red.
    Crimson,
}

impl Palette {
    /// The colour's sRGB red, green and blue bytes.
    pub open spec fn hex_rgb(self) -> (u8, u8, u8) {
        match self {
            Palette::Void => (0x12, 0x00, 0x21),
            Palette::Mint => (0xAE, 0xEF, 0xB9),
            Palette::Slate => (0x72, 0x72, 0x72),
            Palette::Plum => (0x34, 0x1E, 0x44),
            Palette::Crimson => (0xFF, 0x33, 0x33),
        }
    }

    /// The colour as four sRGBA bytes with the given alpha.
    pub open spec fn rgba_with(self, alpha: u8) -> Seq<u8> {
        seq![self.hex_rgb().0, self.hex_rgb().1, self.hex_rgb().2, alpha]
    }

    /// The colour's sRGB red, green and blue bytes.
    pub fn rgb_bytes(&self) -> (rgb: (u8, u8, u8))
        ensures
            rgb == self.hex_rgb(),
    {
        match self {
            Palette::Void => (0x12, 0x00, 0x21),
            Palette::Mint => (0xAE, 0xEF, 0xB9),
            Palette::Slate => (0x72, 0x72, 0x72),
            Palette::Plum => (0x34, 0x1E, 0x44),
            Palette::Crimson => (0xFF, 0x33, 0x33),
        }
    }

    /// The colour as four sRGBA bytes with the given alpha.
    pub fn rgba_bytes(&self, alpha: u8) -> (rgba: [u8; 4])
        ensures
            rgba@ == self.rgba_with(alpha),
    {
        let (r, g, b) = self.rgb_bytes();
        let rgba = [r, g, b, alpha];
        assert(rgba@ =~= self.rgba_with(alpha));
        rgba
    }

    /// The opaque engine colour of this palette entry.
    pub fn color(&self) -> (color: Color)
        ensures
            color == srgb_u8_color(self.hex_rgb().0, self.hex_rgb().1, self.hex_rgb().2),
    {
        let (r, g, b) = self.rgb_bytes();
        color_from_srgb_u8(r, g, b)
    }

    /// The engine colour of this palette entry with the given alpha.
    pub fn srgba(&self, alpha: u8) -> (color: Color)
        ensures
            color == srgba_u8_color(self.hex_rgb().0, self.hex_rgb().1, self.hex_rgb().2, alpha),
            alpha == 255 ==> color == srgb_u8_color(self.hex_rgb().0, self.hex_rgb().1, self.hex_rgb().2),
    {
        let (r, g, b) = self.rgb_bytes();
        color_from_srgba_u8(r, g, b, alpha)
    }
}

} // verus!
