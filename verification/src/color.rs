//! Colours.

use ratatui::style::Color;
use vstd::prelude::*;

verus! {

/// A colour by its red, green and blue channels.
#[derive(Clone, Copy, Debug, PartialEq, Eq, Structural)]
pub struct Rgb {
    pub r: u8,
    pub g: u8,
    pub b: u8,
}

/// A foreground and background colour pair.
#[derive(Clone, Copy, Debug, PartialEq, Eq, Structural)]
pub struct Style {
    pub fg: Rgb,
    pub bg: Rgb,
}

/// The colour with the channels of `0x00RRGGBB`.
pub open spec fn rgb_of_u32(u: u32) -> Rgb {
    Rgb { r: ((u / 0x1_0000) % 0x100) as u8, g: ((u / 0x100) % 0x100) as u8, b: (u % 0x100) as u8 }
}

/// `ratatui::style::Color::from_u32`, whose result is always an RGB colour:
/// the low three bytes of the argument are its red, green and blue channels,
/// highest first. The RGB colour is handed out by its channels.
#[verifier::external_body]
fn color_from_u32(u: u32) -> (r: Option<Rgb>)
    ensures
        r == Some(rgb_of_u32(u)),
{
    match Color::from_u32(u) {
        Color::Rgb(r, g, b) => Some(Rgb { r, g, b }),
        _ => None,
    }
}

impl Rgb {
    /// The colour written `0x00RRGGBB`; the highest byte is ignored.
    pub fn from_u32(u: u32) -> (c: Rgb)
        ensures
            c == rgb_of_u32(u),
    {
        match color_from_u32(u) {
            Some(c) => c,
            None => Rgb { r: 0, g: 0, b: 0 },
        }
    }
}

} // verus!
