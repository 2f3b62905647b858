//! Engine-wide constants and the colours used on the console.

use vstd::prelude::*;

verus! {

pub const ENGINE_NAME: &'static str = "malkmusl Rust Game Engine";

pub const VSYNC: bool = false;

pub const DEBUG: bool = false;

/// A colour with 8-bit channels.
#[derive(Clone, Copy, Debug, PartialEq, Eq, Structural)]
pub struct Color {
    pub red: u8,
    pub green: u8,
    pub blue: u8,
    pub alpha: u8,
}

/// The opaque colour with the given channels.
pub open spec fn rgb(red: u8, green: u8, blue: u8) -> Color {
    Color { red, green, blue, alpha: 255 }
}

pub open spec fn spec_color_red() -> Color {
    rgb(255, 0, 0)
}

#[verifier::when_used_as_spec(spec_color_red)]
pub fn color_red() -> (c: Color)
    ensures
        c == spec_color_red(),
{
    Color { red: 255, green: 0, blue: 0, alpha: 255 }
}

pub open spec fn spec_color_green() -> Color {
    rgb(0, 255, 0)
}

#[verifier::when_used_as_spec(spec_color_green)]
pub fn color_green() -> (c: Color)
    ensures
        c == spec_color_green(),
{
    Color { red: 0, green: 255, blue: 0, alpha: 255 }
}

pub open spec fn spec_color_yellow() -> Color {
    rgb(255, 255, 0)
}

#[verifier::when_used_as_spec(spec_color_yellow)]
pub fn color_yellow() -> (c: Color)
    ensures
        c == spec_color_yellow(),
{
    Color { red: 255, green: 255, blue: 0, alpha: 255 }
}

pub open spec fn spec_color_blue() -> Color {
    rgb(0, 0, 255)
}

#[verifier::when_used_as_spec(spec_color_blue)]
pub fn color_blue() -> (c: Color)
    ensures
        c == spec_color_blue(),
{
    Color { red: 0, green: 0, blue: 255, alpha: 255 }
}

pub open spec fn spec_color_magenta() -> Color {
    rgb(255, 0, 255)
}

#[verifier::when_used_as_spec(spec_color_magenta)]
pub fn color_magenta() -> (c: Color)
    ensures
        c == spec_color_magenta(),
{
    Color { red: 255, green: 0, blue: 255, alpha: 255 }
}

pub open spec fn spec_color_cyan() -> Color {
    rgb(0, 255, 255)
}

#[verifier::when_used_as_spec(spec_color_cyan)]
pub fn color_cyan() -> (c: Color)
    ensures
        c == spec_color_cyan(),
{
    Color { red: 0, green: 255, blue: 255, alpha: 255 }
}

pub open spec fn spec_color_white() -> Color {
    rgb(255, 255, 255)
}

#[verifier::when_used_as_spec(spec_color_white)]
pub fn color_white() -> (c: Color)
    ensures
        c == spec_color_white(),
{
    Color { red: 255, green: 255, blue: 255, alpha: 255 }
}

pub open spec fn spec_color_black() -> Color {
    rgb(0, 0, 0)
}

#[verifier::when_used_as_spec(spec_color_black)]
pub fn color_black() -> (c: Color)
    ensures
        c == spec_color_black(),
{
    Color { red: 0, green: 0, blue: 0, alpha: 255 }
}

pub open spec fn spec_color_dark_grey() -> Color {
    rgb(63, 63, 63)
}

#[verifier::when_used_as_spec(spec_color_dark_grey)]
pub fn color_dark_grey() -> (c: Color)
    ensures
        c == spec_color_dark_grey(),
{
    Color { red: 63, green: 63, blue: 63, alpha: 255 }
}

} // verus!
