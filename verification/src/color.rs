//! Colours with eight bits per channel.

use vstd::prelude::*;
use vstd::std_specs::convert::FromSpecImpl;

verus! {

/// An RGBA colour, eight bits per channel, alpha not premultiplied.
#[derive(Clone, Copy, Debug, PartialEq, Eq, Structural)]
pub struct Color {
    pub r: u8,
    pub g: u8,
    pub b: u8,
    pub a: u8,
}

/// The colour whose channels are the four bytes in order.
pub open spec fn color_of_rgba(c: Seq<u8>) -> Color
    recommends
        c.len() == 4,
{
    Color { r: c[0], g: c[1], b: c[2], a: c[3] }
}

/// The opaque colour whose channels are the three bytes in order.
pub open spec fn color_of_rgb(c: Seq<u8>) -> Color
    recommends
        c.len() == 3,
{
    Color { r: c[0], g: c[1], b: c[2], a: 255 }
}

impl From<[u8; 4]> for Color {
    fn from(color: [u8; 4]) -> (out: Color) {
        Color { r: color[0], g: color[1], b: color[2], a: color[3] }
    }
}

impl FromSpecImpl<[u8; 4]> for Color {
    open spec fn obeys_from_spec() -> bool {
        true
    }

    open spec fn from_spec(color: [u8; 4]) -> Color {
        color_of_rgba(color@)
    }
}

impl From<[u8; 3]> for Color {
    fn from(color: [u8; 3]) -> (out: Color) {
        Color { r: color[0], g: color[1], b: color[2], a: 255 }
    }
}

impl FromSpecImpl<[u8; 3]> for Color {
    open spec fn obeys_from_spec() -> bool {
        true
    }

    open spec fn from_spec(color: [u8; 3]) -> Color {
        color_of_rgb(color@)
    }
}

impl<'a> From<&'a [u8; 4]> for Color {
    fn from(color: &'a [u8; 4]) -> (out: Color) {
        Color { r: color[0], g: color[1], b: color[2], a: color[3] }
    }
}

impl<'a> FromSpecImpl<&'a [u8; 4]> for Color {
    open spec fn obeys_from_spec() -> bool {
        true
    }

    open spec fn from_spec(color: &'a [u8; 4]) -> Color {
        color_of_rgba(color@)
    }
}

impl<'a> From<&'a [u8; 3]> for Color {
    fn from(color: &'a [u8; 3]) -> (out: Color) {
        Color { r: color[0], g: color[1], b: color[2], a: 255 }
    }
}

impl<'a> FromSpecImpl<&'a [u8; 3]> for Color {
    open spec fn obeys_from_spec() -> bool {
        true
    }

    open spec fn from_spec(color: &'a [u8; 3]) -> Color {
        color_of_rgb(color@)
    }
}

} // verus!
