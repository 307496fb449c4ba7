//! The colors that the color tags are drawn in.

use vstd::prelude::*;
use crate::cell::Color;

verus! {

/// The red, green and blue of a color tag.
pub open spec fn rgb(color: Color) -> (u8, u8, u8) {
    match color {
        Color::Black => (0u8, 0u8, 0u8),
        Color::Red => (205u8, 49u8, 49u8),
        Color::Green => (13u8, 188u8, 121u8),
        Color::Yellow => (229u8, 229u8, 16u8),
        Color::Blue => (36u8, 114u8, 200u8),
        Color::Magenta => (188u8, 63u8, 188u8),
        Color::Cyan => (17u8, 168u8, 205u8),
        Color::White => (229u8, 229u8, 229u8),
        Color::BrightBlack => (102u8, 102u8, 102u8),
        Color::BrightRed => (241u8, 76u8, 76u8),
        Color::BrightGreen => (35u8, 209u8, 139u8),
        Color::BrightYellow => (245u8, 245u8, 67u8),
        Color::BrightBlue => (59u8, 142u8, 234u8),
        Color::BrightMagenta => (214u8, 112u8, 214u8),
        Color::BrightCyan => (41u8, 184u8, 219u8),
        Color::BrightWhite => (255u8, 255u8, 255u8),
        Color::DefaultFg => (229u8, 229u8, 229u8),
        Color::DefaultBg => (16u8, 16u8, 24u8),
    }
}

/// The red, green and blue of a color tag. The default foreground is the
/// standard white, the default background a dark blue-grey.
pub fn color_to_rgb(color: Color) -> (channels: (u8, u8, u8))
    ensures
        channels == rgb(color),
{
    match color {
        Color::Black => (0, 0, 0),
        Color::Red => (205, 49, 49),
        Color::Green => (13, 188, 121),
        Color::Yellow => (229, 229, 16),
        Color::Blue => (36, 114, 200),
        Color::Magenta => (188, 63, 188),
        Color::Cyan => (17, 168, 205),
        Color::White => (229, 229, 229),
        Color::BrightBlack => (102, 102, 102),
        Color::BrightRed => (241, 76, 76),
        Color::BrightGreen => (35, 209, 139),
        Color::BrightYellow => (245, 245, 67),
        Color::BrightBlue => (59, 142, 234),
        Color::BrightMagenta => (214, 112, 214),
        Color::BrightCyan => (41, 184, 219),
        Color::BrightWhite => (255, 255, 255),
        Color::DefaultFg => (229, 229, 229),
        Color::DefaultBg => (16, 16, 24),
    }
}

} // verus!
