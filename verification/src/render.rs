//! Drawing instructions.
//!
//! Widgets do not draw. They describe what is to be drawn as a list of
//! commands, in back-to-front order, and the caller replays that list on
//! whatever backend it has.

use vstd::prelude::*;

verus! {

/// An RGBA color with eight bits per channel.
#[derive(Clone, Copy, Debug, PartialEq, Eq, Structural)]
pub struct Color {
    pub r: u8,
    pub g: u8,
    pub b: u8,
    pub a: u8,
}

impl Color {
    pub open spec fn spec_white() -> Color {
        Color { r: 255, g: 255, b: 255, a: 255 }
    }

    pub open spec fn spec_black() -> Color {
        Color { r: 0, g: 0, b: 0, a: 255 }
    }

    pub open spec fn spec_gray() -> Color {
        Color { r: 128, g: 128, b: 128, a: 255 }
    }

    #[verifier::when_used_as_spec(spec_white)]
    pub fn white() -> (c: Color)
        ensures
            c == Color::spec_white(),
    {
        Color { r: 255, g: 255, b: 255, a: 255 }
    }

    #[verifier::when_used_as_spec(spec_black)]
    pub fn black() -> (c: Color)
        ensures
            c == Color::spec_black(),
    {
        Color { r: 0, g: 0, b: 0, a: 255 }
    }

    #[verifier::when_used_as_spec(spec_gray)]
    pub fn gray() -> (c: Color)
        ensures
            c == Color::spec_gray(),
    {
        Color { r: 128, g: 128, b: 128, a: 255 }
    }
}

/// A rectangle in millionths of a pixel.
#[derive(Clone, Copy, Debug, PartialEq, Eq, Structural)]
pub struct FixedRect {
    pub x: i64,
    pub y: i64,
    pub width: i64,
    pub height: i64,
}

/// Width and height of an image, in pixels.
#[derive(Clone, Copy, Debug, PartialEq, Eq, Structural)]
pub struct ImageSize {
    pub width: i32,
    pub height: i32,
}

/// Which string a text command shows. The strings themselves stay with
/// their owners.
#[derive(Clone, Copy, Debug, PartialEq, Eq, Structural)]
pub enum TextSource {
    /// The label of the button.
    Label,
    /// The text that the user has typed so far.
    Typed,
    /// The hint that a text box shows while nothing has been typed.
    Placeholder,
    /// The body of the page that was fetched last.
    Page,
}

/// One drawing instruction. Positions and sizes are in whole pixels unless
/// a field says otherwise.
#[derive(Clone, Copy, Debug, PartialEq, Eq, Structural)]
pub enum DrawCommand {
    /// Fill the whole window.
    Clear { color: Color },
    /// Fill a rectangle.
    FillRect { x: i32, y: i32, width: i32, height: i32, color: Color },
    /// Stroke the outline of a rectangle with rounded corners. `thickness`
    /// is in millionths of a pixel and `roundness` in millionths.
    RoundedOutline { rect: FixedRect, roundness: i64, segments: i32, thickness: i64, color: Color },
    /// Draw a string with its top-left corner at `(x, y)`.
    Text { source: TextSource, x: i32, y: i32, size: i32, color: Color },
    /// Draw the caller's image with its top-left corner at `(left, top)`,
    /// given in millionths of a pixel, magnified by `scale` millionths.
    Image { left: i64, top: i64, scale: i64, tint: Color },
}

} // verus!
