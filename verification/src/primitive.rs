//! What the placement engine hands to a renderer: positioned quads and
//! positioned runs of text, in 16.16 fixed-point pixels.

use crate::geometry::Bounds;
use vstd::prelude::*;

verus! {

/// A color, one byte per channel.
#[derive(Clone, Copy, Debug, PartialEq, Eq, Structural)]
pub struct Color {
    /// Red.
    pub r: u8,
    /// Green.
    pub g: u8,
    /// Blue.
    pub b: u8,
    /// Opacity.
    pub a: u8,
}

impl Color {
    /// The color that paints nothing.
    pub open spec fn transparent_spec() -> Color {
        Color { r: 0, g: 0, b: 0, a: 0 }
    }

    /// The color that paints nothing.
    pub fn transparent() -> (c: Color)
        ensures
            c == Color::transparent_spec(),
    {
        Color { r: 0, g: 0, b: 0, a: 0 }
    }
}

/// A filled rectangle, with rounded corners if `border_radius` is not zero.
#[derive(Clone, Copy, Debug, PartialEq, Eq, Structural)]
pub struct Quad {
    /// Where the quad lies.
    pub bounds: Bounds,
    /// The fill color.
    pub color: Color,
    /// Radius of the corners.
    pub border_radius: i64,
    /// Width of the border line.
    pub border_width: i64,
    /// Color of the border line.
    pub border_color: Color,
}

/// Where a run of text lies horizontally relative to its anchor.
#[derive(Clone, Copy, Debug, PartialEq, Eq, Structural)]
pub enum Horizontal {
    /// The anchor is the left end.
    Left,
    /// The anchor is the middle.
    Center,
    /// The anchor is the right end.
    Right,
}

/// Where a run of text lies vertically relative to its anchor.
#[derive(Clone, Copy, Debug, PartialEq, Eq, Structural)]
pub enum Vertical {
    /// The anchor is the top.
    Top,
    /// The anchor is the middle.
    Center,
    /// The anchor is the bottom.
    Bottom,
}

/// A font, named by its index in the renderer's table; zero is the default.
#[derive(Clone, Copy, Debug, PartialEq, Eq, Structural)]
pub struct Font {
    /// Index in the renderer's table of fonts.
    pub id: u32,
}

/// A positioned run of text.
#[derive(Debug)]
pub struct Text {
    /// The characters to draw.
    pub content: String,
    /// Height of the type.
    pub size: i64,
    /// The anchor (`x`, `y`) and the box the text may fill.
    pub bounds: Bounds,
    /// Color of the type.
    pub color: Color,
    /// The font to set it in.
    pub font: Font,
    /// Horizontal position relative to the anchor.
    pub horizontal_alignment: Horizontal,
    /// Vertical position relative to the anchor.
    pub vertical_alignment: Vertical,
}

/// What a [`Text`] says, with its content as a sequence of characters.
pub struct TextModel {
    /// The characters to draw.
    pub content: Seq<char>,
    /// Height of the type.
    pub size: int,
    /// The anchor and the box the text may fill.
    pub bounds: Bounds,
    /// Color of the type.
    pub color: Color,
    /// The font to set it in.
    pub font: Font,
    /// Horizontal position relative to the anchor.
    pub horizontal_alignment: Horizontal,
    /// Vertical position relative to the anchor.
    pub vertical_alignment: Vertical,
}

impl View for Text {
    type V = TextModel;

    open spec fn view(&self) -> TextModel {
        TextModel {
            content: self.content@,
            size: self.size as int,
            bounds: self.bounds,
            color: self.color,
            font: self.font,
            horizontal_alignment: self.horizontal_alignment,
            vertical_alignment: self.vertical_alignment,
        }
    }
}

impl Clone for Text {
    /// A text that says the same.
    fn clone(&self) -> (copy: Self)
        ensures
            copy@ == self@,
    {
        Text {
            content: self.content.clone(),
            size: self.size,
            bounds: self.bounds,
            color: self.color,
            font: self.font,
            horizontal_alignment: self.horizontal_alignment,
            vertical_alignment: self.vertical_alignment,
        }
    }
}

/// The models of a list of texts, in order.
pub open spec fn text_models(texts: Seq<Text>) -> Seq<TextModel> {
    Seq::new(texts.len(), |i: int| texts[i]@)
}

} // verus!
