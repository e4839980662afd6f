use vstd::prelude::*;

verus! {

/// Horizontal alignment of a label's text relative to its anchor.
#[derive(Clone, Copy, Debug, PartialEq, Eq, Structural)]
pub enum Alignment {
    Left,
    Center,
    Right,
}

/// A fixed line of text placed in view space: its box starts at `(x, y)` and
/// is `width` by `height` units; `font` indexes the fonts loaded at startup.
#[derive(Debug)]
pub struct LabelSpec {
    pub text: String,
    pub x: i64,
    pub y: i64,
    pub width: i64,
    pub height: i64,
    pub align: Alignment,
    pub font: usize,
}

impl LabelSpec {
    /// The point the text line is drawn at, `(x, y + height / 2)`, as
    /// numerators over 2 so that odd heights stay exact.
    pub fn anchor(&self) -> (r: (i128, i128))
        ensures
            r == ((2 * self.x) as i128, (2 * self.y + self.height) as i128),
    {
        (2 * self.x as i128, 2 * self.y as i128 + self.height as i128)
    }
}

} // verus!
