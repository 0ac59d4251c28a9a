//! Drawing-style enumerations handed to the drawing surface.
use vstd::prelude::*;

verus! {

/// Horizontal text alignment.
#[derive(Debug, Clone, Copy, PartialEq, Eq, Default, Structural)]
pub enum HorizontalAlign {
    #[default]
    Left,
    Center,
    Right,
}

/// Vertical text alignment.
#[derive(Debug, Clone, Copy, PartialEq, Eq, Default, Structural)]
pub enum VerticalAlign {
    Top,
    #[default]
    Baseline,
    Middle,
    Bottom,
}

/// Text alignment on both axes.
#[derive(Debug, Clone, Copy, PartialEq, Eq, Default, Structural)]
pub struct TextAlign {
    pub horizontal: HorizontalAlign,
    pub vertical: VerticalAlign,
}

/// How a path's inside is decided when filling.
#[derive(Debug, Clone, Copy, PartialEq, Eq, Default, Structural)]
pub enum FillRule {
    #[default]
    NonZero,
    EvenOdd,
}

/// How stroked lines end.
#[derive(Debug, Clone, Copy, PartialEq, Eq, Default, Structural)]
pub enum LineCap {
    #[default]
    Butt,
    Round,
    Square,
}

/// How stroked lines join.
#[derive(Debug, Clone, Copy, PartialEq, Eq, Default, Structural)]
pub enum LineJoin {
    #[default]
    Miter,
    Round,
    Bevel,
}

} // verus!
