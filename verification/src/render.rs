//! Text layout options of the Canvas2D render commands.
use vstd::prelude::*;

verus! {

/// Text alignment options for Canvas2D.
#[derive(Debug, Clone, Copy, PartialEq, Eq, Structural)]
pub enum TextAlign {
    /// Left-aligned text.
    Left,
    /// Center-aligned text.
    Center,
    /// Right-aligned text.
    Right,
}

impl Default for TextAlign {
    fn default() -> (a: Self)
        ensures
            a == TextAlign::Left,
    {
        TextAlign::Left
    }
}

/// Text baseline options for Canvas2D.
#[derive(Debug, Clone, Copy, PartialEq, Eq, Structural)]
pub enum TextBaseline {
    /// Top baseline.
    Top,
    /// Middle baseline.
    Middle,
    /// Bottom baseline.
    Bottom,
    /// Alphabetic baseline.
    Alphabetic,
}

impl Default for TextBaseline {
    fn default() -> (b: Self)
        ensures
            b == TextBaseline::Middle,
    {
        TextBaseline::Middle
    }
}

} // verus!
