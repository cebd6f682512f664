//! Stroke descriptors: the geometry-affecting outline parameters plus the
//! paint used to draw the outline.

use crate::fills::Fill;
use crate::fills::FillV;
use vstd::prelude::*;

verus! {

/// How an open outline end is finished.
#[derive(Debug, Clone, Copy, PartialEq, Eq, Structural)]
pub enum StrokeCap {
    Butt,
    Round,
    Square,
}

/// How two outline segments are joined.
#[derive(Debug, Clone, Copy, PartialEq, Eq, Structural)]
pub enum StrokeJoin {
    Miter,
    Round,
    Bevel,
}

/// An outline descriptor: width, cap and join, plus one paint. The width is a
/// plain integer in the host's fixed-point encoding.
#[derive(Debug)]
pub struct Stroke {
    pub fill: Fill,
    pub width: u32,
    pub cap: StrokeCap,
    pub join: StrokeJoin,
}

/// Mathematical value of a [`Stroke`].
pub ghost struct StrokeV {
    pub fill: FillV,
    pub width: u32,
    pub cap: StrokeCap,
    pub join: StrokeJoin,
}

impl View for Stroke {
    type V = StrokeV;

    open spec fn view(&self) -> StrokeV {
        StrokeV { fill: self.fill@, width: self.width, cap: self.cap, join: self.join }
    }
}

/// The mathematical values of a whole stroke list, in order.
pub open spec fn strokes_view(strokes: Seq<Stroke>) -> Seq<StrokeV> {
    strokes.map_values(|s: Stroke| s@)
}

impl Stroke {
    /// An outline painted with `fill`, one unit wide, with butt caps and
    /// miter joins.
    pub fn new(fill: Fill) -> (s: Stroke)
        ensures
            s@ == (StrokeV {
                fill: fill@,
                width: 1,
                cap: StrokeCap::Butt,
                join: StrokeJoin::Miter,
            }),
    {
        Stroke { fill, width: 1, cap: StrokeCap::Butt, join: StrokeJoin::Miter }
    }
}

} // verus!
