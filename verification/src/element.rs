//! The data of one glyph: five values, a position and a style.

use vstd::prelude::*;
use vstd::string::StringExecFns;
use crate::style::{Color, Stroke};

verus! {

/// Default thickness of the box: `0.25`.
pub const DEFAULT_BOX_WIDTH: i64 = 250_000;

/// Default width of a whisker cap: `0.15`.
pub const DEFAULT_WHISKER_WIDTH: i64 = 150_000;

/// Which screen axis carries the argument of a glyph.
#[derive(Clone, Copy, Debug, PartialEq, Eq, Structural)]
pub enum Orientation {
    /// The argument runs along X, the values along Y.
    Vertical,
    /// The argument runs along Y, the values along X.
    Horizontal,
}

impl Orientation {
    /// The other orientation.
    pub open spec fn flipped(self) -> Orientation {
        match self {
            Orientation::Vertical => Orientation::Horizontal,
            Orientation::Horizontal => Orientation::Vertical,
        }
    }
}

impl Default for Orientation {
    fn default() -> (o: Orientation)
        ensures
            o == Orientation::Vertical,
    {
        Orientation::Vertical
    }
}

/// A point in plot coordinates. The coordinates are wide enough to hold any
/// position moved by half of any width.
#[derive(Clone, Copy, Debug, PartialEq, Eq, Structural)]
pub struct PlotPoint {
    pub x: i128,
    pub y: i128,
}

impl PlotPoint {
    /// The point with the two coordinates exchanged.
    pub open spec fn transposed(self) -> PlotPoint {
        PlotPoint { x: self.y, y: self.x }
    }

    /// A point from its coordinates.
    pub fn new(x: i128, y: i128) -> (p: PlotPoint)
        ensures
            p == (PlotPoint { x, y }),
    {
        PlotPoint { x, y }
    }
}

/// The point at `argument` on the argument axis and `value` on the value
/// axis of a glyph that faces `orientation`.
pub open spec fn point_at_spec(orientation: Orientation, argument: int, value: int) -> PlotPoint {
    match orientation {
        Orientation::Vertical => PlotPoint { x: argument as i128, y: value as i128 },
        Orientation::Horizontal => PlotPoint { x: value as i128, y: argument as i128 },
    }
}

/// The five values of a glyph, read by position: lower whisker, lower box
/// edge, center line, upper box edge, upper whisker. No order among them
/// is asked for.
#[derive(Clone, Copy, Debug, PartialEq, Eq, Structural)]
pub struct KlineData {
    /// Lower whisker.
    pub o: i64,
    /// Lower box edge.
    pub h: i64,
    /// Center line.
    pub l: i64,
    /// Upper box edge.
    pub c: i64,
    /// Upper whisker.
    pub v: i64,
}

impl KlineData {
    /// The five values, in the order of the fields.
    pub fn new(o: i64, h: i64, l: i64, c: i64, v: i64) -> (d: KlineData)
        ensures
            d == (KlineData { o, h, l, c, v }),
    {
        KlineData { o, h, l, c, v }
    }
}

/// One positioned and styled glyph.
#[derive(Clone, Debug, PartialEq)]
pub struct KlinePlotPoint {
    /// Display name.
    pub name: String,
    /// Which way the glyph faces.
    pub orientation: Orientation,
    /// Position on the argument axis.
    pub argument: i64,
    /// The five values.
    pub spread: KlineData,
    /// Thickness of the box along the argument axis.
    pub box_width: i64,
    /// Width of the cap at the end of a whisker.
    pub whisker_width: i64,
    /// Outline.
    pub stroke: Stroke,
    /// Fill color of the box.
    pub fill: Color,
}

impl KlinePlotPoint {
    /// A vertical, unnamed glyph with the default widths, a transparent
    /// stroke one point wide and a transparent fill.
    pub fn new(argument: i64, spread: KlineData) -> (e: KlinePlotPoint)
        ensures
            e.name@ == Seq::<char>::empty(),
            e.orientation == Orientation::Vertical,
            e.argument == argument,
            e.spread == spread,
            e.box_width == DEFAULT_BOX_WIDTH,
            e.whisker_width == DEFAULT_WHISKER_WIDTH,
            e.stroke == Stroke::thin_transparent(),
            e.fill == Color::transparent_spec(),
    {
        KlinePlotPoint {
            argument,
            orientation: Orientation::default(),
            name: String::new(),
            spread,
            box_width: DEFAULT_BOX_WIDTH,
            whisker_width: DEFAULT_WHISKER_WIDTH,
            stroke: Stroke::new(crate::fixed::UNIT, Color::transparent()),
            fill: Color::transparent(),
        }
    }

    /// The same glyph under another name.
    pub fn name(self, name: &str) -> (e: KlinePlotPoint)
        ensures
            e.name@ == name@,
            e.same_but_name(self),
    {
        let mut e = self;
        e.name = String::from_str(name);
        e
    }

    /// The same glyph with another stroke.
    pub fn stroke(self, stroke: Stroke) -> (e: KlinePlotPoint)
        ensures
            e == (KlinePlotPoint { stroke, ..self }),
    {
        let mut e = self;
        e.stroke = stroke;
        e
    }

    /// The same glyph with another fill color.
    pub fn fill(self, color: Color) -> (e: KlinePlotPoint)
        ensures
            e == (KlinePlotPoint { fill: color, ..self }),
    {
        let mut e = self;
        e.fill = color;
        e
    }

    /// The same glyph with another box width.
    pub fn box_width(self, width: i64) -> (e: KlinePlotPoint)
        ensures
            e == (KlinePlotPoint { box_width: width, ..self }),
    {
        let mut e = self;
        e.box_width = width;
        e
    }

    /// The same glyph with another whisker width.
    pub fn whisker_width(self, width: i64) -> (e: KlinePlotPoint)
        ensures
            e == (KlinePlotPoint { whisker_width: width, ..self }),
    {
        let mut e = self;
        e.whisker_width = width;
        e
    }

    /// The same glyph, facing up: the argument axis is X.
    pub fn vertical(self) -> (e: KlinePlotPoint)
        ensures
            e == (KlinePlotPoint { orientation: Orientation::Vertical, ..self }),
    {
        let mut e = self;
        e.orientation = Orientation::Vertical;
        e
    }

    /// The same glyph, facing sideways: the argument axis is Y.
    pub fn horizontal(self) -> (e: KlinePlotPoint)
        ensures
            e == (KlinePlotPoint { orientation: Orientation::Horizontal, ..self }),
    {
        let mut e = self;
        e.orientation = Orientation::Horizontal;
        e
    }

    /// Every field but the name agrees with that of `other`.
    pub open spec fn same_but_name(self, other: KlinePlotPoint) -> bool {
        &&& self.orientation == other.orientation
        &&& self.argument == other.argument
        &&& self.spread == other.spread
        &&& self.box_width == other.box_width
        &&& self.whisker_width == other.whisker_width
        &&& self.stroke == other.stroke
        &&& self.fill == other.fill
    }

    /// The point at `argument` and `value`, by the glyph's orientation.
    pub open spec fn point_at_model(self, argument: int, value: int) -> PlotPoint {
        point_at_spec(self.orientation, argument, value)
    }

    /// The point at `argument` on the argument axis and `value` on the
    /// value axis: the two are exchanged where the glyph is horizontal.
    pub fn point_at(&self, argument: i128, value: i128) -> (p: PlotPoint)
        ensures
            p == self.point_at_model(argument as int, value as int),
    {
        match self.orientation {
            Orientation::Vertical => PlotPoint { x: argument, y: value },
            Orientation::Horizontal => PlotPoint { x: value, y: argument },
        }
    }
}

/// Turning a glyph to the other orientation exchanges the screen axes of
/// every point and leaves both magnitudes as they are; turning it twice
/// gives the first orientation back.
pub proof fn lemma_flip_transposes(orientation: Orientation, argument: int, value: int)
    ensures
        point_at_spec(orientation.flipped(), argument, value) == point_at_spec(
            orientation,
            argument,
            value,
        ).transposed(),
        orientation.flipped().flipped() == orientation,
        point_at_spec(Orientation::Vertical, argument, value).x == argument as i128,
        point_at_spec(Orientation::Vertical, argument, value).y == value as i128,
        point_at_spec(Orientation::Horizontal, argument, value).x == value as i128,
        point_at_spec(Orientation::Horizontal, argument, value).y == argument as i128,
{
}

} // verus!
