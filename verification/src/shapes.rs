//! The primitives that draw a glyph, in plot coordinates and in drawing
//! order: the box, the center line, then each visible whisker with its cap.

use vstd::prelude::*;
use crate::element::{KlinePlotPoint, PlotPoint};
use crate::fixed::{half, half_of};
use crate::style::{Color, Stroke, StrokeKind};

verus! {

/// One drawable primitive, in plot coordinates.
#[derive(Clone, Copy, Debug, PartialEq, Eq, Structural)]
pub enum Shape {
    /// A filled and outlined rectangle between two opposite corners.
    Rect {
        corner_a: PlotPoint,
        corner_b: PlotPoint,
        corner_radius: u8,
        fill: Color,
        stroke: Stroke,
        stroke_kind: StrokeKind,
    },
    /// A straight line between two points.
    LineSegment { from: PlotPoint, to: PlotPoint, stroke: Stroke },
}

impl Shape {
    /// The rectangle of a box: square corners, outline inside the edge.
    pub open spec fn square_rect(
        corner_a: PlotPoint,
        corner_b: PlotPoint,
        fill: Color,
        stroke: Stroke,
    ) -> Shape {
        Shape::Rect {
            corner_a,
            corner_b,
            corner_radius: 0,
            fill,
            stroke,
            stroke_kind: StrokeKind::Inside,
        }
    }

    /// A line from `from` to `to`.
    pub fn line_segment(from: PlotPoint, to: PlotPoint, stroke: Stroke) -> (s: Shape)
        ensures
            s == (Shape::LineSegment { from, to, stroke }),
    {
        Shape::LineSegment { from, to, stroke }
    }
}

impl KlinePlotPoint {
    /// The stroke and fill to draw with: `emphasis` where the glyph is
    /// highlighted, its own otherwise.
    pub open spec fn style_model(self, highlighted: bool, emphasis: (Stroke, Color)) -> (Stroke, Color) {
        if highlighted {
            emphasis
        } else {
            (self.stroke, self.fill)
        }
    }

    /// The upper whisker shows where its value lies strictly above the
    /// upper box edge.
    pub open spec fn upper_whisker_visible(self) -> bool {
        self.spread.v > self.spread.c
    }

    /// The lower whisker shows where the center value lies strictly below
    /// the lower whisker value.
    pub open spec fn lower_whisker_visible(self) -> bool {
        self.spread.l < self.spread.o
    }

    /// A visible whisker gets a cap only where the box has a positive width.
    pub open spec fn caps_drawn(self) -> bool {
        self.box_width > 0
    }

    /// A line along the argument axis, `width` long and centered at the
    /// glyph's argument, at `value`.
    pub open spec fn bar_model(self, width: int, value: int, stroke: Stroke) -> Shape {
        Shape::LineSegment {
            from: self.point_at_model(self.argument - half(width), value),
            to: self.point_at_model(self.argument + half(width), value),
            stroke,
        }
    }

    /// A line along the value axis at the glyph's argument.
    pub open spec fn stem_model(self, from: int, to: int, stroke: Stroke) -> Shape {
        Shape::LineSegment {
            from: self.point_at_model(self.argument as int, from),
            to: self.point_at_model(self.argument as int, to),
            stroke,
        }
    }

    /// The box: as wide as `box_width` on the argument axis, from the lower
    /// whisker value to the upper box edge on the value axis.
    pub open spec fn box_model(self, style: (Stroke, Color)) -> Shape {
        Shape::square_rect(
            self.point_at_model(self.argument - half(self.box_width as int), self.spread.o as int),
            self.point_at_model(self.argument + half(self.box_width as int), self.spread.c as int),
            style.1,
            style.0,
        )
    }

    /// The center line: across the box at the center value.
    pub open spec fn center_line_model(self, style: (Stroke, Color)) -> Shape {
        self.bar_model(self.box_width as int, self.spread.l as int, style.0)
    }

    /// A whisker from `from` to `tip`, followed by its cap at `tip` where
    /// caps are drawn.
    pub open spec fn whisker_model(self, from: int, tip: int, stroke: Stroke) -> Seq<Shape> {
        if self.caps_drawn() {
            seq![
                self.stem_model(from, tip, stroke),
                self.bar_model(self.whisker_width as int, tip, stroke),
            ]
        } else {
            seq![self.stem_model(from, tip, stroke)]
        }
    }

    /// What the upper whisker adds: nothing where it is not visible, else a
    /// line from the upper box edge to the upper whisker value and its cap.
    pub open spec fn upper_whisker_model(self, style: (Stroke, Color)) -> Seq<Shape> {
        if self.upper_whisker_visible() {
            self.whisker_model(self.spread.c as int, self.spread.v as int, style.0)
        } else {
            Seq::empty()
        }
    }

    /// What the lower whisker adds: nothing where it is not visible, else a
    /// line from the lower whisker value to the center value and its cap.
    pub open spec fn lower_whisker_model(self, style: (Stroke, Color)) -> Seq<Shape> {
        if self.lower_whisker_visible() {
            self.whisker_model(self.spread.o as int, self.spread.l as int, style.0)
        } else {
            Seq::empty()
        }
    }

    /// All primitives of the glyph, in drawing order.
    pub open spec fn shapes_model(self, style: (Stroke, Color)) -> Seq<Shape> {
        seq![self.box_model(style), self.center_line_model(style)]
            + self.upper_whisker_model(style)
            + self.lower_whisker_model(style)
    }

    /// A line along the argument axis, `width` long, centered at the glyph's
    /// argument, at `value`.
    fn bar(&self, width: i64, value: i64, stroke: Stroke) -> (s: Shape)
        ensures
            s == self.bar_model(width as int, value as int, stroke),
    {
        let reach: i128 = half_of(width) as i128;
        let at: i128 = self.argument as i128;
        Shape::line_segment(
            self.point_at(at - reach, value as i128),
            self.point_at(at + reach, value as i128),
            stroke,
        )
    }

    /// A line along the value axis at the glyph's argument.
    fn stem(&self, from: i64, to: i64, stroke: Stroke) -> (s: Shape)
        ensures
            s == self.stem_model(from as int, to as int, stroke),
    {
        let at: i128 = self.argument as i128;
        Shape::line_segment(self.point_at(at, from as i128), self.point_at(at, to as i128), stroke)
    }

    /// Appends a whisker from `from` to `tip`, and its cap where caps are
    /// drawn.
    fn add_whisker(&self, from: i64, tip: i64, stroke: Stroke, shapes: &mut Vec<Shape>)
        ensures
            final(shapes)@ == old(shapes)@ + self.whisker_model(from as int, tip as int, stroke),
    {
        shapes.push(self.stem(from, tip, stroke));
        if self.box_width > 0 {
            shapes.push(self.bar(self.whisker_width, tip, stroke));
        }
    }

    /// Appends the glyph's primitives to `shapes`, in drawing order: the
    /// box, the center line, the upper whisker and its cap, the lower
    /// whisker and its cap. `emphasis` is the stroke and fill that the host
    /// draws a highlighted glyph with; it is used where `highlighted` holds.
    pub fn add_shapes(&self, highlighted: bool, emphasis: (Stroke, Color), shapes: &mut Vec<Shape>)
        ensures
            final(shapes)@ == old(shapes)@ + self.shapes_model(
                self.style_model(highlighted, emphasis),
            ),
    {
        let (stroke, fill) = if highlighted {
            emphasis
        } else {
            (self.stroke, self.fill)
        };
        let reach: i128 = half_of(self.box_width) as i128;
        let at: i128 = self.argument as i128;
        let rect = Shape::Rect {
            corner_a: self.point_at(at - reach, self.spread.o as i128),
            corner_b: self.point_at(at + reach, self.spread.c as i128),
            corner_radius: 0,
            fill,
            stroke,
            stroke_kind: StrokeKind::Inside,
        };
        shapes.push(rect);
        shapes.push(self.bar(self.box_width, self.spread.l, stroke));
        if self.spread.v > self.spread.c {
            self.add_whisker(self.spread.c, self.spread.v, stroke, shapes);
        }
        if self.spread.l < self.spread.o {
            self.add_whisker(self.spread.o, self.spread.l, stroke, shapes);
        }
    }
}

/// A glyph whose upper whisker value does not lie above the upper box edge
/// has no upper whisker and no upper cap: its primitives are the box, the
/// center line and what the lower whisker adds.
pub proof fn lemma_upper_whisker_hidden(e: KlinePlotPoint, style: (Stroke, Color))
    requires
        e.spread.v <= e.spread.c,
    ensures
        e.upper_whisker_model(style) == Seq::<Shape>::empty(),
        e.shapes_model(style) == seq![e.box_model(style), e.center_line_model(style)]
            + e.lower_whisker_model(style),
{
    assert(e.upper_whisker_model(style) =~= Seq::<Shape>::empty());
    assert(e.shapes_model(style) =~= seq![e.box_model(style), e.center_line_model(style)]
        + e.lower_whisker_model(style));
}

/// A glyph whose center value does not lie below the lower whisker value
/// has no lower whisker and no lower cap: its primitives are the box, the
/// center line and what the upper whisker adds.
pub proof fn lemma_lower_whisker_hidden(e: KlinePlotPoint, style: (Stroke, Color))
    requires
        e.spread.l >= e.spread.o,
    ensures
        e.lower_whisker_model(style) == Seq::<Shape>::empty(),
        e.shapes_model(style) == seq![e.box_model(style), e.center_line_model(style)]
            + e.upper_whisker_model(style),
{
    assert(e.lower_whisker_model(style) =~= Seq::<Shape>::empty());
    assert(e.shapes_model(style) =~= seq![e.box_model(style), e.center_line_model(style)]
        + e.upper_whisker_model(style));
}

/// A glyph whose box has no positive width, zero included, draws no cap: a
/// visible whisker adds its line and nothing else.
pub proof fn lemma_no_caps_without_width(e: KlinePlotPoint, style: (Stroke, Color))
    requires
        e.box_width <= 0,
    ensures
        e.upper_whisker_model(style) == if e.upper_whisker_visible() {
            seq![e.stem_model(e.spread.c as int, e.spread.v as int, style.0)]
        } else {
            Seq::<Shape>::empty()
        },
        e.lower_whisker_model(style) == if e.lower_whisker_visible() {
            seq![e.stem_model(e.spread.o as int, e.spread.l as int, style.0)]
        } else {
            Seq::<Shape>::empty()
        },
{
}

/// How many primitives each whisker adds.
pub open spec fn whisker_count(visible: bool, caps: bool) -> nat {
    if !visible {
        0
    } else if caps {
        2
    } else {
        1
    }
}

/// A glyph draws two primitives, the box and the center line, and for each
/// visible whisker its line and, where caps are drawn, its cap.
pub proof fn lemma_shape_count(e: KlinePlotPoint, style: (Stroke, Color))
    ensures
        e.upper_whisker_model(style).len() == whisker_count(
            e.upper_whisker_visible(),
            e.caps_drawn(),
        ),
        e.lower_whisker_model(style).len() == whisker_count(
            e.lower_whisker_visible(),
            e.caps_drawn(),
        ),
        e.shapes_model(style).len() == 2 + e.upper_whisker_model(style).len()
            + e.lower_whisker_model(style).len(),
        2 <= e.shapes_model(style).len() <= 6,
        e.shapes_model(style)[0] == e.box_model(style),
        e.shapes_model(style)[1] == e.center_line_model(style),
{
}

/// A glyph draws two, four or six primitives, unless its box has no
/// positive width and exactly one of its whiskers shows: that whisker then
/// comes without a cap.
pub proof fn lemma_even_shape_count(e: KlinePlotPoint, style: (Stroke, Color))
    requires
        e.box_width > 0 || e.upper_whisker_visible() == e.lower_whisker_visible(),
    ensures
        e.shapes_model(style).len() == 2 || e.shapes_model(style).len() == 4
            || e.shapes_model(style).len() == 6,
        e.box_width > 0 ==> e.shapes_model(style).len() == 2 + 2 * (if e.upper_whisker_visible() {
            1nat
        } else {
            0nat
        }) + 2 * (if e.lower_whisker_visible() {
            1nat
        } else {
            0nat
        }),
{
    lemma_shape_count(e, style);
}

} // verus!
