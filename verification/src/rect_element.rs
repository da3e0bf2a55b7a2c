//! What a plot asks of any rectangular element: its extent, the points
//! that get a ruler on hover, and the text that describes its values.

use vstd::prelude::*;
use vstd::string::StringExecFns;
use crate::element::{KlinePlotPoint, Orientation, PlotPoint};
use crate::fixed::{half, half_of, larger, larger_of};
use crate::format::{append_decimal, decimal_text, precision_for, precision_model};

verus! {

/// An element that a plot can bound, annotate and describe.
pub trait RectElement {
    /// The display name.
    fn name(&self) -> &str;

    /// The corner of the extent with the smaller argument.
    fn bounds_min(&self) -> PlotPoint;

    /// The corner of the extent with the larger argument.
    fn bounds_max(&self) -> PlotPoint;

    /// The points that get a ruler on hover, in drawing order.
    fn values_with_ruler(&self) -> Vec<PlotPoint>;

    /// Which way the element faces.
    fn orientation(&self) -> Orientation;

    /// The point that a label is anchored to.
    fn corner_value(&self) -> PlotPoint;

    /// The text that describes the values, for the value that one screen
    /// unit spans along X and along Y.
    fn default_values_format(&self, scale: [i64; 2]) -> String;
}

impl KlinePlotPoint {
    /// Half of the wider of box and cap.
    pub open spec fn reach(self) -> int {
        half(larger(self.box_width as int, self.whisker_width as int))
    }

    /// The extent's corner with the smaller argument, at the center value.
    pub open spec fn bounds_min_model(self) -> PlotPoint {
        self.point_at_model(self.argument - self.reach(), self.spread.l as int)
    }

    /// The extent's corner with the larger argument, at the lower box edge.
    pub open spec fn bounds_max_model(self) -> PlotPoint {
        self.point_at_model(self.argument + self.reach(), self.spread.h as int)
    }

    /// The point at the glyph's argument and `value`.
    pub open spec fn on_axis(self, value: i64) -> PlotPoint {
        self.point_at_model(self.argument as int, value as int)
    }

    /// The ruler points: upper whisker, lower whisker, upper box edge,
    /// lower box edge, lower whisker.
    pub open spec fn ruler_model(self) -> Seq<PlotPoint> {
        seq![
            self.on_axis(self.spread.v),
            self.on_axis(self.spread.o),
            self.on_axis(self.spread.c),
            self.on_axis(self.spread.h),
            self.on_axis(self.spread.o),
        ]
    }

    /// The scale along the axis that carries the values.
    pub open spec fn value_scale(self, scale: [i64; 2]) -> i64 {
        match self.orientation {
            Orientation::Horizontal => scale[0],
            Orientation::Vertical => scale[1],
        }
    }

    /// Five lines that name the values, each with `decimals` decimals.
    pub open spec fn values_text(self, decimals: nat) -> Seq<char> {
        "Max = "@ + decimal_text(self.spread.h as int, decimals)
            + "\nQuartile 3 = "@ + decimal_text(self.spread.c as int, decimals)
            + "\nMedian = "@ + decimal_text(self.spread.v as int, decimals)
            + "\nQuartile 1 = "@ + decimal_text(self.spread.o as int, decimals)
            + "\nMin = "@ + decimal_text(self.spread.l as int, decimals)
    }
}

impl RectElement for KlinePlotPoint {
    fn name(&self) -> (n: &str)
        ensures
            n@ == self.name@,
    {
        self.name.as_str()
    }

    fn bounds_min(&self) -> (p: PlotPoint)
        ensures
            p == self.bounds_min_model(),
    {
        let reach: i128 = half_of(larger_of(self.box_width, self.whisker_width)) as i128;
        self.point_at(self.argument as i128 - reach, self.spread.l as i128)
    }

    fn bounds_max(&self) -> (p: PlotPoint)
        ensures
            p == self.bounds_max_model(),
    {
        let reach: i128 = half_of(larger_of(self.box_width, self.whisker_width)) as i128;
        self.point_at(self.argument as i128 + reach, self.spread.h as i128)
    }

    fn values_with_ruler(&self) -> (points: Vec<PlotPoint>)
        ensures
            points@ == self.ruler_model(),
    {
        let at: i128 = self.argument as i128;
        let upper_whisker = self.point_at(at, self.spread.v as i128);
        let lower_whisker = self.point_at(at, self.spread.o as i128);
        let upper_edge = self.point_at(at, self.spread.c as i128);
        let lower_edge = self.point_at(at, self.spread.h as i128);
        let mut points: Vec<PlotPoint> = Vec::new();
        points.push(upper_whisker);
        points.push(lower_whisker);
        points.push(upper_edge);
        points.push(lower_edge);
        points.push(lower_whisker);
        assert(points@ =~= self.ruler_model());
        points
    }

    fn orientation(&self) -> (o: Orientation)
        ensures
            o == self.orientation,
    {
        self.orientation
    }

    fn corner_value(&self) -> (p: PlotPoint)
        ensures
            p == self.on_axis(self.spread.h),
    {
        self.point_at(self.argument as i128, self.spread.h as i128)
    }

    fn default_values_format(&self, scale: [i64; 2]) -> (text: String)
        ensures
            text@ == self.values_text(precision_model(self.value_scale(scale) as int)),
    {
        let scale: i64 = match self.orientation {
            Orientation::Horizontal => scale[0],
            Orientation::Vertical => scale[1],
        };
        let decimals: usize = precision_for(scale);
        let mut text = String::new();
        text.append("Max = ");
        append_decimal(self.spread.h, decimals, &mut text);
        text.append("\nQuartile 3 = ");
        append_decimal(self.spread.c, decimals, &mut text);
        text.append("\nMedian = ");
        append_decimal(self.spread.v, decimals, &mut text);
        text.append("\nQuartile 1 = ");
        append_decimal(self.spread.o, decimals, &mut text);
        text.append("\nMin = ");
        append_decimal(self.spread.l, decimals, &mut text);
        assert(text@ =~= self.values_text(decimals as nat));
        text
    }
}

} // verus!
