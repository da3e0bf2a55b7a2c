//! Geometry of a single box-and-whisker glyph of a chart.
//!
//! A glyph is built from five values and a position, and turned into the
//! primitives that draw it, the extent it covers, the points that get a
//! ruler on hover and the text that names its values.
//!
//! Every length and coordinate is a fixed-point number with six decimal
//! places, held in an integer: `1_000_000` stands for `1.0`.

pub mod element;
pub mod fixed;
pub mod format;
pub mod limits;
pub mod rect_element;
pub mod shapes;
pub mod style;

pub use element::{KlineData, KlinePlotPoint, Orientation, PlotPoint};
pub use rect_element::RectElement;
pub use shapes::Shape;
pub use style::{Color, Stroke, StrokeKind};
