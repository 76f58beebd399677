//! Pan and zoom geometry over exact rational coordinates.
//!
//! The crate keeps the mapping between a view port (screen pixels relative to
//! a rendered element, y axis pointing down) and a content coordinate system,
//! and computes the state changes that zoom around a fixed screen point.
//! All arithmetic is exact: a coordinate is a ratio of two 64-bit integers, and
//! an operation whose exact result is not such a ratio reports an overflow.

pub mod algebra;
pub mod arith;
pub mod decimal;
pub mod error;
pub mod laws;
pub mod model;
pub mod pan_z;
pub mod scalar;
pub mod screen_geom;
pub mod state;
pub mod svg;

pub use error::GeometryError;
pub use pan_z::{
    handle_wheel, new_scale, step_window, zoom_amount, zoom_speed_factor, PointerInput,
    WheelAction, WheelInput,
};
pub use scalar::Scalar;
pub use screen_geom::{
    epsilon, AffineTransformMatrix, ElementSnapshot, EventTargetSnapshot, Positioned,
    PositionedCastErr, PositionedExtent, PositionedJsObject, ScreenVec, ViewPortPos, ViewPortRect,
};
pub use state::{PanZoomState, ViewState};
pub use svg::{SvgPoint, SvgRect, SvgVec, ToSvgString, ViewBox};
