//! Fixed-point model of a flared (bell-mouth) speaker port.
//!
//! The crate turns raw port dimensions (millimetres and litres, entered as
//! integers) into the derived quantities a designer needs: the angle at which
//! the flare arc meets the straight duct, the minimum internal diameter, a
//! normalized flare-quality ratio, and the enclosure's Helmholtz resonant
//! frequency.  It also projects those dimensions onto a two-dimensional
//! drawing surface as schematic primitives (arcs, rectangles and labelled
//! dimension arrows) for a front view and a side view.
//!
//! All quantities are carried in micro-units (one millionth of a millimetre,
//! hertz, and so on) so that every computation is exact integer arithmetic
//! with a precisely stated rounding rule.  Angles are represented exactly as
//! rational multiples of a half-turn plus a multiple of the flare start angle
//! `alpha`, whose cosine the model computes as an exact rational; a renderer
//! recovers `alpha` itself with an arc-cosine at the drawing boundary.

pub mod arith;
pub mod cabinet;
pub mod form;
pub mod schematic;
