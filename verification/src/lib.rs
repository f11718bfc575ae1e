//! Marquee selection on a pixel grid: a pointer drag spans a rectangle, the
//! rectangle is outlined while it is drawn, and on release every object
//! strictly inside it is selected.

pub mod geometry;
pub mod frame;
pub mod outline;
pub mod pointer;
pub mod selection;
