//! The discrete core of a Monte Carlo ray tracer: the bounded light-path
//! integrator, the row-major render schedule, and the plain-text pixmap
//! encoding of the finished image.

pub mod integrator;
pub mod ppm;
pub mod schedule;
