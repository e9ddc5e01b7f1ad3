//! A small 2D sprite simulation: timer-driven sprite animators, a
//! dominant-axis direction resolver, and a two-state wandering-motion
//! controller, orchestrated once per tick over a fixed roster of instances.
//!
//! Time is passed in as millisecond timestamps from a monotonic clock, and
//! positions and velocities are fixed-point integers: a velocity component
//! is given in thousandths of a world unit per second, a position component
//! in millionths of a world unit.

pub mod game;
