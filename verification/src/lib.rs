//! Monitoring core for a differential-drive robot: tab selection, a
//! fixed-capacity ring of range samples with a running total, a wall-point
//! world with its bounding box, and a uniform handle over a physical and a
//! simulated range sensor.
//!
//! All lengths and velocities are whole numbers of a small unit, a
//! thousandth of a metre or of a metre per second, so that sums, means and
//! bounding boxes are exact. Nothing here rounds but where a contract says so.

pub mod arith;
pub mod monitor;
pub mod ring;
pub mod robo;
pub mod tabs;
pub mod world;
