//! An interactively explorable parametric-surface viewport.
//!
//! The crate models the state a fractal viewer carries from frame to frame:
//! the camera (position, zoom, iteration budget), the held-key axes that
//! drive it, the presentation-surface configuration, and the driver state
//! machine that decides when a frame is produced and how a presentation
//! failure is answered. All quantities are kept in 16.16 fixed point so
//! that every update is exact integer arithmetic.

pub mod driver;
pub mod fixed;
pub mod input;
pub mod surface;
pub mod view;

pub use fixed::FP_ONE;
