//! The core of a small real-time rendering harness that produces frames on
//! a fixed cadence: a striped background that scrolls with time, and a
//! textured quad composited over it.
//!
//! The library decides and the host acts. The host owns the window, the
//! GPU context, the event source and the clock; it hands events and
//! timestamps in and performs what comes back.
//!
//! - [`scheduler`]: the control loop as a state machine, from event to
//!   action, and the deadline of the next frame.
//! - [`clock`]: elapsed time since the start of the run, and deadlines.
//! - [`pipeline`]: the ordered steps of one frame, and the colour that they
//!   leave in a pixel.
//! - [`frame_run`]: one frame in flight, step by step, with the frame target
//!   presented on every way out.
//! - [`background`]: the stripes of the background pass.
//! - [`color`]: colours and blending.
//! - [`texture`], [`geometry`], [`vertex`]: the assets.
//!
//! Times are whole nanoseconds and colour channels are 8-bit fractions, so
//! everything here is exact arithmetic on whole numbers.

pub mod background;
pub mod clock;
pub mod color;
pub mod frame_run;
pub mod geometry;
pub mod pipeline;
pub mod scheduler;
pub mod texture;
pub mod vertex;
