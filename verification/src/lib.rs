//! Power-routing control core of an EPS board: source selection through a
//! latched switch, independent gating of downstream loads, and a control
//! loop that services commands and emits packed state telemetry.
//!
//! Pin levels are modeled as plain booleans; the line-level drivers that
//! move these levels onto real hardware live outside this library.

pub mod calib;
pub mod control_loop;
pub mod d_flip_flop;
pub mod sink_ctrl;
pub mod snapshot;
pub mod tmp100_drv;
