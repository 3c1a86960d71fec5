//! Wire codec and per-axis exchange logic for the servo controllers of a
//! six-axis robot arm that share one CAN bus.

pub mod axis;
pub mod codec;
pub mod exchange;
pub mod frame;
pub mod round_trip;
pub mod servo_cmd;
