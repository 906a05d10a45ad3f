//! Control nucleus of a high-voltage pulse-generator firmware.
//!
//! The crate models the real-time core of the device: a bounded
//! single-producer/single-consumer byte transport between the receive
//! interrupt and the main loop, the framed serial command protocol, the
//! persistent tuning record kept in a non-volatile sector, the integer
//! state of the closed-loop controller, and the safety supervisor that
//! drives the two status indicators.  Hardware register access and the
//! floating-point control law live outside the crate; the functions here
//! are the decisions the firmware takes, stated and proved over plain
//! values.

pub mod controller;
pub mod protocol;
pub mod store;
pub mod supervisor;
pub mod transport;
