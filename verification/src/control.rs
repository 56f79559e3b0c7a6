//! The control-plane message catalogs. The hub passes these messages through
//! unchanged; their timers and state machines belong to the caller.

pub mod device;
pub mod usb_mux;
