//! Gateway between a CAN-style field bus carried over a serial line and a
//! publish/subscribe broker: frame recovery, message codec and routing rules.

pub mod clock;
pub mod comm;
pub mod config;
pub mod consts;
pub mod homeassistant;
pub mod message;
pub mod router;
pub mod shutters;
