//! What the gateway says to the home-automation side and hears from it.

pub mod connection;
pub mod discovery;
pub mod laws;
pub mod message;
pub mod text;

pub use message::{Incoming, Outgoing};
