//! The connection-level actor owning channel 0.

pub mod controller;
pub mod handler;

pub use self::controller::GlobalChannelController;
pub use self::handler::{global_channel, GlobalChannel, GlobalChannelCommand, GlobalEvent};
