//! The actor owning one ordinary channel.

pub mod controller;
pub mod handler;

pub use self::controller::LocalChannelController;
pub use self::handler::{create_channel, ChannelState, LocalChannel, LocalChannelCommand, LocalEvent};
