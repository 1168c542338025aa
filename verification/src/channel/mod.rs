//! Channel handling: opening a channel, the connection-level actor that owns
//! channel 0, and the actor owning one ordinary channel.

pub mod global;
pub mod local;
pub mod open;

pub use self::global::{global_channel, GlobalChannelController};
pub use self::local::LocalChannelController;
pub use self::open::open_channel;
