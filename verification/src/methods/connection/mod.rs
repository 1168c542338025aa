//! Builders for the connection-class replies the client sends on channel 0.

pub mod open;
pub mod start_ok;
pub mod tune_ok;

pub use self::open::open;
pub use self::start_ok::start_ok;
pub use self::tune_ok::tune_ok;
