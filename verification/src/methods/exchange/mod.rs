//! Builders for the exchange-class methods.

pub mod declare;

pub use self::declare::{declare, DeclareArguments};
