//! Exchange operations.

pub mod declare;

pub use self::declare::{declare_exchange, DeclareExchangeOption, ExchangeType};
