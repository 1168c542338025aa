//! Builders for the queue-class methods: declare and bind.

pub mod bind;
pub mod declare;

pub use self::bind::{bind, BindArguments};
pub use self::declare::{declare, DeclareArguments};
