//! Builders for the basic-class methods: publish and consume.

pub mod consume;
pub mod publish;

pub use self::consume::{consume, ConsumeArguments};
pub use self::publish::{publish, PublishArguments};
