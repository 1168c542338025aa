//! Builders for the method payloads this client sends, one submodule per
//! AMQP class, each with an exact contract over the argument list it emits.

pub mod basic;
pub mod connection;
pub mod exchange;
pub mod queue;
