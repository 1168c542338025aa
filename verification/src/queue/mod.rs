//! Queue operations: declare and bind.

pub mod bind;
pub mod declare;

pub use self::bind::{bind_queue, BindQueueOption};
pub use self::declare::{declare_queue, DeclareQueueOption, DeclareResult, QueueDeclared};
