//! The basic-class operations: publishing one message, assembling one
//! delivery, and starting a consumer.

pub mod consume;
pub mod deliver;
pub mod publish;

pub use self::consume::{start_consume, StartConsumeOption};
pub use self::deliver::{get_delivered, Delivered, DeliveredItem};
pub use self::publish::{publish, PublishItem, PublishOption, Published};
