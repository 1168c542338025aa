//! Client-side core of the AMQP 0-9-1 wire protocol: the handshake engine,
//! per-channel protocol state machines, frame routing, and the publish and
//! delivery multi-frame sequences, specified and verified over a plain model
//! of frames. Transport I/O and the byte-level codec live outside this crate.

pub mod basic;
pub mod channel;
pub mod common;
pub mod errors;
pub mod exchange;
pub mod frame;
pub mod handshake;
pub mod heartbeat;
pub mod methods;
pub mod publish_sink;
pub mod queue;
pub mod socket;
pub mod subscribe_stream;
pub mod wait;

pub use basic::{get_delivered, publish, start_consume};
pub use channel::open_channel;
pub use exchange::declare_exchange;
pub use handshake::start_handshake;
pub use heartbeat::send_heartbeat;
pub use publish_sink::publish_sink;
pub use queue::{bind_queue, declare_queue};
pub use subscribe_stream::subscribe_stream;
