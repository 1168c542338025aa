//! The handle other tasks use to talk to the connection actor. Each method
//! builds the command the actor's mailbox is to carry; handing it to the
//! mailbox is the surrounding runtime's business.

use vstd::prelude::*;
use crate::frame::Frame;
use super::handler::GlobalChannelCommand;

verus! {

/// A handle on the connection actor's mailbox.
#[derive(Clone, Debug)]
pub struct GlobalChannelController;

impl GlobalChannelController {
    /// The command delivering one inbound channel-0 frame to the actor.
    pub fn arrive_frame(&self, frame: Frame) -> (c: GlobalChannelCommand)
        ensures
            c == GlobalChannelCommand::ArriveFrame(frame),
    {
        GlobalChannelCommand::ArriveFrame(frame)
    }

    /// The command asking the actor for a new channel actor under
    /// `channel_id`. The new channel is registered with the frame dispatcher
    /// but not yet opened on the server; `LocalChannelController::init` must
    /// run before the channel is used.
    pub fn declare_local_channel(&self, channel_id: u16) -> (c: GlobalChannelCommand)
        ensures
            c == GlobalChannelCommand::DeclareLocalChannel(channel_id),
    {
        GlobalChannelCommand::DeclareLocalChannel(channel_id)
    }

    /// The command asking the actor to emit one heartbeat frame.
    pub fn send_heartbeat(&self) -> (c: GlobalChannelCommand)
        ensures
            c == GlobalChannelCommand::SendHeartbeatFrame,
    {
        GlobalChannelCommand::SendHeartbeatFrame
    }
}

} // verus!
