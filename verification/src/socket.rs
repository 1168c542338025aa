//! The frame dispatcher's registry and routing: the single point of contact
//! with the transport. Outbound frames from every actor go onto one write
//! queue; each inbound frame is routed by its channel id to the connection
//! actor (channel 0) or to the registered channel actor that owns the id. A
//! frame for an id nobody owns is a protocol violation, reported and never
//! dropped.

use vstd::prelude::*;
use crate::channel::local::controller::LocalChannelController;
use crate::errors::Error;
use crate::frame::Frame;

verus! {

/// What the dispatcher's mailbox carries.
#[derive(Debug)]
pub enum SocketCommand {
    ArriveFrame(Frame),
    SendFrame(Frame),
    AddChannel(LocalChannelController),
}

/// What handling one command decided: where an inbound frame belongs, or
/// that a frame was queued or a channel registered.
#[derive(Debug)]
pub enum Routed {
    /// The frame belongs to the connection actor on channel 0.
    ToGlobal(Frame),
    /// The frame belongs to the registered channel actor owning this id.
    ToLocal(u16, Frame),
    /// An outbound frame was queued for the writer.
    Sent,
    /// A channel actor was registered.
    ChannelAdded,
}

/// The handle other tasks use to talk to the dispatcher. Each method builds
/// the command the dispatcher's mailbox is to carry.
#[derive(Clone, Debug)]
pub struct SocketController;

impl SocketController {
    /// The command delivering one frame read from the transport.
    pub fn arrive_frame(&self, frame: Frame) -> (c: SocketCommand)
        ensures
            c == SocketCommand::ArriveFrame(frame),
    {
        SocketCommand::ArriveFrame(frame)
    }

    /// The command queueing one frame for the transport.
    pub fn send_frame(&self, frame: Frame) -> (c: SocketCommand)
        ensures
            c == SocketCommand::SendFrame(frame),
    {
        SocketCommand::SendFrame(frame)
    }

    /// The command registering one channel actor with the dispatcher.
    pub fn add_local_channel(&self, controller: LocalChannelController) -> (c: SocketCommand)
        ensures
            c matches SocketCommand::AddChannel(ctrl) && ctrl.channel_id == controller.channel_id,
    {
        SocketCommand::AddChannel(controller)
    }
}

/// The dispatcher's state: which channel ids have a registered actor.
#[derive(Debug)]
pub struct SocketHandler {
    pub local_channels: Vec<LocalChannelController>,
}

impl SocketHandler {
    /// Channel id `id` has a registered actor.
    pub open spec fn knows(&self, id: u16) -> bool {
        exists|i: int|
            0 <= i < self.local_channels@.len() && self.local_channels@[i].channel_id == id
    }

    /// A dispatcher with no channel registered yet.
    pub fn new() -> (h: SocketHandler)
        ensures
            forall|id: u16| !h.knows(id),
    {
        SocketHandler { local_channels: Vec::new() }
    }

    /// Whether `id` has a registered actor.
    fn knows_channel(&self, id: u16) -> (b: bool)
        ensures
            b == self.knows(id),
    {
        let mut i: usize = 0;
        while i < self.local_channels.len()
            invariant
                i <= self.local_channels@.len(),
                forall|k: int| 0 <= k < i ==> self.local_channels@[k].channel_id != id,
            decreases self.local_channels@.len() - i,
        {
            if self.local_channels[i].channel_id == id {
                return true;
            }
            i = i + 1;
        }
        false
    }

    /// Handle one command: route an inbound frame by its channel id, queue
    /// an outbound frame, or register a channel actor (replacing any earlier
    /// actor under the same id, as a re-registration).
    pub fn handle_command(&mut self, command: SocketCommand, out: &mut Vec<Frame>) -> (r: Result<
        Routed,
        Error,
    >)
        ensures
            match command {
                SocketCommand::ArriveFrame(f) => {
                    &&& final(out)@ == old(out)@
                    &&& *final(self) == *old(self)
                    &&& if f.channel == 0 {
                        r == Result::<Routed, Error>::Ok(Routed::ToGlobal(f))
                    } else if old(self).knows(f.channel) {
                        r == Result::<Routed, Error>::Ok(Routed::ToLocal(f.channel, f))
                    } else {
                        r == Result::<Routed, Error>::Err(Error::ProtocolViolation(f.channel))
                    }
                },
                SocketCommand::SendFrame(f) => {
                    &&& r == Result::<Routed, Error>::Ok(Routed::Sent)
                    &&& final(out)@ == old(out)@.push(f)
                    &&& *final(self) == *old(self)
                },
                SocketCommand::AddChannel(c) => {
                    &&& r == Result::<Routed, Error>::Ok(Routed::ChannelAdded)
                    &&& final(out)@ == old(out)@
                    &&& forall|id: u16|
                        final(self).knows(id) <==> (old(self).knows(id) || id == c.channel_id)
                },
            },
    {
        match command {
            SocketCommand::ArriveFrame(frame) => {
                if frame.channel == 0 {
                    Ok(Routed::ToGlobal(frame))
                } else if self.knows_channel(frame.channel) {
                    Ok(Routed::ToLocal(frame.channel, frame))
                } else {
                    Err(Error::ProtocolViolation(frame.channel))
                }
            },
            SocketCommand::SendFrame(frame) => {
                out.push(frame);
                Ok(Routed::Sent)
            },
            SocketCommand::AddChannel(controller) => {
                self.add_channel(controller);
                Ok(Routed::ChannelAdded)
            },
        }
    }

    /// Register `controller`, replacing any earlier registration of the
    /// same id.
    fn add_channel(&mut self, controller: LocalChannelController)
        ensures
            forall|id: u16|
                final(self).knows(id) <==> (old(self).knows(id) || id == controller.channel_id),
    {
        let id = controller.channel_id;
        let mut i: usize = 0;
        while i < self.local_channels.len()
            invariant
                i <= self.local_channels@.len(),
                forall|k: int| 0 <= k < i ==> self.local_channels@[k].channel_id != id,
                *self == *old(self),
                controller.channel_id == id,
            decreases self.local_channels@.len() - i,
        {
            if self.local_channels[i].channel_id == id {
                self.local_channels.set(i, controller);
                proof {
                    assert forall|q: u16| self.knows(q) implies (old(self).knows(q) || q
                        == id) by {
                        let w = choose|w: int|
                            0 <= w < self.local_channels@.len() && self.local_channels@[w].channel_id == q;
                        if w != i {
                            assert(old(self).local_channels@[w].channel_id == q);
                        }
                    }
                    assert forall|q: u16| (old(self).knows(q) || q == id) implies self.knows(q) by {
                        if q == id {
                            assert(self.local_channels@[i as int].channel_id == q);
                        } else {
                            let w = choose|w: int|
                                0 <= w < old(self).local_channels@.len() && old(
                                    self,
                                ).local_channels@[w].channel_id == q;
                            assert(self.local_channels@[w].channel_id == q);
                        }
                    }
                }
                return ;
            }
            i = i + 1;
        }
        self.local_channels.push(controller);
        proof {
            assert forall|q: u16| self.knows(q) implies (old(self).knows(q) || q == id) by {
                let w = choose|w: int|
                    0 <= w < self.local_channels@.len() && self.local_channels@[w].channel_id == q;
                if w < old(self).local_channels@.len() {
                    assert(old(self).local_channels@[w].channel_id == q);
                }
            }
            assert forall|q: u16| (old(self).knows(q) || q == id) implies self.knows(q) by {
                if q == id {
                    assert(self.local_channels@.last().channel_id == q);
                } else {
                    let w = choose|w: int|
                        0 <= w < old(self).local_channels@.len() && old(
                            self,
                        ).local_channels@[w].channel_id == q;
                    assert(self.local_channels@[w].channel_id == q);
                }
            }
        }
    }
}

} // verus!
