//! The frame model this library's state machines are specified over.
//!
//! A frame carries a channel id and one of four payload kinds: a method
//! (tagged by a class id / method id pair with a positional argument list),
//! a content header announcing a body, one fragment of a content body, or a
//! heartbeat. Channel 0 is reserved for connection-level traffic. The codec
//! that turns these values into wire bytes and back is an external
//! collaborator and is not part of this crate.

use vstd::prelude::*;

verus! {

/// One value in a method's positional argument list.
#[derive(Clone, Debug, PartialEq)]
pub enum Argument {
    Bits(u8),
    Octet(u8),
    Short(u16),
    Long(u32),
    LongLong(u64),
    ShortString(String),
    LongString(String),
    FieldTable(FieldTable),
}

/// A named field in a method's field table argument.
#[derive(Clone, Debug, PartialEq)]
pub enum FieldArgument {
    Bool(bool),
    LongString(String),
}

/// An ordered table of named fields, as carried by e.g. connection.start-ok.
#[derive(Clone, Debug, PartialEq)]
pub struct FieldTable(pub Vec<(String, FieldArgument)>);

/// One protocol operation: class id, method id, and its arguments in order.
#[derive(Clone, Debug, PartialEq)]
pub struct MethodPayload {
    pub class_id: u16,
    pub method_id: u16,
    pub arguments: Vec<Argument>,
}

/// Message metadata carried by a content header. The fields are optional
/// properties of the upcoming body; `new` makes the empty set.
#[derive(Clone, Debug, PartialEq)]
pub struct Properties {
    pub content_type: Option<String>,
    pub delivery_mode: Option<u8>,
    pub priority: Option<u8>,
}

impl Properties {
    /// The empty property set.
    pub fn new() -> (p: Properties)
        ensures
            p.content_type is None,
            p.delivery_mode is None,
            p.priority is None,
    {
        Properties { content_type: None, delivery_mode: None, priority: None }
    }
}

/// Metadata about an upcoming content body: which class it belongs to and
/// how many body bytes will follow, possibly split over several body frames.
#[derive(Clone, Debug, PartialEq)]
pub struct ContentHeaderPayload {
    pub class_id: u16,
    pub body_size: u64,
    pub properties: Properties,
}

/// One fragment of a message body.
#[derive(Clone, Debug, PartialEq)]
pub struct ContentBodyPayload {
    pub bytes: Vec<u8>,
}

/// The four kinds of frame payload.
#[derive(Clone, Debug, PartialEq)]
pub enum FramePayload {
    Method(MethodPayload),
    ContentHeader(ContentHeaderPayload),
    ContentBody(ContentBodyPayload),
    Heartbeat,
}

/// A frame: the unit the transport carries, addressed to one channel.
#[derive(Clone, Debug, PartialEq)]
pub struct Frame {
    pub channel: u16,
    pub payload: FramePayload,
}

impl Frame {
    /// True when this frame is a method frame with the given class and method id.
    pub open spec fn is_method_of(&self, class_id: u16, method_id: u16) -> bool {
        &&& self.payload matches FramePayload::Method(m)
        &&& m.class_id == class_id
        &&& m.method_id == method_id
    }

    /// The method payload, when this is a method frame.
    pub fn method(&self) -> (r: Option<&MethodPayload>)
        ensures
            match r {
                Some(m) => self.payload == FramePayload::Method(*m),
                None => !(self.payload is Method),
            },
    {
        match &self.payload {
            FramePayload::Method(m) => Some(m),
            _ => None,
        }
    }

    /// The content header payload, when this is a content header frame.
    pub fn content_header(&self) -> (r: Option<&ContentHeaderPayload>)
        ensures
            match r {
                Some(h) => self.payload == FramePayload::ContentHeader(*h),
                None => !(self.payload is ContentHeader),
            },
    {
        match &self.payload {
            FramePayload::ContentHeader(h) => Some(h),
            _ => None,
        }
    }

    /// The content body payload, when this is a content body frame.
    pub fn content_body(&self) -> (r: Option<&ContentBodyPayload>)
        ensures
            match r {
                Some(b) => self.payload == FramePayload::ContentBody(*b),
                None => !(self.payload is ContentBody),
            },
    {
        match &self.payload {
            FramePayload::ContentBody(b) => Some(b),
            _ => None,
        }
    }

    /// Wrap a method payload in a frame for the given channel.
    pub fn new_method(channel: u16, payload: MethodPayload) -> (f: Frame)
        ensures
            f.channel == channel,
            f.payload == FramePayload::Method(payload),
    {
        Frame { channel, payload: FramePayload::Method(payload) }
    }
}

/// `new` is `old` with exactly `n` frames appended: how a state machine's
/// contract says what it put on an outbound frame queue.
pub open spec fn appends(old: Seq<Frame>, new: Seq<Frame>, n: int) -> bool {
    &&& new.len() == old.len() + n
    &&& new.subrange(0, old.len() as int) =~= old
}

/// The deliver method's fields, read out of a basic.deliver argument list.
#[derive(Clone, Debug, PartialEq)]
pub struct DeliverMethod {
    pub consumer_tag: String,
    pub delivery_tag: u64,
    pub redelivered: bool,
    pub exchange: String,
    pub routing_key: String,
}

} // verus!
