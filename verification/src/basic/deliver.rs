//! The delivery assembler: out of a channel's inbound frames it rebuilds
//! one delivered message from the three-part sequence deliver-method,
//! content header, content body — accumulating body fragments until the
//! header's full size has arrived. In strict mode any frame that is not the
//! expected next piece fails the assembly; in tolerant mode such a frame is
//! skipped and the state does not advance, so a long-lived subscription can
//! share its channel with unrelated traffic.

use vstd::prelude::*;
use crate::errors::Error;
use crate::frame::{
    Argument, ContentBodyPayload, ContentHeaderPayload, DeliverMethod, Frame, FramePayload,
    MethodPayload,
};

verus! {

/// One delivered message: the deliver method's fields, the content header,
/// and the fully reassembled body.
#[derive(Debug, Clone, PartialEq)]
pub struct DeliveredItem {
    pub meta: DeliverMethod,
    pub header: ContentHeaderPayload,
    pub body: ContentBodyPayload,
}

/// A well-formed basic.deliver argument list: consumer tag, delivery tag,
/// redelivered bit, exchange, routing key.
pub open spec fn deliver_args(args: Seq<Argument>) -> bool {
    &&& args.len() == 5
    &&& args[0] is ShortString
    &&& args[1] is LongLong
    &&& args[2] is Bits
    &&& args[3] is ShortString
    &&& args[4] is ShortString
}

/// The parse `d` read out of a basic.deliver argument list `args`.
pub open spec fn deliver_parse(args: Seq<Argument>, d: DeliverMethod) -> bool {
    &&& deliver_args(args)
    &&& args[0] matches Argument::ShortString(t) && d.consumer_tag@ == t@
    &&& args[1] == Argument::LongLong(d.delivery_tag)
    &&& args[2] matches Argument::Bits(b) && d.redelivered == ((b & 1u8) == 1u8)
    &&& args[3] matches Argument::ShortString(e) && d.exchange@ == e@
    &&& args[4] matches Argument::ShortString(k) && d.routing_key@ == k@
}

/// A basic.deliver method frame.
pub open spec fn is_deliver_frame(f: Frame) -> bool {
    f.payload matches FramePayload::Method(m) && m.class_id == 60 && m.method_id == 60
}

/// How far the assembly of one delivery has come.
#[derive(Debug)]
pub enum Delivered {
    /// Nothing of a delivery seen yet.
    ReceivingDeliverMethod,
    /// The deliver method arrived; its content header is expected.
    ReceivingContentHeader(DeliverMethod),
    /// Method and header arrived; body fragments are being accumulated.
    ReceivingContentBody(DeliverMethod, ContentHeaderPayload, Vec<u8>),
}

/// Start assembling the next delivery from a channel's inbound frames.
pub fn get_delivered() -> (d: Delivered)
    ensures
        d is ReceivingDeliverMethod,
{
    Delivered::ReceivingDeliverMethod
}

/// The assembler's whole reaction to one inbound frame: how its state
/// moves, what it emits, and when it fails.
pub open spec fn deliver_step(
    pre: Delivered,
    frame: Frame,
    tolerant: bool,
    post: Delivered,
    r: Result<Option<DeliveredItem>, Error>,
) -> bool {
    match pre {
        Delivered::ReceivingDeliverMethod => match frame.payload {
            FramePayload::Method(m) => {
                if m.class_id == 60 && m.method_id == 60 {
                    if deliver_args(m.arguments@) {
                        &&& r == Result::<Option<DeliveredItem>, Error>::Ok(None)
                        &&& post matches Delivered::ReceivingContentHeader(d)
                            && deliver_parse(m.arguments@, d)
                    } else {
                        deliver_skip_or_fail(frame, false, "Deliver"@, post, pre, r)
                    }
                } else {
                    deliver_skip_or_fail(frame, tolerant, "Deliver"@, post, pre, r)
                }
            },
            _ => deliver_skip_or_fail(frame, tolerant, "Deliver"@, post, pre, r),
        },
        Delivered::ReceivingContentHeader(d) => match frame.payload {
            FramePayload::ContentHeader(h) => {
                if h.body_size == 0 {
                    &&& r matches Ok(res)
                    &&& res matches Some(item)
                    &&& item.meta == d
                    &&& item.header == h
                    &&& item.body.bytes@ == Seq::<u8>::empty()
                    &&& post is ReceivingDeliverMethod
                } else {
                    &&& r == Result::<Option<DeliveredItem>, Error>::Ok(None)
                    &&& post matches Delivered::ReceivingContentBody(d2, h2, acc)
                        && d2 == d && h2 == h && acc@ == Seq::<u8>::empty()
                }
            },
            _ => deliver_skip_or_fail(frame, tolerant, "ContentHeader"@, post, pre, r),
        },
        Delivered::ReceivingContentBody(d, h, acc) => match frame.payload {
            FramePayload::ContentBody(b) => {
                let total = acc@.len() + b.bytes@.len();
                if total < h.body_size {
                    &&& r == Result::<Option<DeliveredItem>, Error>::Ok(None)
                    &&& post matches Delivered::ReceivingContentBody(d2, h2, acc2)
                        && d2 == d && h2 == h && acc2@ == acc@ + b.bytes@
                } else if total == h.body_size {
                    &&& r matches Ok(res)
                    &&& res matches Some(item)
                    &&& item.meta == d
                    &&& item.header == h
                    &&& item.body.bytes@ == acc@ + b.bytes@
                    &&& post is ReceivingDeliverMethod
                } else {
                    // More bytes than the header announced: the stream is
                    // broken for this delivery.
                    deliver_skip_or_fail(frame, false, "ContentBody"@, post, pre, r)
                }
            },
            _ => deliver_skip_or_fail(frame, tolerant, "ContentBody"@, post, pre, r),
        },
    }
}

/// The two ways an assembler deals with a frame it cannot take: skip it
/// (when `skipped`, the tolerant treatment) leaving the state alone, or
/// fail with `UnexpectedFrame` naming the piece that was expected, also
/// leaving the state alone.
pub open spec fn deliver_skip_or_fail(
    frame: Frame,
    skipped: bool,
    expected: Seq<char>,
    post: Delivered,
    pre: Delivered,
    r: Result<Option<DeliveredItem>, Error>,
) -> bool {
    if skipped {
        r == Result::<Option<DeliveredItem>, Error>::Ok(None) && deliver_same(pre, post)
    } else {
        &&& r matches Err(e)
        &&& e matches Error::UnexpectedFrame(exp, f)
        &&& exp@ == expected
        &&& f == frame
        &&& deliver_same(pre, post)
    }
}

/// The assembler states `pre` and `post` hold the same assembly, compared
/// by fields.
pub open spec fn deliver_same(pre: Delivered, post: Delivered) -> bool {
    match pre {
        Delivered::ReceivingDeliverMethod => post is ReceivingDeliverMethod,
        Delivered::ReceivingContentHeader(d) => post matches Delivered::ReceivingContentHeader(d2)
            && d2 == d,
        Delivered::ReceivingContentBody(d, h, acc) => post matches Delivered::ReceivingContentBody(
            d2,
            h2,
            acc2,
        ) && d2 == d && h2 == h && acc2@ == acc@,
    }
}

/// Round trip: the content header and body frames of one publish, arriving
/// after that message's basic.deliver method, assemble into a delivered
/// item whose body is exactly the published body, and the assembler stands
/// ready for the next delivery. (A message with an empty body is complete
/// at its header already and its body frame follows as channel padding, so
/// this speaks of non-empty bodies.)
pub proof fn lemma_publish_deliver_round_trip(
    fs: Seq<Frame>,
    channel_id: u16,
    item: crate::basic::publish::PublishItem,
    deliver_frame: Frame,
    s1: Delivered,
    s2: Delivered,
    s3: Delivered,
    r1: Result<Option<DeliveredItem>, Error>,
    r2: Result<Option<DeliveredItem>, Error>,
    r3: Result<Option<DeliveredItem>, Error>,
    tolerant: bool,
)
    requires
        crate::basic::publish::is_publish_sequence(fs, channel_id, item),
        item.body@.len() > 0,
        is_deliver_frame(deliver_frame),
        deliver_frame.payload matches FramePayload::Method(dm) && deliver_args(dm.arguments@),
        deliver_step(Delivered::ReceivingDeliverMethod, deliver_frame, tolerant, s1, r1),
        deliver_step(s1, fs[1], tolerant, s2, r2),
        deliver_step(s2, fs[2], tolerant, s3, r3),
    ensures
        r1 == Result::<Option<DeliveredItem>, Error>::Ok(None),
        r2 == Result::<Option<DeliveredItem>, Error>::Ok(None),
        r3 matches Ok(res) && res matches Some(got) && got.body.bytes@ == item.body@
            && got.header.body_size == item.body@.len(),
        s3 is ReceivingDeliverMethod,
{
    assert(s2 matches Delivered::ReceivingContentBody(d2, h2, acc) && acc@ == Seq::<u8>::empty());
    match s2 {
        Delivered::ReceivingContentBody(d2, h2, acc) => {
            assert(fs[2].payload matches FramePayload::ContentBody(b) && b.bytes@ == item.body@);
            assert(Seq::<u8>::empty() + item.body@ =~= item.body@);
        },
        _ => {
            assert(false);
        },
    }
}

impl Delivered {
    /// Feed one inbound frame of this channel to the assembler. `Some`
    /// carries a completed delivery; in tolerant mode frames that are not
    /// the expected next piece are skipped, in strict mode they fail the
    /// assembly, as `deliver_step` describes case by case.
    pub fn on_frame(&mut self, frame: Frame, tolerant: bool) -> (r: Result<
        Option<DeliveredItem>,
        Error,
    >)
        ensures
            deliver_step(*old(self), frame, tolerant, *final(self), r),
    {
        let mut state = Delivered::ReceivingDeliverMethod;
        core::mem::swap(&mut *self, &mut state);
        match state {
            Delivered::ReceivingDeliverMethod => self.arrive_deliver_method(frame, tolerant),
            Delivered::ReceivingContentHeader(d) => self.arrive_content_header(d, frame, tolerant),
            Delivered::ReceivingContentBody(d, h, acc) => self.arrive_content_body(
                d,
                h,
                acc,
                frame,
                tolerant,
            ),
        }
    }

    /// Await the deliver method; `self` is already reset to the start
    /// state.
    fn arrive_deliver_method(&mut self, frame: Frame, tolerant: bool) -> (r: Result<
        Option<DeliveredItem>,
        Error,
    >)
        requires
            *old(self) is ReceivingDeliverMethod,
        ensures
            deliver_step(Delivered::ReceivingDeliverMethod, frame, tolerant, *final(self), r),
    {
        let is_deliver = match frame.method() {
            Some(m) => m.class_id == 60 && m.method_id == 60,
            None => false,
        };
        if !is_deliver {
            if tolerant {
                return Ok(None);
            }
            return Err(Error::UnexpectedFrame("Deliver".to_owned(), frame));
        }
        match frame.payload {
            FramePayload::Method(m) => {
                match parse_deliver(m) {
                    Ok(d) => {
                        *self = Delivered::ReceivingContentHeader(d);
                        Ok(None)
                    },
                    Err(m) => Err(
                        Error::UnexpectedFrame(
                            "Deliver".to_owned(),
                            Frame { channel: frame.channel, payload: FramePayload::Method(m) },
                        ),
                    ),
                }
            },
            _ => unreached(),
        }
    }

    /// Await the content header for deliver method `d`.
    fn arrive_content_header(&mut self, d: DeliverMethod, frame: Frame, tolerant: bool) -> (r: Result<
        Option<DeliveredItem>,
        Error,
    >)
        requires
            *old(self) is ReceivingDeliverMethod,
        ensures
            deliver_step(Delivered::ReceivingContentHeader(d), frame, tolerant, *final(self), r),
    {
        match frame.payload {
            FramePayload::ContentHeader(h) => {
                if h.body_size == 0 {
                    let item = DeliveredItem {
                        meta: d,
                        header: h,
                        body: ContentBodyPayload { bytes: Vec::new() },
                    };
                    Ok(Some(item))
                } else {
                    *self = Delivered::ReceivingContentBody(d, h, Vec::new());
                    Ok(None)
                }
            },
            _ => {
                if tolerant {
                    *self = Delivered::ReceivingContentHeader(d);
                    Ok(None)
                } else {
                    *self = Delivered::ReceivingContentHeader(d);
                    Err(Error::UnexpectedFrame("ContentHeader".to_owned(), frame))
                }
            },
        }
    }

    /// Accumulate body fragments for deliver method `d` and header `h`
    /// until the announced size is reached.
    fn arrive_content_body(
        &mut self,
        d: DeliverMethod,
        h: ContentHeaderPayload,
        acc: Vec<u8>,
        frame: Frame,
        tolerant: bool,
    ) -> (r: Result<Option<DeliveredItem>, Error>)
        requires
            *old(self) is ReceivingDeliverMethod,
        ensures
            deliver_step(
                Delivered::ReceivingContentBody(d, h, acc),
                frame,
                tolerant,
                *final(self),
                r,
            ),
    {
        match frame.payload {
            FramePayload::ContentBody(b) => {
                let total: u128 = (acc.len() as u128) + (b.bytes.len() as u128);
                if total < h.body_size as u128 {
                    let mut grown = acc;
                    let mut fragment = b.bytes;
                    grown.append(&mut fragment);
                    *self = Delivered::ReceivingContentBody(d, h, grown);
                    Ok(None)
                } else if total == h.body_size as u128 {
                    let mut grown = acc;
                    let mut fragment = b.bytes;
                    grown.append(&mut fragment);
                    let item = DeliveredItem {
                        meta: d,
                        header: h,
                        body: ContentBodyPayload { bytes: grown },
                    };
                    Ok(Some(item))
                } else {
                    *self = Delivered::ReceivingContentBody(d, h, acc);
                    Err(
                        Error::UnexpectedFrame(
                            "ContentBody".to_owned(),
                            Frame { channel: frame.channel, payload: FramePayload::ContentBody(b) },
                        ),
                    )
                }
            },
            _ => {
                if tolerant {
                    *self = Delivered::ReceivingContentBody(d, h, acc);
                    Ok(None)
                } else {
                    *self = Delivered::ReceivingContentBody(d, h, acc);
                    Err(Error::UnexpectedFrame("ContentBody".to_owned(), frame))
                }
            },
        }
    }
}

/// Read the deliver method's fields out of its argument list, handing the
/// payload back when the list is malformed.
fn parse_deliver(m: MethodPayload) -> (r: Result<DeliverMethod, MethodPayload>)
    ensures
        match r {
            Ok(d) => deliver_parse(m.arguments@, d),
            Err(m2) => m2 == m && !deliver_args(m.arguments@),
        },
{
    let well_formed = m.arguments.len() == 5
        && matches!(&m.arguments[0], Argument::ShortString(_))
        && matches!(&m.arguments[1], Argument::LongLong(_))
        && matches!(&m.arguments[2], Argument::Bits(_))
        && matches!(&m.arguments[3], Argument::ShortString(_))
        && matches!(&m.arguments[4], Argument::ShortString(_));
    if !well_formed {
        return Err(m);
    }
    let consumer_tag = match &m.arguments[0] {
        Argument::ShortString(t) => t.clone(),
        _ => unreached(),
    };
    let delivery_tag = match &m.arguments[1] {
        Argument::LongLong(t) => *t,
        _ => unreached(),
    };
    let redelivered = match &m.arguments[2] {
        Argument::Bits(b) => (*b & 1) == 1,
        _ => unreached(),
    };
    let exchange = match &m.arguments[3] {
        Argument::ShortString(e) => e.clone(),
        _ => unreached(),
    };
    let routing_key = match &m.arguments[4] {
        Argument::ShortString(k) => k.clone(),
        _ => unreached(),
    };
    Ok(DeliverMethod { consumer_tag, delivery_tag, redelivered, exchange, routing_key })
}

} // verus!
