use amqpr_api::basic::publish::{PublishItem, PublishOption};
use amqpr_api::frame::{Argument, Frame, FramePayload, Properties};
use amqpr_api::publish;
use amqpr_api::publish_sink::publish_sink;

fn item(body: &[u8]) -> PublishItem {
    PublishItem {
        meta: PublishOption {
            exchange: "logs".to_string(),
            routing_key: "all".to_string(),
            is_mandatory: false,
            is_immediate: false,
        },
        header: Properties::new(),
        body: body.to_vec(),
    }
}

fn check_triple(frames: &[Frame], channel: u16, body: &[u8]) {
    assert_eq!(frames.len(), 3);
    assert!(frames.iter().all(|f| f.channel == channel));
    match &frames[0].payload {
        FramePayload::Method(m) => {
            assert_eq!((m.class_id, m.method_id), (60, 40));
            assert_eq!(m.arguments[0], Argument::Short(0));
            assert_eq!(m.arguments[1], Argument::ShortString("logs".to_string()));
            assert_eq!(m.arguments[2], Argument::ShortString("all".to_string()));
            assert_eq!(m.arguments[3], Argument::Bits(0));
        }
        other => panic!("expected the publish method first, found {:?}", other),
    }
    match &frames[1].payload {
        FramePayload::ContentHeader(h) => {
            assert_eq!(h.class_id, 60);
            assert_eq!(h.body_size, body.len() as u64);
        }
        other => panic!("expected the content header second, found {:?}", other),
    }
    match &frames[2].payload {
        FramePayload::ContentBody(b) => assert_eq!(b.bytes, body),
        other => panic!("expected the content body last, found {:?}", other),
    }
}

#[test]
fn publish_emits_exactly_three_frames_in_order() {
    let mut published = publish(5, item(b"hello"));
    let mut frames: Vec<Frame> = Vec::new();
    while let Some(frame) = published.next_frame() {
        frames.push(frame);
    }
    check_triple(&frames, 5, b"hello");
    assert_eq!(published.next_frame(), None);
}

#[test]
fn publish_send_all_queues_the_same_triple() {
    let mut out: Vec<Frame> = Vec::new();
    let mut published = publish(5, item(b"hello"));
    published.send_all(&mut out);
    check_triple(&out, 5, b"hello");
}

#[test]
fn publish_sets_mandatory_and_immediate_bits() {
    let mut published = publish(
        5,
        PublishItem {
            meta: PublishOption {
                exchange: String::new(),
                routing_key: String::new(),
                is_mandatory: true,
                is_immediate: true,
            },
            header: Properties::new(),
            body: Vec::new(),
        },
    );
    let first = published.next_frame().expect("the method frame comes first");
    match first.payload {
        FramePayload::Method(m) => assert_eq!(m.arguments[3], Argument::Bits(0b11)),
        other => panic!("expected the publish method, found {:?}", other),
    }
}

#[test]
fn publish_sink_never_interleaves_two_triples() {
    let sink = publish_sink(5);
    let mut out: Vec<Frame> = Vec::new();
    sink.start_send(item(b"first"), &mut out);
    sink.start_send(item(b"second"), &mut out);
    assert_eq!(out.len(), 6);
    check_triple(&out[0..3], 5, b"first");
    check_triple(&out[3..6], 5, b"second");
}
