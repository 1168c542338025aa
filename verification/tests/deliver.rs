use amqpr_api::basic::deliver::{get_delivered, Delivered};
use amqpr_api::basic::publish::{PublishItem, PublishOption};
use amqpr_api::basic::consume::StartConsumeOption;
use amqpr_api::errors::Error;
use amqpr_api::frame::{
    Argument, ContentBodyPayload, ContentHeaderPayload, Frame, FramePayload, MethodPayload,
    Properties,
};
use amqpr_api::publish;
use amqpr_api::subscribe_stream::subscribe_stream;

fn deliver_frame(channel: u16) -> Frame {
    Frame {
        channel,
        payload: FramePayload::Method(MethodPayload {
            class_id: 60,
            method_id: 60,
            arguments: vec![
                Argument::ShortString("tag-1".to_string()),
                Argument::LongLong(1),
                Argument::Bits(0),
                Argument::ShortString("logs".to_string()),
                Argument::ShortString(String::new()),
            ],
        }),
    }
}

fn header_frame(channel: u16, body_size: u64) -> Frame {
    Frame {
        channel,
        payload: FramePayload::ContentHeader(ContentHeaderPayload {
            class_id: 60,
            body_size,
            properties: Properties::new(),
        }),
    }
}

fn body_frame(channel: u16, bytes: &[u8]) -> Frame {
    Frame {
        channel,
        payload: FramePayload::ContentBody(ContentBodyPayload { bytes: bytes.to_vec() }),
    }
}

fn unrelated_method(channel: u16) -> Frame {
    Frame {
        channel,
        payload: FramePayload::Method(MethodPayload {
            class_id: 50,
            method_id: 21,
            arguments: vec![],
        }),
    }
}

#[test]
fn tolerant_assembler_skips_unrelated_frames() {
    let mut assembler = get_delivered();
    let mut items = Vec::new();
    let frames = vec![
        unrelated_method(5),
        deliver_frame(5),
        unrelated_method(5),
        header_frame(5, 4),
        body_frame(5, b"data"),
    ];
    for frame in frames {
        if let Some(item) = assembler.on_frame(frame, true).expect("tolerant mode never fails here")
        {
            items.push(item);
        }
    }
    assert_eq!(items.len(), 1);
    assert_eq!(items[0].body.bytes, b"data");
    assert_eq!(items[0].meta.consumer_tag, "tag-1");
    assert_eq!(items[0].meta.delivery_tag, 1);
    assert!(!items[0].meta.redelivered);
    assert_eq!(items[0].header.body_size, 4);
}

#[test]
fn strict_assembler_fails_on_an_unrelated_first_frame() {
    let mut assembler = get_delivered();
    match assembler.on_frame(unrelated_method(5), false) {
        Err(Error::UnexpectedFrame(expected, _)) => assert_eq!(expected, "Deliver"),
        other => panic!("expected an unexpected-frame error, found {:?}", other),
    }
}

#[test]
fn strict_assembler_fails_on_a_method_in_place_of_the_header() {
    let mut assembler = get_delivered();
    assert_eq!(assembler.on_frame(deliver_frame(5), false), Ok(None));
    match assembler.on_frame(unrelated_method(5), false) {
        Err(Error::UnexpectedFrame(expected, _)) => assert_eq!(expected, "ContentHeader"),
        other => panic!("expected an unexpected-frame error, found {:?}", other),
    }
}

#[test]
fn assembler_accumulates_split_bodies() {
    let mut assembler = get_delivered();
    assert_eq!(assembler.on_frame(deliver_frame(5), false), Ok(None));
    assert_eq!(assembler.on_frame(header_frame(5, 10), false), Ok(None));
    assert_eq!(assembler.on_frame(body_frame(5, b"hello "), false), Ok(None));
    match assembler.on_frame(body_frame(5, b"body"), false) {
        Ok(Some(item)) => assert_eq!(item.body.bytes, b"hello body"),
        other => panic!("expected the assembled delivery, found {:?}", other),
    }
}

#[test]
fn assembler_completes_an_empty_body_at_its_header() {
    let mut assembler = get_delivered();
    assert_eq!(assembler.on_frame(deliver_frame(5), false), Ok(None));
    match assembler.on_frame(header_frame(5, 0), false) {
        Ok(Some(item)) => assert!(item.body.bytes.is_empty()),
        other => panic!("expected the assembled delivery, found {:?}", other),
    }
}

#[test]
fn assembler_rejects_more_body_than_announced() {
    let mut assembler = get_delivered();
    assert_eq!(assembler.on_frame(deliver_frame(5), false), Ok(None));
    assert_eq!(assembler.on_frame(header_frame(5, 3), false), Ok(None));
    match assembler.on_frame(body_frame(5, b"toolong"), true) {
        Err(Error::UnexpectedFrame(expected, _)) => assert_eq!(expected, "ContentBody"),
        other => panic!("expected an unexpected-frame error, found {:?}", other),
    }
}

#[test]
fn assembler_rejects_a_malformed_deliver_method() {
    let mut assembler = get_delivered();
    let malformed = Frame {
        channel: 5,
        payload: FramePayload::Method(MethodPayload {
            class_id: 60,
            method_id: 60,
            arguments: vec![Argument::Short(1)],
        }),
    };
    match assembler.on_frame(malformed, true) {
        Err(Error::UnexpectedFrame(expected, _)) => assert_eq!(expected, "Deliver"),
        other => panic!("expected an unexpected-frame error, found {:?}", other),
    }
}

#[test]
fn published_frames_round_trip_through_the_assembler() {
    let mut published = publish(
        5,
        PublishItem {
            meta: PublishOption {
                exchange: "logs".to_string(),
                routing_key: String::new(),
                is_mandatory: false,
                is_immediate: false,
            },
            header: Properties::new(),
            body: b"hello".to_vec(),
        },
    );
    let mut frames: Vec<Frame> = Vec::new();
    published.send_all(&mut frames);

    let mut assembler = get_delivered();
    assert_eq!(assembler.on_frame(deliver_frame(5), false), Ok(None));
    assert_eq!(assembler.on_frame(frames[1].clone(), false), Ok(None));
    match assembler.on_frame(frames[2].clone(), false) {
        Ok(Some(item)) => assert_eq!(item.body.bytes, b"hello"),
        other => panic!("expected the round-tripped delivery, found {:?}", other),
    }
}

#[test]
fn subscription_yields_one_item_per_deliver_sequence() {
    let mut out: Vec<Frame> = Vec::new();
    let mut stream = subscribe_stream(
        5,
        StartConsumeOption {
            queue: "inbox".to_string(),
            consumer_tag: String::new(),
            is_no_local: false,
            is_no_ack: true,
            is_exclusive: false,
        },
        &mut out,
    );
    assert_eq!(out.len(), 1);
    match &out[0].payload {
        FramePayload::Method(m) => {
            assert_eq!((m.class_id, m.method_id), (60, 20));
            // no-ack is bit 1 and no-wait bit 3 of the flag octet.
            assert_eq!(m.arguments[3], Argument::Bits(0b1010));
        }
        other => panic!("expected the consume method, found {:?}", other),
    }

    let mut items = Vec::new();
    let frames = vec![
        deliver_frame(5),
        header_frame(5, 3),
        body_frame(5, b"one"),
        unrelated_method(5),
        deliver_frame(5),
        header_frame(5, 3),
        body_frame(5, b"two"),
    ];
    for frame in frames {
        if let Some(item) = stream.on_frame(frame).expect("tolerant mode never fails here") {
            items.push(item);
        }
    }
    assert_eq!(items.len(), 2);
    assert_eq!(items[0].body.bytes, b"one");
    assert_eq!(items[1].body.bytes, b"two");
}
