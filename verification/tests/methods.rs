use amqpr_api::common::Should;
use amqpr_api::errors::Error;
use amqpr_api::frame::{Argument, FieldArgument, Frame, FramePayload, MethodPayload, Properties};
use amqpr_api::heartbeat::send_heartbeat;
use amqpr_api::methods::basic;
use amqpr_api::methods::connection::{open, start_ok, tune_ok};
use amqpr_api::methods::exchange;
use amqpr_api::methods::queue;

fn start_payload(mechanisms: &str, locales: &str) -> MethodPayload {
    MethodPayload {
        class_id: 10,
        method_id: 10,
        arguments: vec![
            Argument::Octet(0),
            Argument::Octet(9),
            Argument::FieldTable(amqpr_api::frame::FieldTable(Vec::new())),
            Argument::LongString(mechanisms.to_string()),
            Argument::LongString(locales.to_string()),
        ],
    }
}

#[test]
fn start_ok_carries_credentials_and_client_properties() {
    let reply = start_ok(&start_payload("PLAIN AMQPLAIN", "en_US"), "user", "pw").unwrap();
    assert_eq!((reply.class_id, reply.method_id), (10, 11));
    assert_eq!(reply.arguments.len(), 4);
    match &reply.arguments[0] {
        Argument::FieldTable(t) => {
            assert_eq!(t.0.len(), 5);
            assert_eq!(t.0[0].0, "product");
            assert_eq!(t.0[0].1, FieldArgument::LongString("amqpr".to_string()));
        }
        other => panic!("expected the client property table, found {:?}", other),
    }
    assert_eq!(reply.arguments[1], Argument::ShortString("PLAIN".to_string()));
    assert_eq!(
        reply.arguments[2],
        Argument::LongString("\u{0}user\u{0}pw".to_string())
    );
    assert_eq!(reply.arguments[3], Argument::ShortString("en_US".to_string()));
}

#[test]
fn start_ok_fails_without_the_plain_mechanism() {
    let r = start_ok(&start_payload("EXTERNAL", "en_US"), "user", "pw");
    assert_eq!(r, Err(Error::HandshakeFailed));
}

#[test]
fn start_ok_fails_without_the_locale() {
    let r = start_ok(&start_payload("PLAIN", "fr_FR"), "user", "pw");
    assert_eq!(r, Err(Error::HandshakeFailed));
}

#[test]
fn start_ok_fails_on_a_short_argument_list() {
    let start = MethodPayload { class_id: 10, method_id: 10, arguments: vec![] };
    assert_eq!(start_ok(&start, "user", "pw"), Err(Error::HandshakeFailed));
}

#[test]
fn tune_ok_echoes_the_three_limits() {
    let tune = MethodPayload {
        class_id: 10,
        method_id: 30,
        arguments: vec![Argument::Short(11), Argument::Long(4096), Argument::Short(30)],
    };
    let reply = tune_ok(&tune).unwrap();
    assert_eq!((reply.class_id, reply.method_id), (10, 31));
    assert_eq!(reply.arguments[0], Argument::Short(11));
    assert_eq!(reply.arguments[1], Argument::Long(4096));
    assert_eq!(reply.arguments[2], Argument::Short(30));
}

#[test]
fn tune_ok_fails_on_the_wrong_argument_kinds() {
    let tune = MethodPayload {
        class_id: 10,
        method_id: 30,
        arguments: vec![Argument::Long(11), Argument::Long(4096), Argument::Short(30)],
    };
    assert_eq!(tune_ok(&tune), Err(Error::HandshakeFailed));
}

#[test]
fn open_names_the_virtual_host() {
    let p = open("/production");
    assert_eq!((p.class_id, p.method_id), (10, 40));
    assert_eq!(p.arguments[0], Argument::ShortString("/production".to_string()));
    assert_eq!(p.arguments[1], Argument::ShortString(String::new()));
    assert_eq!(p.arguments[2], Argument::Bits(1));
}

#[test]
fn publish_method_bits_cover_both_flags() {
    let p = basic::publish(basic::PublishArguments {
        exchange_name: "e".to_string(),
        routing_key: "k".to_string(),
        mandatory: true,
        immediate: false,
    });
    assert_eq!((p.class_id, p.method_id), (60, 40));
    assert_eq!(p.arguments[3], Argument::Bits(0b01));
}

#[test]
fn consume_method_bits_follow_the_flag_order() {
    let p = basic::consume(basic::ConsumeArguments {
        queue_name: "q".to_string(),
        consumer_tag: "t".to_string(),
        no_local: true,
        no_ack: false,
        exclusive: true,
        no_wait: true,
    });
    assert_eq!((p.class_id, p.method_id), (60, 20));
    assert_eq!(p.arguments[1], Argument::ShortString("q".to_string()));
    assert_eq!(p.arguments[2], Argument::ShortString("t".to_string()));
    assert_eq!(p.arguments[3], Argument::Bits(0b1101));
}

#[test]
fn exchange_declare_bits_follow_the_flag_order() {
    let p = exchange::declare(exchange::DeclareArguments {
        exchange_name: "e".to_string(),
        exchange_type: "topic".to_string(),
        passive: true,
        durable: true,
        auto_delete: false,
        internal: false,
        no_wait: true,
    });
    assert_eq!((p.class_id, p.method_id), (40, 10));
    assert_eq!(p.arguments[3], Argument::Bits(0b10011));
}

#[test]
fn queue_declare_defaults_name_the_server_named_queue() {
    let p = queue::declare(queue::DeclareArguments::default());
    assert_eq!((p.class_id, p.method_id), (50, 10));
    assert_eq!(p.arguments[1], Argument::ShortString(String::new()));
    assert_eq!(p.arguments[2], Argument::Bits(0));
}

#[test]
fn queue_bind_carries_the_routing_triple() {
    let p = queue::bind(queue::BindArguments {
        queue_name: "q".to_string(),
        exchange_name: "e".to_string(),
        routing_key: "k".to_string(),
        no_wait: false,
    });
    assert_eq!((p.class_id, p.method_id), (50, 20));
    assert_eq!(p.arguments[1], Argument::ShortString("q".to_string()));
    assert_eq!(p.arguments[2], Argument::ShortString("e".to_string()));
    assert_eq!(p.arguments[3], Argument::ShortString("k".to_string()));
}

#[test]
fn heartbeat_frames_go_out_on_channel_zero() {
    let mut out: Vec<Frame> = Vec::new();
    send_heartbeat(&mut out);
    assert_eq!(out.len(), 1);
    assert_eq!(out[0].channel, 0);
    assert!(matches!(out[0].payload, FramePayload::Heartbeat));
}

#[test]
fn properties_start_empty() {
    let p = Properties::new();
    assert_eq!(p.content_type, None);
    assert_eq!(p.delivery_mode, None);
    assert_eq!(p.priority, None);
}

#[test]
fn should_holds_a_value_until_taken() {
    let mut slot = Should::new(41);
    assert_eq!(*slot.as_ref(), 41);
    *slot.as_mut() += 1;
    assert_eq!(slot.take(), 42);
}

#[test]
fn frame_accessors_expose_each_payload_kind() {
    let method = Frame::new_method(
        2,
        MethodPayload { class_id: 20, method_id: 11, arguments: vec![] },
    );
    assert!(method.method().is_some());
    assert!(method.content_header().is_none());
    assert!(method.content_body().is_none());

    let body = Frame {
        channel: 2,
        payload: FramePayload::ContentBody(amqpr_api::frame::ContentBodyPayload {
            bytes: b"x".to_vec(),
        }),
    };
    assert!(body.method().is_none());
    assert_eq!(body.content_body().map(|b| b.bytes.as_slice()), Some(&b"x"[..]));
}
