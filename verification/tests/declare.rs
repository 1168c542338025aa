use amqpr_api::errors::Error;
use amqpr_api::exchange::declare::{DeclareExchangeOption, ExchangeDeclared, ExchangeType};
use amqpr_api::frame::{Argument, Frame, FramePayload, MethodPayload};
use amqpr_api::queue::bind::BindQueueOption;
use amqpr_api::queue::declare::{DeclareQueueOption, QueueDeclared};
use amqpr_api::{bind_queue, declare_exchange, declare_queue};

fn method_frame(channel: u16, class_id: u16, method_id: u16, arguments: Vec<Argument>) -> Frame {
    Frame {
        channel,
        payload: FramePayload::Method(MethodPayload { class_id, method_id, arguments }),
    }
}

fn exchange_option(no_wait: bool) -> DeclareExchangeOption {
    DeclareExchangeOption {
        name: "logs".to_string(),
        typ: ExchangeType::Fanout,
        is_passive: false,
        is_durable: false,
        is_auto_delete: true,
        is_internal: false,
        is_no_wait: no_wait,
    }
}

#[test]
fn declare_exchange_no_wait_completes_after_send() {
    let mut out: Vec<Frame> = Vec::new();
    let declared = declare_exchange(4, exchange_option(true), &mut out);
    assert!(matches!(declared, ExchangeDeclared::Done));
    assert_eq!(out.len(), 1);
    match &out[0].payload {
        FramePayload::Method(m) => {
            assert_eq!((m.class_id, m.method_id), (40, 10));
            assert_eq!(m.arguments[1], Argument::ShortString("logs".to_string()));
            assert_eq!(m.arguments[2], Argument::ShortString("fanout".to_string()));
            // auto-delete is bit 2 and no-wait bit 4 of the flag octet.
            assert_eq!(m.arguments[3], Argument::Bits(0b10100));
        }
        other => panic!("expected a method payload, found {:?}", other),
    }
}

#[test]
fn declare_exchange_waits_for_declare_ok() {
    let mut out: Vec<Frame> = Vec::new();
    let mut declared = declare_exchange(4, exchange_option(false), &mut out);
    assert!(matches!(declared, ExchangeDeclared::Receiving(_)));

    let other_channel = method_frame(6, 40, 11, vec![Argument::ShortString(String::new())]);
    assert_eq!(declared.on_frame(other_channel), Ok(false));

    let ok = method_frame(4, 40, 11, vec![Argument::ShortString(String::new())]);
    assert_eq!(declared.on_frame(ok), Ok(true));
}

#[test]
fn declare_queue_no_wait_completes_after_send() {
    let mut out: Vec<Frame> = Vec::new();
    let declared = declare_queue(
        4,
        DeclareQueueOption {
            name: "inbox".to_string(),
            is_passive: false,
            is_durable: false,
            is_exclusive: false,
            is_auto_delete: true,
            is_no_wait: true,
        },
        &mut out,
    );
    assert!(matches!(declared, QueueDeclared::Done));
    assert_eq!(out.len(), 1);
}

#[test]
fn declare_queue_reports_the_declared_name() {
    let mut out: Vec<Frame> = Vec::new();
    let mut declared = declare_queue(
        4,
        DeclareQueueOption {
            name: String::new(),
            is_passive: false,
            is_durable: false,
            is_exclusive: true,
            is_auto_delete: true,
            is_no_wait: false,
        },
        &mut out,
    );
    assert!(matches!(declared, QueueDeclared::Receiving(_)));

    let ok = method_frame(
        4,
        50,
        11,
        vec![
            Argument::ShortString("amq.gen-abc123".to_string()),
            Argument::Long(7),
            Argument::Long(2),
        ],
    );
    match declared.on_frame(ok) {
        Ok(Some(result)) => {
            assert_eq!(result.queue, "amq.gen-abc123");
            assert_eq!(result.message_count, 7);
            assert_eq!(result.consumer_count, 2);
        }
        other => panic!("expected the declare result, found {:?}", other),
    }
}

#[test]
fn declare_queue_fails_on_malformed_declare_ok() {
    let mut out: Vec<Frame> = Vec::new();
    let mut declared = declare_queue(
        4,
        DeclareQueueOption {
            name: "inbox".to_string(),
            is_passive: false,
            is_durable: false,
            is_exclusive: false,
            is_auto_delete: false,
            is_no_wait: false,
        },
        &mut out,
    );
    let malformed = method_frame(4, 50, 11, vec![Argument::Long(7)]);
    match declared.on_frame(malformed) {
        Err(Error::UnexpectedFrame(expected, _)) => assert_eq!(expected, "DeclareOk"),
        other => panic!("expected an unexpected-frame error, found {:?}", other),
    }
}

#[test]
fn declare_queue_fails_on_unrelated_method_while_waiting() {
    let mut out: Vec<Frame> = Vec::new();
    let mut declared = declare_queue(
        4,
        DeclareQueueOption {
            name: "inbox".to_string(),
            is_passive: false,
            is_durable: false,
            is_exclusive: false,
            is_auto_delete: false,
            is_no_wait: false,
        },
        &mut out,
    );
    let unrelated = method_frame(4, 40, 11, vec![]);
    assert!(matches!(
        declared.on_frame(unrelated),
        Err(Error::UnexpectedFrame(_, _))
    ));
}

#[test]
fn bind_queue_builds_the_bind_frame_and_waits() {
    let mut out: Vec<Frame> = Vec::new();
    let mut bound = bind_queue(
        4,
        BindQueueOption {
            queue: "inbox".to_string(),
            exchange: "logs".to_string(),
            routing_key: "all".to_string(),
            is_no_wait: false,
        },
        &mut out,
    );
    assert_eq!(out.len(), 1);
    match &out[0].payload {
        FramePayload::Method(m) => {
            assert_eq!((m.class_id, m.method_id), (50, 20));
            assert_eq!(m.arguments[1], Argument::ShortString("inbox".to_string()));
            assert_eq!(m.arguments[2], Argument::ShortString("logs".to_string()));
            assert_eq!(m.arguments[3], Argument::ShortString("all".to_string()));
            assert_eq!(m.arguments[4], Argument::Bits(0));
        }
        other => panic!("expected a method payload, found {:?}", other),
    }
    let ok = method_frame(4, 50, 21, vec![]);
    assert_eq!(bound.on_frame(ok), Ok(true));
}
