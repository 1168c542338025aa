use amqpr_api::channel::global::{global_channel, GlobalChannelCommand, GlobalEvent};
use amqpr_api::channel::global::handler::ConnectionState;
use amqpr_api::channel::local::{create_channel, ChannelState, LocalChannelCommand, LocalEvent};
use amqpr_api::channel::open_channel;
use amqpr_api::errors::Error;
use amqpr_api::frame::{Argument, Frame, FramePayload, MethodPayload};
use amqpr_api::methods::{basic, queue};
use amqpr_api::socket::{Routed, SocketCommand, SocketHandler};

fn method_frame(channel: u16, class_id: u16, method_id: u16, arguments: Vec<Argument>) -> Frame {
    Frame {
        channel,
        payload: FramePayload::Method(MethodPayload { class_id, method_id, arguments }),
    }
}

#[test]
fn open_resolves_on_open_ok_for_its_channel() {
    let mut out: Vec<Frame> = Vec::new();
    let mut opened = open_channel(42, &mut out);
    assert_eq!(out.len(), 1);
    assert_eq!(out[0].channel, 42);
    match &out[0].payload {
        FramePayload::Method(m) => assert_eq!((m.class_id, m.method_id), (20, 10)),
        other => panic!("expected a method payload, found {:?}", other),
    }
    let ok = method_frame(42, 20, 11, vec![Argument::ShortString(String::new())]);
    assert_eq!(opened.on_frame(ok), Ok(true));
}

#[test]
fn open_ignores_frames_of_other_channels() {
    let mut out: Vec<Frame> = Vec::new();
    let mut opened = open_channel(42, &mut out);
    let other = method_frame(7, 20, 11, vec![Argument::ShortString(String::new())]);
    assert_eq!(opened.on_frame(other), Ok(false));
    let late_ok = method_frame(42, 20, 11, vec![Argument::ShortString(String::new())]);
    assert_eq!(opened.on_frame(late_ok), Ok(true));
}

#[test]
fn open_fails_on_unexpected_method_of_its_channel() {
    let mut out: Vec<Frame> = Vec::new();
    let mut opened = open_channel(42, &mut out);
    let wrong = method_frame(42, 50, 11, vec![Argument::ShortString(String::new())]);
    match opened.on_frame(wrong) {
        Err(Error::UnexpectedFrame(expected, found)) => {
            assert_eq!(expected, "OpenOk");
            assert_eq!(found.channel, 42);
        }
        other => panic!("expected an unexpected-frame error, found {:?}", other),
    }
}

#[test]
fn router_sends_channel_zero_frames_to_the_connection_actor() {
    let mut handler = SocketHandler::new();
    let mut out: Vec<Frame> = Vec::new();
    let frame = Frame { channel: 0, payload: FramePayload::Heartbeat };
    match handler.handle_command(SocketCommand::ArriveFrame(frame), &mut out) {
        Ok(Routed::ToGlobal(f)) => assert_eq!(f.channel, 0),
        other => panic!("expected routing to the connection actor, found {:?}", other),
    }
}

#[test]
fn router_reports_unknown_channel_ids_as_protocol_violation() {
    let mut handler = SocketHandler::new();
    let mut out: Vec<Frame> = Vec::new();
    let frame = method_frame(9, 20, 11, vec![]);
    match handler.handle_command(SocketCommand::ArriveFrame(frame), &mut out) {
        Err(Error::ProtocolViolation(ch)) => assert_eq!(ch, 9),
        other => panic!("expected a protocol violation, found {:?}", other),
    }
}

#[test]
fn router_delivers_to_a_registered_channel() {
    let mut handler = SocketHandler::new();
    let mut out: Vec<Frame> = Vec::new();
    let (controller, _channel) = create_channel(9);
    let added = handler.handle_command(SocketCommand::AddChannel(controller), &mut out);
    assert!(matches!(added, Ok(Routed::ChannelAdded)));
    let frame = method_frame(9, 20, 11, vec![]);
    match handler.handle_command(SocketCommand::ArriveFrame(frame), &mut out) {
        Ok(Routed::ToLocal(ch, f)) => {
            assert_eq!(ch, 9);
            assert_eq!(f.channel, 9);
        }
        other => panic!("expected routing to channel 9, found {:?}", other),
    }
}

#[test]
fn local_channel_lifecycle_and_queue_declare() {
    let (controller, mut channel) = create_channel(3);
    let mut out: Vec<Frame> = Vec::new();
    assert_eq!(channel.state, ChannelState::Closed);

    let open_cmd = controller.init();
    assert!(matches!(open_cmd, LocalChannelCommand::OpenChannel));
    assert_eq!(channel.handle(open_cmd, &mut out), Ok(None));
    assert_eq!(channel.state, ChannelState::Opening);
    assert_eq!(out.len(), 1);
    assert_eq!(out[0].channel, 3);

    let open_ok = method_frame(3, 20, 11, vec![Argument::ShortString(String::new())]);
    let r = channel.handle(LocalChannelCommand::ArriveFrame(open_ok), &mut out);
    assert_eq!(r, Ok(Some(LocalEvent::ChannelOpened)));
    assert_eq!(channel.state, ChannelState::Open);

    let declare_args = queue::DeclareArguments {
        queue_name: "inbox".to_string(),
        ..Default::default()
    };
    let declare_cmd = controller.declare_queue(declare_args);
    assert_eq!(channel.handle(declare_cmd, &mut out), Ok(None));
    assert_eq!(out.len(), 2);

    let declare_ok = method_frame(
        3,
        50,
        11,
        vec![
            Argument::ShortString("inbox".to_string()),
            Argument::Long(0),
            Argument::Long(0),
        ],
    );
    let r = channel.handle(LocalChannelCommand::ArriveFrame(declare_ok), &mut out);
    assert_eq!(r, Ok(Some(LocalEvent::QueueDeclared("inbox".to_string()))));
}

#[test]
fn local_channel_rejects_open_ok_without_a_waiter() {
    let (_controller, mut channel) = create_channel(3);
    let mut out: Vec<Frame> = Vec::new();
    let open_ok = method_frame(3, 20, 11, vec![Argument::ShortString(String::new())]);
    match channel.handle(LocalChannelCommand::ArriveFrame(open_ok), &mut out) {
        Err(Error::UnexpectedFrame(expected, _)) => assert_eq!(expected, "PendingOpen"),
        other => panic!("expected an unexpected-frame error, found {:?}", other),
    }
}

#[test]
fn local_channel_forwards_body_fragments_to_its_consumer() {
    let (controller, mut channel) = create_channel(5);
    let mut out: Vec<Frame> = Vec::new();
    let consume_cmd = controller.consume(basic::ConsumeArguments {
        queue_name: "inbox".to_string(),
        ..Default::default()
    });
    assert_eq!(channel.handle(consume_cmd, &mut out), Ok(None));

    let body = Frame {
        channel: 5,
        payload: FramePayload::ContentBody(amqpr_api::frame::ContentBodyPayload {
            bytes: b"payload".to_vec(),
        }),
    };
    let r = channel.handle(LocalChannelCommand::ArriveFrame(body), &mut out);
    assert_eq!(r, Ok(Some(LocalEvent::DeliveredData(b"payload".to_vec()))));
}

#[test]
fn local_channel_publish_command_queues_its_triple_atomically() {
    let (controller, mut channel) = create_channel(5);
    let mut out: Vec<Frame> = Vec::new();
    let cmd = controller.publish(
        basic::PublishArguments {
            exchange_name: "logs".to_string(),
            ..Default::default()
        },
        b"one".to_vec(),
    );
    assert_eq!(channel.handle(cmd, &mut out), Ok(None));
    assert_eq!(out.len(), 3);
    assert!(matches!(out[0].payload, FramePayload::Method(_)));
    assert!(matches!(out[1].payload, FramePayload::ContentHeader(_)));
    assert!(matches!(out[2].payload, FramePayload::ContentBody(_)));
}

#[test]
fn global_channel_answers_start_and_tune() {
    let (_controller, mut global) = global_channel("guest".to_string(), "secret".to_string());
    assert_eq!(global.state, ConnectionState::Handshaking);
    let mut out: Vec<Frame> = Vec::new();

    let start = method_frame(
        0,
        10,
        10,
        vec![
            Argument::Octet(0),
            Argument::Octet(9),
            Argument::FieldTable(amqpr_api::frame::FieldTable(Vec::new())),
            Argument::LongString("PLAIN".to_string()),
            Argument::LongString("en_US".to_string()),
        ],
    );
    let r = global.handle(GlobalChannelCommand::ArriveFrame(start), &mut out);
    assert!(matches!(r, Ok(None)));
    assert_eq!(out.len(), 1);
    match &out[0].payload {
        FramePayload::Method(m) => {
            assert_eq!((m.class_id, m.method_id), (10, 11));
            assert_eq!(
                m.arguments[2],
                Argument::LongString("\u{0}guest\u{0}secret".to_string())
            );
        }
        other => panic!("expected a method payload, found {:?}", other),
    }

    let tune = method_frame(
        0,
        10,
        30,
        vec![Argument::Short(0), Argument::Long(131072), Argument::Short(60)],
    );
    let r = global.handle(GlobalChannelCommand::ArriveFrame(tune), &mut out);
    assert!(matches!(r, Ok(None)));
    assert_eq!(out.len(), 3);

    let open_ok = method_frame(0, 10, 41, vec![Argument::ShortString(String::new())]);
    let r = global.handle(GlobalChannelCommand::ArriveFrame(open_ok), &mut out);
    assert!(matches!(r, Ok(Some(GlobalEvent::HandshakeFinished))));
    assert_eq!(global.state, ConnectionState::Open);
}

#[test]
fn global_channel_emits_heartbeats_and_new_channels() {
    let (controller, mut global) = global_channel("guest".to_string(), "guest".to_string());
    let mut out: Vec<Frame> = Vec::new();

    let r = global.handle(controller.send_heartbeat(), &mut out);
    assert!(matches!(r, Ok(None)));
    assert_eq!(out.len(), 1);
    assert_eq!(out[0].channel, 0);
    assert!(matches!(out[0].payload, FramePayload::Heartbeat));

    match global.handle(controller.declare_local_channel(11), &mut out) {
        Ok(Some(GlobalEvent::NewChannel(local))) => assert_eq!(local.channel_id, 11),
        other => panic!("expected a new channel actor, found {:?}", other),
    }
}

#[test]
fn global_channel_rejects_content_frames_on_channel_zero() {
    let (_controller, mut global) = global_channel("guest".to_string(), "guest".to_string());
    let mut out: Vec<Frame> = Vec::new();
    let body = Frame {
        channel: 0,
        payload: FramePayload::ContentBody(amqpr_api::frame::ContentBodyPayload {
            bytes: Vec::new(),
        }),
    };
    match global.handle(GlobalChannelCommand::ArriveFrame(body), &mut out) {
        Err(Error::UnexpectedFrame(expected, _)) => assert_eq!(expected, "Method"),
        other => panic!("expected an unexpected-frame error, found {:?}", other),
    }
}

#[test]
fn router_replaces_a_registration_under_the_same_id() {
    let mut handler = SocketHandler::new();
    let mut out: Vec<Frame> = Vec::new();
    let (first, _) = create_channel(9);
    let (second, _) = create_channel(9);
    handler.handle_command(SocketCommand::AddChannel(first), &mut out).unwrap();
    handler.handle_command(SocketCommand::AddChannel(second), &mut out).unwrap();
    let frame = method_frame(9, 20, 11, vec![]);
    assert!(matches!(
        handler.handle_command(SocketCommand::ArriveFrame(frame), &mut out),
        Ok(Routed::ToLocal(9, _))
    ));
}

#[test]
fn local_channel_rejects_a_heartbeat_frame() {
    let (_controller, mut channel) = create_channel(3);
    let mut out: Vec<Frame> = Vec::new();
    let heartbeat = Frame { channel: 3, payload: FramePayload::Heartbeat };
    match channel.handle(LocalChannelCommand::ArriveFrame(heartbeat), &mut out) {
        Err(Error::UnexpectedFrame(expected, _)) => assert_eq!(expected, "Method"),
        other => panic!("expected an unexpected-frame error, found {:?}", other),
    }
}
