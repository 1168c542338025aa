use amqpr_api::errors::Error;
use amqpr_api::frame::{Argument, FieldTable, Frame, FramePayload, MethodPayload};
use amqpr_api::handshake::{start_handshake, HandshakeStage, SimpleHandshaker};
use amqpr_api::start_handshake as start_handshake_reexport;

fn handshaker() -> SimpleHandshaker {
    SimpleHandshaker {
        user: "guest".to_string(),
        pass: "guest".to_string(),
        virtual_host: "/".to_string(),
    }
}

fn method_frame(channel: u16, class_id: u16, method_id: u16, arguments: Vec<Argument>) -> Frame {
    Frame {
        channel,
        payload: FramePayload::Method(MethodPayload { class_id, method_id, arguments }),
    }
}

fn start_method_frame() -> Frame {
    method_frame(
        0,
        10,
        10,
        vec![
            Argument::Octet(0),
            Argument::Octet(9),
            Argument::FieldTable(FieldTable(Vec::new())),
            Argument::LongString("PLAIN AMQPLAIN".to_string()),
            Argument::LongString("en_US en_GB".to_string()),
        ],
    )
}

fn tune_method_frame() -> Frame {
    method_frame(
        0,
        10,
        30,
        vec![Argument::Short(2047), Argument::Long(131072), Argument::Short(60)],
    )
}

fn open_ok_frame() -> Frame {
    method_frame(0, 10, 41, vec![Argument::ShortString(String::new())])
}

#[test]
fn handshake_protocol_header_bytes() {
    let mut hs = start_handshake(handshaker());
    let header = hs.protocol_header();
    assert_eq!(header, vec![b'A', b'M', b'Q', b'P', 0, 0, 9, 1]);
}

#[test]
fn handshake_completes_on_start_tune_open_ok() {
    let mut hs = start_handshake_reexport(handshaker());
    let _ = hs.protocol_header();
    let mut out: Vec<Frame> = Vec::new();

    assert_eq!(hs.on_frame(start_method_frame(), &mut out), Ok(false));
    assert_eq!(out.len(), 1);
    match &out[0].payload {
        FramePayload::Method(m) => {
            assert_eq!((m.class_id, m.method_id), (10, 11));
            assert_eq!(m.arguments[1], Argument::ShortString("PLAIN".to_string()));
            assert_eq!(
                m.arguments[2],
                Argument::LongString("\u{0}guest\u{0}guest".to_string())
            );
            assert_eq!(m.arguments[3], Argument::ShortString("en_US".to_string()));
        }
        other => panic!("expected a method payload, found {:?}", other),
    }

    assert_eq!(hs.on_frame(tune_method_frame(), &mut out), Ok(false));
    assert_eq!(out.len(), 3);
    match &out[1].payload {
        FramePayload::Method(m) => {
            assert_eq!((m.class_id, m.method_id), (10, 31));
            assert_eq!(m.arguments[0], Argument::Short(2047));
            assert_eq!(m.arguments[1], Argument::Long(131072));
            assert_eq!(m.arguments[2], Argument::Short(60));
        }
        other => panic!("expected a method payload, found {:?}", other),
    }
    match &out[2].payload {
        FramePayload::Method(m) => {
            assert_eq!((m.class_id, m.method_id), (10, 40));
            assert_eq!(m.arguments[0], Argument::ShortString("/".to_string()));
        }
        other => panic!("expected a method payload, found {:?}", other),
    }

    assert_eq!(hs.on_frame(open_ok_frame(), &mut out), Ok(true));
    assert_eq!(out.len(), 3);
    assert!(hs.is_open());
    assert_eq!(hs.stage, HandshakeStage::Open);
}

#[test]
fn handshake_fails_when_first_method_is_not_start() {
    let mut hs = start_handshake(handshaker());
    let _ = hs.protocol_header();
    let mut out: Vec<Frame> = Vec::new();
    let r = hs.on_frame(tune_method_frame(), &mut out);
    assert_eq!(r, Err(Error::HandshakeFailed));
    assert!(out.is_empty());
}

#[test]
fn handshake_fails_on_heartbeat_instead_of_start() {
    let mut hs = start_handshake(handshaker());
    let _ = hs.protocol_header();
    let mut out: Vec<Frame> = Vec::new();
    let heartbeat = Frame { channel: 0, payload: FramePayload::Heartbeat };
    assert_eq!(hs.on_frame(heartbeat, &mut out), Err(Error::HandshakeFailed));
}

#[test]
fn handshake_fails_when_start_lacks_plain_mechanism() {
    let mut hs = start_handshake(handshaker());
    let _ = hs.protocol_header();
    let mut out: Vec<Frame> = Vec::new();
    let start = method_frame(
        0,
        10,
        10,
        vec![
            Argument::Octet(0),
            Argument::Octet(9),
            Argument::FieldTable(FieldTable(Vec::new())),
            Argument::LongString("EXTERNAL ANONYMOUS".to_string()),
            Argument::LongString("en_US".to_string()),
        ],
    );
    assert_eq!(hs.on_frame(start, &mut out), Err(Error::HandshakeFailed));
    assert!(out.is_empty());
}

#[test]
fn handshake_rejects_secure_challenge_under_plain() {
    let mut hs = start_handshake(handshaker());
    let _ = hs.protocol_header();
    let mut out: Vec<Frame> = Vec::new();
    assert_eq!(hs.on_frame(start_method_frame(), &mut out), Ok(false));
    let secure = method_frame(0, 10, 20, vec![Argument::LongString(String::new())]);
    assert_eq!(hs.on_frame(secure, &mut out), Err(Error::HandshakeFailed));
}
