use std::borrow::Cow;

use aingle::ids::Uuid;
use aingle::protocol::{
    client_hello, decode_client, decode_hello, decode_server, encode_client, encode_server, opcode,
    put_short_string, read_short_string, ClientFrame, EndReason, ProtocolError, ServerFrame,
    Visibility, MAX_MESSAGE_SIZE,
};

#[test]
fn hello_round_trip() {
    assert_eq!(decode_hello(&client_hello(7)), Ok(7));
}

#[test]
fn client_message_round_trip() {
    let bytes = encode_client(ClientFrame::Message(b"hello")).unwrap();
    assert_eq!(decode_client(&bytes), Ok(ClientFrame::Message(b"hello")));
}

#[test]
fn matched_round_trip() {
    let id = Uuid::from_bytes(*uuid::Uuid::now_v7().as_bytes());
    let frame = ServerFrame::Matched {
        conversation_id: id,
        peer_agent_id: Cow::Borrowed("agent_peer"),
        visibility: Visibility::Public,
    };
    let bytes = encode_server(frame.clone()).unwrap();
    assert_eq!(decode_server(&bytes), Ok(frame));
}

#[test]
fn rejects_oversized_message() {
    let payload = vec![0; MAX_MESSAGE_SIZE + 1];
    assert_eq!(
        encode_client(ClientFrame::Message(&payload)),
        Err(ProtocolError::MessageTooLarge)
    );
}

#[test]
fn server_message_round_trip() {
    let frame = ServerFrame::Message {
        seq: 42,
        sender: 1,
        payload: b"remote",
    };
    let bytes = encode_server(frame.clone()).unwrap();
    assert_eq!(decode_server(&bytes), Ok(frame));
}

#[test]
fn rejects_non_utf8_message() {
    assert_eq!(
        decode_client(&[opcode::MESSAGE, 0xff]),
        Err(ProtocolError::InvalidUtf8)
    );
}

#[test]
fn hello_bytes_are_fixed() {
    assert_eq!(client_hello(0x0102), [b'A', b'I', b'N', b'G', 0, 1, 1, 2]);
    assert_eq!(decode_hello(b"AING"), Err(ProtocolError::InvalidLength));
    assert_eq!(
        decode_hello(b"AINX\x00\x01\x00\x00"),
        Err(ProtocolError::InvalidLength)
    );
    assert_eq!(
        decode_hello(b"AING\x00\x02\x00\x00"),
        Err(ProtocolError::IncompatibleVersion(2))
    );
}

#[test]
fn client_frames_have_fixed_bytes() {
    assert_eq!(encode_client(ClientFrame::Find).unwrap(), vec![1]);
    assert_eq!(encode_client(ClientFrame::Cancel).unwrap(), vec![2]);
    assert_eq!(
        encode_client(ClientFrame::Message("é".as_bytes())).unwrap(),
        vec![3, 0xc3, 0xa9]
    );
    assert_eq!(encode_client(ClientFrame::Leave).unwrap(), vec![4]);
    assert_eq!(
        encode_client(ClientFrame::Ping(0x0102_0304_0506_0708)).unwrap(),
        vec![5, 1, 2, 3, 4, 5, 6, 7, 8]
    );
    assert_eq!(encode_client(ClientFrame::Close).unwrap(), vec![6]);
    assert_eq!(
        encode_client(ClientFrame::Message(&[0xff])),
        Err(ProtocolError::InvalidUtf8)
    );
}

#[test]
fn client_frames_are_refused_by_rule() {
    assert_eq!(decode_client(&[]), Err(ProtocolError::Empty));
    assert_eq!(decode_client(&[1, 0]), Err(ProtocolError::InvalidLength));
    assert_eq!(
        decode_client(&[5, 0, 0]),
        Err(ProtocolError::InvalidLength)
    );
    assert_eq!(
        decode_client(&[0x42]),
        Err(ProtocolError::UnknownOpcode(0x42))
    );
    let mut large = vec![opcode::MESSAGE];
    large.extend(vec![b'a'; MAX_MESSAGE_SIZE + 1]);
    assert_eq!(decode_client(&large), Err(ProtocolError::MessageTooLarge));
    large.pop();
    assert!(decode_client(&large).is_ok());
}

#[test]
fn every_server_frame_round_trips() {
    let frames = vec![
        ServerFrame::Ready { agent_id: Cow::Owned("agent_me".to_owned()) },
        ServerFrame::Searching,
        ServerFrame::PeerLeft { final_seq: 9, reason: EndReason::Timeout },
        ServerFrame::RateLimited { retry_after_ms: 1500 },
        ServerFrame::ServerBusy { retry_after_ms: 70_000 },
        ServerFrame::Error { code: 409, message: Cow::Borrowed("déjà") },
        ServerFrame::Pong(u64::MAX),
    ];
    for frame in frames {
        let bytes = encode_server(frame.clone()).unwrap();
        assert_eq!(decode_server(&bytes), Ok(frame));
        assert_eq!(
            decode_client(&bytes),
            Err(ProtocolError::UnknownOpcode(bytes[0]))
        );
    }
}

#[test]
fn server_frames_are_refused_by_rule() {
    assert_eq!(decode_server(&[]), Err(ProtocolError::Empty));
    assert_eq!(decode_server(&[0x10]), Err(ProtocolError::InvalidLength));
    assert_eq!(
        decode_server(&[0x10, 2, b'a']),
        Err(ProtocolError::InvalidLength)
    );
    assert_eq!(
        decode_server(&[0x10, 1, 0xff]),
        Err(ProtocolError::InvalidUtf8)
    );
    let mut matched = vec![0x12];
    matched.extend([0_u8; 16]);
    matched.extend([3, 0]);
    assert_eq!(
        decode_server(&matched),
        Err(ProtocolError::InvalidField("visibility"))
    );
    assert_eq!(
        decode_server(&[0x13, 0, 0, 0, 0, 0, 0, 0, 1, 2, b'x']),
        Err(ProtocolError::InvalidLength)
    );
    assert_eq!(
        decode_server(&[0x14, 0, 0, 0, 0, 0, 0, 0, 1, 5]),
        Err(ProtocolError::InvalidField("end_reason"))
    );
    assert_eq!(
        decode_server(&[0x17, 0, 1, 0xc3]),
        Err(ProtocolError::InvalidUtf8)
    );
    assert_eq!(decode_server(&[0x01]), Err(ProtocolError::UnknownOpcode(1)));
    assert_eq!(
        encode_server(ServerFrame::Message { seq: 1, sender: 2, payload: b"x" }),
        Err(ProtocolError::InvalidField("sender"))
    );
    assert_eq!(
        encode_server(ServerFrame::Ready { agent_id: Cow::Owned("a".repeat(256)) }),
        Err(ProtocolError::InvalidLength)
    );
}

#[test]
fn codes_read_back() {
    for code in 0..3_u8 {
        assert_eq!(Visibility::try_from(code).unwrap().code(), code);
    }
    for code in 0..5_u8 {
        assert_eq!(EndReason::try_from(code).unwrap().code(), code);
    }
    assert_eq!(
        Visibility::try_from(3),
        Err(ProtocolError::InvalidField("visibility"))
    );
}

#[test]
fn protocol_errors_say_what_is_wrong() {
    assert_eq!(ProtocolError::Empty.message(), "empty frame");
    assert_eq!(
        ProtocolError::UnknownOpcode(0x0a).message(),
        "unknown opcode 0x0a"
    );
    assert_eq!(
        ProtocolError::InvalidField("sender").message(),
        "invalid sender"
    );
    assert_eq!(
        ProtocolError::MessageTooLarge.message(),
        "message exceeds 16384 bytes"
    );
    assert_eq!(
        ProtocolError::IncompatibleVersion(20).message(),
        "incompatible protocol version 20"
    );
}

#[test]
fn short_texts_are_read_back() {
    let mut output = vec![7];
    put_short_string(&mut output, "gr\u{fc}n").unwrap();
    assert_eq!(output, [&[7, 5][..], "gr\u{fc}n".as_bytes()].concat());
    assert_eq!(read_short_string(&output[1..]), Ok("gr\u{fc}n"));
    let longest = "a".repeat(255);
    let mut output = Vec::new();
    put_short_string(&mut output, &longest).unwrap();
    assert_eq!(read_short_string(&output), Ok(longest.as_str()));
    let mut output = vec![1];
    assert_eq!(
        put_short_string(&mut output, &"a".repeat(256)),
        Err(ProtocolError::InvalidLength)
    );
    assert_eq!(output, vec![1]);
    assert_eq!(read_short_string(&[]), Err(ProtocolError::InvalidLength));
    assert_eq!(read_short_string(&[2, b'a']), Err(ProtocolError::InvalidLength));
    assert_eq!(read_short_string(&[1, b'a', b'b']), Err(ProtocolError::InvalidLength));
    assert_eq!(read_short_string(&[1, 0xff]), Err(ProtocolError::InvalidUtf8));
}
