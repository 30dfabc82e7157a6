use aingle::backoff::{backoff_with_jitter, next_backoff};
use aingle::client::{
    bearer_header, command_packets, map_event, reader_step, writer_step, ChatEvent, ClientError,
    Command, HistoryCommand, HistorySlot, Incoming, ReaderAction, WriterAction, WriterInput,
};
use aingle::history::HistoryError;
use aingle::ids::Uuid;
use aingle::protocol::{
    decode_client, encode_server, ClientFrame, EndReason, ProtocolError, ServerFrame, Visibility,
};
use aingle::resilient::{
    resilient_step, ResilientAction, ResilientInput, ResilientPhase, ResilientState,
};
use std::borrow::Cow;

fn open() -> HistorySlot {
    HistorySlot { open: true, command: None }
}

fn matched(id: Uuid) -> Vec<u8> {
    encode_server(ServerFrame::Matched {
        conversation_id: id,
        peer_agent_id: Cow::Borrowed("agent_peer"),
        visibility: Visibility::Unlisted,
    })
    .unwrap()
}

#[test]
fn heartbeat_pong_is_consumed_without_an_event() {
    let mut active = None;
    let pong = [0x18, 0, 0, 0, 0, 0, 0, 0, 42];

    assert!(map_event(&pong, &mut active, None, 0).unwrap().is_none());
}

#[test]
fn a_conversation_is_written_to_history() {
    let id = Uuid::from_bytes([3; 16]);
    let mut active = None;
    let mut slot = open();
    match map_event(&matched(id), &mut active, Some(&mut slot), 7).unwrap() {
        Some(ChatEvent::Matched { conversation_id, peer_agent_id, visibility }) => {
            assert_eq!(conversation_id, id);
            assert_eq!(peer_agent_id, "agent_peer");
            assert_eq!(visibility, "unlisted");
        }
        other => panic!("unexpected {:?}", other),
    }
    assert!(!slot.open);
    assert!(matches!(
        slot.command,
        Some(HistoryCommand::Begin(begun, ref peer, Visibility::Unlisted))
            if begun == id && peer == "agent_peer"
    ));
    assert_eq!(active, Some((id, "agent_peer".to_string())));

    let message =
        encode_server(ServerFrame::Message { seq: 4, sender: 1, payload: b"yo" }).unwrap();
    let mut slot = open();
    match map_event(&message, &mut active, Some(&mut slot), 99).unwrap() {
        Some(ChatEvent::Message { seq, sender, content }) => {
            assert_eq!((seq, sender.as_str(), content.as_str()), (4, "peer", "yo"));
        }
        other => panic!("unexpected {:?}", other),
    }
    match slot.command {
        Some(HistoryCommand::Append(to, seq, sender, at, payload)) => {
            assert_eq!((to, seq, sender, at, payload), (id, 4, 1, 99, b"yo".to_vec()));
        }
        other => panic!("unexpected {:?}", other),
    }

    let left =
        encode_server(ServerFrame::PeerLeft { final_seq: 4, reason: EndReason::Timeout }).unwrap();
    let mut slot = open();
    match map_event(&left, &mut active, Some(&mut slot), 100).unwrap() {
        Some(ChatEvent::PeerLeft { final_seq, reason }) => {
            assert_eq!((final_seq, reason.as_str()), (4, "timeout"));
        }
        other => panic!("unexpected {:?}", other),
    }
    assert!(matches!(slot.command, Some(HistoryCommand::Finish(to, 4)) if to == id));
    assert!(active.is_none());
}

#[test]
fn a_full_history_queue_refuses_the_frame_and_keeps_the_conversation() {
    let mut active = None;
    let mut slot = HistorySlot { open: false, command: None };
    let outcome = map_event(&matched(Uuid::nil()), &mut active, Some(&mut slot), 0);
    assert!(matches!(outcome, Err(ClientError::Closed)));
    assert!(active.is_none());
    assert!(slot.command.is_none());
}

#[test]
fn messages_outside_a_conversation_are_not_kept() {
    let mut active = None;
    let mut slot = open();
    let message =
        encode_server(ServerFrame::Message { seq: 1, sender: 0, payload: b"x" }).unwrap();
    match map_event(&message, &mut active, Some(&mut slot), 0).unwrap() {
        Some(ChatEvent::Message { sender, .. }) => assert_eq!(sender, "self"),
        other => panic!("unexpected {:?}", other),
    }
    assert!(slot.open && slot.command.is_none());
}

#[test]
fn broken_frames_are_protocol_errors() {
    let mut active = None;
    assert!(matches!(
        map_event(&[0xff], &mut active, None, 0),
        Err(ClientError::Protocol(ProtocolError::UnknownOpcode(0xff)))
    ));
    assert!(matches!(
        map_event(&[], &mut active, None, 0),
        Err(ClientError::Protocol(ProtocolError::Empty))
    ));
}

#[test]
fn next_is_leave_and_find() {
    let packets = command_packets(&Command::Next).unwrap();
    assert_eq!(packets.len(), 2);
    assert_eq!(decode_client(&packets[0]).unwrap(), ClientFrame::Leave);
    assert_eq!(decode_client(&packets[1]).unwrap(), ClientFrame::Find);
    let message = command_packets(&Command::Message(b"hello".to_vec())).unwrap();
    assert_eq!(decode_client(&message[0]).unwrap(), ClientFrame::Message(b"hello"));
    assert_eq!(
        command_packets(&Command::Message(vec![0xff])),
        Err(ProtocolError::InvalidUtf8)
    );
}

#[test]
fn the_writer_sends_stops_and_beats() {
    match writer_step(WriterInput::Heartbeat(42)) {
        WriterAction::Send(packets) => {
            assert_eq!(packets, vec![vec![0x05, 0, 0, 0, 0, 0, 0, 0, 42]]);
        }
        WriterAction::Stop => panic!("stopped"),
    }
    assert!(matches!(writer_step(WriterInput::Command(None)), WriterAction::Stop));
    let large = Command::Message(vec![b'a'; 16 * 1024 + 1]);
    assert!(matches!(writer_step(WriterInput::Command(Some(large))), WriterAction::Stop));
    assert!(matches!(
        writer_step(WriterInput::Command(Some(Command::Cancel))),
        WriterAction::Send(packets) if packets == vec![vec![0x02]]
    ));
}

#[test]
fn the_reader_goes_on_after_faults_and_ends_with_the_stream() {
    let mut active = None;
    assert!(matches!(
        reader_step(Incoming::Binary(vec![0x11]), &mut active, None, 0),
        ReaderAction::Deliver(Ok(ChatEvent::Searching))
    ));
    assert!(matches!(
        reader_step(Incoming::Binary(vec![0x18, 0, 0, 0, 0, 0, 0, 0, 1]), &mut active, None, 0),
        ReaderAction::Continue
    ));
    assert!(matches!(
        reader_step(Incoming::Binary(vec![0x77]), &mut active, None, 0),
        ReaderAction::Deliver(Err(ClientError::Protocol(_)))
    ));
    assert!(matches!(
        reader_step(Incoming::Failed("reset".into()), &mut active, None, 0),
        ReaderAction::Deliver(Err(ClientError::Network(cause))) if cause == "reset"
    ));
    assert!(matches!(
        reader_step(Incoming::Other, &mut active, None, 0),
        ReaderAction::Continue
    ));
    assert!(matches!(reader_step(Incoming::Ended, &mut active, None, 0), ReaderAction::Stop));
}

#[test]
fn the_reader_keeps_the_text_of_a_message() {
    let frame = ServerFrame::Message { seq: 3, sender: 1, payload: "gr\u{fc}n".as_bytes() };
    let mut active = None;
    match reader_step(Incoming::Binary(encode_server(frame).unwrap()), &mut active, None, 0) {
        ReaderAction::Deliver(Ok(ChatEvent::Message { seq, content, .. })) => {
            assert_eq!((seq, content.as_str()), (3, "gr\u{fc}n"));
        }
        _ => panic!("no message"),
    }
}

#[test]
fn tokens_that_no_header_can_hold_are_refused() {
    assert_eq!(bearer_header("abc").unwrap(), "Bearer abc");
    assert_eq!(bearer_header("a\tb").unwrap(), "Bearer a\tb");
    for bad in ["a\nb", "a\u{7f}", "\0"] {
        assert!(matches!(
            bearer_header(bad),
            Err(ClientError::Config(cause)) if cause == "invalid session token"
        ));
    }
    assert!(bearer_header("gr\u{fc}n").is_ok());
}

#[test]
fn client_errors_have_words() {
    assert_eq!(ClientError::Config("a".into()).message(), "configuration error: a");
    assert_eq!(ClientError::Authentication("b".into()).message(), "authentication error: b");
    assert_eq!(ClientError::Network("c".into()).message(), "network error: c");
    assert_eq!(
        ClientError::Protocol(ProtocolError::InvalidLength).message(),
        "protocol error: invalid frame length"
    );
    assert_eq!(
        ClientError::History(HistoryError::Io("d".into())).message(),
        "local history error: history I/O error: d"
    );
    assert_eq!(ClientError::Closed.message(), "client command queue is closed");
}

#[test]
fn waits_double_up_to_the_longest() {
    let mut wait = 500;
    let mut seen = vec![wait];
    for _ in 0..7 {
        wait = next_backoff(wait);
        seen.push(wait);
    }
    assert_eq!(seen, vec![500, 1000, 2000, 4000, 8000, 16000, 30000, 30000]);
    assert_eq!(backoff_with_jitter(500, 0), 500);
    assert_eq!(backoff_with_jitter(500, 125), 625);
    assert_eq!(backoff_with_jitter(500, 126), 500);
    assert_eq!(backoff_with_jitter(30_000, 999), 30_999);
}

#[test]
fn a_resilient_client_reconnects_and_asks_again() {
    let mut state = ResilientState::new();
    let action = resilient_step(&mut state, ResilientInput::Command(Some(Command::Find)));
    assert!(matches!(action, ResilientAction::Send(Command::Find)));
    assert!(matches!(
        resilient_step(&mut state, ResilientInput::Sent(Ok(()))),
        ResilientAction::Listen
    ));
    assert!(matches!(
        resilient_step(&mut state, ResilientInput::Event(None)),
        ResilientAction::Sleep(500)
    ));
    assert!(matches!(
        resilient_step(&mut state, ResilientInput::Slept),
        ResilientAction::LoadIdentity
    ));
    assert!(matches!(
        resilient_step(&mut state, ResilientInput::Loaded(Ok(()))),
        ResilientAction::Connect
    ));
    assert!(matches!(
        resilient_step(&mut state, ResilientInput::Connected(false)),
        ResilientAction::Sleep(1000)
    ));
    resilient_step(&mut state, ResilientInput::Slept);
    resilient_step(&mut state, ResilientInput::Loaded(Ok(())));
    assert!(matches!(
        resilient_step(&mut state, ResilientInput::Connected(true)),
        ResilientAction::Send(Command::Find)
    ));
    assert!(matches!(
        resilient_step(&mut state, ResilientInput::Sent(Err(ClientError::Closed))),
        ResilientAction::Sleep(1000)
    ));
    resilient_step(&mut state, ResilientInput::Slept);
    resilient_step(&mut state, ResilientInput::Loaded(Ok(())));
    resilient_step(&mut state, ResilientInput::Connected(true));
    assert!(matches!(
        resilient_step(&mut state, ResilientInput::Sent(Ok(()))),
        ResilientAction::Listen
    ));
    assert_eq!(state.backoff_ms, 500);
    assert!(matches!(
        resilient_step(&mut state, ResilientInput::Command(Some(Command::Close))),
        ResilientAction::Send(Command::Close)
    ));
    assert!(matches!(
        resilient_step(&mut state, ResilientInput::Sent(Err(ClientError::Closed))),
        ResilientAction::Stop
    ));
    assert_eq!(state.phase, ResilientPhase::Stopped);
}

#[test]
fn a_resilient_client_gives_up_without_an_identity() {
    let mut state = ResilientState::new();
    resilient_step(&mut state, ResilientInput::Event(None));
    resilient_step(&mut state, ResilientInput::Slept);
    let action =
        resilient_step(&mut state, ResilientInput::Loaded(Err(ClientError::Config("x".into()))));
    assert!(matches!(action, ResilientAction::Deliver(Err(ClientError::Config(_)))));
    assert!(matches!(
        resilient_step(&mut state, ResilientInput::Delivered(true)),
        ResilientAction::Stop
    ));
}
