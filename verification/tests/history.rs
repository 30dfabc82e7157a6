use aingle::history::{
    import_conversation, read_transcript, recover_history, sync_status, transcript_header,
    transcript_name, transcript_record, visibility_name, visibility_named, HistoryError,
    RecoveredConversation, RemoteConversation, RemoteMessage, StoredMessage,
};
use aingle::ids::Uuid;
use aingle::protocol::Visibility;

fn fresh() -> Uuid {
    Uuid::from_bytes(*uuid::Uuid::now_v7().as_bytes())
}

fn fault(id: &Uuid, bytes: &[u8]) -> String {
    match read_transcript(id, bytes) {
        Err(HistoryError::InvalidTranscript(text)) => text,
        other => panic!("unexpected {:?}", other),
    }
}

#[test]
fn history_is_append_only_and_detects_completion() {
    let id = fresh();
    let mut file = transcript_header(&id, "agent_peer");
    file.extend(transcript_record(1, 0, 10, b"hello"));
    let before = file.clone();
    file.extend(transcript_record(2, 1, 20, b"world"));
    assert_eq!(&file[..before.len()], &before[..]);
    let messages = read_transcript(&id, &file).unwrap();
    assert_eq!(messages.len(), 2);
    assert_eq!(messages[1].content, "world");
    assert_eq!(sync_status(&messages, 2), "complete");
}

#[test]
fn missing_sequence_is_partial() {
    let id = fresh();
    let mut file = transcript_header(&id, "agent_peer");
    file.extend(transcript_record(2, 1, 20, b"late"));
    let messages = read_transcript(&id, &file).unwrap();
    assert_eq!(sync_status(&messages, 2), "partial");
}

#[test]
fn too_many_or_misnumbered_messages_are_partial() {
    let id = fresh();
    let mut file = transcript_header(&id, "p");
    assert_eq!(sync_status(&read_transcript(&id, &file).unwrap(), 0), "complete");
    file.extend(transcript_record(1, 0, 1, b"a"));
    file.extend(transcript_record(3, 0, 1, b"b"));
    let messages = read_transcript(&id, &file).unwrap();
    assert_eq!(sync_status(&messages, 2), "partial");
    assert_eq!(sync_status(&messages, 3), "partial");
}

#[test]
fn header_and_record_have_their_exact_bytes() {
    let id = Uuid::from_bytes([0xab; 16]);
    let mut expected = b"AINGHST1".to_vec();
    expected.extend([0xab; 16]);
    expected.extend([0, 2, b'a', b'b']);
    assert_eq!(transcript_header(&id, "ab"), expected);
    assert_eq!(
        transcript_record(258, 7, 1, &[9, 8]),
        vec![0, 0, 0, 0, 0, 0, 1, 2, 7, 0, 0, 0, 0, 0, 0, 0, 1, 0, 0, 0, 2, 9, 8]
    );
    assert_eq!(transcript_name(&id), "abababab-abab-abab-abab-abababababab.aingle");
}

#[test]
fn messages_are_read_back_with_all_their_parts() {
    let id = fresh();
    let mut file = transcript_header(&id, "agent_\u{e9}");
    file.extend(transcript_record(u64::MAX, 255, 42, "gr\u{fc}n".as_bytes()));
    let messages = read_transcript(&id, &file).unwrap();
    assert_eq!(messages.len(), 1);
    assert_eq!(messages[0].seq, u64::MAX);
    assert_eq!(messages[0].sender, 255);
    assert_eq!(messages[0].timestamp_ms, 42);
    assert_eq!(messages[0].content, "gr\u{fc}n");
}

#[test]
fn invalid_utf8_is_replaced_when_read() {
    let id = fresh();
    let mut file = transcript_header(&id, "p");
    file.extend(transcript_record(1, 0, 0, &[b'a', 0xff, b'b']));
    assert_eq!(read_transcript(&id, &file).unwrap()[0].content, "a\u{fffd}b");
}

#[test]
fn damaged_transcripts_are_named() {
    let id = fresh();
    let header = transcript_header(&id, "peer");
    assert_eq!(fault(&id, &header[..25]), "invalid header");
    assert_eq!(fault(&id, &header[..29]), "truncated peer identity");
    let mut wrong = header.clone();
    wrong[0] = b'X';
    assert_eq!(fault(&id, &wrong), "invalid header");
    assert_eq!(fault(&fresh(), &header), "invalid header");
    let mut file = header.clone();
    file.extend(transcript_record(1, 0, 0, b"text"));
    assert_eq!(fault(&id, &file[..header.len() + 20]), "truncated message header");
    assert_eq!(fault(&id, &file[..file.len() - 1]), "truncated message body");
}

#[test]
fn history_errors_have_words() {
    assert_eq!(HistoryError::Io("x".into()).message(), "history I/O error: x");
    assert_eq!(HistoryError::Database("x".into()).message(), "history database error: x");
    assert_eq!(HistoryError::InvalidTranscript("x".into()).message(), "invalid transcript: x");
}

#[test]
fn visibility_names_lead_back() {
    for value in [Visibility::Public, Visibility::Unlisted, Visibility::Private] {
        assert_eq!(visibility_named(visibility_name(value)), Some(value));
    }
    assert_eq!(visibility_name(Visibility::Unlisted), "unlisted");
    assert_eq!(visibility_named("Public"), None);
}

fn remote(visibility: &str, final_seq: Option<u64>) -> RemoteConversation {
    RemoteConversation {
        agent_a_id: "agent_a".into(),
        agent_b_id: "agent_b".into(),
        visibility: visibility.into(),
        final_seq,
        messages: vec![
            RemoteMessage { seq: 1, sender: 0, timestamp_ms: 5, content: b"hi".to_vec() },
            RemoteMessage { seq: 2, sender: 1, timestamp_ms: 6, content: vec![0xc3] },
        ],
    }
}

#[test]
fn recovery_takes_the_other_party_and_the_texts() {
    let seen_from_a = recover_history(remote("private", None), "agent_a").unwrap();
    assert_eq!(seen_from_a.peer_agent_id, "agent_b");
    assert_eq!(seen_from_a.visibility, Visibility::Private);
    assert_eq!(seen_from_a.final_seq, 2);
    assert_eq!(seen_from_a.messages[0].content, "hi");
    assert_eq!(seen_from_a.messages[1].content, "\u{fffd}");
    let seen_from_b = recover_history(remote("public", Some(9)), "agent_b").unwrap();
    assert_eq!(seen_from_b.peer_agent_id, "agent_a");
    assert_eq!(seen_from_b.final_seq, 9);
    assert_eq!(
        recover_history(remote("secret", None), "agent_a").unwrap_err(),
        "invalid remote visibility"
    );
}

fn recovered(numbers: &[u64], final_seq: u64) -> RecoveredConversation {
    RecoveredConversation {
        peer_agent_id: "agent_peer".into(),
        visibility: Visibility::Private,
        messages: numbers
            .iter()
            .map(|seq| StoredMessage {
                seq: *seq,
                sender: 1,
                timestamp_ms: seq * 10,
                content: format!("gr\u{fc}n {seq}"),
            })
            .collect(),
        final_seq,
    }
}

#[test]
fn an_import_is_read_back_and_settled() {
    let id = fresh();
    let plan = import_conversation(false, &id, &recovered(&[1, 2], 2)).unwrap();
    let mut expected = transcript_header(&id, "agent_peer");
    expected.extend(transcript_record(1, 1, 10, "gr\u{fc}n 1".as_bytes()));
    expected.extend(transcript_record(2, 1, 20, "gr\u{fc}n 2".as_bytes()));
    assert_eq!(plan.transcript, expected);
    assert_eq!((plan.message_count, plan.final_seq), (2, 2));
    assert_eq!(plan.sync_status.unwrap(), "complete");
    let messages = read_transcript(&id, &plan.transcript).unwrap();
    assert_eq!(messages[1].content, "gr\u{fc}n 2");
    assert_eq!(messages[1].timestamp_ms, 20);
    for (numbers, last) in [(vec![1, 3], 3), (vec![2, 1], 2), (vec![1], 2)] {
        let plan = import_conversation(false, &id, &recovered(&numbers, last)).unwrap();
        assert_eq!(plan.sync_status.unwrap(), "partial");
    }
}

#[test]
fn an_import_of_what_is_there_changes_nothing() {
    assert!(import_conversation(true, &fresh(), &recovered(&[1], 1)).is_none());
}
