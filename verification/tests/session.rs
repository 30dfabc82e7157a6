use aingle::client::{ChatEvent, ClientError, Command};
use aingle::ids::Uuid;
use aingle::session::control::{
    action_response, admit_request, attach_step, control_deadline, control_line_fault,
    control_outcome, control_request, control_timeout, duration_millis, is_settled,
    mark_reachability, report_status, response_error, response_ok, startup_step,
    with_worker_reachability, Acknowledgement, AttachAction, AttachInput, Attachment,
    ControlOperation, ControlRequest, ControlResponse, StartupStep, StartupView, StatusReport,
};
use aingle::session::events::{collect_events, select_events, EventPage, Patience};
use aingle::session::listing::session_order;
use aingle::session::network::{
    connected_operation, network_step, NetworkAction, NetworkInput, NetworkLoop, NetworkOutput,
    NetworkPhase, Operation, StateChange,
};
use aingle::session::{
    RuntimeState, SessionAction, SessionMetadata, SessionStatus, StoredEvent,
};
use serde_json::Value;
use std::time::Duration;

fn id(byte: u8) -> Uuid {
    Uuid::from_bytes([byte; 16])
}

fn runtime() -> RuntimeState {
    RuntimeState::new(SessionMetadata::new(id(1), id(2), id(3), 77), 4000, 99)
}

fn step(network: &mut NetworkLoop, state: &mut RuntimeState, input: NetworkInput) -> NetworkOutput {
    network_step(network, state, input)
}

fn connected() -> (NetworkLoop, RuntimeState) {
    let mut network = NetworkLoop::new();
    let mut state = runtime();
    let output = step(&mut network, &mut state, NetworkInput::Config(Ok(())));
    assert!(matches!(output.action, NetworkAction::LoadIdentity));
    let output = step(&mut network, &mut state, NetworkInput::Identity(Ok(())));
    assert!(matches!(output.action, NetworkAction::Connect));
    let output = step(&mut network, &mut state, NetworkInput::Connection(Ok(())));
    assert!(matches!(output.action, NetworkAction::Listen));
    (network, state)
}

fn event(network: &mut NetworkLoop, state: &mut RuntimeState, event: ChatEvent) -> NetworkOutput {
    let output = step(network, state, NetworkInput::Event(Some(Ok(event))));
    assert!(matches!(output.action, NetworkAction::Record(_)));
    step(network, state, NetworkInput::Recorded(Ok(())))
}

fn found() -> ChatEvent {
    ChatEvent::Matched {
        conversation_id: id(9),
        peer_agent_id: "agent_peer".into(),
        visibility: "public".into(),
    }
}

#[test]
fn event_reader_preserves_unbounded_cursor_order() {
    let first = StoredEvent { cursor: 1, event: ChatEvent::Searching };
    let second = StoredEvent {
        cursor: 2,
        event: ChatEvent::PeerLeft { final_seq: 4, reason: "left".into() },
    };

    let found = select_events(vec![Ok(first), Ok(second)], 1).unwrap();
    assert_eq!(found.len(), 1);
    assert_eq!(found[0].cursor, 2);
}

#[test]
fn wait_duration_is_only_a_control_request_value() {
    assert_eq!(duration_millis(Duration::from_secs(30).as_millis()), 30_000);
    assert_eq!(SessionStatus::starting(Uuid::nil()).state, "starting");
}

#[test]
fn persisted_status_cannot_look_live() {
    let status: Value = serde_json::from_str("{\"state\": \"matched\"}").unwrap();
    let value = with_worker_reachability(status, false, Some("worker stopped".into()));

    assert_eq!(value["state"], "matched");
    assert_eq!(value["worker_reachable"], false);
    assert_eq!(value["worker_error"], "worker stopped");
}

#[test]
fn long_waits_are_cut_off() {
    assert_eq!(duration_millis(u64::MAX as u128), u64::MAX);
    assert_eq!(duration_millis(u64::MAX as u128 + 1), u64::MAX);
    assert_eq!(duration_millis(0), 0);
}

#[test]
fn reports_mark_what_they_tell() {
    let live: Value = serde_json::from_str("{\"state\": \"ready\"}").unwrap();
    match report_status(Ok(live.clone()), None) {
        StatusReport::Marked(value) => {
            assert_eq!(value["worker_reachable"], true);
            assert!(value.get("worker_error").is_none());
        }
        _ => panic!("not marked"),
    }
    match report_status(Err("gone".into()), Some(live)) {
        StatusReport::Marked(value) => {
            assert_eq!(value["worker_reachable"], false);
            assert_eq!(value["worker_error"], "gone");
            assert_eq!(value["state"], "ready");
        }
        _ => panic!("not marked"),
    }
    assert!(matches!(
        report_status(Err("gone".into()), None),
        StatusReport::Unknown(cause) if cause == "gone"
    ));
    assert!(matches!(report_status(Ok(Value::from(3)), None), StatusReport::NotAStatus));
    assert_eq!(mark_reachability(Value::Null, true, None).unwrap()["worker_reachable"], true);
}

#[test]
fn the_first_broken_line_spoils_the_log() {
    let good = || Ok(StoredEvent { cursor: 5, event: ChatEvent::Searching });
    let lines = vec![good(), Err("first".to_string()), Err("second".to_string())];
    assert_eq!(select_events(lines, 9).unwrap_err(), "first");
    assert_eq!(select_events(vec![good()], 5).unwrap().len(), 0);
    assert_eq!(select_events(Vec::new(), 0).unwrap().len(), 0);
}

#[test]
fn two_pages_are_the_same_as_one() {
    let log = |cursors: &[u64]| {
        cursors
            .iter()
            .map(|cursor| Ok(StoredEvent { cursor: *cursor, event: ChatEvent::Searching }))
            .collect::<Vec<_>>()
    };
    let cursors = |events: &[StoredEvent]| events.iter().map(|e| e.cursor).collect::<Vec<_>>();
    let first = EventPage::new(id(1), "ready".into(), select_events(log(&[1, 2, 3]), 1).unwrap(), 1);
    assert_eq!(first.next_cursor, 3);
    let second = select_events(log(&[1, 2, 3, 4, 5]), first.next_cursor).unwrap();
    let whole = select_events(log(&[1, 2, 3, 4, 5]), 1).unwrap();
    let mut joined = cursors(&first.events);
    joined.extend(cursors(&second));
    assert_eq!(joined, cursors(&whole));
    assert_eq!(EventPage::new(id(1), String::new(), Vec::new(), 8).next_cursor, 8);
}

#[test]
fn a_reader_waits_only_while_something_can_come() {
    let mut status = SessionStatus::starting(id(1));
    assert!(collect_events(&status, Vec::new(), 3, Patience::Left).is_none());
    let empty = collect_events(&status, Vec::new(), 3, Patience::Over).unwrap();
    assert_eq!((empty.next_cursor, empty.events.len()), (3, 0));
    assert!(collect_events(&status, Vec::new(), 3, Patience::Absent).is_some());
    let event = StoredEvent { cursor: 7, event: ChatEvent::Searching };
    let page = collect_events(&status, vec![event], 3, Patience::Left).unwrap();
    assert_eq!(page.next_cursor, 7);
    assert_eq!(page.status, "starting");
    status.state = "closed".into();
    assert!(collect_events(&status, Vec::new(), 3, Patience::Left).is_some());
}

#[test]
fn sessions_are_listed_in_order() {
    let ids: Vec<String> = ["b", "a", "", "b", "ab", "B"].iter().map(|s| s.to_string()).collect();
    assert_eq!(session_order(&ids), vec![2, 5, 1, 4, 0, 3]);
    assert!(session_order(&Vec::new()).is_empty());
}

#[test]
fn new_sessions_have_a_token_of_two_identifiers() {
    let metadata = SessionMetadata::new(id(1), id(0xab), id(0xcd), 5);
    assert_eq!(metadata.token, format!("{}{}", "ab".repeat(16), "cd".repeat(16)));
    assert_eq!((metadata.port, metadata.pid, metadata.created_at_ms), (0, 0, 5));
    assert_eq!(metadata.status.session_id, id(1));
}

#[test]
fn events_change_the_status() {
    let mut state = runtime();
    let stored = state.record_event(ChatEvent::Ready { agent_id: "agent_me".into() });
    assert_eq!(stored.cursor, 1);
    assert_eq!(state.metadata.status.state, "ready");
    assert_eq!(state.metadata.status.agent_id.as_deref(), Some("agent_me"));
    state.record_event(ChatEvent::Searching);
    assert!(state.searching_intent);
    assert_eq!(state.metadata.status.state, "searching");
    state.record_event(found());
    assert!(!state.searching_intent);
    assert_eq!(state.metadata.status.state, "matched");
    assert_eq!(state.metadata.status.conversation_id, Some(id(9)));
    state.set_failed("broken".into());
    assert_eq!(state.metadata.status.last_error.as_deref(), Some("broken"));
    let stored = state.record_event(ChatEvent::PeerLeft { final_seq: 0, reason: "left".into() });
    assert_eq!(stored.cursor, 4);
    let status = state.public_status();
    assert_eq!(status.state, "peer_left");
    assert!(status.conversation_id.is_none() && status.peer_agent_id.is_none());
    assert!(status.visibility.is_none() && status.last_error.is_none());
    assert_eq!(status.agent_id.as_deref(), Some("agent_me"));
    state.record_event(ChatEvent::Error { code: 1, message: "m".into() });
    assert_eq!(state.metadata.status.state, "peer_left");
}

#[test]
fn a_status_that_cannot_be_written_says_so() {
    let mut state = runtime();
    state.set_closed();
    let status = state.persisted(Err("disk full".into()));
    assert_eq!(status.state, "closed");
    assert_eq!(status.last_error.as_deref(), Some("persist session state: disk full"));
    state.set_reconnecting("lost".into());
    let status = state.persisted(Ok(()));
    assert_eq!((status.state.as_str(), status.last_error.as_deref()), ("starting", Some("lost")));
}

#[test]
fn actions_are_allowed_by_state() {
    let operation = |action: SessionAction, state: &str| connected_operation(action, state);
    for state in ["ready", "peer_left"] {
        assert!(matches!(
            operation(SessionAction::Find, state),
            Operation::Perform(Some(Command::Find), StateChange::Keep)
        ));
    }
    assert!(matches!(
        operation(SessionAction::Find, "matched"),
        Operation::Refuse(cause) if cause == "find is not valid while session is matched"
    ));
    assert!(matches!(
        operation(SessionAction::Message { content: "hi".into() }, "matched"),
        Operation::Perform(Some(Command::Message(bytes)), StateChange::Keep) if bytes == b"hi"
    ));
    assert!(matches!(
        operation(SessionAction::Message { content: "hi".into() }, "ready"),
        Operation::Refuse(cause) if cause == "message is not valid while session is ready"
    ));
    assert!(matches!(
        operation(SessionAction::Next, "matched"),
        Operation::Perform(Some(Command::Next), StateChange::Leaving)
    ));
    assert!(matches!(
        operation(SessionAction::Next, "searching"),
        Operation::Refuse(cause) if cause == "next is not valid while session is searching"
    ));
    assert!(matches!(
        operation(SessionAction::Leave, "searching"),
        Operation::Perform(Some(Command::Cancel), StateChange::Ready)
    ));
    assert!(matches!(
        operation(SessionAction::Leave, "matched"),
        Operation::Perform(Some(Command::Leave), StateChange::Leaving)
    ));
    assert!(matches!(
        operation(SessionAction::Leave, "ready"),
        Operation::Perform(None, StateChange::Keep)
    ));
    assert!(matches!(
        operation(SessionAction::Cancel, "searching"),
        Operation::Perform(Some(Command::Cancel), StateChange::Ready)
    ));
    assert!(matches!(
        operation(SessionAction::Cancel, "matched"),
        Operation::Perform(None, StateChange::Keep)
    ));
    assert!(matches!(
        operation(SessionAction::Close, "starting"),
        Operation::Perform(Some(Command::Close), StateChange::Closed)
    ));
}

#[test]
fn a_worker_carries_out_and_answers_commands() {
    let (mut network, mut state) = connected();
    let output =
        event(&mut network, &mut state, ChatEvent::Ready { agent_id: "agent_me".into() });
    assert!(output.notify && matches!(output.action, NetworkAction::Listen));

    let output = step(&mut network, &mut state, NetworkInput::Command(Some(SessionAction::Find)));
    assert!(matches!(output.action, NetworkAction::Send(Command::Find)));
    assert!(state.searching_intent);
    let output = step(&mut network, &mut state, NetworkInput::Sent(Ok(())));
    assert!(matches!(output.action, NetworkAction::Answer(Ok(status)) if status.state == "ready"));
    let output = step(&mut network, &mut state, NetworkInput::Answered);
    assert!(matches!(output.action, NetworkAction::Listen));

    event(&mut network, &mut state, ChatEvent::Searching);
    let output = step(&mut network, &mut state, NetworkInput::Command(Some(SessionAction::Leave)));
    assert!(matches!(output.action, NetworkAction::Send(Command::Cancel)));
    assert!(!state.searching_intent);
    let output = step(&mut network, &mut state, NetworkInput::Sent(Ok(())));
    assert!(matches!(output.action, NetworkAction::Persist));
    let output = step(&mut network, &mut state, NetworkInput::Persisted(Ok(())));
    assert!(output.notify);
    assert!(matches!(output.action, NetworkAction::Answer(Ok(status)) if status.state == "ready"));
    step(&mut network, &mut state, NetworkInput::Answered);

    let output = step(&mut network, &mut state, NetworkInput::Command(Some(SessionAction::Find)));
    assert!(matches!(output.action, NetworkAction::Send(_)));
    let output = step(&mut network, &mut state, NetworkInput::Sent(Err(ClientError::Closed)));
    assert!(matches!(
        output.action,
        NetworkAction::Answer(Err(cause)) if cause == "client command queue is closed"
    ));
    step(&mut network, &mut state, NetworkInput::Answered);

    let output = step(&mut network, &mut state, NetworkInput::Command(Some(SessionAction::Close)));
    assert!(matches!(output.action, NetworkAction::Send(Command::Close)));
    step(&mut network, &mut state, NetworkInput::Sent(Ok(())));
    let output = step(&mut network, &mut state, NetworkInput::Persisted(Err("disk".into())));
    assert!(matches!(output.action, NetworkAction::Answer(Ok(status)) if status.state == "closed"));
    let output = step(&mut network, &mut state, NetworkInput::Answered);
    assert!(matches!(output.action, NetworkAction::Stop));
    assert_eq!(network.phase, NetworkPhase::Stopped);
}

#[test]
fn a_lost_connection_is_made_again_and_the_search_resumed() {
    let (mut network, mut state) = connected();
    event(&mut network, &mut state, ChatEvent::Searching);
    let output = step(&mut network, &mut state, NetworkInput::Event(None));
    assert!(matches!(output.action, NetworkAction::Persist));
    assert_eq!(state.metadata.status.last_error.as_deref(), Some("connection closed"));
    let output = step(&mut network, &mut state, NetworkInput::Persisted(Ok(())));
    assert!(matches!(output.action, NetworkAction::Rest(500)));

    let output = step(&mut network, &mut state, NetworkInput::Command(Some(SessionAction::Find)));
    assert!(matches!(output.action, NetworkAction::Answer(Err(cause))
        if cause == "session is not connected; inspect status and events before retrying"));
    let output = step(&mut network, &mut state, NetworkInput::Answered);
    assert!(matches!(output.action, NetworkAction::AwaitRest));

    let output = step(&mut network, &mut state, NetworkInput::Slept);
    assert!(matches!(output.action, NetworkAction::LoadIdentity));
    step(&mut network, &mut state, NetworkInput::Identity(Ok(())));
    let refused = ClientError::Network("refused".into());
    step(&mut network, &mut state, NetworkInput::Connection(Err(refused)));
    assert_eq!(state.metadata.status.last_error.as_deref(), Some("network error: refused"));
    let output = step(&mut network, &mut state, NetworkInput::Persisted(Ok(())));
    assert!(matches!(output.action, NetworkAction::Rest(1000)));
    step(&mut network, &mut state, NetworkInput::Slept);
    step(&mut network, &mut state, NetworkInput::Identity(Ok(())));
    step(&mut network, &mut state, NetworkInput::Connection(Ok(())));
    assert_eq!(network.backoff_ms, 500);
    let output = event(&mut network, &mut state, ChatEvent::Ready { agent_id: "a".into() });
    assert!(matches!(output.action, NetworkAction::Send(Command::Find)));
    let output = step(&mut network, &mut state, NetworkInput::Sent(Ok(())));
    assert!(matches!(output.action, NetworkAction::Listen));
}

#[test]
fn a_worker_that_cannot_start_waits_to_be_closed() {
    let mut network = NetworkLoop::new();
    let mut state = runtime();
    let broken = ClientError::Config("no file".into());
    let output = step(&mut network, &mut state, NetworkInput::Config(Err(broken)));
    assert!(matches!(output.action, NetworkAction::Persist));
    assert_eq!(state.metadata.status.state, "failed");
    let output = step(&mut network, &mut state, NetworkInput::Persisted(Ok(())));
    assert!(matches!(output.action, NetworkAction::AwaitClose));
    step(&mut network, &mut state, NetworkInput::Command(Some(SessionAction::Close)));
    step(&mut network, &mut state, NetworkInput::Persisted(Ok(())));
    let output = step(&mut network, &mut state, NetworkInput::Answered);
    assert!(matches!(output.action, NetworkAction::Stop));
}

#[test]
fn a_log_that_cannot_be_written_ends_the_worker() {
    let (mut network, mut state) = connected();
    step(&mut network, &mut state, NetworkInput::Event(Some(Ok(ChatEvent::Searching))));
    step(&mut network, &mut state, NetworkInput::Recorded(Err("disk".into())));
    assert_eq!(
        state.metadata.status.last_error.as_deref(),
        Some("record session event: disk")
    );
    let output = step(&mut network, &mut state, NetworkInput::Persisted(Ok(())));
    assert!(matches!(output.action, NetworkAction::Stop));
}

#[test]
fn control_lines_are_screened() {
    let fault = |read: Result<usize, String>, line: &str| control_line_fault(read, line);
    assert_eq!(fault(Ok(0), "").unwrap(), "empty control request");
    assert_eq!(fault(Err("x".into()), "").unwrap(), "read control request: x");
    let long = "a".repeat(64 * 1024);
    assert!(fault(Ok(1), &long).is_none());
    assert_eq!(fault(Ok(1), &(long + "a")).unwrap(), "control request too large");
}

#[test]
fn only_who_knows_the_token_is_heard() {
    let request = |token: &str| ControlRequest {
        token: token.into(),
        operation: ControlOperation::Status,
    };
    assert!(matches!(admit_request(Ok(request("t")), "t"), Ok(ControlOperation::Status)));
    assert_eq!(admit_request(Ok(request("T")), "t").unwrap_err(), "invalid session token");
    assert_eq!(
        admit_request(Err("eof".into()), "t").unwrap_err(),
        "invalid control request: eof"
    );
}

#[test]
fn answers_arrive_as_they_were_given() {
    assert_eq!(control_outcome(response_ok(5)), Ok(Some(5)));
    assert_eq!(control_outcome::<u8>(response_error("no")), Err("no".to_string()));
    let silent: ControlResponse<u8> = ControlResponse { ok: false, data: None, error: None };
    assert_eq!(control_outcome(silent), Err("session command failed".to_string()));
    let taken = action_response(Acknowledgement::Answered(Ok(SessionStatus::starting(id(4)))));
    assert!(taken.ok && taken.data.unwrap().session_id == id(4));
    let refused = action_response(Acknowledgement::Answered(Err("bad".into())));
    assert_eq!((refused.ok, refused.error.as_deref()), (false, Some("bad")));
    assert_eq!(
        action_response(Acknowledgement::NotTaken).error.unwrap(),
        "session worker is stopping"
    );
    assert_eq!(
        action_response(Acknowledgement::NotAnswered).error.unwrap(),
        "session worker stopped before acknowledging the command"
    );
}

#[test]
fn requests_carry_the_token_and_wait_long_enough() {
    let mut metadata = SessionMetadata::new(id(1), id(2), id(3), 0);
    assert_eq!(
        control_request(&metadata, ControlOperation::Status).unwrap_err(),
        "session worker has not opened its control endpoint"
    );
    metadata.port = 81;
    let (port, request) = control_request(&metadata, ControlOperation::Status).unwrap();
    assert_eq!((port, request.token), (81, metadata.token.clone()));
    assert_eq!(control_deadline(&ControlOperation::Status), (3, 0));
    let waiting = ControlOperation::Events { after: 0, wait_ms: Some(1_500) };
    assert_eq!(control_deadline(&waiting), (4, 500));
    assert_eq!(control_timeout(&waiting), "session event wait exceeded its local response deadline");
    assert_eq!(control_timeout(&ControlOperation::Status), "session worker did not respond");
    let forever = ControlOperation::Events { after: 0, wait_ms: Some(u64::MAX) };
    assert_eq!(control_deadline(&forever), (18_446_744_073_709_554, 615));
}

#[test]
fn closing_a_closed_session_is_settled() {
    let mut status = SessionStatus::starting(id(1));
    assert!(!is_settled(true, &status));
    status.state = "closed".into();
    assert!(is_settled(true, &status));
    assert!(!is_settled(false, &status));
}

#[test]
fn a_start_is_watched() {
    let seen = |exit: Option<&str>, port: Option<u16>, overdue: bool| {
        startup_step(StartupView { exit: exit.map(|e| e.to_string()), port, overdue })
    };
    assert!(matches!(seen(Some("exit status: 1"), Some(1), false), StartupStep::Exited(cause)
        if cause == "session worker exited during startup with exit status: 1"));
    assert!(matches!(seen(None, Some(1), true), StartupStep::Ready));
    assert!(matches!(seen(None, Some(0), false), StartupStep::Wait));
    assert!(matches!(seen(None, None, true), StartupStep::Overdue(cause)
        if cause == "session worker did not start within the local startup deadline"));
}

#[test]
fn an_attached_client_follows_the_events() {
    let mut attachment = Attachment::new(4);
    assert!(matches!(
        attach_step(&mut attachment, AttachInput::Events(Ok(Some(9)))),
        AttachAction::Listen(9)
    ));
    assert!(matches!(
        attach_step(&mut attachment, AttachInput::Events(Ok(None))),
        AttachAction::Listen(9)
    ));
    assert!(matches!(
        attach_step(&mut attachment, AttachInput::Line(Some(Ok(SessionAction::Find)))),
        AttachAction::Request(SessionAction::Find)
    ));
    assert!(matches!(
        attach_step(&mut attachment, AttachInput::Replied(Ok(()))),
        AttachAction::Listen(9)
    ));
    attach_step(&mut attachment, AttachInput::Line(Some(Ok(SessionAction::Close))));
    assert!(matches!(
        attach_step(&mut attachment, AttachInput::Replied(Ok(()))),
        AttachAction::ShowAndStop
    ));
    let mut attachment = Attachment::new(0);
    assert!(matches!(
        attach_step(&mut attachment, AttachInput::Line(Some(Err("eof".into())))),
        AttachAction::Fail(cause) if cause == "invalid JSONL input: eof"
    ));
    let mut attachment = Attachment::new(0);
    assert!(matches!(attach_step(&mut attachment, AttachInput::Line(None)), AttachAction::Stop));
    let mut attachment = Attachment::new(0);
    assert!(matches!(
        attach_step(&mut attachment, AttachInput::Interrupted),
        AttachAction::Stop
    ));
    let mut attachment = Attachment::new(0);
    assert!(matches!(
        attach_step(&mut attachment, AttachInput::Events(Err("gone".into()))),
        AttachAction::Fail(cause) if cause == "gone"
    ));
}

#[test]
fn the_log_has_no_gaps() {
    let (mut network, mut state) = connected();
    for cursor in 1..=3 {
        let input = NetworkInput::Event(Some(Ok(ChatEvent::Searching)));
        match step(&mut network, &mut state, input).action {
            NetworkAction::Record(stored) => assert_eq!(stored.cursor, cursor),
            other => panic!("unexpected {:?}", other),
        }
        step(&mut network, &mut state, NetworkInput::Recorded(Ok(())));
        step(&mut network, &mut state, NetworkInput::Command(Some(SessionAction::Next)));
        step(&mut network, &mut state, NetworkInput::Answered);
        assert_eq!(state.metadata.status.last_cursor, cursor);
    }
    assert_eq!(state.metadata.token, runtime().metadata.token);
}
