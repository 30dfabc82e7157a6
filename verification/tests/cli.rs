use aingle::cli::{
    claim_poll, classify_error, conversation_url, health_url, init_authenticated, init_start,
    login_poll, read_secret, report_url, InitStep, Poll,
};
use aingle::client::{ChatEvent, ClientError, Command};
use aingle::connect::{
    command_of, connect_step, ConnectAction, ConnectInput, ConnectPhase, ConnectState, Input,
};
use aingle::doctor::{
    address_of, all_ok, check_line, doctor, probe_address, probe_step, AuthFacts, DoctorFacts,
    ProbeOutcome, ProbeStep, ServerFacts,
};
use aingle::ids::Uuid;
use aingle::text::{split_filled_lines, split_words, trim};

#[test]
fn errors_have_exit_codes() {
    assert_eq!(classify_error("Configuration error: x"), 2);
    assert_eq!(classify_error("no IDENTITY"), 2);
    assert_eq!(classify_error("authentication error"), 3);
    assert_eq!(classify_error("status 401"), 3);
    assert_eq!(classify_error("403"), 3);
    assert_eq!(classify_error("network error"), 4);
    assert_eq!(classify_error("DNS"), 4);
    assert_eq!(classify_error("connection reset"), 4);
    assert_eq!(classify_error("protocol error"), 5);
    assert_eq!(classify_error("server busy"), 6);
    assert_eq!(classify_error("503"), 6);
    assert_eq!(classify_error("rate limit"), 7);
    assert_eq!(classify_error("429"), 7);
    assert_eq!(classify_error("one or more checks failed"), 1);
    assert_eq!(classify_error(""), 1);
    assert_eq!(classify_error("protocol configuration"), 2);
}

#[test]
fn enrollment_tokens_are_read_from_input() {
    assert_eq!(read_secret(" aingle_enroll_x\n").unwrap(), "aingle_enroll_x");
    assert_eq!(read_secret("aingle_ops_x").unwrap_err(), "invalid enrollment token on stdin");
}

#[test]
fn initialisation_goes_step_by_step() {
    assert_eq!(init_start(true, true), InitStep::ReportLocal);
    assert_eq!(init_start(false, true), InitStep::Enroll);
    assert_eq!(init_start(false, false), InitStep::Authenticate);
    assert_eq!(init_authenticated(true), InitStep::ReportActive);
    assert_eq!(init_authenticated(false), InitStep::Claim);
}

#[test]
fn what_is_pending_is_kept() {
    assert_eq!(claim_poll("pending", true), Poll::Wait);
    assert_eq!(claim_poll("pending", false), Poll::Report(false));
    for settled in ["approved", "denied", "expired"] {
        assert_eq!(claim_poll(settled, true), Poll::Report(true));
    }
    assert_eq!(claim_poll("odd", true), Poll::Report(false));
    assert_eq!(login_poll("approved", false), Poll::Accept);
    assert_eq!(login_poll("pending", true), Poll::Wait);
    assert_eq!(login_poll("pending", false), Poll::Report(false));
    assert_eq!(login_poll("denied", true), Poll::Report(true));
    assert_eq!(login_poll("expired", true), Poll::Report(true));
}

#[test]
fn conversations_have_urls() {
    let id = Uuid::from_bytes([0x11; 16]);
    assert_eq!(
        conversation_url("https://a.net", &id).unwrap(),
        "https://a.net/v1/conversations/11111111-1111-1111-1111-111111111111"
    );
    assert_eq!(
        report_url("https://a.net/x", &id).unwrap(),
        "https://a.net/v1/conversations/11111111-1111-1111-1111-111111111111/report"
    );
    assert_eq!(health_url("https://a.net").unwrap(), "https://a.net/health");
    assert_eq!(health_url("no url").unwrap_err(), "relative URL without a base");
}

#[test]
fn lines_become_commands() {
    assert!(matches!(command_of(Input::Find), Command::Find));
    assert!(matches!(
        command_of(Input::Message { content: "\u{e9}".into() }),
        Command::Message(bytes) if bytes == vec![0xc3, 0xa9]
    ));
    assert!(matches!(command_of(Input::Leave), Command::Leave));
    assert!(matches!(command_of(Input::Next), Command::Next));
    assert!(matches!(command_of(Input::Cancel), Command::Cancel));
    assert!(matches!(command_of(Input::Close), Command::Close));
}

fn listening() -> ConnectState {
    let mut state = ConnectState::new();
    assert!(matches!(
        connect_step(&mut state, ConnectInput::Loaded(Ok(()))),
        ConnectAction::Connect
    ));
    assert!(matches!(
        connect_step(&mut state, ConnectInput::Connected(true)),
        ConnectAction::Listen
    ));
    state
}

#[test]
fn a_busy_server_is_asked_again_after_a_pause() {
    let mut state = listening();
    let busy = || ConnectInput::Event(Some(ChatEvent::ServerBusy { retry_after_ms: 40 }));
    assert!(matches!(connect_step(&mut state, busy()), ConnectAction::Show(_)));
    assert!(matches!(connect_step(&mut state, ConnectInput::Shown), ConnectAction::Listen));
    assert!(matches!(
        connect_step(&mut state, ConnectInput::Line(Some(Ok(Command::Find)))),
        ConnectAction::Send(Command::Find)
    ));
    connect_step(&mut state, ConnectInput::Sent(Ok(())));
    connect_step(&mut state, busy());
    assert!(matches!(connect_step(&mut state, ConnectInput::Shown), ConnectAction::Pause(40)));
    assert!(matches!(
        connect_step(&mut state, ConnectInput::Slept),
        ConnectAction::Send(Command::Find)
    ));
    assert!(matches!(
        connect_step(&mut state, ConnectInput::Sent(Ok(()))),
        ConnectAction::Listen
    ));
}

#[test]
fn a_lost_connection_is_made_again() {
    let mut state = listening();
    connect_step(&mut state, ConnectInput::Event(Some(ChatEvent::Searching)));
    connect_step(&mut state, ConnectInput::Shown);
    assert!(matches!(
        connect_step(&mut state, ConnectInput::Event(None)),
        ConnectAction::Rest(500)
    ));
    assert!(matches!(connect_step(&mut state, ConnectInput::Slept), ConnectAction::Load));
    connect_step(&mut state, ConnectInput::Loaded(Ok(())));
    assert!(matches!(
        connect_step(&mut state, ConnectInput::Connected(false)),
        ConnectAction::Rest(1000)
    ));
    connect_step(&mut state, ConnectInput::Slept);
    connect_step(&mut state, ConnectInput::Loaded(Ok(())));
    assert!(matches!(
        connect_step(&mut state, ConnectInput::Connected(true)),
        ConnectAction::Send(Command::Find)
    ));
    assert_eq!(state.backoff_ms, 500);
}

#[test]
fn input_and_failures_end_the_connection() {
    let mut state = listening();
    assert!(matches!(
        connect_step(&mut state, ConnectInput::Line(None)),
        ConnectAction::Send(Command::Close)
    ));
    assert!(matches!(
        connect_step(&mut state, ConnectInput::Sent(Err(ClientError::Closed))),
        ConnectAction::Stop
    ));
    assert_eq!(state.phase, ConnectPhase::Stopped);
    let mut state = listening();
    match connect_step(&mut state, ConnectInput::Line(Some(Err("bad".into())))) {
        ConnectAction::Fail(failure) => assert_eq!(failure.message(), "invalid JSONL input: bad"),
        other => panic!("unexpected {:?}", other),
    }
    let mut state = listening();
    connect_step(&mut state, ConnectInput::Line(Some(Ok(Command::Close))));
    match connect_step(&mut state, ConnectInput::Sent(Err(ClientError::Closed))) {
        ConnectAction::Fail(failure) => {
            assert_eq!(failure.message(), "client command queue is closed");
        }
        other => panic!("unexpected {:?}", other),
    }
    let mut state = ConnectState::new();
    assert!(matches!(
        connect_step(&mut state, ConnectInput::Loaded(Err(ClientError::Config("x".into())))),
        ConnectAction::Fail(_)
    ));
}

fn server(auth: Option<AuthFacts>) -> ServerFacts {
    ServerFacts {
        api_url: "https://a.net/".into(),
        dns: Ok(Some("1.2.3.4:443".into())),
        http: Ok((true, "200 OK".into())),
        latency_ms: 12,
        history_dir: Some("/h".into()),
        history_ok: true,
        auth,
    }
}

#[test]
fn a_healthy_client_passes_every_check() {
    let auth = AuthFacts::Active {
        agent_id: "agent_x".into(),
        protocol_ok: true,
        protocol: "protocol v1 ready (attempt 1)".into(),
    };
    let facts = DoctorFacts { identity: Ok("agent_x".into()), config: Ok(server(Some(auth))) };
    let checks = doctor(&facts);
    let names: Vec<&str> = checks.iter().map(|check| check.name).collect();
    assert_eq!(
        names,
        vec![
            "identity",
            "config",
            "dns",
            "tls_http",
            "history_path",
            "auth",
            "operator_binding",
            "websocket_protocol"
        ]
    );
    assert!(all_ok(&checks));
    assert_eq!(checks[3].latency_ms, Some(12));
    assert_eq!(checks[6].detail.as_deref(), Some("active"));
    assert_eq!(check_line(&checks[0], "\"agent_x\""), "ok identity: \"agent_x\"");
}

#[test]
fn an_ailing_client_is_told_what_fails() {
    let refused = AuthFacts::Refused { error: "401".into(), binding: None };
    let mut facts = server(Some(refused));
    facts.dns = Err("no name".into());
    facts.http = Ok((false, "500".into()));
    facts.history_dir = None;
    let checks = doctor(&DoctorFacts { identity: Ok("a".into()), config: Ok(facts) });
    assert!(!all_ok(&checks));
    let oks: Vec<bool> = checks.iter().map(|check| check.ok).collect();
    assert_eq!(oks, vec![true, true, false, false, false, false, false]);
    assert_eq!(
        checks[6].detail.as_deref(),
        Some("operator approval required; run `aingle init`")
    );
    assert!(checks[4].detail.is_none());
    assert_eq!(check_line(&checks[4], "null"), "fail history_path: null");
    let bare =
        doctor(&DoctorFacts { identity: Err("missing".into()), config: Err("broken".into()) });
    assert_eq!(bare.len(), 2);
    assert_eq!(bare[1].detail.as_deref(), Some("broken"));
    let mut facts = server(None);
    facts.dns = Ok(None);
    let anonymous = doctor(&DoctorFacts { identity: Err("missing".into()), config: Ok(facts) });
    assert_eq!(anonymous.len(), 5);
    assert_eq!(anonymous[2].detail.as_deref(), Some("no address"));
}

#[test]
fn the_protocol_is_tried_twice() {
    assert!(matches!(
        probe_step(1, ProbeOutcome::Ready),
        ProbeStep::Done(true, text) if text == "protocol v1 ready (attempt 1)"
    ));
    assert!(matches!(probe_step(1, ProbeOutcome::TimedOut), ProbeStep::Retry));
    assert!(matches!(
        probe_step(2, ProbeOutcome::TimedOut),
        ProbeStep::Done(false, text) if text == "connection timed out (attempt 2)"
    ));
    assert!(matches!(
        probe_step(2, ProbeOutcome::NotReady),
        ProbeStep::Done(false, text) if text == "READY not received (attempt 2)"
    ));
    assert!(matches!(
        probe_step(2, ProbeOutcome::Failed("network error: x".into())),
        ProbeStep::Done(false, text) if text == "network error: x (attempt 2)"
    ));
}

#[test]
fn texts_are_trimmed_and_split() {
    assert_eq!(trim("\u{2003}\t a b \r\n"), "a b");
    assert_eq!(split_words(" a\u{a0}b\tc "), vec!["a", "b", "c"]);
    assert_eq!(split_filled_lines("a\r\n \n\nb\n c\r"), vec!["a", "b", " c\r"]);
}

#[test]
fn the_server_is_looked_up_by_host_and_port() {
    assert_eq!(probe_address("https://api.aingl.net/v1"), ("api.aingl.net".to_string(), 443));
    assert_eq!(probe_address("http://localhost"), ("localhost".to_string(), 80));
    assert_eq!(probe_address("http://[::1]:8080/"), ("[::1]".to_string(), 8080));
    assert_eq!(probe_address("data:text/plain,x"), (String::new(), 443));
    assert_eq!(address_of(Some("h".into()), None), ("h".to_string(), 443));
    assert_eq!(address_of(None, Some(1)), (String::new(), 1));
}
