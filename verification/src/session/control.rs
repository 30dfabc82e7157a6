//! The control endpoint of a session worker, from both sides.

use serde_json::Value;
use vstd::prelude::*;
use vstd::string::*;
use vstd::utf8::encode_utf8;

use crate::outside::{
    json_is_record, json_members, json_set_flag, json_set_text, json_string, json_takes_members,
};
use crate::session::{SessionAction, SessionMetadata, SessionStatus};
use crate::text::{join, option_view, same_text};

verus! {

/// The longest control request, in bytes.
pub const MAX_CONTROL_LINE_BYTES: usize = 64 * 1024;

/// How long a worker has to answer, in seconds, besides the time that it is asked to wait.
pub const LOCAL_REQUEST_SECONDS: u64 = 3;

/// What a worker is asked.
#[derive(Debug)]
pub enum ControlOperation {
    Status,
    Events { after: u64, wait_ms: Option<u64> },
    Action { action: SessionAction },
}

/// A question to a worker, with the token that allows it.
#[derive(Debug)]
pub struct ControlRequest {
    pub token: String,
    pub operation: ControlOperation,
}

/// The answer of a worker.
#[derive(Debug)]
pub struct ControlResponse<T> {
    pub ok: bool,
    pub data: Option<T>,
    pub error: Option<String>,
}

/// The answer that carries data.
pub fn response_ok<T>(data: T) -> (response: ControlResponse<T>)
    ensures
        response == (ControlResponse { ok: true, data: Some(data), error: None }),
{
    ControlResponse { ok: true, data: Some(data), error: None }
}

/// Whether an answer is the refusal with the given cause.
pub open spec fn is_refusal<T>(response: ControlResponse<T>, cause: Seq<char>) -> bool {
    !response.ok && response.data is None && option_view(response.error) == Some(cause)
}

/// The answer that refuses.
pub fn response_error<T>(error: &str) -> (response: ControlResponse<T>)
    ensures
        is_refusal(response, error@),
        !response.ok && response.data is None,
        response.error matches Some(text) && text@ == error@,
{
    ControlResponse { ok: false, data: None, error: Some(error.to_owned()) }
}

/// What is wrong with a line that was read from a client, before its contents are looked at.
/// `read` is the number of bytes that came, or why none could be read.
pub open spec fn line_fault(read: Result<usize, String>, line: Seq<char>) -> Option<Seq<char>> {
    match read {
        Err(cause) => Some("read control request: "@ + cause@),
        Ok(count) => if count == 0 {
            Some("empty control request"@)
        } else if encode_utf8(line).len() > MAX_CONTROL_LINE_BYTES {
            Some("control request too large"@)
        } else {
            None
        },
    }
}

/// What is wrong with a line that was read from a client.
pub fn control_line_fault(read: Result<usize, String>, line: &str) -> (fault: Option<String>)
    ensures
        option_view(fault) == line_fault(read, line@),
        match read {
            Err(cause) => fault matches Some(text) && text@ == "read control request: "@ + cause@,
            Ok(count) => if count == 0 {
                fault matches Some(text) && text@ == "empty control request"@
            } else if encode_utf8(line@).len() > 65536 {
                fault matches Some(text) && text@ == "control request too large"@
            } else {
                fault is None
            },
        },
{
    match read {
        Err(cause) => Some(join("read control request: ", cause.as_str())),
        Ok(count) => if count == 0 {
            Some("empty control request".to_owned())
        } else if line.as_bytes().len() > MAX_CONTROL_LINE_BYTES {
            Some("control request too large".to_owned())
        } else {
            None
        },
    }
}

/// What a request comes to for a worker with the given token: only who knows the token is heard.
pub fn admit_request(request: Result<ControlRequest, String>, token: &str) -> (operation: Result<
    ControlOperation,
    String,
>)
    ensures
        match request {
            Ok(asked) => if asked.token@ == token@ {
                operation == Ok::<_, String>(asked.operation)
            } else {
                operation is Err && operation->Err_0@ == "invalid session token"@
            },
            Err(cause) => operation is Err && operation->Err_0@ == "invalid control request: "@
                + cause@,
        },
{
    match request {
        Ok(asked) => if same_text(asked.token.as_str(), token) {
            Ok(asked.operation)
        } else {
            Err("invalid session token".to_owned())
        },
        Err(cause) => Err(join("invalid control request: ", cause.as_str())),
    }
}

/// What became of a command that was handed to the network loop.
#[derive(Debug)]
pub enum Acknowledgement {
    /// The loop takes no more commands.
    NotTaken,
    /// The loop ended before it answered.
    NotAnswered,
    /// The loop answered.
    Answered(Result<SessionStatus, String>),
}

/// The answer of a worker to an action.
pub fn action_response(acknowledgement: Acknowledgement) -> (response: ControlResponse<
    SessionStatus,
>)
    ensures
        match acknowledgement {
            Acknowledgement::NotTaken => is_refusal(response, "session worker is stopping"@),
            Acknowledgement::NotAnswered => is_refusal(
                response,
                "session worker stopped before acknowledging the command"@,
            ),
            Acknowledgement::Answered(Err(cause)) => is_refusal(response, cause@),
            Acknowledgement::Answered(Ok(status)) => response == (ControlResponse {
                ok: true,
                data: Some(status),
                error: None,
            }),
        },
        response.ok <==> acknowledgement matches Acknowledgement::Answered(Ok(_)),
        acknowledgement is NotTaken ==> (response.error matches Some(text) && text@
            == "session worker is stopping"@),
        acknowledgement is NotAnswered ==> (response.error matches Some(text) && text@
            == "session worker stopped before acknowledging the command"@),
        acknowledgement matches Acknowledgement::Answered(Err(cause)) ==> (
        response.error matches Some(text) && text@ == cause@),
{
    match acknowledgement {
        Acknowledgement::NotTaken => response_error("session worker is stopping"),
        Acknowledgement::NotAnswered => response_error(
            "session worker stopped before acknowledging the command",
        ),
        Acknowledgement::Answered(Err(cause)) => response_error(cause.as_str()),
        Acknowledgement::Answered(Ok(status)) => response_ok(status),
    }
}

/// The port to ask and the request to send there; refused while the worker has no port yet.
pub fn control_request(metadata: &SessionMetadata, operation: ControlOperation) -> (request: Result<
    (u16, ControlRequest),
    String,
>)
    ensures
        metadata.port == 0 ==> request is Err && request->Err_0@
            == "session worker has not opened its control endpoint"@,
        metadata.port != 0 ==> (request matches Ok((port, asked)) && port == metadata.port
            && asked.token@ == metadata.token@ && asked.operation == operation),
{
    if metadata.port == 0 {
        return Err("session worker has not opened its control endpoint".to_owned());
    }
    Ok((metadata.port, ControlRequest { token: metadata.token.clone(), operation }))
}

/// How long a worker is to wait before it answers, in milliseconds.
pub open spec fn asked_wait(operation: ControlOperation) -> nat {
    match operation {
        ControlOperation::Events { wait_ms: Some(wait_ms), .. } => wait_ms as nat,
        _ => 0,
    }
}

/// How long to wait for an answer: seconds, and milliseconds beyond them.
pub fn control_deadline(operation: &ControlOperation) -> (deadline: (u64, u32))
    ensures
        deadline.1 < 1000,
        deadline.0 * 1000 + deadline.1 == asked_wait(*operation) + LOCAL_REQUEST_SECONDS * 1000,
        deadline.0 * 1000 + deadline.1 == 3000 + match *operation {
            ControlOperation::Events { wait_ms: Some(wait_ms), .. } => wait_ms as int,
            _ => 0,
        },
{
    let wait: u64 = match operation {
        ControlOperation::Events { wait_ms: Some(wait_ms), .. } => *wait_ms,
        _ => 0,
    };
    (wait / 1000 + LOCAL_REQUEST_SECONDS, (wait % 1000) as u32)
}

/// What is reported if no answer came in time.
pub fn control_timeout(operation: &ControlOperation) -> (cause: &'static str)
    ensures
        cause@ == if operation matches ControlOperation::Events { wait_ms: Some(_), .. } {
            "session event wait exceeded its local response deadline"@
        } else {
            "session worker did not respond"@
        },
{
    match operation {
        ControlOperation::Events { wait_ms: Some(_), .. } =>
            "session event wait exceeded its local response deadline",
        _ => "session worker did not respond",
    }
}

/// What an answer gives its reader: the data, or why there are none.
pub fn control_outcome<T>(response: ControlResponse<T>) -> (outcome: Result<Option<T>, String>)
    ensures
        response.ok ==> outcome == Ok::<_, String>(response.data),
        !response.ok ==> outcome is Err && outcome->Err_0@ == (match response.error {
            Some(cause) => cause@,
            None => "session command failed"@,
        }),
{
    if response.ok {
        Ok(response.data)
    } else {
        match response.error {
            Some(cause) => Err(cause),
            None => Err("session command failed".to_owned()),
        }
    }
}

/// Whether an action that could not be delivered has its effect all the same: the command to close
/// a session that is closed already.
pub fn is_settled(closes: bool, stored: &SessionStatus) -> (settled: bool)
    ensures
        settled == (closes && stored.state@ == "closed"@),
{
    closes && same_text(stored.state.as_str(), "closed")
}

/// The members of a status that also says whether its worker was reached, and why not.
pub open spec fn marked(
    members: Map<Seq<char>, Seq<char>>,
    reachable: bool,
    error: Option<Seq<char>>,
) -> Map<Seq<char>, Seq<char>> {
    let told = members.insert(
        "worker_reachable"@,
        if reachable {
            "true"@
        } else {
            "false"@
        },
    );
    match error {
        Some(cause) => told.insert("worker_error"@, json_string(cause)),
        None => told,
    }
}

/// Adds to a status whether its worker was reached, and why not.
pub fn with_worker_reachability(value: Value, reachable: bool, error: Option<String>) -> (status:
    Value)
    requires
        json_takes_members(value),
    ensures
        json_members(status) == marked(json_members(value), reachable, option_view(error)),
{
    let mut status = value;
    json_set_flag(&mut status, "worker_reachable", reachable);
    if let Some(cause) = error {
        json_set_text(&mut status, "worker_error", cause);
    }
    status
}

/// Adds to a status whether its worker was reached, and why not; `None` where the value is neither
/// an object nor null, so that nothing can be added.
pub fn mark_reachability(value: Value, reachable: bool, error: Option<String>) -> (status: Option<
    Value,
>)
    ensures
        status is Some <==> json_takes_members(value),
        status matches Some(told) ==> json_members(told) == marked(
            json_members(value),
            reachable,
            option_view(error),
        ),
{
    if json_is_record(&value) {
        Some(with_worker_reachability(value, reachable, error))
    } else {
        None
    }
}

/// What can be told of a session.
pub enum StatusReport {
    /// Its status, with whether its worker was reached, and why not.
    Marked(Value),
    /// What the worker answered is no status.
    NotAStatus,
    /// Nothing but why its worker was not reached.
    Unknown(String),
}

/// Whether a report tells of a status what it should.
pub open spec fn is_report(
    report: StatusReport,
    status: Value,
    reachable: bool,
    error: Option<Seq<char>>,
) -> bool {
    if json_takes_members(status) {
        report matches StatusReport::Marked(told) && json_members(told) == marked(
            json_members(status),
            reachable,
            error,
        )
    } else {
        report is NotAStatus
    }
}

/// What can be told of a session: what its worker answered, or else what is stored of it.
pub fn report_status(reply: Result<Value, String>, stored: Option<Value>) -> (report: StatusReport)
    ensures
        match (reply, stored) {
            (Ok(status), _) => is_report(report, status, true, None),
            (Err(cause), Some(status)) => is_report(report, status, false, Some(cause@)),
            (Err(cause), None) => report == StatusReport::Unknown(cause),
        },
{
    let marked_status = match reply {
        Ok(status) => mark_reachability(status, true, None),
        Err(cause) => match stored {
            Some(status) => mark_reachability(status, false, Some(cause)),
            None => return StatusReport::Unknown(cause),
        },
    };
    match marked_status {
        Some(status) => StatusReport::Marked(status),
        None => StatusReport::NotAStatus,
    }
}

/// Law: a status that was marked as stored cannot look live. It says that its worker was not
/// reached and why, whatever it said before, and keeps every other member.
pub proof fn law_stored_status_cannot_look_live(members: Map<Seq<char>, Seq<char>>, cause: Seq<char>)
    ensures
        ({
            let told = marked(members, false, Some(cause));
            &&& told["worker_reachable"@] == "false"@
            &&& told["worker_reachable"@] != "true"@
            &&& told["worker_error"@] == json_string(cause)
            &&& forall|name: Seq<char>|
                name != "worker_reachable"@ && name != "worker_error"@ && #[trigger] members.dom().contains(
                    name,
                ) ==> told.dom().contains(name) && told[name] == members[name]
        }),
{
    reveal_strlit("worker_reachable");
    reveal_strlit("worker_error");
    reveal_strlit("true");
    reveal_strlit("false");
    assert("worker_reachable"@.len() == 16 && "worker_error"@.len() == 12);
    assert("true"@.len() == 4 && "false"@.len() == 5);
}

/// What is seen of a worker that is starting.
#[derive(Debug)]
pub struct StartupView {
    /// How the worker ended, if it did.
    pub exit: Option<String>,
    /// The port that its metadata name, if they can be read.
    pub port: Option<u16>,
    /// Whether the time for the start is over.
    pub overdue: bool,
}

/// What to do about a worker that is starting.
#[derive(Debug)]
pub enum StartupStep {
    /// It ended: report it.
    Exited(String),
    /// It can be asked for its status.
    Ready,
    /// It takes too long: end it and report it.
    Overdue(String),
    /// Look again in a moment.
    Wait,
}

/// What to do about a worker that is starting.
pub fn startup_step(seen: StartupView) -> (step: StartupStep)
    ensures
        match seen.exit {
            Some(exit) => step matches StartupStep::Exited(cause) && cause@
                == "session worker exited during startup with "@ + exit@,
            None => if seen.port is Some && seen.port != Some(0u16) {
                step is Ready
            } else if seen.overdue {
                step matches StartupStep::Overdue(cause) && cause@
                    == "session worker did not start within the local startup deadline"@
            } else {
                step is Wait
            },
        },
{
    match seen.exit {
        Some(exit) => StartupStep::Exited(
            join("session worker exited during startup with ", exit.as_str()),
        ),
        None => {
            if let Some(port) = seen.port {
                if port != 0 {
                    return StartupStep::Ready;
                }
            }
            if seen.overdue {
                StartupStep::Overdue(
                    "session worker did not start within the local startup deadline".to_owned(),
                )
            } else {
                StartupStep::Wait
            }
        },
    }
}

/// A duration of so many milliseconds as a control request holds it: cut off at the largest number.
pub fn duration_millis(millis: u128) -> (wait_ms: u64)
    ensures
        millis <= u64::MAX ==> wait_ms == millis,
        millis > u64::MAX ==> wait_ms == u64::MAX,
{
    if millis <= u64::MAX as u128 {
        millis as u64
    } else {
        u64::MAX
    }
}

/// What a client that is attached to a session is doing.
#[derive(Debug, Clone, Copy, PartialEq, Eq, Structural)]
pub enum AttachPhase {
    /// Waits for input, for events and for an interruption.
    Listening,
    /// Has asked for an action; whether it was to close.
    Acting(bool),
    /// Done.
    Stopped,
}

/// The state of a client that is attached to a session.
#[derive(Debug, Clone, Copy)]
pub struct Attachment {
    pub phase: AttachPhase,
    pub cursor: u64,
}

/// What happened.
#[derive(Debug)]
pub enum AttachInput {
    /// The user interrupted.
    Interrupted,
    /// A line of input, or its end, or why it cannot be read.
    Line(Option<Result<SessionAction, String>>),
    /// The worker answered the action, or why it did not.
    Replied(Result<(), String>),
    /// Events came and were shown; where the next ones begin, if the worker said so.
    Events(Result<Option<u64>, String>),
}

/// What is to be done.
#[derive(Debug)]
pub enum AttachAction {
    /// Wait for input, for an interruption, and for the events after a place.
    Listen(u64),
    /// Ask the worker for an action.
    Request(SessionAction),
    /// Show the worker's answer and end.
    ShowAndStop,
    /// End.
    Stop,
    /// End with an error.
    Fail(String),
}

impl Attachment {
    /// A client that has seen the events up to a place.
    pub fn new(cursor: u64) -> (attachment: Attachment)
        ensures
            attachment == (Attachment { phase: AttachPhase::Listening, cursor }),
    {
        Attachment { phase: AttachPhase::Listening, cursor }
    }

    /// Whether an input answers what the client is doing.
    pub open spec fn expects(self, input: AttachInput) -> bool {
        match self.phase {
            AttachPhase::Listening => !(input is Replied),
            AttachPhase::Acting(_) => input is Replied,
            AttachPhase::Stopped => false,
        }
    }
}

/// Whether a step of an attached client is right.
pub open spec fn is_attach_step(
    before: Attachment,
    input: AttachInput,
    after: Attachment,
    action: AttachAction,
) -> bool {
    let stopped = after == (Attachment { phase: AttachPhase::Stopped, ..before });
    let listening = after.phase == AttachPhase::Listening && action == AttachAction::Listen(
        after.cursor,
    );
    match input {
        AttachInput::Interrupted | AttachInput::Line(None) => stopped && action is Stop,
        AttachInput::Line(Some(Err(cause))) => stopped && (action matches AttachAction::Fail(text)
            && text@ == "invalid JSONL input: "@ + cause@),
        AttachInput::Line(Some(Ok(asked))) => after == (Attachment {
            phase: AttachPhase::Acting(asked is Close),
            ..before
        }) && action == AttachAction::Request(asked),
        AttachInput::Replied(Err(cause)) | AttachInput::Events(Err(cause)) => stopped && action
            == AttachAction::Fail(cause),
        AttachInput::Replied(Ok(_)) => if before.phase == AttachPhase::Acting(true) {
            stopped && action is ShowAndStop
        } else {
            listening && after.cursor == before.cursor
        },
        AttachInput::Events(Ok(next)) => listening && after.cursor == (match next {
            Some(cursor) => cursor,
            None => before.cursor,
        }),
    }
}

/// Takes an input and says what an attached client does next.
pub fn attach_step(attachment: &mut Attachment, input: AttachInput) -> (action: AttachAction)
    requires
        old(attachment).expects(input),
    ensures
        is_attach_step(*old(attachment), input, *final(attachment), action),
        input matches AttachInput::Line(Some(Ok(asked))) ==> action == AttachAction::Request(asked),
        input matches AttachInput::Events(Ok(Some(cursor))) ==> action == AttachAction::Listen(
            cursor,
        ),
        input matches AttachInput::Events(Ok(None)) ==> action == AttachAction::Listen(
            old(attachment).cursor,
        ),
        input is Interrupted ==> action is Stop,
{
    match input {
        AttachInput::Interrupted | AttachInput::Line(None) => {
            attachment.phase = AttachPhase::Stopped;
            AttachAction::Stop
        },
        AttachInput::Line(Some(Err(cause))) => {
            attachment.phase = AttachPhase::Stopped;
            AttachAction::Fail(join("invalid JSONL input: ", cause.as_str()))
        },
        AttachInput::Line(Some(Ok(asked))) => {
            let closes = match &asked {
                SessionAction::Close => true,
                _ => false,
            };
            attachment.phase = AttachPhase::Acting(closes);
            AttachAction::Request(asked)
        },
        AttachInput::Replied(Err(cause)) | AttachInput::Events(Err(cause)) => {
            attachment.phase = AttachPhase::Stopped;
            AttachAction::Fail(cause)
        },
        AttachInput::Replied(Ok(_)) => match attachment.phase {
            AttachPhase::Acting(true) => {
                attachment.phase = AttachPhase::Stopped;
                AttachAction::ShowAndStop
            },
            _ => {
                attachment.phase = AttachPhase::Listening;
                AttachAction::Listen(attachment.cursor)
            },
        },
        AttachInput::Events(Ok(next)) => {
            if let Some(cursor) = next {
                attachment.cursor = cursor;
            }
            AttachAction::Listen(attachment.cursor)
        },
    }
}

/// Whether an input tells how an action went.
pub open spec fn attach_answers(action: AttachAction, input: AttachInput) -> bool {
    match action {
        AttachAction::Listen(_) => !(input is Replied),
        AttachAction::Request(_) => input is Replied,
        AttachAction::ShowAndStop | AttachAction::Stop | AttachAction::Fail(_) => false,
    }
}

/// Law: whoever does what an attached client says, and tells it how it went, tells it something
/// that it expects.
pub proof fn law_attachment_is_never_at_a_loss(
    before: Attachment,
    input: AttachInput,
    after: Attachment,
    action: AttachAction,
    reply: AttachInput,
)
    requires
        before.expects(input),
        is_attach_step(before, input, after, action),
        attach_answers(action, reply),
    ensures
        after.expects(reply),
{
}

/// Law: a refusal says that it is one and why, and carries no data.
pub proof fn law_refusals_say_why(response: ControlResponse<SessionStatus>, cause: Seq<char>)
    ensures
        is_refusal(response, cause) <==> !response.ok && response.data is None && (
        response.error matches Some(text) && text@ == cause),
{
}

/// Law: a request is refused before it is looked at exactly where it could not be read, where there
/// is none, or where it has more than 65536 bytes.
pub proof fn law_requests_that_are_refused_unread(read: Result<usize, String>, line: Seq<char>)
    ensures
        line_fault(read, line) == match read {
            Err(cause) => Some("read control request: "@ + cause@),
            Ok(count) => if count == 0 {
                Some("empty control request"@)
            } else if encode_utf8(line).len() > 65536 {
                Some("control request too large"@)
            } else {
                None
            },
        },
{
}

/// Law: only a question for events asks the worker to wait, for the time that it names.
pub proof fn law_only_events_are_waited_for(operation: ControlOperation)
    ensures
        match operation {
            ControlOperation::Status => asked_wait(operation) == 0,
            ControlOperation::Action { .. } => asked_wait(operation) == 0,
            ControlOperation::Events { wait_ms, .. } => asked_wait(operation) == match wait_ms {
                Some(wait_ms) => wait_ms as nat,
                None => 0,
            },
        },
{
}

/// Law: a marked status says whether its worker was reached, and why not where that is known, and
/// keeps every other member and no more.
pub proof fn law_marks_change_nothing_else(
    members: Map<Seq<char>, Seq<char>>,
    reachable: bool,
    error: Option<Seq<char>>,
    name: Seq<char>,
)
    ensures
        ({
            let told = marked(members, reachable, error);
            &&& told.dom().contains("worker_reachable"@)
            &&& told["worker_reachable"@] == if reachable {
                "true"@
            } else {
                "false"@
            }
            &&& error matches Some(cause) ==> told.dom().contains("worker_error"@)
                && told["worker_error"@] == json_string(cause)
            &&& name != "worker_reachable"@ && (name != "worker_error"@ || error is None) ==> (
            told.dom().contains(name) <==> members.dom().contains(name)) && (members.dom().contains(
                name,
            ) ==> told[name] == members[name])
        }),
{
    reveal_strlit("worker_reachable");
    reveal_strlit("worker_error");
    assert("worker_reachable"@.len() == 16 && "worker_error"@.len() == 12);
}

/// Law: a report marks a status that can be marked, as reached or not, and says of any other value
/// that it is no status.
pub proof fn law_reports_mark_the_status(
    report: StatusReport,
    status: Value,
    reachable: bool,
    error: Option<Seq<char>>,
)
    requires
        is_report(report, status, reachable, error),
    ensures
        report is Marked <==> json_takes_members(status),
        report is NotAStatus <==> !json_takes_members(status),
        report matches StatusReport::Marked(told) ==> json_members(told) == marked(
            json_members(status),
            reachable,
            error,
        ),
{
}

/// Law: an attached client asks for what a line says and goes on listening once that was answered,
/// but ends after the command to close, at the end of input and when it is interrupted; it ends with
/// an error where a line cannot be read or the worker does not answer. It goes on from the place that
/// the last events named.
pub proof fn law_attached_clients_do_as_they_are_told(
    before: Attachment,
    input: AttachInput,
    after: Attachment,
    action: AttachAction,
)
    requires
        is_attach_step(before, input, after, action),
    ensures
        match input {
            AttachInput::Interrupted => action is Stop && after.phase == AttachPhase::Stopped,
            AttachInput::Line(None) => action is Stop && after.phase == AttachPhase::Stopped,
            AttachInput::Line(Some(Err(cause))) => after.phase == AttachPhase::Stopped && (
            action matches AttachAction::Fail(text) && text@ == "invalid JSONL input: "@ + cause@),
            AttachInput::Line(Some(Ok(asked))) => action == AttachAction::Request(asked)
                && after.phase == AttachPhase::Acting(asked is Close) && after.cursor
                == before.cursor,
            AttachInput::Replied(Err(cause)) => action == AttachAction::Fail(cause) && after.phase
                == AttachPhase::Stopped,
            AttachInput::Replied(Ok(_)) => if before.phase == AttachPhase::Acting(true) {
                action is ShowAndStop && after.phase == AttachPhase::Stopped
            } else {
                action == AttachAction::Listen(before.cursor) && after == (Attachment {
                    phase: AttachPhase::Listening,
                    cursor: before.cursor,
                })
            },
            AttachInput::Events(Err(cause)) => action == AttachAction::Fail(cause) && after.phase
                == AttachPhase::Stopped,
            AttachInput::Events(Ok(Some(cursor))) => action == AttachAction::Listen(cursor)
                && after == (Attachment { phase: AttachPhase::Listening, cursor }),
            AttachInput::Events(Ok(None)) => action == AttachAction::Listen(before.cursor) && after
                == (Attachment { phase: AttachPhase::Listening, cursor: before.cursor }),
        },
{
}

} // verus!
