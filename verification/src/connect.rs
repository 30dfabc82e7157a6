//! The interactive connection: lines of input become commands, events are shown, and a lost
//! connection is made again.

use vstd::prelude::*;
use vstd::string::*;
use vstd::utf8::encode_utf8;

use crate::backoff::{doubled, is_backoff, next_backoff, FIRST_BACKOFF_MS};
use crate::bytes::put_bytes;
use crate::client::{client_error_text, ChatEvent, ClientError, Command, CommandView};
use crate::resilient::{
    want_after_command, want_after_event, wanted_after_command, wanted_after_event,
};
use crate::text::join;

verus! {

/// A line of input.
#[derive(Debug)]
pub enum Input {
    Find,
    Message { content: String },
    Leave,
    Next,
    Cancel,
    Close,
}

/// The command that a line of input stands for.
pub open spec fn input_command(input: Input) -> CommandView {
    match input {
        Input::Find => CommandView::Find,
        Input::Message { content } => CommandView::Message(encode_utf8(content@)),
        Input::Leave => CommandView::Leave,
        Input::Next => CommandView::Next,
        Input::Cancel => CommandView::Cancel,
        Input::Close => CommandView::Close,
    }
}

/// The command that a line of input stands for.
pub fn command_of(input: Input) -> (command: Command)
    ensures
        command@ == input_command(input),
        match input {
            Input::Find => command is Find,
            Input::Message { content } => command matches Command::Message(text) && text@
                == encode_utf8(content@),
            Input::Leave => command is Leave,
            Input::Next => command is Next,
            Input::Cancel => command is Cancel,
            Input::Close => command is Close,
        },
{
    match input {
        Input::Find => Command::Find,
        Input::Message { content } => {
            let mut bytes: Vec<u8> = Vec::new();
            put_bytes(&mut bytes, content.as_str().as_bytes());
            assert(bytes@ =~= encode_utf8(content@));
            Command::Message(bytes)
        },
        Input::Leave => Command::Leave,
        Input::Next => Command::Next,
        Input::Cancel => Command::Cancel,
        Input::Close => Command::Close,
    }
}

/// What the connection is doing.
#[derive(Debug, Clone, Copy, PartialEq, Eq, Structural)]
pub enum ConnectPhase {
    /// Loads the identity.
    Loading,
    /// Connects.
    Connecting,
    /// Asks for the peer that was wanted before the connection was lost.
    Resuming,
    /// Waits for input and events.
    Listening,
    /// Sends a command.
    Sending,
    /// Sends the command to close; whether the outcome is of account.
    Closing(bool),
    /// Shows an event; how long to pause after it before a peer is asked for again.
    Showing(Option<u32>),
    /// Pauses, as the server asked.
    Pausing,
    /// Waits before the next attempt.
    Resting,
    /// Done.
    Stopped,
}

/// The state of the connection.
#[derive(Debug)]
pub struct ConnectState {
    pub phase: ConnectPhase,
    pub should_find: bool,
    pub backoff_ms: u64,
}

/// What happened.
#[derive(Debug)]
pub enum ConnectInput {
    /// Whether the identity could be loaded.
    Loaded(Result<(), ClientError>),
    /// Whether a connection was made.
    Connected(bool),
    /// A command, or the end of input, or why a line cannot be read.
    Line(Option<Result<Command, String>>),
    /// An event; nothing if the connection was lost.
    Event(Option<ChatEvent>),
    /// Whether the connection took a command.
    Sent(Result<(), ClientError>),
    /// The event was shown.
    Shown,
    /// A wait is over.
    Slept,
}

/// Why the connection ends in an error.
#[derive(Debug)]
pub enum ConnectFailure {
    Client(ClientError),
    Line(String),
}

/// What is to be done.
#[derive(Debug)]
pub enum ConnectAction {
    /// Load the identity.
    Load,
    /// Connect.
    Connect,
    /// Wait for input or an event.
    Listen,
    /// Hand a command to the connection.
    Send(Command),
    /// Show an event.
    Show(ChatEvent),
    /// Wait for so many milliseconds.
    Pause(u32),
    /// Wait for so many milliseconds, spread by jitter.
    Rest(u64),
    /// End.
    Stop,
    /// End with an error.
    Fail(ConnectFailure),
}

/// An error in words.
pub open spec fn failure_text(failure: ConnectFailure) -> Seq<char> {
    match failure {
        ConnectFailure::Client(error) => client_error_text(error),
        ConnectFailure::Line(cause) => "invalid JSONL input: "@ + cause@,
    }
}

impl ConnectFailure {
    /// The error in words.
    pub fn message(&self) -> (text: String)
        ensures
            text@ == failure_text(*self),
    {
        match self {
            ConnectFailure::Client(error) => error.message(),
            ConnectFailure::Line(cause) => join("invalid JSONL input: ", cause.as_str()),
        }
    }
}

impl ConnectState {
    /// The wait is within its bounds.
    pub open spec fn wf(self) -> bool {
        is_backoff(self.backoff_ms)
    }

    /// Whether an input answers what the connection is doing.
    pub open spec fn expects(self, input: ConnectInput) -> bool {
        match self.phase {
            ConnectPhase::Loading => input is Loaded,
            ConnectPhase::Connecting => input is Connected,
            ConnectPhase::Resuming
            | ConnectPhase::Sending
            | ConnectPhase::Closing(_) => input is Sent,
            ConnectPhase::Listening => input is Line || input is Event,
            ConnectPhase::Showing(_) => input is Shown,
            ConnectPhase::Pausing | ConnectPhase::Resting => input is Slept,
            ConnectPhase::Stopped => false,
        }
    }

    /// The same intent and wait in another phase.
    pub open spec fn at(self, phase: ConnectPhase) -> ConnectState {
        ConnectState { phase, ..self }
    }

    /// The state before the first attempt.
    pub fn new() -> (state: ConnectState)
        ensures
            state.wf(),
            state == (ConnectState {
                phase: ConnectPhase::Loading,
                should_find: false,
                backoff_ms: FIRST_BACKOFF_MS,
            }),
    {
        ConnectState {
            phase: ConnectPhase::Loading,
            should_find: false,
            backoff_ms: FIRST_BACKOFF_MS,
        }
    }
}

/// How long to pause after an event before a peer is asked for again, if one is wanted.
pub open spec fn pause_after(wanted: bool, event: ChatEvent) -> Option<u32> {
    match event {
        ChatEvent::RateLimited { retry_after_ms } | ChatEvent::ServerBusy { retry_after_ms } =>
            if wanted {
                Some(retry_after_ms)
            } else {
                None
            },
        _ => None,
    }
}

/// What is done, and the state then, after an input that is expected.
pub open spec fn connect_next(state: ConnectState, input: ConnectInput) -> (
    ConnectState,
    ConnectAction,
) {
    let stopped = state.at(ConnectPhase::Stopped);
    let listening = (state.at(ConnectPhase::Listening), ConnectAction::Listen);
    match (state.phase, input) {
        (_, ConnectInput::Loaded(Ok(_))) => (
            state.at(ConnectPhase::Connecting),
            ConnectAction::Connect,
        ),
        (_, ConnectInput::Loaded(Err(error))) => (
            stopped,
            ConnectAction::Fail(ConnectFailure::Client(error)),
        ),
        (_, ConnectInput::Connected(true)) => {
            let fresh = ConnectState { backoff_ms: FIRST_BACKOFF_MS, ..state };
            if state.should_find {
                (fresh.at(ConnectPhase::Resuming), ConnectAction::Send(Command::Find))
            } else {
                (fresh.at(ConnectPhase::Listening), ConnectAction::Listen)
            }
        },
        (_, ConnectInput::Connected(false)) | (_, ConnectInput::Event(None)) => (
            state.at(ConnectPhase::Resting),
            ConnectAction::Rest(state.backoff_ms),
        ),
        (_, ConnectInput::Line(None)) => (
            state.at(ConnectPhase::Closing(false)),
            ConnectAction::Send(Command::Close),
        ),
        (_, ConnectInput::Line(Some(Err(cause)))) => (
            stopped,
            ConnectAction::Fail(ConnectFailure::Line(cause)),
        ),
        (_, ConnectInput::Line(Some(Ok(Command::Close)))) => (
            state.at(ConnectPhase::Closing(true)),
            ConnectAction::Send(Command::Close),
        ),
        (_, ConnectInput::Line(Some(Ok(command)))) => (
            ConnectState {
                phase: ConnectPhase::Sending,
                should_find: wanted_after_command(state.should_find, command),
                ..state
            },
            ConnectAction::Send(command),
        ),
        (_, ConnectInput::Event(Some(event))) => {
            let wanted = wanted_after_event(state.should_find, event);
            (
                ConnectState {
                    phase: ConnectPhase::Showing(pause_after(wanted, event)),
                    should_find: wanted,
                    ..state
                },
                ConnectAction::Show(event),
            )
        },
        (ConnectPhase::Closing(false), ConnectInput::Sent(_)) => (stopped, ConnectAction::Stop),
        (ConnectPhase::Closing(true), ConnectInput::Sent(Ok(_))) => (stopped, ConnectAction::Stop),
        (_, ConnectInput::Sent(Err(error))) => (
            stopped,
            ConnectAction::Fail(ConnectFailure::Client(error)),
        ),
        (_, ConnectInput::Sent(Ok(_))) => listening,
        (ConnectPhase::Showing(Some(pause_ms)), ConnectInput::Shown) => (
            state.at(ConnectPhase::Pausing),
            ConnectAction::Pause(pause_ms),
        ),
        (_, ConnectInput::Shown) => listening,
        (ConnectPhase::Pausing, ConnectInput::Slept) => (
            state.at(ConnectPhase::Sending),
            ConnectAction::Send(Command::Find),
        ),
        (_, ConnectInput::Slept) => (
            ConnectState {
                phase: ConnectPhase::Loading,
                backoff_ms: doubled(state.backoff_ms),
                ..state
            },
            ConnectAction::Load,
        ),
    }
}

fn pause_for(wanted: bool, event: &ChatEvent) -> (pause: Option<u32>)
    ensures
        pause == pause_after(wanted, *event),
{
    match event {
        ChatEvent::RateLimited { retry_after_ms } | ChatEvent::ServerBusy { retry_after_ms } => {
            if wanted {
                Some(*retry_after_ms)
            } else {
                None
            }
        },
        _ => None,
    }
}

/// Takes an input and says what to do next.
pub fn connect_step(state: &mut ConnectState, input: ConnectInput) -> (action: ConnectAction)
    requires
        old(state).wf(),
        old(state).expects(input),
    ensures
        final(state).wf(),
        (*final(state), action) == connect_next(*old(state), input),
{
    match input {
        ConnectInput::Loaded(Ok(_)) => {
            state.phase = ConnectPhase::Connecting;
            ConnectAction::Connect
        },
        ConnectInput::Loaded(Err(error)) => {
            state.phase = ConnectPhase::Stopped;
            ConnectAction::Fail(ConnectFailure::Client(error))
        },
        ConnectInput::Connected(true) => {
            state.backoff_ms = FIRST_BACKOFF_MS;
            if state.should_find {
                state.phase = ConnectPhase::Resuming;
                ConnectAction::Send(Command::Find)
            } else {
                state.phase = ConnectPhase::Listening;
                ConnectAction::Listen
            }
        },
        ConnectInput::Connected(false) | ConnectInput::Event(None) => {
            state.phase = ConnectPhase::Resting;
            ConnectAction::Rest(state.backoff_ms)
        },
        ConnectInput::Line(None) => {
            state.phase = ConnectPhase::Closing(false);
            ConnectAction::Send(Command::Close)
        },
        ConnectInput::Line(Some(Err(cause))) => {
            state.phase = ConnectPhase::Stopped;
            ConnectAction::Fail(ConnectFailure::Line(cause))
        },
        ConnectInput::Line(Some(Ok(Command::Close))) => {
            state.phase = ConnectPhase::Closing(true);
            ConnectAction::Send(Command::Close)
        },
        ConnectInput::Line(Some(Ok(command))) => {
            state.phase = ConnectPhase::Sending;
            state.should_find = want_after_command(state.should_find, &command);
            ConnectAction::Send(command)
        },
        ConnectInput::Event(Some(event)) => {
            state.should_find = want_after_event(state.should_find, &event);
            state.phase = ConnectPhase::Showing(pause_for(state.should_find, &event));
            ConnectAction::Show(event)
        },
        ConnectInput::Sent(sent) => match (state.phase, sent) {
            (ConnectPhase::Closing(false), _) | (ConnectPhase::Closing(true), Ok(_)) => {
                state.phase = ConnectPhase::Stopped;
                ConnectAction::Stop
            },
            (_, Ok(_)) => {
                state.phase = ConnectPhase::Listening;
                ConnectAction::Listen
            },
            (_, Err(error)) => {
                state.phase = ConnectPhase::Stopped;
                ConnectAction::Fail(ConnectFailure::Client(error))
            },
        },
        ConnectInput::Shown => match state.phase {
            ConnectPhase::Showing(Some(pause_ms)) => {
                state.phase = ConnectPhase::Pausing;
                ConnectAction::Pause(pause_ms)
            },
            _ => {
                state.phase = ConnectPhase::Listening;
                ConnectAction::Listen
            },
        },
        ConnectInput::Slept => match state.phase {
            ConnectPhase::Pausing => {
                state.phase = ConnectPhase::Sending;
                ConnectAction::Send(Command::Find)
            },
            _ => {
                state.phase = ConnectPhase::Loading;
                state.backoff_ms = next_backoff(state.backoff_ms);
                ConnectAction::Load
            },
        },
    }
}

/// Law: every event is shown, and nothing else follows it before it was shown; a peer is asked for
/// again after a pause exactly where the server asked for the pause and a peer is wanted.
pub proof fn law_events_are_shown(state: ConnectState, event: ChatEvent)
    requires
        state.wf(),
        state.phase == ConnectPhase::Listening,
    ensures
        ({
            let (showing, show) = connect_next(state, ConnectInput::Event(Some(event)));
            let (after, next) = connect_next(showing, ConnectInput::Shown);
            let wanted = wanted_after_event(state.should_find, event);
            &&& show == ConnectAction::Show(event)
            &&& match pause_after(wanted, event) {
                Some(pause_ms) => next == ConnectAction::Pause(pause_ms) && connect_next(
                    after,
                    ConnectInput::Slept,
                ).1 == ConnectAction::Send(Command::Find),
                None => next is Listen,
            }
        }),
{
}

/// Law: the end of input ends the connection without an error, whether or not the server still
/// hears of it.
pub proof fn law_end_of_input_stops(state: ConnectState, sent: Result<(), ClientError>)
    requires
        state.wf(),
        state.phase == ConnectPhase::Listening,
    ensures
        ({
            let (closing, close) = connect_next(state, ConnectInput::Line(None));
            &&& close == ConnectAction::Send(Command::Close)
            &&& connect_next(closing, ConnectInput::Sent(sent)).1 is Stop
        }),
{
}

/// Law: a lost connection is made again, and a peer that was wanted is asked for on the new one.
pub proof fn law_connection_is_made_again(state: ConnectState)
    requires
        state.wf(),
        state.phase == ConnectPhase::Listening,
    ensures
        ({
            let (resting, rest) = connect_next(state, ConnectInput::Event(None));
            let (loading, load) = connect_next(resting, ConnectInput::Slept);
            let (connecting, connect) = connect_next(loading, ConnectInput::Loaded(Ok(())));
            let (fresh, first) = connect_next(connecting, ConnectInput::Connected(true));
            &&& rest == ConnectAction::Rest(state.backoff_ms)
            &&& load is Load
            &&& connect is Connect
            &&& fresh.should_find == state.should_find
            &&& fresh.backoff_ms == FIRST_BACKOFF_MS
            &&& state.should_find ==> first == ConnectAction::Send(Command::Find)
            &&& !state.should_find ==> first is Listen
        }),
{
}

/// Whether an input tells how an action went.
pub open spec fn connect_answers(action: ConnectAction, input: ConnectInput) -> bool {
    match action {
        ConnectAction::Load => input is Loaded,
        ConnectAction::Connect => input is Connected,
        ConnectAction::Listen => input is Line || input is Event,
        ConnectAction::Send(_) => input is Sent,
        ConnectAction::Show(_) => input is Shown,
        ConnectAction::Pause(_) | ConnectAction::Rest(_) => input is Slept,
        ConnectAction::Stop | ConnectAction::Fail(_) => false,
    }
}

/// Law: whoever does what the connection says, and tells it how it went, tells it something that
/// it expects.
pub proof fn law_connect_is_never_at_a_loss(
    state: ConnectState,
    input: ConnectInput,
    reply: ConnectInput,
)
    requires
        state.wf(),
        state.expects(input),
        connect_answers(connect_next(state, input).1, reply),
    ensures
        connect_next(state, input).0.expects(reply),
{
}

/// Law: a line of input is sent as the command that it stands for. Finding a peer and going on to
/// the next one have a peer wanted, leaving has none wanted. Once the command was sent, input and
/// events are waited for again; the command to close ends the connection; and one that could not be
/// sent ends it with the error, as does a line that cannot be read.
pub proof fn law_lines_are_sent(
    state: ConnectState,
    command: Command,
    error: ClientError,
    cause: String,
)
    requires
        state.phase == ConnectPhase::Listening,
    ensures
        ({
            let (sending, send) = connect_next(state, ConnectInput::Line(Some(Ok(command))));
            let (after, next) = connect_next(sending, ConnectInput::Sent(Ok(())));
            let failed = connect_next(sending, ConnectInput::Sent(Err(error))).1;
            &&& send == ConnectAction::Send(command)
            &&& sending.backoff_ms == state.backoff_ms
            &&& failed == ConnectAction::Fail(ConnectFailure::Client(error))
            &&& command is Close ==> next is Stop && after.phase == ConnectPhase::Stopped
            &&& !(command is Close) ==> next is Listen && after.phase == ConnectPhase::Listening
            &&& after.should_find == match command {
                Command::Find | Command::Next => true,
                Command::Leave => false,
                _ => state.should_find,
            }
            &&& connect_next(state, ConnectInput::Line(Some(Err(cause)))).1 == ConnectAction::Fail(
                ConnectFailure::Line(cause),
            )
        }),
{
}

/// Law: an event is shown, and tells whether a peer is wanted from then on: one is from the search
/// until the peer has left. Where the server asks for patience while one is wanted, it is asked for
/// a peer again after just that time, and input and events are waited for again; otherwise they are
/// at once.
pub proof fn law_events_are_heeded(state: ConnectState, event: ChatEvent)
    requires
        state.phase == ConnectPhase::Listening,
    ensures
        ({
            let (showing, show) = connect_next(state, ConnectInput::Event(Some(event)));
            let (after, next) = connect_next(showing, ConnectInput::Shown);
            let (asking, ask) = connect_next(after, ConnectInput::Slept);
            let wanted = match event {
                ChatEvent::Searching => true,
                ChatEvent::Matched { .. } => true,
                ChatEvent::PeerLeft { .. } => false,
                _ => state.should_find,
            };
            let pause = match event {
                ChatEvent::RateLimited { retry_after_ms } => Some(retry_after_ms),
                ChatEvent::ServerBusy { retry_after_ms } => Some(retry_after_ms),
                _ => None,
            };
            &&& show == ConnectAction::Show(event)
            &&& after.should_find == wanted && after.backoff_ms == state.backoff_ms
            &&& pause is Some && wanted ==> next == ConnectAction::Pause(pause->0) && ask
                == ConnectAction::Send(Command::Find) && connect_next(
                asking,
                ConnectInput::Sent(Ok(())),
            ).1 is Listen
            &&& pause is None || !wanted ==> next is Listen && after.phase
                == ConnectPhase::Listening
        }),
{
}

/// Law: a connection that is lost or cannot be made is tried again after a wait that doubles up to
/// half a minute; the identity is loaded before each attempt, and the connection ends with the error
/// where it cannot be. One that stands sets the wait back to half a second and asks for a peer first
/// where one is wanted.
pub proof fn law_attempts_are_repeated(state: ConnectState, error: ClientError)
    ensures
        state.phase == ConnectPhase::Listening ==> connect_next(state, ConnectInput::Event(None))
            == (
            ConnectState { phase: ConnectPhase::Resting, ..state },
            ConnectAction::Rest(state.backoff_ms),
        ),
        state.phase == ConnectPhase::Connecting ==> connect_next(
            state,
            ConnectInput::Connected(false),
        ) == (
            ConnectState { phase: ConnectPhase::Resting, ..state },
            ConnectAction::Rest(state.backoff_ms),
        ),
        state.phase == ConnectPhase::Resting ==> connect_next(state, ConnectInput::Slept) == (
            ConnectState {
                phase: ConnectPhase::Loading,
                backoff_ms: if state.backoff_ms <= 15_000 {
                    (2 * state.backoff_ms) as u64
                } else {
                    30_000
                },
                ..state
            },
            ConnectAction::Load,
        ),
        state.phase == ConnectPhase::Loading ==> connect_next(state, ConnectInput::Loaded(Ok(())))
            == (ConnectState { phase: ConnectPhase::Connecting, ..state }, ConnectAction::Connect),
        state.phase == ConnectPhase::Loading ==> connect_next(
            state,
            ConnectInput::Loaded(Err(error)),
        ).1 == ConnectAction::Fail(ConnectFailure::Client(error)),
        state.phase == ConnectPhase::Connecting ==> ({
            let (after, next) = connect_next(state, ConnectInput::Connected(true));
            &&& after.backoff_ms == 500 && after.should_find == state.should_find
            &&& state.should_find ==> next == ConnectAction::Send(Command::Find) && connect_next(
                after,
                ConnectInput::Sent(Ok(())),
            ).1 is Listen && connect_next(after, ConnectInput::Sent(Err(error))).1
                == ConnectAction::Fail(ConnectFailure::Client(error))
            &&& !state.should_find ==> next is Listen && after.phase == ConnectPhase::Listening
        }),
{
}

/// Law: a line of input stands for the command of its own name, and errors say where they arose.
pub proof fn law_input_and_errors_in_words(input: Input, failure: ConnectFailure)
    ensures
        match input {
            Input::Find => input_command(input) == CommandView::Find,
            Input::Message { content } => input_command(input) == CommandView::Message(
                encode_utf8(content@),
            ),
            Input::Leave => input_command(input) == CommandView::Leave,
            Input::Next => input_command(input) == CommandView::Next,
            Input::Cancel => input_command(input) == CommandView::Cancel,
            Input::Close => input_command(input) == CommandView::Close,
        },
        match failure {
            ConnectFailure::Client(error) => failure_text(failure) == client_error_text(error),
            ConnectFailure::Line(cause) => failure_text(failure) == "invalid JSONL input: "@
                + cause@,
        },
{
}

/// Law: while it listens the connection takes any line and any event, and otherwise what answers it.
pub proof fn law_connection_hears_what_it_waits_for(state: ConnectState, input: ConnectInput)
    ensures
        state.phase == ConnectPhase::Listening ==> (state.expects(input) <==> input is Line
            || input is Event),
        state.phase == ConnectPhase::Loading ==> (state.expects(input) <==> input is Loaded),
        state.phase == ConnectPhase::Connecting ==> (state.expects(input) <==> input is Connected),
        state.phase == ConnectPhase::Sending || state.phase == ConnectPhase::Resuming
            || state.phase is Closing ==> (state.expects(input) <==> input is Sent),
        state.phase is Showing ==> (state.expects(input) <==> input is Shown),
        state.phase == ConnectPhase::Resting || state.phase == ConnectPhase::Pausing ==> (
        state.expects(input) <==> input is Slept),
        state.wf() <==> 500 <= state.backoff_ms <= 30_000,
{
}

} // verus!
