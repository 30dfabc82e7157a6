//! The worker's network loop: which commands it carries out, and what it does when the connection
//! comes and goes.
//!
//! The loop is a machine. It is told what happened, changes its state and the session's, and says
//! what to do next; whoever runs it does that and tells it how it went.

use vstd::prelude::*;
use vstd::string::*;
use vstd::utf8::encode_utf8;

use crate::backoff::{doubled, is_backoff, next_backoff, FIRST_BACKOFF_MS};
use crate::client::{
    client_error_text, ChatEvent, ClientError, Command, CommandView, EventView,
};
use crate::session::{
    is_consistent, law_status_stays_consistent, ActionView, RuntimeState, RuntimeView,
    SessionAction, SessionStatus, StatusView, StoredEvent, StoredView,
};
use crate::text::{join, option_view, same_text};

verus! {

/// What a command does to the session once it was sent.
#[derive(Debug, Clone, Copy, PartialEq, Eq, Structural)]
pub enum StateChange {
    Keep,
    Ready,
    Leaving,
    Closed,
}

/// What an action comes to while the session is connected: a command to send, if any, and the
/// change that follows; or why it is refused.
#[derive(Debug)]
pub enum Operation {
    Perform(Option<Command>, StateChange),
    Refuse(String),
}

/// What an operation says.
pub enum OperationView {
    Perform(Option<CommandView>, StateChange),
    Refuse(Seq<char>),
}

impl View for Operation {
    type V = OperationView;

    open spec fn view(&self) -> OperationView {
        match self {
            Operation::Perform(command, change) => OperationView::Perform(
                option_view(*command),
                *change,
            ),
            Operation::Refuse(cause) => OperationView::Refuse(cause@),
        }
    }
}

/// Why an action is refused in a state.
pub open spec fn refusal(action: Seq<char>, state: Seq<char>) -> OperationView {
    OperationView::Refuse(action + " is not valid while session is "@ + state)
}

/// What an action comes to in a state.
pub open spec fn operation_of(action: ActionView, state: Seq<char>) -> OperationView {
    match action {
        ActionView::Find => if state == "ready"@ || state == "peer_left"@ {
            OperationView::Perform(Some(CommandView::Find), StateChange::Keep)
        } else {
            refusal("find"@, state)
        },
        ActionView::Message(content) => if state == "matched"@ {
            OperationView::Perform(
                Some(CommandView::Message(encode_utf8(content))),
                StateChange::Keep,
            )
        } else {
            refusal("message"@, state)
        },
        ActionView::Next => if state == "matched"@ {
            OperationView::Perform(Some(CommandView::Next), StateChange::Leaving)
        } else {
            refusal("next"@, state)
        },
        ActionView::Leave => if state == "searching"@ {
            OperationView::Perform(Some(CommandView::Cancel), StateChange::Ready)
        } else if state == "matched"@ {
            OperationView::Perform(Some(CommandView::Leave), StateChange::Leaving)
        } else {
            OperationView::Perform(None, StateChange::Keep)
        },
        ActionView::Cancel => if state == "searching"@ {
            OperationView::Perform(Some(CommandView::Cancel), StateChange::Ready)
        } else {
            OperationView::Perform(None, StateChange::Keep)
        },
        ActionView::Close => OperationView::Perform(Some(CommandView::Close), StateChange::Closed),
    }
}

fn refuse(action: &str, state: &str) -> (operation: Operation)
    ensures
        operation@ == refusal(action@, state@),
{
    Operation::Refuse(join(join(action, " is not valid while session is ").as_str(), state))
}

fn bytes_of(text: &str) -> (bytes: Vec<u8>)
    ensures
        bytes@ == encode_utf8(text@),
{
    let mut bytes: Vec<u8> = Vec::new();
    crate::bytes::put_bytes(&mut bytes, text.as_bytes());
    assert(bytes@ =~= text.spec_bytes());
    bytes
}

/// What an action comes to in a state.
pub fn connected_operation(action: SessionAction, state: &str) -> (operation: Operation)
    ensures
        operation@ == operation_of(action@, state@),
        match action {
            SessionAction::Find => if state@ == "ready"@ || state@ == "peer_left"@ {
                operation matches Operation::Perform(Some(Command::Find), StateChange::Keep)
            } else {
                operation matches Operation::Refuse(cause) && cause@
                    == "find"@ + " is not valid while session is "@ + state@
            },
            SessionAction::Message { content } => if state@ == "matched"@ {
                operation matches Operation::Perform(Some(Command::Message(text)), StateChange::Keep)
                    && text@ == encode_utf8(content@)
            } else {
                operation matches Operation::Refuse(cause) && cause@
                    == "message"@ + " is not valid while session is "@ + state@
            },
            SessionAction::Next => if state@ == "matched"@ {
                operation matches Operation::Perform(Some(Command::Next), StateChange::Leaving)
            } else {
                operation matches Operation::Refuse(cause) && cause@
                    == "next"@ + " is not valid while session is "@ + state@
            },
            SessionAction::Leave => if state@ == "searching"@ {
                operation matches Operation::Perform(Some(Command::Cancel), StateChange::Ready)
            } else if state@ == "matched"@ {
                operation matches Operation::Perform(Some(Command::Leave), StateChange::Leaving)
            } else {
                operation matches Operation::Perform(None, StateChange::Keep)
            },
            SessionAction::Cancel => if state@ == "searching"@ {
                operation matches Operation::Perform(Some(Command::Cancel), StateChange::Ready)
            } else {
                operation matches Operation::Perform(None, StateChange::Keep)
            },
            SessionAction::Close => operation matches Operation::Perform(
                Some(Command::Close),
                StateChange::Closed,
            ),
        },
{
    match action {
        SessionAction::Find => {
            if same_text(state, "ready") || same_text(state, "peer_left") {
                Operation::Perform(Some(Command::Find), StateChange::Keep)
            } else {
                refuse("find", state)
            }
        },
        SessionAction::Message { content } => {
            if same_text(state, "matched") {
                Operation::Perform(
                    Some(Command::Message(bytes_of(content.as_str()))),
                    StateChange::Keep,
                )
            } else {
                refuse("message", state)
            }
        },
        SessionAction::Next => {
            if same_text(state, "matched") {
                Operation::Perform(Some(Command::Next), StateChange::Leaving)
            } else {
                refuse("next", state)
            }
        },
        SessionAction::Leave => {
            if same_text(state, "searching") {
                Operation::Perform(Some(Command::Cancel), StateChange::Ready)
            } else if same_text(state, "matched") {
                Operation::Perform(Some(Command::Leave), StateChange::Leaving)
            } else {
                Operation::Perform(None, StateChange::Keep)
            }
        },
        SessionAction::Cancel => {
            if same_text(state, "searching") {
                Operation::Perform(Some(Command::Cancel), StateChange::Ready)
            } else {
                Operation::Perform(None, StateChange::Keep)
            }
        },
        SessionAction::Close => Operation::Perform(Some(Command::Close), StateChange::Closed),
    }
}

/// Whether a peer is sought after a command was chosen.
pub open spec fn intent_after(intent: bool, command: CommandView) -> bool {
    match command {
        CommandView::Find | CommandView::Next => true,
        CommandView::Leave | CommandView::Cancel | CommandView::Close => false,
        CommandView::Message(_) => intent,
    }
}

fn set_intent(runtime: &mut RuntimeState, command: &Command)
    ensures
        final(runtime)@ == (RuntimeView {
            searching_intent: intent_after(old(runtime)@.searching_intent, command@),
            ..old(runtime)@
        }),
{
    match command {
        Command::Find | Command::Next => runtime.searching_intent = true,
        Command::Leave | Command::Cancel | Command::Close => runtime.searching_intent = false,
        Command::Message(_) => {},
    }
}

/// Where the loop goes on after it has answered a command.
#[derive(Debug, Clone, Copy, PartialEq, Eq, Structural)]
pub enum Resume {
    Failed,
    Connecting,
    Connected,
    Resting,
    Stopped,
}

/// What follows once a changed status was written.
#[derive(Debug, Clone, Copy, PartialEq, Eq, Structural)]
pub enum AfterPersist {
    /// Answer the command, then go on.
    Answer(Resume),
    /// Wait for the command to close.
    AwaitClose,
    /// Wait before the next attempt to connect.
    Rest,
    /// End.
    Stop,
}

/// What the loop is doing.
#[derive(Debug, Clone, Copy, PartialEq, Eq, Structural)]
pub enum NetworkPhase {
    /// Loads the configuration.
    LoadingConfig,
    /// Cannot go on; waits for the command to close.
    Failed,
    /// Loads the identity.
    LoadingIdentity,
    /// Connects.
    Connecting,
    /// Waits for commands and events.
    Connected,
    /// Waits before the next attempt.
    Resting,
    /// Writes a changed status.
    Persisting(AfterPersist),
    /// Sends what a command asks for.
    Sending(StateChange),
    /// Asks again for a peer on a new connection.
    Resuming,
    /// Sends the last command, whose outcome is of no account.
    SigningOff,
    /// Writes an event to the log; whether it says that the server is ready.
    Recording(bool),
    /// Answers a command.
    Answering(Resume),
    /// Done.
    Stopped,
}

/// The state of the loop.
#[derive(Debug, Clone, Copy)]
pub struct NetworkLoop {
    pub phase: NetworkPhase,
    pub backoff_ms: u64,
}

/// What happened.
#[derive(Debug)]
pub enum NetworkInput {
    /// Whether the configuration could be loaded.
    Config(Result<(), ClientError>),
    /// Whether the identity could be loaded.
    Identity(Result<(), ClientError>),
    /// Whether a connection was made.
    Connection(Result<(), ClientError>),
    /// A command, or the end of the commands.
    Command(Option<SessionAction>),
    /// An event of the connection, or its end.
    Event(Option<Result<ChatEvent, ClientError>>),
    /// A wait is over.
    Slept,
    /// Whether the connection took a command.
    Sent(Result<(), ClientError>),
    /// Whether the status was written.
    Persisted(Result<(), String>),
    /// Whether status and event were written.
    Recorded(Result<(), String>),
    /// A command was answered.
    Answered,
}

/// What is to be done.
#[derive(Debug)]
pub enum NetworkAction {
    /// Load the identity.
    LoadIdentity,
    /// Begin to connect, and wait for the connection or a command.
    Connect,
    /// Go on waiting for the connection or a command.
    AwaitConnection,
    /// Wait for a command or an event.
    Listen,
    /// Wait for a command.
    AwaitClose,
    /// Wait for so many milliseconds, spread by jitter, or for a command.
    Rest(u64),
    /// Go on waiting until the same time, or for a command.
    AwaitRest,
    /// Write the status.
    Persist,
    /// Write the status and add the event to the log.
    Record(StoredEvent),
    /// Hand a command to the connection.
    Send(Command),
    /// Answer the command that came last.
    Answer(Result<SessionStatus, String>),
    /// End.
    Stop,
}

/// What is to be done, and whether those who wait for news are to be woken before.
#[derive(Debug)]
pub struct NetworkOutput {
    pub notify: bool,
    pub action: NetworkAction,
}

/// What happened.
pub enum InputView {
    Config(Result<(), Seq<char>>),
    Identity(Result<(), Seq<char>>),
    Connection(Result<(), Seq<char>>),
    Command(Option<ActionView>),
    Event(Option<Result<EventView, Seq<char>>>),
    Slept,
    Sent(Result<(), Seq<char>>),
    Persisted(Result<(), Seq<char>>),
    Recorded(Result<(), Seq<char>>),
    Answered,
}

/// What is to be done.
pub enum NextView {
    LoadIdentity,
    Connect,
    AwaitConnection,
    Listen,
    AwaitClose,
    Rest(u64),
    AwaitRest,
    Persist,
    Record(StoredView),
    Send(CommandView),
    Answer(Result<StatusView, Seq<char>>),
    Stop,
}

/// The outcome of something that the client did, with the error in words.
pub open spec fn client_outcome(outcome: Result<(), ClientError>) -> Result<(), Seq<char>> {
    match outcome {
        Ok(_) => Ok(()),
        Err(error) => Err(client_error_text(error)),
    }
}

/// The outcome of something that was written.
pub open spec fn written_outcome(outcome: Result<(), String>) -> Result<(), Seq<char>> {
    match outcome {
        Ok(_) => Ok(()),
        Err(cause) => Err(cause@),
    }
}

impl View for NetworkInput {
    type V = InputView;

    open spec fn view(&self) -> InputView {
        match self {
            NetworkInput::Config(outcome) => InputView::Config(client_outcome(*outcome)),
            NetworkInput::Identity(outcome) => InputView::Identity(client_outcome(*outcome)),
            NetworkInput::Connection(outcome) => InputView::Connection(client_outcome(*outcome)),
            NetworkInput::Command(action) => InputView::Command(option_view(*action)),
            NetworkInput::Event(None) => InputView::Event(None),
            NetworkInput::Event(Some(Ok(event))) => InputView::Event(Some(Ok(event@))),
            NetworkInput::Event(Some(Err(error))) => InputView::Event(
                Some(Err(client_error_text(*error))),
            ),
            NetworkInput::Slept => InputView::Slept,
            NetworkInput::Sent(outcome) => InputView::Sent(client_outcome(*outcome)),
            NetworkInput::Persisted(outcome) => InputView::Persisted(written_outcome(*outcome)),
            NetworkInput::Recorded(outcome) => InputView::Recorded(written_outcome(*outcome)),
            NetworkInput::Answered => InputView::Answered,
        }
    }
}

impl View for NetworkAction {
    type V = NextView;

    open spec fn view(&self) -> NextView {
        match self {
            NetworkAction::LoadIdentity => NextView::LoadIdentity,
            NetworkAction::Connect => NextView::Connect,
            NetworkAction::AwaitConnection => NextView::AwaitConnection,
            NetworkAction::Listen => NextView::Listen,
            NetworkAction::AwaitClose => NextView::AwaitClose,
            NetworkAction::Rest(backoff_ms) => NextView::Rest(*backoff_ms),
            NetworkAction::AwaitRest => NextView::AwaitRest,
            NetworkAction::Persist => NextView::Persist,
            NetworkAction::Record(stored) => NextView::Record(stored@),
            NetworkAction::Send(command) => NextView::Send(command@),
            NetworkAction::Answer(Ok(status)) => NextView::Answer(Ok(status@)),
            NetworkAction::Answer(Err(cause)) => NextView::Answer(Err(cause@)),
            NetworkAction::Stop => NextView::Stop,
        }
    }
}

/// The loop and the session that it serves.
pub struct WorkerView {
    pub phase: NetworkPhase,
    pub backoff_ms: u64,
    pub runtime: RuntimeView,
}

/// What a step leads to.
pub struct StepView {
    pub worker: WorkerView,
    pub notify: bool,
    pub next: NextView,
}

/// The loop and the session that it serves.
pub open spec fn worker_view(network: NetworkLoop, runtime: RuntimeView) -> WorkerView {
    WorkerView { phase: network.phase, backoff_ms: network.backoff_ms, runtime }
}

impl WorkerView {
    /// The status of the session.
    pub open spec fn status(self) -> StatusView {
        self.runtime.metadata.status
    }

    /// The wait is within its bounds.
    pub open spec fn wf(self) -> bool {
        is_backoff(self.backoff_ms)
    }

    /// Whether an input answers what the loop is doing.
    pub open spec fn expects(self, input: InputView) -> bool {
        match self.phase {
            NetworkPhase::LoadingConfig => input is Config,
            NetworkPhase::Failed => input is Command,
            NetworkPhase::LoadingIdentity => input is Identity,
            NetworkPhase::Connecting => input is Connection || input is Command,
            NetworkPhase::Connected => input is Command || input is Event,
            NetworkPhase::Resting => input is Slept || input is Command,
            NetworkPhase::Persisting(_) => input is Persisted,
            NetworkPhase::Sending(_)
            | NetworkPhase::Resuming
            | NetworkPhase::SigningOff => input is Sent,
            NetworkPhase::Recording(_) => input is Recorded,
            NetworkPhase::Answering(_) => input is Answered,
            NetworkPhase::Stopped => false,
        }
    }

    /// Whether there is a place in the log for what an input brings.
    pub open spec fn has_room(self, input: InputView) -> bool {
        input matches InputView::Event(Some(Ok(_))) ==> self.status().last_cursor < u64::MAX
    }

    /// A step that leaves the session as it is.
    pub open spec fn goes(self, phase: NetworkPhase, next: NextView) -> StepView {
        StepView { worker: WorkerView { phase, ..self }, notify: false, next }
    }

    /// A step that changes the status, which is then written.
    pub open spec fn becomes(self, status: StatusView, after: AfterPersist) -> StepView {
        StepView {
            worker: WorkerView {
                phase: NetworkPhase::Persisting(after),
                runtime: self.runtime.with_status(status),
                ..self
            },
            notify: false,
            next: NextView::Persist,
        }
    }

    /// A step that answers a command.
    pub open spec fn answers(self, answer: Result<StatusView, Seq<char>>, resume: Resume) -> StepView {
        self.goes(NetworkPhase::Answering(resume), NextView::Answer(answer))
    }

    /// A command while there is no connection: only closing is possible.
    pub open spec fn unconnected(self, action: Option<ActionView>, resume: Resume) -> StepView {
        match action {
            None => self.goes(NetworkPhase::Stopped, NextView::Stop),
            Some(ActionView::Close) => self.becomes(
                self.status().closed(),
                AfterPersist::Answer(Resume::Stopped),
            ),
            Some(_) => self.answers(
                Err("session is not connected; inspect status and events before retrying"@),
                resume,
            ),
        }
    }

    /// A command while there is a connection.
    pub open spec fn connected(self, action: ActionView) -> StepView {
        match operation_of(action, self.status().state) {
            OperationView::Refuse(cause) => self.answers(Err(cause), Resume::Connected),
            OperationView::Perform(None, _) => self.answers(Ok(self.status()), Resume::Connected),
            OperationView::Perform(Some(command), change) => StepView {
                worker: WorkerView {
                    phase: NetworkPhase::Sending(change),
                    runtime: RuntimeView {
                        searching_intent: intent_after(self.runtime.searching_intent, command),
                        ..self.runtime
                    },
                    ..self
                },
                notify: false,
                next: NextView::Send(command),
            },
        }
    }

    /// The connection is lost: that is noted, and the loop rests.
    pub open spec fn loses(self, cause: Seq<char>) -> StepView {
        self.becomes(self.status().reconnecting(cause), AfterPersist::Rest)
    }

    /// The loop cannot go on: that is noted.
    pub open spec fn fails(self, cause: Seq<char>, after: AfterPersist) -> StepView {
        self.becomes(self.status().failed(cause), after)
    }

    /// A command was sent: what it changes is noted, and the command answered.
    pub open spec fn sent(self, change: StateChange) -> StepView {
        match change {
            StateChange::Keep => self.answers(Ok(self.status()), Resume::Connected),
            StateChange::Ready => self.becomes(
                self.status().in_state("ready"@),
                AfterPersist::Answer(Resume::Connected),
            ),
            StateChange::Leaving => self.becomes(
                self.status().in_state("leaving"@),
                AfterPersist::Answer(Resume::Connected),
            ),
            StateChange::Closed => self.becomes(
                self.status().closed(),
                AfterPersist::Answer(Resume::Stopped),
            ),
        }
    }

    /// A changed status was written, or could not be; those who wait for news are woken.
    pub open spec fn persisted(self, after: AfterPersist) -> StepView {
        let step = match after {
            AfterPersist::Answer(resume) => self.answers(Ok(self.status()), resume),
            AfterPersist::AwaitClose => self.goes(NetworkPhase::Failed, NextView::AwaitClose),
            AfterPersist::Rest => self.goes(
                NetworkPhase::Resting,
                NextView::Rest(self.backoff_ms),
            ),
            AfterPersist::Stop => self.goes(NetworkPhase::Stopped, NextView::Stop),
        };
        StepView { notify: true, ..step }
    }

    /// A command was answered: the loop goes on where it was.
    pub open spec fn resumes(self, resume: Resume) -> StepView {
        match resume {
            Resume::Failed => self.goes(NetworkPhase::Failed, NextView::AwaitClose),
            Resume::Connecting => self.goes(NetworkPhase::Connecting, NextView::AwaitConnection),
            Resume::Connected => self.goes(NetworkPhase::Connected, NextView::Listen),
            Resume::Resting => self.goes(NetworkPhase::Resting, NextView::AwaitRest),
            Resume::Stopped => self.goes(NetworkPhase::Stopped, NextView::Stop),
        }
    }
}

/// What an input that the loop expects leads to.
pub open spec fn network_next(worker: WorkerView, input: InputView) -> StepView {
    match (worker.phase, input) {
        (NetworkPhase::LoadingConfig, InputView::Config(Ok(_))) => worker.goes(
            NetworkPhase::LoadingIdentity,
            NextView::LoadIdentity,
        ),
        (NetworkPhase::LoadingConfig, InputView::Config(Err(cause))) => worker.fails(
            cause,
            AfterPersist::AwaitClose,
        ),
        (NetworkPhase::Failed, InputView::Command(action)) => worker.unconnected(
            action,
            Resume::Failed,
        ),
        (NetworkPhase::LoadingIdentity, InputView::Identity(Ok(_))) => worker.goes(
            NetworkPhase::Connecting,
            NextView::Connect,
        ),
        (NetworkPhase::LoadingIdentity, InputView::Identity(Err(cause))) => worker.fails(
            cause,
            AfterPersist::AwaitClose,
        ),
        (NetworkPhase::Connecting, InputView::Command(action)) => worker.unconnected(
            action,
            Resume::Connecting,
        ),
        (NetworkPhase::Connecting, InputView::Connection(Ok(_))) => WorkerView {
            backoff_ms: FIRST_BACKOFF_MS,
            ..worker
        }.goes(NetworkPhase::Connected, NextView::Listen),
        (NetworkPhase::Connecting, InputView::Connection(Err(cause))) => worker.loses(cause),
        (NetworkPhase::Connected, InputView::Command(Some(action))) => worker.connected(action),
        (NetworkPhase::Connected, InputView::Command(None)) => worker.goes(
            NetworkPhase::SigningOff,
            NextView::Send(CommandView::Close),
        ),
        (NetworkPhase::Connected, InputView::Event(Some(Ok(event)))) => StepView {
            worker: WorkerView {
                phase: NetworkPhase::Recording(event is Ready),
                runtime: worker.runtime.after_event(event),
                ..worker
            },
            notify: false,
            next: NextView::Record(
                StoredView { cursor: (worker.status().last_cursor + 1) as u64, event },
            ),
        },
        (NetworkPhase::Connected, InputView::Event(Some(Err(cause)))) => worker.loses(cause),
        (NetworkPhase::Connected, InputView::Event(None)) => worker.loses("connection closed"@),
        (NetworkPhase::Resting, InputView::Command(action)) => worker.unconnected(
            action,
            Resume::Resting,
        ),
        (NetworkPhase::Resting, InputView::Slept) => WorkerView {
            backoff_ms: doubled(worker.backoff_ms),
            ..worker
        }.goes(NetworkPhase::LoadingIdentity, NextView::LoadIdentity),
        (NetworkPhase::Persisting(after), InputView::Persisted(outcome)) => WorkerView {
            runtime: worker.runtime.after_persist(outcome),
            ..worker
        }.persisted(after),
        (NetworkPhase::Sending(change), InputView::Sent(Ok(_))) => worker.sent(change),
        (NetworkPhase::Sending(_), InputView::Sent(Err(cause))) => worker.answers(
            Err(cause),
            Resume::Connected,
        ),
        (NetworkPhase::Resuming, InputView::Sent(Ok(_))) => worker.goes(
            NetworkPhase::Connected,
            NextView::Listen,
        ),
        (NetworkPhase::Resuming, InputView::Sent(Err(cause))) => worker.loses(cause),
        (NetworkPhase::Recording(ready), InputView::Recorded(Ok(_))) => {
            let step = if ready && worker.runtime.searching_intent {
                worker.goes(NetworkPhase::Resuming, NextView::Send(CommandView::Find))
            } else {
                worker.goes(NetworkPhase::Connected, NextView::Listen)
            };
            StepView { notify: true, ..step }
        },
        (NetworkPhase::Recording(_), InputView::Recorded(Err(cause))) => worker.fails(
            "record session event: "@ + cause,
            AfterPersist::Stop,
        ),
        (NetworkPhase::Answering(resume), InputView::Answered) => worker.resumes(resume),
        _ => worker.goes(NetworkPhase::Stopped, NextView::Stop),
    }
}

impl NetworkLoop {
    /// The loop of a worker that has just started.
    pub fn new() -> (network: NetworkLoop)
        ensures
            network.phase == NetworkPhase::LoadingConfig,
            network.backoff_ms == FIRST_BACKOFF_MS,
    {
        NetworkLoop { phase: NetworkPhase::LoadingConfig, backoff_ms: FIRST_BACKOFF_MS }
    }

    fn go(&mut self, phase: NetworkPhase, action: NetworkAction) -> (output: NetworkOutput)
        ensures
            *final(self) == (NetworkLoop { phase, backoff_ms: old(self).backoff_ms }),
            !output.notify && output.action == action,
    {
        self.phase = phase;
        NetworkOutput { notify: false, action }
    }

    fn lose(&mut self, runtime: &mut RuntimeState, cause: String) -> (output: NetworkOutput)
        ensures
            is_step(
                worker_view(*old(self), old(runtime)@).loses(cause@),
                *final(self),
                final(runtime)@,
                output,
            ),
    {
        runtime.set_reconnecting(cause);
        self.go(NetworkPhase::Persisting(AfterPersist::Rest), NetworkAction::Persist)
    }

    fn fail(&mut self, runtime: &mut RuntimeState, cause: String, after: AfterPersist) -> (output:
        NetworkOutput)
        ensures
            is_step(
                worker_view(*old(self), old(runtime)@).fails(cause@, after),
                *final(self),
                final(runtime)@,
                output,
            ),
    {
        runtime.set_failed(cause);
        self.go(NetworkPhase::Persisting(after), NetworkAction::Persist)
    }

    fn handle_unconnected_command(
        &mut self,
        runtime: &mut RuntimeState,
        action: Option<SessionAction>,
        resume: Resume,
    ) -> (output: NetworkOutput)
        ensures
            is_step(
                worker_view(*old(self), old(runtime)@).unconnected(option_view(action), resume),
                *final(self),
                final(runtime)@,
                output,
            ),
    {
        match action {
            None => self.go(NetworkPhase::Stopped, NetworkAction::Stop),
            Some(SessionAction::Close) => {
                runtime.set_closed();
                self.go(
                    NetworkPhase::Persisting(AfterPersist::Answer(Resume::Stopped)),
                    NetworkAction::Persist,
                )
            },
            Some(_) => self.go(
                NetworkPhase::Answering(resume),
                NetworkAction::Answer(
                    Err(
                        "session is not connected; inspect status and events before retrying".to_owned(),
                    ),
                ),
            ),
        }
    }

    fn handle_connected_command(&mut self, runtime: &mut RuntimeState, action: SessionAction) -> (
        output: NetworkOutput)
        ensures
            is_step(
                worker_view(*old(self), old(runtime)@).connected(action@),
                *final(self),
                final(runtime)@,
                output,
            ),
    {
        match connected_operation(action, runtime.metadata.status.state.as_str()) {
            Operation::Refuse(cause) => self.go(
                NetworkPhase::Answering(Resume::Connected),
                NetworkAction::Answer(Err(cause)),
            ),
            Operation::Perform(None, _) => self.go(
                NetworkPhase::Answering(Resume::Connected),
                NetworkAction::Answer(Ok(runtime.public_status())),
            ),
            Operation::Perform(Some(command), change) => {
                set_intent(runtime, &command);
                self.go(NetworkPhase::Sending(change), NetworkAction::Send(command))
            },
        }
    }

    fn handle_sent(&mut self, runtime: &mut RuntimeState, change: StateChange) -> (output:
        NetworkOutput)
        ensures
            is_step(
                worker_view(*old(self), old(runtime)@).sent(change),
                *final(self),
                final(runtime)@,
                output,
            ),
    {
        let resume = match change {
            StateChange::Keep => {
                return self.go(
                    NetworkPhase::Answering(Resume::Connected),
                    NetworkAction::Answer(Ok(runtime.public_status())),
                );
            },
            StateChange::Ready => {
                runtime.set_state("ready");
                Resume::Connected
            },
            StateChange::Leaving => {
                runtime.set_state("leaving");
                Resume::Connected
            },
            StateChange::Closed => {
                runtime.set_closed();
                Resume::Stopped
            },
        };
        self.go(NetworkPhase::Persisting(AfterPersist::Answer(resume)), NetworkAction::Persist)
    }

    fn handle_persisted(
        &mut self,
        runtime: &mut RuntimeState,
        outcome: Result<(), String>,
        after: AfterPersist,
    ) -> (output: NetworkOutput)
        ensures
            is_step(
                (WorkerView {
                    runtime: old(runtime)@.after_persist(written_outcome(outcome)),
                    ..worker_view(*old(self), old(runtime)@)
                }).persisted(after),
                *final(self),
                final(runtime)@,
                output,
            ),
    {
        let status = runtime.persisted(outcome);
        let output = match after {
            AfterPersist::Answer(resume) => self.go(
                NetworkPhase::Answering(resume),
                NetworkAction::Answer(Ok(status)),
            ),
            AfterPersist::AwaitClose => self.go(NetworkPhase::Failed, NetworkAction::AwaitClose),
            AfterPersist::Rest => {
                let backoff_ms: u64 = self.backoff_ms;
                self.go(NetworkPhase::Resting, NetworkAction::Rest(backoff_ms))
            },
            AfterPersist::Stop => self.go(NetworkPhase::Stopped, NetworkAction::Stop),
        };
        NetworkOutput { notify: true, action: output.action }
    }

    fn handle_answered(&mut self, resume: Resume) -> (output: NetworkOutput)
        ensures
            forall|runtime: RuntimeView|
                is_step(
                    #[trigger] worker_view(*old(self), runtime).resumes(resume),
                    *final(self),
                    runtime,
                    output,
                ),
    {
        match resume {
            Resume::Failed => self.go(NetworkPhase::Failed, NetworkAction::AwaitClose),
            Resume::Connecting => self.go(NetworkPhase::Connecting, NetworkAction::AwaitConnection),
            Resume::Connected => self.go(NetworkPhase::Connected, NetworkAction::Listen),
            Resume::Resting => self.go(NetworkPhase::Resting, NetworkAction::AwaitRest),
            Resume::Stopped => self.go(NetworkPhase::Stopped, NetworkAction::Stop),
        }
    }

    fn handle_recorded(&mut self, find: bool) -> (output: NetworkOutput)
        ensures
            final(self).backoff_ms == old(self).backoff_ms,
            output.notify,
            find ==> final(self).phase == NetworkPhase::Resuming && output.action@
                == NextView::Send(CommandView::Find),
            !find ==> final(self).phase == NetworkPhase::Connected && output.action@
                == NextView::Listen,
    {
        let output = if find {
            self.go(NetworkPhase::Resuming, NetworkAction::Send(Command::Find))
        } else {
            self.go(NetworkPhase::Connected, NetworkAction::Listen)
        };
        NetworkOutput { notify: true, action: output.action }
    }
}

/// Whether a step has led to a state of loop and session, and to an output.
pub open spec fn is_step(
    step: StepView,
    network: NetworkLoop,
    runtime: RuntimeView,
    output: NetworkOutput,
) -> bool {
    &&& worker_view(network, runtime) == step.worker
    &&& output.notify == step.notify
    &&& output.action@ == step.next
}

/// Takes an input, changes loop and session, and says what to do next.
pub fn network_step(
    network: &mut NetworkLoop,
    runtime: &mut RuntimeState,
    input: NetworkInput,
) -> (output: NetworkOutput)
    requires
        worker_view(*old(network), old(runtime)@).wf(),
        worker_view(*old(network), old(runtime)@).expects(input@),
        worker_view(*old(network), old(runtime)@).has_room(input@),
    ensures
        worker_view(*final(network), final(runtime)@).wf(),
        is_step(
            network_next(worker_view(*old(network), old(runtime)@), input@),
            *final(network),
            final(runtime)@,
            output,
        ),
{
    match input {
        NetworkInput::Config(Ok(_)) => network.go(
            NetworkPhase::LoadingIdentity,
            NetworkAction::LoadIdentity,
        ),
        NetworkInput::Config(Err(error)) => network.fail(
            runtime,
            error.message(),
            AfterPersist::AwaitClose,
        ),
        NetworkInput::Identity(Ok(_)) => network.go(
            NetworkPhase::Connecting,
            NetworkAction::Connect,
        ),
        NetworkInput::Identity(Err(error)) => network.fail(
            runtime,
            error.message(),
            AfterPersist::AwaitClose,
        ),
        NetworkInput::Connection(Ok(_)) => {
            network.backoff_ms = FIRST_BACKOFF_MS;
            network.go(NetworkPhase::Connected, NetworkAction::Listen)
        },
        NetworkInput::Connection(Err(error)) => network.lose(runtime, error.message()),
        NetworkInput::Command(action) => match network.phase {
            NetworkPhase::Failed => network.handle_unconnected_command(
                runtime,
                action,
                Resume::Failed,
            ),
            NetworkPhase::Connecting => network.handle_unconnected_command(
                runtime,
                action,
                Resume::Connecting,
            ),
            NetworkPhase::Resting => network.handle_unconnected_command(
                runtime,
                action,
                Resume::Resting,
            ),
            _ => match action {
                Some(action) => network.handle_connected_command(runtime, action),
                None => network.go(NetworkPhase::SigningOff, NetworkAction::Send(Command::Close)),
            },
        },
        NetworkInput::Event(Some(Ok(event))) => {
            let ready = match &event {
                ChatEvent::Ready { .. } => true,
                _ => false,
            };
            let stored = runtime.record_event(event);
            network.go(NetworkPhase::Recording(ready), NetworkAction::Record(stored))
        },
        NetworkInput::Event(Some(Err(error))) => network.lose(runtime, error.message()),
        NetworkInput::Event(None) => network.lose(runtime, "connection closed".to_owned()),
        NetworkInput::Slept => {
            network.backoff_ms = next_backoff(network.backoff_ms);
            network.go(NetworkPhase::LoadingIdentity, NetworkAction::LoadIdentity)
        },
        NetworkInput::Sent(outcome) => match (network.phase, outcome) {
            (NetworkPhase::Sending(change), Ok(_)) => network.handle_sent(runtime, change),
            (NetworkPhase::Sending(_), Err(error)) => network.go(
                NetworkPhase::Answering(Resume::Connected),
                NetworkAction::Answer(Err(error.message())),
            ),
            (NetworkPhase::Resuming, Ok(_)) => network.go(
                NetworkPhase::Connected,
                NetworkAction::Listen,
            ),
            (NetworkPhase::Resuming, Err(error)) => network.lose(runtime, error.message()),
            _ => network.go(NetworkPhase::Stopped, NetworkAction::Stop),
        },
        NetworkInput::Persisted(outcome) => match network.phase {
            NetworkPhase::Persisting(after) => network.handle_persisted(runtime, outcome, after),
            _ => network.go(NetworkPhase::Stopped, NetworkAction::Stop),
        },
        NetworkInput::Recorded(Ok(_)) => match network.phase {
            NetworkPhase::Recording(ready) => network.handle_recorded(
                ready && runtime.searching_intent,
            ),
            _ => network.go(NetworkPhase::Stopped, NetworkAction::Stop),
        },
        NetworkInput::Recorded(Err(cause)) => network.fail(
            runtime,
            join("record session event: ", cause.as_str()),
            AfterPersist::Stop,
        ),
        NetworkInput::Answered => match network.phase {
            NetworkPhase::Answering(resume) => network.handle_answered(resume),
            _ => network.go(NetworkPhase::Stopped, NetworkAction::Stop),
        },
    }
}

/// Whether the loop owes an answer to the command that came last.
pub open spec fn owes_answer(phase: NetworkPhase) -> bool {
    match phase {
        NetworkPhase::Sending(_) | NetworkPhase::Persisting(AfterPersist::Answer(_)) => true,
        _ => false,
    }
}

/// Law: every command is answered exactly once, before the loop takes the next one. An answer is
/// owed from the command on, and nothing but the answer settles it; without a command there is no
/// answer.
pub proof fn law_commands_are_answered_once(worker: WorkerView, input: InputView)
    requires
        worker.expects(input),
    ensures
        ({
            let step = network_next(worker, input);
            let owed = owes_answer(worker.phase) || (input matches InputView::Command(Some(_)));
            &&& owed ==> step.next is Answer != owes_answer(step.worker.phase)
            &&& !owed ==> !(step.next is Answer) && !owes_answer(step.worker.phase)
            &&& owes_answer(worker.phase) ==> !(input is Command)
            &&& step.next is Answer <==> step.worker.phase is Answering
        }),
{
}

/// Law: the worker keeps a consistent status consistent, whatever happens.
pub proof fn law_worker_keeps_status_consistent(worker: WorkerView, input: InputView)
    requires
        worker.expects(input),
        is_consistent(worker.status()),
    ensures
        is_consistent(network_next(worker, input).worker.status()),
{
    let status = worker.status();
    let event = match input {
        InputView::Event(Some(Ok(event))) => event,
        _ => EventView::Searching,
    };
    let error = match (worker.phase, input) {
        (_, InputView::Config(Err(cause))) => cause,
        (_, InputView::Identity(Err(cause))) => cause,
        (_, InputView::Connection(Err(cause))) => cause,
        (_, InputView::Event(Some(Err(cause)))) => cause,
        (_, InputView::Event(None)) => "connection closed"@,
        (_, InputView::Sent(Err(cause))) => cause,
        (_, InputView::Persisted(Err(cause))) => "persist session state: "@ + cause,
        (_, InputView::Recorded(Err(cause))) => "record session event: "@ + cause,
        _ => Seq::empty(),
    };
    law_status_stays_consistent(status, event, error);
}

/// Law: the log has no gaps and no repetitions. The cursor moves only when an event is recorded,
/// by one, and the event gets the place that the cursor then shows; what identifies the session
/// never changes.
pub proof fn law_log_has_no_gaps(worker: WorkerView, input: InputView)
    requires
        worker.expects(input),
        worker.has_room(input),
    ensures
        ({
            let step = network_next(worker, input);
            let before = worker.runtime.metadata;
            let after = step.worker.runtime.metadata;
            &&& match step.next {
                NextView::Record(stored) => stored.cursor == after.status.last_cursor
                    && stored.cursor == before.status.last_cursor + 1 && input == InputView::Event(
                    Some(Ok(stored.event)),
                ),
                _ => after.status.last_cursor == before.status.last_cursor,
            }
            &&& after.session_id == before.session_id
            &&& after.status.session_id == before.status.session_id
            &&& after.token == before.token
            &&& after.port == before.port
            &&& after.pid == before.pid
            &&& after.created_at_ms == before.created_at_ms
        }),
{
}

/// Law: while there is no connection, the command to close closes the session and ends the worker,
/// whether or not the status can be written; any other command is refused and changes nothing.
pub proof fn law_unconnected_commands(
    worker: WorkerView,
    action: ActionView,
    outcome: Result<(), Seq<char>>,
)
    requires
        worker.phase == NetworkPhase::Failed || worker.phase == NetworkPhase::Connecting
            || worker.phase == NetworkPhase::Resting,
    ensures
        ({
            let first = network_next(worker, InputView::Command(Some(action)));
            let second = network_next(first.worker, InputView::Persisted(outcome));
            let third = network_next(second.worker, InputView::Answered);
            &&& action is Close ==> {
                &&& first.next is Persist
                &&& second.notify
                &&& second.next matches NextView::Answer(Ok(status)) && status.state == "closed"@
                &&& third.next is Stop
            }
            &&& !(action is Close) ==> {
                &&& first.next matches NextView::Answer(Err(_))
                &&& first.worker.runtime == worker.runtime
                &&& network_next(first.worker, InputView::Answered).worker == worker
            }
        }),
{
}

/// Law: a peer that was sought when the connection was lost is asked for again as soon as the
/// server is ready on a new connection; the loss itself does not change what is sought.
pub proof fn law_search_survives_reconnection(
    worker: WorkerView,
    cause: Seq<char>,
    agent_id: Seq<char>,
)
    requires
        worker.phase == NetworkPhase::Connected,
        worker.status().last_cursor < u64::MAX,
    ensures
        ({
            let lost = network_next(worker, InputView::Event(Some(Err(cause))));
            let ready = network_next(
                worker,
                InputView::Event(Some(Ok(EventView::Ready { agent_id }))),
            );
            let after = network_next(ready.worker, InputView::Recorded(Ok(())));
            &&& lost.worker.runtime.searching_intent == worker.runtime.searching_intent
            &&& worker.runtime.searching_intent ==> after.next == NextView::Send(CommandView::Find)
            &&& !worker.runtime.searching_intent ==> after.next is Listen
        }),
{
}

/// Whether an input tells how an action went.
pub open spec fn network_answers(next: NextView, input: InputView) -> bool {
    match next {
        NextView::LoadIdentity => input is Identity,
        NextView::Connect | NextView::AwaitConnection => input is Connection || input is Command,
        NextView::Listen => input is Command || input is Event,
        NextView::AwaitClose => input is Command,
        NextView::Rest(_) | NextView::AwaitRest => input is Slept || input is Command,
        NextView::Persist => input is Persisted,
        NextView::Record(_) => input is Recorded,
        NextView::Send(_) => input is Sent,
        NextView::Answer(_) => input is Answered,
        NextView::Stop => false,
    }
}

/// Law: whoever does what the loop says, and tells it how it went, tells it something that it
/// expects.
pub proof fn law_network_is_never_at_a_loss(
    worker: WorkerView,
    input: InputView,
    reply: InputView,
)
    requires
        worker.expects(input),
        network_answers(network_next(worker, input).next, reply),
    ensures
        network_next(worker, input).worker.expects(reply),
{
}

} // verus!
