//! The client that comes back by itself: which commands and events pass, and what happens when
//! the connection is lost.

use vstd::prelude::*;

use crate::backoff::{doubled, is_backoff, next_backoff, FIRST_BACKOFF_MS};
use crate::client::{ChatEvent, ClientError, Command};

verus! {

/// Whether a peer is wanted after a command.
pub open spec fn wanted_after_command(wanted: bool, command: Command) -> bool {
    match command {
        Command::Find | Command::Next => true,
        Command::Leave => false,
        _ => wanted,
    }
}

/// Whether a peer is wanted after an event.
pub open spec fn wanted_after_event(wanted: bool, event: ChatEvent) -> bool {
    match event {
        ChatEvent::Searching | ChatEvent::Matched { .. } => true,
        ChatEvent::PeerLeft { .. } => false,
        _ => wanted,
    }
}

/// Whether a peer is wanted after a command.
pub fn want_after_command(wanted: bool, command: &Command) -> (after: bool)
    ensures
        after == wanted_after_command(wanted, *command),
{
    match command {
        Command::Find | Command::Next => true,
        Command::Leave => false,
        _ => wanted,
    }
}

/// Whether a peer is wanted after an event.
pub fn want_after_event(wanted: bool, event: &ChatEvent) -> (after: bool)
    ensures
        after == wanted_after_event(wanted, *event),
{
    match event {
        ChatEvent::Searching | ChatEvent::Matched { .. } => true,
        ChatEvent::PeerLeft { .. } => false,
        _ => wanted,
    }
}

/// What a resilient client is doing.
#[derive(Debug, Clone, Copy, PartialEq, Eq, Structural)]
pub enum ResilientPhase {
    /// Connected; waits for a command or an event.
    Listening,
    /// Hands a command to the connection.
    Forwarding,
    /// Hands on the command to close.
    Closing,
    /// Hands an event to the user.
    Passing,
    /// Tells the user that the connection is lost.
    Reporting,
    /// Waits before the next attempt.
    Waiting,
    /// Loads the identity for the next attempt.
    Loading,
    /// Tells the user that the identity cannot be loaded.
    GivingUp,
    /// Connects.
    Connecting,
    /// Asks again for the peer that was wanted when the connection was lost.
    Resuming,
    /// Done.
    Stopped,
}

/// The state of a resilient client.
#[derive(Debug)]
pub struct ResilientState {
    pub phase: ResilientPhase,
    pub should_find: bool,
    pub backoff_ms: u64,
}

/// What happened.
#[derive(Debug)]
pub enum ResilientInput {
    /// A command of the user, or the end of the commands.
    Command(Option<Command>),
    /// An event of the connection, or its end.
    Event(Option<Result<ChatEvent, ClientError>>),
    /// Whether the connection took a command.
    Sent(Result<(), ClientError>),
    /// Whether the user took an event.
    Delivered(bool),
    /// A wait is over.
    Slept,
    /// Whether the identity could be loaded.
    Loaded(Result<(), ClientError>),
    /// Whether a connection was made.
    Connected(bool),
}

/// What is to be done.
#[derive(Debug)]
pub enum ResilientAction {
    /// Wait for a command or an event.
    Listen,
    /// Hand a command to the connection.
    Send(Command),
    /// Hand an event, or an error, to the user.
    Deliver(Result<ChatEvent, ClientError>),
    /// Wait for so many milliseconds, spread by jitter.
    Sleep(u64),
    /// Load the identity.
    LoadIdentity,
    /// Connect.
    Connect,
    /// End.
    Stop,
}

impl ResilientState {
    /// The wait is within its bounds, and a connection that stands has its first wait ahead.
    pub open spec fn wf(self) -> bool {
        &&& is_backoff(self.backoff_ms)
        &&& self.is_connected() ==> self.backoff_ms == FIRST_BACKOFF_MS
    }

    /// Whether the connection stands, or was lost only now.
    pub open spec fn is_connected(self) -> bool {
        match self.phase {
            ResilientPhase::Listening
            | ResilientPhase::Forwarding
            | ResilientPhase::Closing
            | ResilientPhase::Passing
            | ResilientPhase::Reporting => true,
            _ => false,
        }
    }

    /// Whether an input answers what the client is doing.
    pub open spec fn expects(self, input: ResilientInput) -> bool {
        match self.phase {
            ResilientPhase::Listening => input is Command || input is Event,
            ResilientPhase::Forwarding
            | ResilientPhase::Closing
            | ResilientPhase::Resuming => input is Sent,
            ResilientPhase::Passing
            | ResilientPhase::Reporting
            | ResilientPhase::GivingUp => input is Delivered,
            ResilientPhase::Waiting => input is Slept,
            ResilientPhase::Loading => input is Loaded,
            ResilientPhase::Connecting => input is Connected,
            ResilientPhase::Stopped => false,
        }
    }

    /// The same intent and wait in another phase.
    pub open spec fn at(self, phase: ResilientPhase) -> ResilientState {
        ResilientState { phase, ..self }
    }

    /// The state of a client that was just connected.
    pub fn new() -> (state: ResilientState)
        ensures
            state.wf(),
            state == (ResilientState {
                phase: ResilientPhase::Listening,
                should_find: false,
                backoff_ms: FIRST_BACKOFF_MS,
            }),
    {
        ResilientState {
            phase: ResilientPhase::Listening,
            should_find: false,
            backoff_ms: FIRST_BACKOFF_MS,
        }
    }
}

/// What a client does, and its state then, after an input that it expects.
pub open spec fn resilient_next(state: ResilientState, input: ResilientInput) -> (
    ResilientState,
    ResilientAction,
) {
    let stopped = (state.at(ResilientPhase::Stopped), ResilientAction::Stop);
    let waiting = (state.at(ResilientPhase::Waiting), ResilientAction::Sleep(state.backoff_ms));
    let listening = (state.at(ResilientPhase::Listening), ResilientAction::Listen);
    let settled = (
        ResilientState {
            phase: ResilientPhase::Listening,
            backoff_ms: FIRST_BACKOFF_MS,
            ..state
        },
        ResilientAction::Listen,
    );
    match (state.phase, input) {
        (ResilientPhase::Listening, ResilientInput::Command(Some(Command::Close))) => (
            state.at(ResilientPhase::Closing),
            ResilientAction::Send(Command::Close),
        ),
        (ResilientPhase::Listening, ResilientInput::Command(Some(command))) => (
            ResilientState {
                phase: ResilientPhase::Forwarding,
                should_find: wanted_after_command(state.should_find, command),
                ..state
            },
            ResilientAction::Send(command),
        ),
        (ResilientPhase::Listening, ResilientInput::Event(Some(Ok(event)))) => (
            ResilientState {
                phase: ResilientPhase::Passing,
                should_find: wanted_after_event(state.should_find, event),
                ..state
            },
            ResilientAction::Deliver(Ok(event)),
        ),
        (ResilientPhase::Listening, ResilientInput::Event(Some(Err(error)))) => (
            state.at(ResilientPhase::Reporting),
            ResilientAction::Deliver(Err(error)),
        ),
        (ResilientPhase::Listening, ResilientInput::Event(None)) => waiting,
        (ResilientPhase::Forwarding, ResilientInput::Sent(Ok(_))) => listening,
        (ResilientPhase::Forwarding, ResilientInput::Sent(Err(error))) => (
            state.at(ResilientPhase::Reporting),
            ResilientAction::Deliver(Err(error)),
        ),
        (ResilientPhase::Passing, ResilientInput::Delivered(true)) => listening,
        (ResilientPhase::Reporting, ResilientInput::Delivered(true)) => waiting,
        (ResilientPhase::Waiting, ResilientInput::Slept) => (
            state.at(ResilientPhase::Loading),
            ResilientAction::LoadIdentity,
        ),
        (ResilientPhase::Loading, ResilientInput::Loaded(Ok(_))) => (
            state.at(ResilientPhase::Connecting),
            ResilientAction::Connect,
        ),
        (ResilientPhase::Loading, ResilientInput::Loaded(Err(error))) => (
            state.at(ResilientPhase::GivingUp),
            ResilientAction::Deliver(Err(error)),
        ),
        (ResilientPhase::Connecting, ResilientInput::Connected(true)) => if state.should_find {
            (state.at(ResilientPhase::Resuming), ResilientAction::Send(Command::Find))
        } else {
            settled
        },
        (ResilientPhase::Connecting, ResilientInput::Connected(false)) => (
            ResilientState {
                phase: ResilientPhase::Waiting,
                backoff_ms: doubled(state.backoff_ms),
                ..state
            },
            ResilientAction::Sleep(doubled(state.backoff_ms)),
        ),
        (ResilientPhase::Resuming, ResilientInput::Sent(Ok(_))) => settled,
        (ResilientPhase::Resuming, ResilientInput::Sent(Err(_))) => waiting,
        _ => stopped,
    }
}

fn stop(state: &mut ResilientState) -> (action: ResilientAction)
    ensures
        *final(state) == old(state).at(ResilientPhase::Stopped),
        action is Stop,
{
    state.phase = ResilientPhase::Stopped;
    ResilientAction::Stop
}

fn wait(state: &mut ResilientState) -> (action: ResilientAction)
    ensures
        *final(state) == old(state).at(ResilientPhase::Waiting),
        action == ResilientAction::Sleep(old(state).backoff_ms),
{
    state.phase = ResilientPhase::Waiting;
    ResilientAction::Sleep(state.backoff_ms)
}

fn listen(state: &mut ResilientState) -> (action: ResilientAction)
    ensures
        *final(state) == old(state).at(ResilientPhase::Listening),
        action is Listen,
{
    state.phase = ResilientPhase::Listening;
    ResilientAction::Listen
}

fn deliver_error(state: &mut ResilientState, phase: ResilientPhase, error: ClientError) -> (action:
    ResilientAction)
    ensures
        *final(state) == old(state).at(phase),
        action == ResilientAction::Deliver(Err(error)),
{
    state.phase = phase;
    ResilientAction::Deliver(Err(error))
}

/// Takes an input and says what to do next.
pub fn resilient_step(state: &mut ResilientState, input: ResilientInput) -> (action:
    ResilientAction)
    requires
        old(state).wf(),
        old(state).expects(input),
    ensures
        final(state).wf(),
        (*final(state), action) == resilient_next(*old(state), input),
{
    match input {
        ResilientInput::Command(None) => stop(state),
        ResilientInput::Command(Some(Command::Close)) => {
            state.phase = ResilientPhase::Closing;
            ResilientAction::Send(Command::Close)
        },
        ResilientInput::Command(Some(command)) => {
            state.phase = ResilientPhase::Forwarding;
            state.should_find = want_after_command(state.should_find, &command);
            ResilientAction::Send(command)
        },
        ResilientInput::Event(None) => wait(state),
        ResilientInput::Event(Some(Ok(event))) => {
            state.phase = ResilientPhase::Passing;
            state.should_find = want_after_event(state.should_find, &event);
            ResilientAction::Deliver(Ok(event))
        },
        ResilientInput::Event(Some(Err(error))) => deliver_error(
            state,
            ResilientPhase::Reporting,
            error,
        ),
        ResilientInput::Sent(sent) => match (state.phase, sent) {
            (ResilientPhase::Forwarding, Ok(_)) => listen(state),
            (ResilientPhase::Forwarding, Err(error)) => deliver_error(
                state,
                ResilientPhase::Reporting,
                error,
            ),
            (ResilientPhase::Resuming, Ok(_)) => {
                state.backoff_ms = FIRST_BACKOFF_MS;
                listen(state)
            },
            (ResilientPhase::Resuming, Err(_)) => wait(state),
            _ => stop(state),
        },
        ResilientInput::Delivered(taken) => match (state.phase, taken) {
            (ResilientPhase::Passing, true) => listen(state),
            (ResilientPhase::Reporting, true) => wait(state),
            _ => stop(state),
        },
        ResilientInput::Slept => {
            state.phase = ResilientPhase::Loading;
            ResilientAction::LoadIdentity
        },
        ResilientInput::Loaded(Ok(_)) => {
            state.phase = ResilientPhase::Connecting;
            ResilientAction::Connect
        },
        ResilientInput::Loaded(Err(error)) => deliver_error(
            state,
            ResilientPhase::GivingUp,
            error,
        ),
        ResilientInput::Connected(true) => if state.should_find {
            state.phase = ResilientPhase::Resuming;
            ResilientAction::Send(Command::Find)
        } else {
            state.backoff_ms = FIRST_BACKOFF_MS;
            listen(state)
        },
        ResilientInput::Connected(false) => {
            state.backoff_ms = next_backoff(state.backoff_ms);
            wait(state)
        },
    }
}

/// Law: a client that is told to close hands that on and stops, whatever becomes of it.
pub proof fn law_close_stops(state: ResilientState, sent: Result<(), ClientError>)
    requires
        state.wf(),
        state.phase == ResilientPhase::Listening,
    ensures
        ({
            let (closing, action) = resilient_next(
                state,
                ResilientInput::Command(Some(Command::Close)),
            );
            &&& action == ResilientAction::Send(Command::Close)
            &&& closing.expects(ResilientInput::Sent(sent))
            &&& resilient_next(closing, ResilientInput::Sent(sent)).1 is Stop
        }),
{
}

/// Law: once a new connection stands, the client asks for a peer exactly where one was wanted
/// before it listens, and the next loss is answered by the first wait again.
pub proof fn law_reconnection_resumes(state: ResilientState)
    requires
        state.wf(),
        state.phase == ResilientPhase::Connecting,
    ensures
        ({
            let (next, action) = resilient_next(state, ResilientInput::Connected(true));
            let resumed = resilient_next(next, ResilientInput::Sent(Ok(())));
            &&& next.should_find == state.should_find
            &&& state.should_find ==> action == ResilientAction::Send(Command::Find)
                && resumed.1 is Listen && resumed.0.backoff_ms == FIRST_BACKOFF_MS
            &&& !state.should_find ==> action is Listen && next.backoff_ms == FIRST_BACKOFF_MS
        }),
{
}

/// Law: a lost connection is always answered by an attempt to connect again after the first wait,
/// unless the user is gone; the intent to find a peer survives the loss.
pub proof fn law_loss_is_answered(state: ResilientState, error: ClientError)
    requires
        state.wf(),
        state.phase == ResilientPhase::Listening,
    ensures
        ({
            let (lost, action) = resilient_next(state, ResilientInput::Event(Some(Err(error))));
            let (waiting, wait) = resilient_next(lost, ResilientInput::Delivered(true));
            let (loading, load) = resilient_next(waiting, ResilientInput::Slept);
            let (connecting, connect) = resilient_next(loading, ResilientInput::Loaded(Ok(())));
            &&& action == ResilientAction::Deliver(Err(error))
            &&& wait == ResilientAction::Sleep(FIRST_BACKOFF_MS)
            &&& load is LoadIdentity
            &&& connect is Connect
            &&& connecting.should_find == state.should_find
            &&& resilient_next(state, ResilientInput::Event(None)) == (waiting, wait)
        }),
{
}

/// Whether an input tells how an action went.
pub open spec fn resilient_answers(action: ResilientAction, input: ResilientInput) -> bool {
    match action {
        ResilientAction::Listen => input is Command || input is Event,
        ResilientAction::Send(_) => input is Sent,
        ResilientAction::Deliver(_) => input is Delivered,
        ResilientAction::Sleep(_) => input is Slept,
        ResilientAction::LoadIdentity => input is Loaded,
        ResilientAction::Connect => input is Connected,
        ResilientAction::Stop => false,
    }
}

/// Law: whoever does what the client says, and tells it how it went, tells it something that it
/// expects.
pub proof fn law_resilient_is_never_at_a_loss(
    state: ResilientState,
    input: ResilientInput,
    reply: ResilientInput,
)
    requires
        state.wf(),
        state.expects(input),
        resilient_answers(resilient_next(state, input).1, reply),
    ensures
        resilient_next(state, input).0.expects(reply),
{
}

/// Law: while the connection stands, a command of the user is handed on, and finding a peer or going
/// on to the next one have a peer wanted, leaving has none wanted. Once it was taken the client waits
/// again; where it could not be, the user is told why and the connection is made again. The end of
/// the commands ends the client.
pub proof fn law_commands_are_handed_on(state: ResilientState, command: Command, error: ClientError)
    requires
        state.phase == ResilientPhase::Listening,
        !(command is Close),
    ensures
        ({
            let (sending, send) = resilient_next(state, ResilientInput::Command(Some(command)));
            let (after, next) = resilient_next(sending, ResilientInput::Sent(Ok(())));
            let (failed, told) = resilient_next(sending, ResilientInput::Sent(Err(error)));
            let (waiting, wait) = resilient_next(failed, ResilientInput::Delivered(true));
            &&& send == ResilientAction::Send(command)
            &&& next is Listen && after.phase == ResilientPhase::Listening && after.backoff_ms
                == state.backoff_ms
            &&& after.should_find == match command {
                Command::Find | Command::Next => true,
                Command::Leave => false,
                _ => state.should_find,
            }
            &&& told == ResilientAction::Deliver(Err(error))
            &&& wait == ResilientAction::Sleep(state.backoff_ms) && waiting.phase
                == ResilientPhase::Waiting && waiting.should_find == after.should_find
            &&& resilient_next(state, ResilientInput::Command(None)).1 is Stop
        }),
{
}

/// Law: an event is handed to the user, and tells whether a peer is wanted from then on: one is from
/// the search until the peer has left. The client ends where the user takes no more.
pub proof fn law_events_are_handed_on(state: ResilientState, event: ChatEvent)
    requires
        state.phase == ResilientPhase::Listening,
    ensures
        ({
            let (passing, pass) = resilient_next(state, ResilientInput::Event(Some(Ok(event))));
            let (after, next) = resilient_next(passing, ResilientInput::Delivered(true));
            &&& pass == ResilientAction::Deliver(Ok(event))
            &&& next is Listen && after.phase == ResilientPhase::Listening && after.backoff_ms
                == state.backoff_ms
            &&& after.should_find == match event {
                ChatEvent::Searching => true,
                ChatEvent::Matched { .. } => true,
                ChatEvent::PeerLeft { .. } => false,
                _ => state.should_find,
            }
            &&& resilient_next(passing, ResilientInput::Delivered(false)).1 is Stop
        }),
{
}

/// Law: after a wait the identity is loaded and the connection tried; each attempt that fails
/// doubles the wait up to half a minute, and one that stands sets it back to half a second once a
/// peer that was wanted was asked for. The wait is taken again where that could not be sent. Where
/// the identity cannot be loaded the user is told why and the client ends.
pub proof fn law_attempts_go_on(state: ResilientState, error: ClientError, taken: bool)
    ensures
        state.phase == ResilientPhase::Waiting ==> resilient_next(state, ResilientInput::Slept) == (
            ResilientState { phase: ResilientPhase::Loading, ..state },
            ResilientAction::LoadIdentity,
        ),
        state.phase == ResilientPhase::Loading ==> resilient_next(
            state,
            ResilientInput::Loaded(Ok(())),
        ) == (
            ResilientState { phase: ResilientPhase::Connecting, ..state },
            ResilientAction::Connect,
        ),
        state.phase == ResilientPhase::Loading ==> ({
            let (gone, told) = resilient_next(state, ResilientInput::Loaded(Err(error)));
            &&& told == ResilientAction::Deliver(Err(error))
            &&& resilient_next(gone, ResilientInput::Delivered(taken)).1 is Stop
        }),
        state.phase == ResilientPhase::Connecting ==> ({
            let longer = if state.backoff_ms <= 15_000 {
                (2 * state.backoff_ms) as u64
            } else {
                30_000
            };
            let (after, next) = resilient_next(state, ResilientInput::Connected(true));
            let settled = ResilientState {
                phase: ResilientPhase::Listening,
                backoff_ms: 500,
                ..state
            };
            &&& resilient_next(state, ResilientInput::Connected(false)) == (
                ResilientState {
                    phase: ResilientPhase::Waiting,
                    backoff_ms: longer,
                    ..state
                },
                ResilientAction::Sleep(longer),
            )
            &&& !state.should_find ==> (after, next) == (settled, ResilientAction::Listen)
            &&& state.should_find ==> next == ResilientAction::Send(Command::Find)
                && resilient_next(after, ResilientInput::Sent(Ok(()))) == (
                settled,
                ResilientAction::Listen,
            ) && resilient_next(after, ResilientInput::Sent(Err(error))) == (
                ResilientState { phase: ResilientPhase::Waiting, ..state },
                ResilientAction::Sleep(state.backoff_ms),
            )
        }),
{
}

/// Law: while it listens the client takes any command and any event, and otherwise what answers it;
/// a connection that stands has half a second as its next wait.
pub proof fn law_client_hears_what_it_waits_for(state: ResilientState, input: ResilientInput)
    ensures
        state.phase == ResilientPhase::Listening ==> (state.expects(input) <==> input is Command
            || input is Event),
        state.phase == ResilientPhase::Forwarding || state.phase == ResilientPhase::Closing
            || state.phase == ResilientPhase::Resuming ==> (state.expects(input)
            <==> input is Sent),
        state.phase == ResilientPhase::Passing || state.phase == ResilientPhase::Reporting
            || state.phase == ResilientPhase::GivingUp ==> (state.expects(input)
            <==> input is Delivered),
        state.phase == ResilientPhase::Waiting ==> (state.expects(input) <==> input is Slept),
        state.phase == ResilientPhase::Loading ==> (state.expects(input) <==> input is Loaded),
        state.phase == ResilientPhase::Connecting ==> (state.expects(input)
            <==> input is Connected),
        state.wf() ==> 500 <= state.backoff_ms <= 30_000,
        state.wf() && state.phase == ResilientPhase::Listening ==> state.backoff_ms == 500,
        500 <= state.backoff_ms <= 30_000 && !state.is_connected() ==> state.wf(),
{
}

} // verus!
