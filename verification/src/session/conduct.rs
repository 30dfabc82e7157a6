//! What holds of a session worker from a command or an event to what comes of it.

use vstd::prelude::*;
use vstd::string::*;
use vstd::utf8::encode_utf8;

use crate::backoff::{doubled, FIRST_BACKOFF_MS};
use crate::client::{client_error_text, CommandView, EventView};
use crate::session::network::{
    is_step, network_next, AfterPersist, InputView, NetworkAction, NetworkInput, NetworkLoop,
    NetworkOutput, NetworkPhase, NextView, Resume, StateChange, StepView, WorkerView,
};
use crate::session::{lemma_state_names, ActionView, RuntimeView, StatusView, StoredView};

verus! {

/// The step of a worker after an input, unfolded only where a single step is looked at.
#[verifier::opaque]
pub open spec fn step_after(worker: WorkerView, input: InputView) -> StepView {
    network_next(worker, input)
}

/// Law: the steps that are spoken of here are those that the worker takes.
pub proof fn law_steps_are_those_taken(worker: WorkerView, input: InputView)
    ensures
        step_after(worker, input) == network_next(worker, input),
{
    reveal(step_after);
}

proof fn lemma_command(worker: WorkerView, action: ActionView)
    requires
        worker.phase == NetworkPhase::Connected,
    ensures
        step_after(worker, InputView::Command(Some(action))) == worker.connected(action),
{
    reveal(step_after);
}

proof fn lemma_early_command(worker: WorkerView, action: Option<ActionView>)
    ensures
        worker.phase == NetworkPhase::Failed ==> step_after(worker, InputView::Command(action))
            == worker.unconnected(action, Resume::Failed),
        worker.phase == NetworkPhase::Connecting ==> step_after(
            worker,
            InputView::Command(action),
        ) == worker.unconnected(action, Resume::Connecting),
        worker.phase == NetworkPhase::Resting ==> step_after(worker, InputView::Command(action))
            == worker.unconnected(action, Resume::Resting),
{
    reveal(step_after);
}

proof fn lemma_sent(worker: WorkerView, change: StateChange, cause: Seq<char>)
    requires
        worker.phase == NetworkPhase::Sending(change),
    ensures
        step_after(worker, InputView::Sent(Ok(()))) == worker.sent(change),
        step_after(worker, InputView::Sent(Err(cause))) == worker.answers(
            Err(cause),
            Resume::Connected,
        ),
{
    reveal(step_after);
}

proof fn lemma_persisted(worker: WorkerView, after: AfterPersist, outcome: Result<(), Seq<char>>)
    requires
        worker.phase == NetworkPhase::Persisting(after),
    ensures
        step_after(worker, InputView::Persisted(outcome)) == (WorkerView {
            runtime: worker.runtime.after_persist(outcome),
            ..worker
        }).persisted(after),
{
    reveal(step_after);
}

proof fn lemma_answered(worker: WorkerView, resume: Resume)
    requires
        worker.phase == NetworkPhase::Answering(resume),
    ensures
        step_after(worker, InputView::Answered) == worker.resumes(resume),
{
    reveal(step_after);
}

proof fn lemma_event(worker: WorkerView, event: EventView)
    requires
        worker.phase == NetworkPhase::Connected,
    ensures
        step_after(worker, InputView::Event(Some(Ok(event)))) == (StepView {
            worker: WorkerView {
                phase: NetworkPhase::Recording(event is Ready),
                runtime: worker.runtime.after_event(event),
                ..worker
            },
            notify: false,
            next: NextView::Record(
                StoredView { cursor: (worker.status().last_cursor + 1) as u64, event },
            ),
        }),
{
    reveal(step_after);
}

proof fn lemma_recorded(worker: WorkerView, ready: bool, cause: Seq<char>)
    requires
        worker.phase == NetworkPhase::Recording(ready),
    ensures
        step_after(worker, InputView::Recorded(Ok(()))) == (StepView {
            notify: true,
            ..if ready && worker.runtime.searching_intent {
                worker.goes(NetworkPhase::Resuming, NextView::Send(CommandView::Find))
            } else {
                worker.goes(NetworkPhase::Connected, NextView::Listen)
            }
        }),
        step_after(worker, InputView::Recorded(Err(cause))) == worker.fails(
            "record session event: "@ + cause,
            AfterPersist::Stop,
        ),
{
    reveal(step_after);
}

proof fn lemma_loss(worker: WorkerView, input: InputView, cause: Seq<char>)
    requires
        worker.phase == NetworkPhase::Connecting && input == InputView::Connection(Err(cause))
            || worker.phase == NetworkPhase::Connected && input == InputView::Event(
            Some(Err(cause)),
        ) || worker.phase == NetworkPhase::Connected && input == InputView::Event(None) && cause
            == "connection closed"@ || worker.phase == NetworkPhase::Resuming && input
            == InputView::Sent(Err(cause)),
    ensures
        step_after(worker, input) == worker.loses(cause),
{
    reveal(step_after);
}

proof fn lemma_attempt(worker: WorkerView, cause: Seq<char>)
    ensures
        worker.phase == NetworkPhase::Resting ==> step_after(worker, InputView::Slept) == (
        WorkerView { backoff_ms: doubled(worker.backoff_ms), ..worker }).goes(
            NetworkPhase::LoadingIdentity,
            NextView::LoadIdentity,
        ),
        worker.phase == NetworkPhase::LoadingConfig ==> step_after(
            worker,
            InputView::Config(Ok(())),
        ) == worker.goes(NetworkPhase::LoadingIdentity, NextView::LoadIdentity),
        worker.phase == NetworkPhase::LoadingConfig ==> step_after(
            worker,
            InputView::Config(Err(cause)),
        ) == worker.fails(cause, AfterPersist::AwaitClose),
        worker.phase == NetworkPhase::LoadingIdentity ==> step_after(
            worker,
            InputView::Identity(Ok(())),
        ) == worker.goes(NetworkPhase::Connecting, NextView::Connect),
        worker.phase == NetworkPhase::LoadingIdentity ==> step_after(
            worker,
            InputView::Identity(Err(cause)),
        ) == worker.fails(cause, AfterPersist::AwaitClose),
        worker.phase == NetworkPhase::Connecting ==> step_after(
            worker,
            InputView::Connection(Ok(())),
        ) == (WorkerView { backoff_ms: FIRST_BACKOFF_MS, ..worker }).goes(
            NetworkPhase::Connected,
            NextView::Listen,
        ),
        worker.phase == NetworkPhase::Resuming ==> step_after(worker, InputView::Sent(Ok(())))
            == worker.goes(NetworkPhase::Connected, NextView::Listen),
{
    reveal(step_after);
}

/// Law: while there is a connection, each action is sent as the command of its own name where the
/// session's state allows it, and changes nothing before the command was sent but whether a peer is
/// sought. An action that the state does not allow is refused by its name and the state, and one
/// that is done already is answered by the status; both leave the worker listening as it was.
pub proof fn law_actions_become_commands(worker: WorkerView, action: ActionView)
    requires
        worker.phase == NetworkPhase::Connected,
    ensures
        ({
            let state = worker.status().state;
            let step = step_after(worker, InputView::Command(Some(action)));
            let after = step_after(step.worker, InputView::Answered);
            let refused = match action {
                ActionView::Find => state != "ready"@ && state != "peer_left"@,
                ActionView::Message(_) | ActionView::Next => state != "matched"@,
                _ => false,
            };
            let idle = match action {
                ActionView::Leave => state != "searching"@ && state != "matched"@,
                ActionView::Cancel => state != "searching"@,
                _ => false,
            };
            &&& !step.notify
            &&& step.worker.backoff_ms == worker.backoff_ms
            &&& step.worker.runtime.metadata == worker.runtime.metadata
            &&& refused ==> step.next == NextView::Answer(
                Err(
                    (match action {
                        ActionView::Find => "find"@,
                        ActionView::Next => "next"@,
                        _ => "message"@,
                    }) + " is not valid while session is "@ + state,
                ),
            )
            &&& idle ==> step.next == NextView::Answer(Ok(worker.status()))
            &&& refused || idle ==> step.worker.runtime == worker.runtime && after.worker == worker
                && after.next is Listen
            &&& !refused && !idle ==> step.next == NextView::Send(
                match action {
                    ActionView::Find => CommandView::Find,
                    ActionView::Message(content) => CommandView::Message(encode_utf8(content)),
                    ActionView::Next => CommandView::Next,
                    ActionView::Leave => if state == "searching"@ {
                        CommandView::Cancel
                    } else {
                        CommandView::Leave
                    },
                    ActionView::Cancel => CommandView::Cancel,
                    ActionView::Close => CommandView::Close,
                },
            )
            &&& !refused && !idle ==> step.worker.runtime.searching_intent == match action {
                ActionView::Find | ActionView::Next => true,
                ActionView::Message(_) => worker.runtime.searching_intent,
                _ => false,
            }
        }),
{
    lemma_state_names();
    lemma_command(worker, action);
    let step = step_after(worker, InputView::Command(Some(action)));
    if step.next is Answer {
        lemma_answered(step.worker, Resume::Connected);
    }
}

/// Law: a command that could not be sent is answered by the error, and the worker goes on listening
/// with the status that it had, whatever the command was.
pub proof fn law_unsent_commands_change_no_status(
    worker: WorkerView,
    action: ActionView,
    cause: Seq<char>,
)
    requires
        worker.phase == NetworkPhase::Connected,
        step_after(worker, InputView::Command(Some(action))).next is Send,
    ensures
        ({
            let step = step_after(worker, InputView::Command(Some(action)));
            let unsent = step_after(step.worker, InputView::Sent(Err(cause)));
            let after = step_after(unsent.worker, InputView::Answered);
            &&& unsent.next == NextView::Answer(Err(cause))
            &&& after.next is Listen
            &&& after.worker.phase == NetworkPhase::Connected
            &&& after.worker.runtime.metadata == worker.runtime.metadata
            &&& after.worker.backoff_ms == worker.backoff_ms
        }),
{
    lemma_command(worker, action);
    let step = step_after(worker, InputView::Command(Some(action)));
    lemma_sent(step.worker, step.worker.phase->Sending_0, cause);
    let unsent = step_after(step.worker, InputView::Sent(Err(cause)));
    lemma_answered(unsent.worker, Resume::Connected);
}

/// Law: only the command to close ends the worker or makes a session closed. Once the command of an
/// action was sent, finding a peer and sending a message are answered by the status as it was;
/// giving up a search makes it ready and leaving a match makes it leaving, with all else as it was;
/// closing takes it out of its conversation. The status is written and those who wait are woken
/// before the answer, which notes where it could not be written, and after it the worker goes on
/// listening unless it was told to close.
pub proof fn law_only_closing_ends_a_session(
    worker: WorkerView,
    action: ActionView,
    outcome: Result<(), Seq<char>>,
)
    requires
        worker.phase == NetworkPhase::Connected,
        step_after(worker, InputView::Command(Some(action))).next is Send,
    ensures
        ({
            let before = worker.status();
            let step = step_after(worker, InputView::Command(Some(action)));
            let sent = step_after(step.worker, InputView::Sent(Ok(())));
            let keeps = action is Find || action is Message;
            let answered = if keeps {
                sent
            } else {
                step_after(sent.worker, InputView::Persisted(outcome))
            };
            let after = step_after(answered.worker, InputView::Answered);
            let error = match outcome {
                Ok(_) => before.last_error,
                Err(cause) => Some("persist session state: "@ + cause),
            };
            let status = match action {
                ActionView::Find | ActionView::Message(_) => before,
                ActionView::Close => StatusView {
                    state: "closed"@,
                    conversation_id: None,
                    peer_agent_id: None,
                    visibility: None,
                    last_error: error,
                    ..before
                },
                _ => StatusView {
                    state: if before.state == "searching"@ {
                        "ready"@
                    } else {
                        "leaving"@
                    },
                    last_error: error,
                    ..before
                },
            };
            &&& !keeps ==> sent.next is Persist && !sent.notify && answered.notify
            &&& answered.next == NextView::Answer(Ok(status))
            &&& after.worker.status() == status
            &&& after.worker.backoff_ms == worker.backoff_ms
            &&& after.worker.runtime.searching_intent == step.worker.runtime.searching_intent
            &&& action is Close ==> after.next is Stop && after.worker.phase
                == NetworkPhase::Stopped
            &&& !(action is Close) ==> after.next is Listen && after.worker.phase
                == NetworkPhase::Connected && (before.state != "closed"@ ==> status.state
                != "closed"@)
        }),
{
    lemma_state_names();
    lemma_command(worker, action);
    let step = step_after(worker, InputView::Command(Some(action)));
    let change = step.worker.phase->Sending_0;
    lemma_sent(step.worker, change, Seq::empty());
    let sent = step_after(step.worker, InputView::Sent(Ok(())));
    let resume = if action is Close {
        Resume::Stopped
    } else {
        Resume::Connected
    };
    if action is Find || action is Message {
        assert(change == StateChange::Keep);
        lemma_answered(sent.worker, resume);
    } else {
        lemma_persisted(sent.worker, AfterPersist::Answer(resume), outcome);
        let written = step_after(sent.worker, InputView::Persisted(outcome));
        lemma_answered(written.worker, resume);
    }
}

/// Law: an event is written with the next place in the log and with the status that it leads to:
/// ready under the agent's name, searching, matched with the conversation, the peer and the
/// visibility, or left alone by the peer; any other event changes nothing but the place. The last
/// error is forgotten. A peer is sought from the start of a search until there is a match or the
/// peer has left.
pub proof fn law_events_change_the_status(worker: WorkerView, event: EventView)
    requires
        worker.phase == NetworkPhase::Connected,
        worker.status().last_cursor < u64::MAX,
    ensures
        ({
            let before = worker.status();
            let step = step_after(worker, InputView::Event(Some(Ok(event))));
            let cursor = (before.last_cursor + 1) as u64;
            let counted = StatusView { last_cursor: cursor, last_error: None, ..before };
            &&& step.next == NextView::Record(StoredView { cursor, event })
            &&& !step.notify
            &&& step.worker.backoff_ms == worker.backoff_ms
            &&& step.worker.status() == match event {
                EventView::Ready { agent_id } => StatusView {
                    state: "ready"@,
                    agent_id: Some(agent_id),
                    ..counted
                },
                EventView::Searching => StatusView { state: "searching"@, ..counted },
                EventView::Matched { conversation_id, peer_agent_id, visibility } => StatusView {
                    state: "matched"@,
                    conversation_id: Some(conversation_id),
                    peer_agent_id: Some(peer_agent_id),
                    visibility: Some(visibility),
                    ..counted
                },
                EventView::PeerLeft { .. } => StatusView {
                    state: "peer_left"@,
                    conversation_id: None,
                    peer_agent_id: None,
                    visibility: None,
                    ..counted
                },
                _ => counted,
            }
            &&& step.worker.runtime.searching_intent == match event {
                EventView::Searching => true,
                EventView::Matched { .. } | EventView::PeerLeft { .. } => false,
                _ => worker.runtime.searching_intent,
            }
        }),
{
    lemma_event(worker, event);
}

/// Law: once an event was written, those who wait are woken and the worker goes on listening, but
/// for a server that is ready while a peer is sought: that is asked for one first. An event that
/// could not be written makes the session fail, and the worker ends once that was noted.
pub proof fn law_recorded_events_are_announced(
    worker: WorkerView,
    event: EventView,
    cause: Seq<char>,
    outcome: Result<(), Seq<char>>,
)
    requires
        worker.phase == NetworkPhase::Connected,
        worker.status().last_cursor < u64::MAX,
    ensures
        ({
            let step = step_after(worker, InputView::Event(Some(Ok(event))));
            let done = step_after(step.worker, InputView::Recorded(Ok(())));
            let asks = event is Ready && worker.runtime.searching_intent;
            let spoilt = step_after(step.worker, InputView::Recorded(Err(cause)));
            let noted = step_after(spoilt.worker, InputView::Persisted(outcome));
            &&& done.notify
            &&& done.worker.runtime == step.worker.runtime
            &&& asks ==> done.next == NextView::Send(CommandView::Find)
            &&& asks ==> step_after(done.worker, InputView::Sent(Ok(()))).next is Listen
            &&& !asks ==> done.next is Listen && done.worker.phase == NetworkPhase::Connected
            &&& spoilt.next is Persist
            &&& spoilt.worker.status() == (StatusView {
                state: "failed"@,
                last_error: Some("record session event: "@ + cause),
                ..step.worker.status()
            })
            &&& noted.notify && noted.next is Stop && noted.worker.phase == NetworkPhase::Stopped
        }),
{
    lemma_event(worker, event);
    let step = step_after(worker, InputView::Event(Some(Ok(event))));
    lemma_recorded(step.worker, event is Ready, cause);
    let done = step_after(step.worker, InputView::Recorded(Ok(())));
    lemma_attempt(done.worker, cause);
    let spoilt = step_after(step.worker, InputView::Recorded(Err(cause)));
    lemma_persisted(spoilt.worker, AfterPersist::Stop, outcome);
}

/// Law: a connection that is lost or cannot be made is made again. The status then says that the
/// session starts, outside of any conversation, and why; it is written, those who wait are woken,
/// and after the wait, which doubles up to half a minute, the identity is loaded and the connection
/// tried. One that stands has the worker listen, with half a second as its next wait. What is sought
/// stays.
pub proof fn law_lost_connections_are_made_again(
    worker: WorkerView,
    input: InputView,
    cause: Seq<char>,
    outcome: Result<(), Seq<char>>,
)
    requires
        worker.wf(),
        worker.phase == NetworkPhase::Connecting && input == InputView::Connection(Err(cause))
            || worker.phase == NetworkPhase::Connected && input == InputView::Event(
            Some(Err(cause)),
        ) || worker.phase == NetworkPhase::Connected && input == InputView::Event(None) && cause
            == "connection closed"@ || worker.phase == NetworkPhase::Resuming && input
            == InputView::Sent(Err(cause)),
    ensures
        ({
            let lost = step_after(worker, input);
            let noted = step_after(lost.worker, InputView::Persisted(outcome));
            let rested = step_after(noted.worker, InputView::Slept);
            let loaded = step_after(rested.worker, InputView::Identity(Ok(())));
            let stands = step_after(loaded.worker, InputView::Connection(Ok(())));
            let status = StatusView {
                state: "starting"@,
                conversation_id: None,
                peer_agent_id: None,
                visibility: None,
                last_error: Some(
                    match outcome {
                        Ok(_) => cause,
                        Err(fault) => "persist session state: "@ + fault,
                    },
                ),
                ..worker.status()
            };
            &&& lost.next is Persist && !lost.notify
            &&& lost.worker.status() == (StatusView { last_error: Some(cause), ..status })
            &&& noted.notify && noted.next == NextView::Rest(worker.backoff_ms)
            &&& noted.worker.status() == status
            &&& rested.next is LoadIdentity
            &&& rested.worker.backoff_ms == if worker.backoff_ms <= 15_000 {
                2 * worker.backoff_ms
            } else {
                30_000
            }
            &&& loaded.next is Connect
            &&& stands.next is Listen && stands.worker.phase == NetworkPhase::Connected
            &&& stands.worker.backoff_ms == 500
            &&& stands.worker.status() == status
            &&& stands.worker.runtime.searching_intent == worker.runtime.searching_intent
        }),
{
    lemma_loss(worker, input, cause);
    let lost = step_after(worker, input);
    lemma_persisted(lost.worker, AfterPersist::Rest, outcome);
    let noted = step_after(lost.worker, InputView::Persisted(outcome));
    lemma_attempt(noted.worker, cause);
    let rested = step_after(noted.worker, InputView::Slept);
    lemma_attempt(rested.worker, cause);
    let loaded = step_after(rested.worker, InputView::Identity(Ok(())));
    lemma_attempt(loaded.worker, cause);
}

/// Law: a worker without a configuration or an identity fails with the reason, writes that, wakes
/// those who wait, and waits for the command to close; with both it connects.
pub proof fn law_worker_needs_configuration_and_identity(
    worker: WorkerView,
    cause: Seq<char>,
    outcome: Result<(), Seq<char>>,
)
    requires
        worker.phase == NetworkPhase::LoadingConfig,
    ensures
        ({
            let bare = step_after(worker, InputView::Config(Err(cause)));
            let read = step_after(worker, InputView::Config(Ok(())));
            let nameless = step_after(read.worker, InputView::Identity(Err(cause)));
            let noted = step_after(nameless.worker, InputView::Persisted(outcome));
            let status = StatusView {
                state: "failed"@,
                last_error: Some(cause),
                ..worker.status()
            };
            &&& read.next is LoadIdentity && read.worker.runtime == worker.runtime
            &&& step_after(read.worker, InputView::Identity(Ok(()))).next is Connect
            &&& bare.next is Persist && bare.worker.status() == status
            &&& nameless.next is Persist && nameless.worker.status() == status
            &&& nameless.worker.phase == bare.worker.phase
            &&& noted.notify && noted.next is AwaitClose && noted.worker.phase
                == NetworkPhase::Failed
        }),
{
    lemma_attempt(worker, cause);
    let read = step_after(worker, InputView::Config(Ok(())));
    lemma_attempt(read.worker, cause);
    let nameless = step_after(read.worker, InputView::Identity(Err(cause)));
    lemma_persisted(nameless.worker, AfterPersist::AwaitClose, outcome);
}

/// Law: while there is no connection, the command to close makes the session closed and takes it out
/// of its conversation; any other command is refused in fixed words, and the worker goes on waiting
/// for what it waited for.
pub proof fn law_unconnected_commands_in_words(
    worker: WorkerView,
    action: ActionView,
    outcome: Result<(), Seq<char>>,
)
    requires
        worker.phase == NetworkPhase::Failed || worker.phase == NetworkPhase::Connecting
            || worker.phase == NetworkPhase::Resting,
    ensures
        ({
            let first = step_after(worker, InputView::Command(Some(action)));
            let written = step_after(first.worker, InputView::Persisted(outcome));
            let after = step_after(first.worker, InputView::Answered);
            &&& action is Close ==> written.next == NextView::Answer(
                Ok(
                    StatusView {
                        state: "closed"@,
                        conversation_id: None,
                        peer_agent_id: None,
                        visibility: None,
                        last_error: match outcome {
                            Ok(_) => worker.status().last_error,
                            Err(cause) => Some("persist session state: "@ + cause),
                        },
                        ..worker.status()
                    },
                ),
            )
            &&& !(action is Close) ==> first.next == NextView::Answer(
                Err("session is not connected; inspect status and events before retrying"@),
            )
            &&& !(action is Close) ==> after.worker == worker && match worker.phase {
                NetworkPhase::Failed => after.next is AwaitClose,
                NetworkPhase::Connecting => after.next is AwaitConnection,
                _ => after.next is AwaitRest,
            }
        }),
{
    lemma_early_command(worker, Some(action));
    let first = step_after(worker, InputView::Command(Some(action)));
    if action is Close {
        lemma_persisted(first.worker, AfterPersist::Answer(Resume::Stopped), outcome);
    } else {
        lemma_answered(first.worker, first.worker.phase->Answering_0);
    }
}

/// Law: the end of the commands ends the worker: at once where there is no connection, and
/// otherwise once the server was told to close, whether or not it still hears of it.
pub proof fn law_end_of_commands_ends_the_worker(worker: WorkerView, sent: Result<(), Seq<char>>)
    ensures
        worker.phase == NetworkPhase::Failed || worker.phase == NetworkPhase::Connecting
            || worker.phase == NetworkPhase::Resting ==> step_after(
            worker,
            InputView::Command(None),
        ).next is Stop,
        worker.phase == NetworkPhase::Connected ==> ({
            let closing = step_after(worker, InputView::Command(None));
            &&& closing.next == NextView::Send(CommandView::Close)
            &&& closing.worker.runtime == worker.runtime
            &&& step_after(closing.worker, InputView::Sent(sent)).next is Stop
        }),
{
    lemma_early_command(worker, None);
    reveal(step_after);
}

/// Law: a worker that waits for a command takes any command, one that is connected takes any event
/// too, and one that was answered takes whatever the answer is.
pub proof fn law_worker_hears_what_it_waits_for(worker: WorkerView, input: InputView)
    ensures
        worker.phase == NetworkPhase::Connected ==> (worker.expects(input) <==> input is Command
            || input is Event),
        worker.phase == NetworkPhase::Connecting ==> (worker.expects(input) <==> input is Command
            || input is Connection),
        worker.phase == NetworkPhase::Resting ==> (worker.expects(input) <==> input is Command
            || input is Slept),
        worker.phase == NetworkPhase::Failed ==> (worker.expects(input) <==> input is Command),
        worker.phase == NetworkPhase::LoadingConfig ==> (worker.expects(input)
            <==> input is Config),
        worker.phase == NetworkPhase::LoadingIdentity ==> (worker.expects(input)
            <==> input is Identity),
        worker.phase is Persisting ==> (worker.expects(input) <==> input is Persisted),
        worker.phase is Sending ==> (worker.expects(input) <==> input is Sent),
        worker.phase is Recording ==> (worker.expects(input) <==> input is Recorded),
        worker.phase is Answering ==> (worker.expects(input) <==> input is Answered),
        worker.has_room(input) <==> worker.runtime.metadata.status.last_cursor < u64::MAX || !(
        input matches InputView::Event(Some(Ok(_)))),
{
}

/// Law: a step that was taken shows in the loop, in the session and in the output.
pub proof fn law_steps_show(
    step: StepView,
    network: NetworkLoop,
    runtime: RuntimeView,
    output: NetworkOutput,
)
    requires
        is_step(step, network, runtime, output),
    ensures
        network.phase == step.worker.phase,
        network.backoff_ms == step.worker.backoff_ms,
        runtime == step.worker.runtime,
        output.notify == step.notify,
        match output.action {
            NetworkAction::LoadIdentity => step.next is LoadIdentity,
            NetworkAction::Connect => step.next is Connect,
            NetworkAction::AwaitConnection => step.next is AwaitConnection,
            NetworkAction::Listen => step.next is Listen,
            NetworkAction::AwaitClose => step.next is AwaitClose,
            NetworkAction::Rest(backoff_ms) => step.next == NextView::Rest(backoff_ms),
            NetworkAction::AwaitRest => step.next is AwaitRest,
            NetworkAction::Persist => step.next is Persist,
            NetworkAction::Record(stored) => step.next == NextView::Record(stored@),
            NetworkAction::Send(command) => step.next == NextView::Send(command@),
            NetworkAction::Answer(Ok(status)) => step.next == NextView::Answer(Ok(status@)),
            NetworkAction::Answer(Err(cause)) => step.next == NextView::Answer(Err(cause@)),
            NetworkAction::Stop => step.next is Stop,
        },
{
}

/// Law: what happened is told as it was, with errors in their words.
pub proof fn law_inputs_tell_what_happened(input: NetworkInput)
    ensures
        match input {
            NetworkInput::Config(outcome) => (input@ matches InputView::Config(told)
                && told is Ok == outcome is Ok && (outcome matches Err(error) ==> told == Err::<(), _>(
                client_error_text(error),
            ))),
            NetworkInput::Identity(outcome) => (input@ matches InputView::Identity(told)
                && told is Ok == outcome is Ok && (outcome matches Err(error) ==> told == Err::<(), _>(
                client_error_text(error),
            ))),
            NetworkInput::Connection(outcome) => (input@ matches InputView::Connection(told)
                && told is Ok == outcome is Ok && (outcome matches Err(error) ==> told == Err::<(), _>(
                client_error_text(error),
            ))),
            NetworkInput::Command(None) => input@ == InputView::Command(None),
            NetworkInput::Command(Some(action)) => input@ == InputView::Command(Some(action@)),
            NetworkInput::Event(None) => input@ == InputView::Event(None),
            NetworkInput::Event(Some(Ok(event))) => input@ == InputView::Event(Some(Ok(event@))),
            NetworkInput::Event(Some(Err(error))) => input@ == InputView::Event(
                Some(Err(client_error_text(error))),
            ),
            NetworkInput::Slept => input@ == InputView::Slept,
            NetworkInput::Sent(outcome) => (input@ matches InputView::Sent(told) && told is Ok
                == outcome is Ok && (outcome matches Err(error) ==> told == Err::<(), _>(
                client_error_text(error),
            ))),
            NetworkInput::Persisted(outcome) => (input@ matches InputView::Persisted(told)
                && told is Ok == outcome is Ok && (outcome matches Err(cause) ==> told == Err::<(), _>(
                cause@,
            ))),
            NetworkInput::Recorded(outcome) => (input@ matches InputView::Recorded(told)
                && told is Ok == outcome is Ok && (outcome matches Err(cause) ==> told == Err::<(), _>(
                cause@,
            ))),
            NetworkInput::Answered => input@ == InputView::Answered,
        },
{
}

} // verus!
