//! Background sessions: what a session worker keeps, and how events and failures change it.

pub mod conduct;
pub mod control;
pub mod events;
pub mod listing;
pub mod network;

use vstd::prelude::*;
use vstd::string::*;

use crate::client::{ChatEvent, EventView};
use crate::ids::Uuid;
use crate::text::{copy_option, hex_text, join, option_view};

verus! {

/// What the user of a session asks for.
#[derive(Debug, Clone)]
pub enum SessionAction {
    Find,
    Message { content: String },
    Next,
    Leave,
    Cancel,
    Close,
}

/// What a worker keeps of its session.
#[derive(Debug, Clone)]
pub struct SessionMetadata {
    pub session_id: Uuid,
    pub token: String,
    pub port: u16,
    pub pid: u32,
    pub created_at_ms: u64,
    pub status: SessionStatus,
}

/// How a session stands.
#[derive(Debug)]
pub struct SessionStatus {
    pub session_id: Uuid,
    pub state: String,
    pub last_cursor: u64,
    pub agent_id: Option<String>,
    pub conversation_id: Option<Uuid>,
    pub peer_agent_id: Option<String>,
    pub visibility: Option<String>,
    pub last_error: Option<String>,
}

/// An event with its place in the session's log.
#[derive(Debug, Clone)]
pub struct StoredEvent {
    pub cursor: u64,
    pub event: ChatEvent,
}

/// What a worker holds while it runs.
#[derive(Debug)]
pub struct RuntimeState {
    pub metadata: SessionMetadata,
    pub searching_intent: bool,
}

/// What an action says.
pub enum ActionView {
    Find,
    Message(Seq<char>),
    Next,
    Leave,
    Cancel,
    Close,
}

/// What a status says.
pub struct StatusView {
    pub session_id: Seq<u8>,
    pub state: Seq<char>,
    pub last_cursor: u64,
    pub agent_id: Option<Seq<char>>,
    pub conversation_id: Option<Seq<u8>>,
    pub peer_agent_id: Option<Seq<char>>,
    pub visibility: Option<Seq<char>>,
    pub last_error: Option<Seq<char>>,
}

/// What a worker keeps of its session.
pub struct MetadataView {
    pub session_id: Seq<u8>,
    pub token: Seq<char>,
    pub port: u16,
    pub pid: u32,
    pub created_at_ms: u64,
    pub status: StatusView,
}

/// What a stored event says.
pub struct StoredView {
    pub cursor: u64,
    pub event: EventView,
}

/// What a worker holds while it runs.
pub struct RuntimeView {
    pub metadata: MetadataView,
    pub searching_intent: bool,
}

impl View for SessionAction {
    type V = ActionView;

    open spec fn view(&self) -> ActionView {
        match self {
            SessionAction::Find => ActionView::Find,
            SessionAction::Message { content } => ActionView::Message(content@),
            SessionAction::Next => ActionView::Next,
            SessionAction::Leave => ActionView::Leave,
            SessionAction::Cancel => ActionView::Cancel,
            SessionAction::Close => ActionView::Close,
        }
    }
}

impl View for SessionStatus {
    type V = StatusView;

    open spec fn view(&self) -> StatusView {
        StatusView {
            session_id: self.session_id@,
            state: self.state@,
            last_cursor: self.last_cursor,
            agent_id: option_view(self.agent_id),
            conversation_id: option_view(self.conversation_id),
            peer_agent_id: option_view(self.peer_agent_id),
            visibility: option_view(self.visibility),
            last_error: option_view(self.last_error),
        }
    }
}

impl View for SessionMetadata {
    type V = MetadataView;

    open spec fn view(&self) -> MetadataView {
        MetadataView {
            session_id: self.session_id@,
            token: self.token@,
            port: self.port,
            pid: self.pid,
            created_at_ms: self.created_at_ms,
            status: self.status@,
        }
    }
}

impl View for StoredEvent {
    type V = StoredView;

    open spec fn view(&self) -> StoredView {
        StoredView { cursor: self.cursor, event: self.event@ }
    }
}

impl View for RuntimeState {
    type V = RuntimeView;

    open spec fn view(&self) -> RuntimeView {
        RuntimeView { metadata: self.metadata@, searching_intent: self.searching_intent }
    }
}

impl Clone for SessionStatus {
    fn clone(&self) -> (copy: Self)
        ensures
            copy@ == self@,
    {
        SessionStatus {
            session_id: self.session_id,
            state: self.state.clone(),
            last_cursor: self.last_cursor,
            agent_id: copy_option(&self.agent_id),
            conversation_id: self.conversation_id,
            peer_agent_id: copy_option(&self.peer_agent_id),
            visibility: copy_option(&self.visibility),
            last_error: copy_option(&self.last_error),
        }
    }
}

/// The status of a session that has just been made.
pub open spec fn starting_status(session_id: Seq<u8>) -> StatusView {
    StatusView {
        session_id,
        state: "starting"@,
        last_cursor: 0,
        agent_id: None,
        conversation_id: None,
        peer_agent_id: None,
        visibility: None,
        last_error: None,
    }
}

impl StatusView {
    /// The same status in another state.
    pub open spec fn in_state(self, state: Seq<char>) -> StatusView {
        StatusView { state, ..self }
    }

    /// The same status outside of any conversation.
    pub open spec fn alone(self) -> StatusView {
        StatusView { conversation_id: None, peer_agent_id: None, visibility: None, ..self }
    }

    /// The same status with an error noted.
    pub open spec fn with_error(self, error: Seq<char>) -> StatusView {
        StatusView { last_error: Some(error), ..self }
    }

    /// The status while the worker reconnects.
    pub open spec fn reconnecting(self, error: Seq<char>) -> StatusView {
        self.in_state("starting"@).alone().with_error(error)
    }

    /// The status once the worker has given up.
    pub open spec fn failed(self, error: Seq<char>) -> StatusView {
        self.in_state("failed"@).with_error(error)
    }

    /// The status once the session is closed.
    pub open spec fn closed(self) -> StatusView {
        self.in_state("closed"@).alone()
    }

    /// The status after the next event: one more entry in the log, no error, and what the event
    /// says of the connection and the conversation.
    pub open spec fn after_event(self, event: EventView) -> StatusView {
        let counted = StatusView {
            last_cursor: (self.last_cursor + 1) as u64,
            last_error: None,
            ..self
        };
        match event {
            EventView::Ready { agent_id } => StatusView {
                agent_id: Some(agent_id),
                ..counted.in_state("ready"@)
            },
            EventView::Searching => counted.in_state("searching"@),
            EventView::Matched { conversation_id, peer_agent_id, visibility } => StatusView {
                conversation_id: Some(conversation_id),
                peer_agent_id: Some(peer_agent_id),
                visibility: Some(visibility),
                ..counted.in_state("matched"@)
            },
            EventView::PeerLeft { .. } => counted.in_state("peer_left"@).alone(),
            _ => counted,
        }
    }
}

impl RuntimeView {
    /// The same worker with another status.
    pub open spec fn with_status(self, status: StatusView) -> RuntimeView {
        RuntimeView { metadata: MetadataView { status, ..self.metadata }, ..self }
    }

    /// The worker after the next event.
    pub open spec fn after_event(self, event: EventView) -> RuntimeView {
        RuntimeView {
            searching_intent: match event {
                EventView::Searching => true,
                EventView::Matched { .. } | EventView::PeerLeft { .. } => false,
                _ => self.searching_intent,
            },
            ..self.with_status(self.metadata.status.after_event(event))
        }
    }

    /// The worker after an attempt to write its status: a failure is noted.
    pub open spec fn after_persist(self, outcome: Result<(), Seq<char>>) -> RuntimeView {
        match outcome {
            Ok(_) => self,
            Err(cause) => self.with_status(
                self.metadata.status.with_error("persist session state: "@ + cause),
            ),
        }
    }
}

impl SessionStatus {
    /// The status of a session that has just been made.
    pub fn starting(session_id: Uuid) -> (status: SessionStatus)
        ensures
            status@ == starting_status(session_id@),
            status.session_id == session_id && status.state@ == "starting"@ && status.last_cursor
                == 0,
            status.agent_id is None && status.conversation_id is None && status.peer_agent_id is None
                && status.visibility is None && status.last_error is None,
    {
        SessionStatus {
            session_id,
            state: "starting".to_owned(),
            last_cursor: 0,
            agent_id: None,
            conversation_id: None,
            peer_agent_id: None,
            visibility: None,
            last_error: None,
        }
    }

    /// Takes the session out of its conversation.
    fn leave_conversation(&mut self)
        ensures
            final(self)@ == old(self)@.alone(),
    {
        self.conversation_id = None;
        self.peer_agent_id = None;
        self.visibility = None;
    }
}

impl SessionMetadata {
    /// What is written for a new session before its worker runs: no endpoint yet, and a token made
    /// of two fresh identifiers.
    pub fn new(session_id: Uuid, first: Uuid, second: Uuid, now_ms: u64) -> (metadata: Self)
        ensures
            metadata@ == (MetadataView {
                session_id: session_id@,
                token: hex_text(first@) + hex_text(second@),
                port: 0,
                pid: 0,
                created_at_ms: now_ms,
                status: starting_status(session_id@),
            }),
    {
        SessionMetadata {
            session_id,
            token: join(first.to_simple().as_str(), second.to_simple().as_str()),
            port: 0,
            pid: 0,
            created_at_ms: now_ms,
            status: SessionStatus::starting(session_id),
        }
    }
}

impl RuntimeState {
    /// The worker of a session, which listens on `port` as process `pid`.
    pub fn new(metadata: SessionMetadata, port: u16, pid: u32) -> (state: RuntimeState)
        ensures
            state@ == (RuntimeView {
                metadata: MetadataView { port, pid, ..metadata@ },
                searching_intent: false,
            }),
    {
        let mut kept = metadata;
        kept.port = port;
        kept.pid = pid;
        RuntimeState { metadata: kept, searching_intent: false }
    }

    /// The status, for the user.
    pub fn public_status(&self) -> (status: SessionStatus)
        ensures
            status@ == self@.metadata.status,
    {
        self.metadata.status.clone()
    }

    /// Takes note of an event, and gives it the next place in the log.
    pub fn record_event(&mut self, event: ChatEvent) -> (stored: StoredEvent)
        requires
            old(self).metadata.status.last_cursor < u64::MAX,
        ensures
            final(self)@ == old(self)@.after_event(event@),
            stored@ == (StoredView {
                cursor: (old(self).metadata.status.last_cursor + 1) as u64,
                event: event@,
            }),
            stored.event == event && stored.cursor == old(self).metadata.status.last_cursor + 1,
            final(self).metadata.status.last_cursor == stored.cursor,
            final(self).metadata.status.last_error is None,
            final(self).metadata.status.state@ == match event {
                ChatEvent::Ready { .. } => "ready"@,
                ChatEvent::Searching => "searching"@,
                ChatEvent::Matched { .. } => "matched"@,
                ChatEvent::PeerLeft { .. } => "peer_left"@,
                _ => old(self).metadata.status.state@,
            },
            final(self).searching_intent == match event {
                ChatEvent::Searching => true,
                ChatEvent::Matched { .. } | ChatEvent::PeerLeft { .. } => false,
                _ => old(self).searching_intent,
            },
            event matches ChatEvent::Matched { conversation_id, peer_agent_id, visibility } ==> {
                let status = final(self).metadata.status;
                &&& status.conversation_id matches Some(id) && id.bytes@ == conversation_id.bytes@
                &&& status.peer_agent_id matches Some(peer) && peer@ == peer_agent_id@
                &&& status.visibility matches Some(shown) && shown@ == visibility@
            },
            event matches ChatEvent::Ready { agent_id } ==> (
            final(self).metadata.status.agent_id matches Some(named) && named@ == agent_id@),
            event is PeerLeft ==> {
                let status = final(self).metadata.status;
                status.conversation_id is None && status.peer_agent_id is None
                    && status.visibility is None
            },
    {
        match &event {
            ChatEvent::Searching => self.searching_intent = true,
            ChatEvent::Matched { .. } | ChatEvent::PeerLeft { .. } => self.searching_intent = false,
            _ => {},
        }
        self.metadata.status.last_cursor = self.metadata.status.last_cursor + 1;
        self.metadata.status.last_error = None;
        match &event {
            ChatEvent::Ready { agent_id } => {
                self.metadata.status.state = "ready".to_owned();
                self.metadata.status.agent_id = Some(agent_id.clone());
            },
            ChatEvent::Searching => {
                self.metadata.status.state = "searching".to_owned();
            },
            ChatEvent::Matched { conversation_id, peer_agent_id, visibility } => {
                self.metadata.status.state = "matched".to_owned();
                self.metadata.status.conversation_id = Some(*conversation_id);
                self.metadata.status.peer_agent_id = Some(peer_agent_id.clone());
                self.metadata.status.visibility = Some(visibility.clone());
            },
            ChatEvent::PeerLeft { .. } => {
                self.metadata.status.state = "peer_left".to_owned();
                self.metadata.status.leave_conversation();
            },
            _ => {},
        }
        StoredEvent { cursor: self.metadata.status.last_cursor, event }
    }

    /// Takes note that the connection is lost.
    pub fn set_reconnecting(&mut self, error: String)
        ensures
            final(self)@ == old(self)@.with_status(
                old(self)@.metadata.status.reconnecting(error@),
            ),
            final(self).metadata.status.state@ == "starting"@,
            final(self).metadata.status.conversation_id is None,
            final(self).metadata.status.peer_agent_id is None,
            final(self).metadata.status.visibility is None,
            final(self).metadata.status.last_error == Some(error),
    {
        self.metadata.status.state = "starting".to_owned();
        self.metadata.status.leave_conversation();
        self.metadata.status.last_error = Some(error);
    }

    /// Takes note that the worker cannot go on.
    pub fn set_failed(&mut self, error: String)
        ensures
            final(self)@ == old(self)@.with_status(old(self)@.metadata.status.failed(error@)),
            final(self).metadata.status.state@ == "failed"@,
            final(self).metadata.status.last_error == Some(error),
    {
        self.metadata.status.state = "failed".to_owned();
        self.metadata.status.last_error = Some(error);
    }

    /// Takes note that the session is closed.
    pub fn set_closed(&mut self)
        ensures
            final(self)@ == old(self)@.with_status(old(self)@.metadata.status.closed()),
            final(self).metadata.status.state@ == "closed"@,
            final(self).metadata.status.conversation_id is None,
            final(self).metadata.status.peer_agent_id is None,
            final(self).metadata.status.visibility is None,
    {
        self.metadata.status.state = "closed".to_owned();
        self.metadata.status.leave_conversation();
    }

    /// Takes note of the state that a command leads to.
    pub fn set_state(&mut self, state: &str)
        ensures
            final(self)@ == old(self)@.with_status(old(self)@.metadata.status.in_state(state@)),
    {
        self.metadata.status.state = state.to_owned();
    }

    /// Takes note of how the writing of the status went, and gives the status for the user.
    pub fn persisted(&mut self, outcome: Result<(), String>) -> (status: SessionStatus)
        ensures
            final(self)@ == old(self)@.after_persist(
                match outcome {
                    Ok(_) => Ok(()),
                    Err(cause) => Err(cause@),
                },
            ),
            status@ == final(self)@.metadata.status,
    {
        if let Err(cause) = outcome {
            self.metadata.status.last_error = Some(
                join("persist session state: ", cause.as_str()),
            );
        }
        self.public_status()
    }
}

/// Whether a status says nothing that contradicts itself: in a match there are a conversation, a
/// peer and a visibility, and where there can be no conversation there are none.
pub open spec fn is_consistent(status: StatusView) -> bool {
    let inside = status.conversation_id is Some && status.peer_agent_id is Some
        && status.visibility is Some;
    let outside = status.conversation_id is None && status.peer_agent_id is None
        && status.visibility is None;
    &&& status.state == "matched"@ ==> inside
    &&& status.state == "starting"@ || status.state == "peer_left"@ || status.state == "closed"@
        ==> outside
}

/// The names of the states are all different.
pub proof fn lemma_state_names()
    ensures
        "matched"@ != "starting"@,
        "matched"@ != "peer_left"@,
        "matched"@ != "closed"@,
        "matched"@ != "ready"@,
        "matched"@ != "searching"@,
        "matched"@ != "failed"@,
        "matched"@ != "leaving"@,
        "ready"@ != "starting"@,
        "ready"@ != "peer_left"@,
        "ready"@ != "closed"@,
        "searching"@ != "starting"@,
        "searching"@ != "peer_left"@,
        "searching"@ != "closed"@,
        "searching"@ != "ready"@,
        "failed"@ != "starting"@,
        "failed"@ != "peer_left"@,
        "failed"@ != "closed"@,
        "leaving"@ != "starting"@,
        "leaving"@ != "peer_left"@,
        "leaving"@ != "closed"@,
        "peer_left"@ != "starting"@,
        "peer_left"@ != "closed"@,
        "starting"@ != "closed"@,
{
    reveal_strlit("matched");
    reveal_strlit("starting");
    reveal_strlit("peer_left");
    reveal_strlit("closed");
    reveal_strlit("ready");
    reveal_strlit("searching");
    reveal_strlit("failed");
    reveal_strlit("leaving");
    assert("matched"@[0] == 'm' && "starting"@[0] == 's' && "peer_left"@[0] == 'p');
    assert("closed"@[0] == 'c' && "ready"@[0] == 'r' && "searching"@[0] == 's');
    assert("failed"@[0] == 'f' && "leaving"@[0] == 'l');
    assert("searching"@[1] == 'e' && "starting"@[1] == 't');
}

/// Law: a new session is consistent, and every event and every change of the connection keeps it
/// so.
pub proof fn law_status_stays_consistent(status: StatusView, event: EventView, error: Seq<char>)
    ensures
        is_consistent(starting_status(status.session_id)),
        is_consistent(status) ==> is_consistent(status.after_event(event)),
        is_consistent(status.reconnecting(error)),
        is_consistent(status.closed()),
        is_consistent(status.failed(error)),
        is_consistent(status) ==> is_consistent(status.with_error(error)),
        is_consistent(status.in_state("ready"@)),
        is_consistent(status.in_state("leaving"@)),
{
    lemma_state_names();
}

/// Law: each change of a status says what its name says and leaves everything else as it was: another
/// state, no conversation, an error, or these together.
pub proof fn law_changes_of_a_status(status: StatusView, text: Seq<char>)
    ensures
        status.in_state(text) == (StatusView { state: text, ..status }),
        status.alone() == (StatusView {
            conversation_id: None,
            peer_agent_id: None,
            visibility: None,
            ..status
        }),
        status.with_error(text) == (StatusView { last_error: Some(text), ..status }),
        status.reconnecting(text) == (StatusView {
            state: "starting"@,
            conversation_id: None,
            peer_agent_id: None,
            visibility: None,
            last_error: Some(text),
            ..status
        }),
        status.failed(text) == (StatusView {
            state: "failed"@,
            last_error: Some(text),
            ..status
        }),
        status.closed() == (StatusView {
            state: "closed"@,
            conversation_id: None,
            peer_agent_id: None,
            visibility: None,
            ..status
        }),
{
}

/// Law: an event moves the status on by one place, clears the error, and shows what the event says
/// of the connection and the conversation.
pub proof fn law_status_after_an_event(status: StatusView, event: EventView)
    requires
        status.last_cursor < u64::MAX,
    ensures
        ({
            let after = status.after_event(event);
            &&& after.session_id == status.session_id
            &&& after.last_cursor == status.last_cursor + 1
            &&& after.last_error is None
            &&& after.state == match event {
                EventView::Ready { .. } => "ready"@,
                EventView::Searching => "searching"@,
                EventView::Matched { .. } => "matched"@,
                EventView::PeerLeft { .. } => "peer_left"@,
                _ => status.state,
            }
            &&& after.agent_id == match event {
                EventView::Ready { agent_id } => Some(agent_id),
                _ => status.agent_id,
            }
            &&& after.conversation_id == match event {
                EventView::Matched { conversation_id, .. } => Some(conversation_id),
                EventView::PeerLeft { .. } => None,
                _ => status.conversation_id,
            }
            &&& after.peer_agent_id == match event {
                EventView::Matched { peer_agent_id, .. } => Some(peer_agent_id),
                EventView::PeerLeft { .. } => None,
                _ => status.peer_agent_id,
            }
            &&& after.visibility == match event {
                EventView::Matched { visibility, .. } => Some(visibility),
                EventView::PeerLeft { .. } => None,
                _ => status.visibility,
            }
        }),
{
}

/// Law: the worker follows the status: another status changes nothing else, an event also says
/// whether a peer is sought, and a status that could not be written notes why.
pub proof fn law_worker_follows_the_status(
    runtime: RuntimeView,
    status: StatusView,
    event: EventView,
    cause: Seq<char>,
)
    ensures
        runtime.with_status(status) == (RuntimeView {
            metadata: MetadataView { status, ..runtime.metadata },
            ..runtime
        }),
        runtime.after_event(event).metadata == (MetadataView {
            status: runtime.metadata.status.after_event(event),
            ..runtime.metadata
        }),
        runtime.after_event(event).searching_intent == match event {
            EventView::Searching => true,
            EventView::Matched { .. } | EventView::PeerLeft { .. } => false,
            _ => runtime.searching_intent,
        },
        runtime.after_persist(Ok(())) == runtime,
        runtime.after_persist(Err(cause)) == (RuntimeView {
            metadata: MetadataView {
                status: StatusView {
                    last_error: Some("persist session state: "@ + cause),
                    ..runtime.metadata.status
                },
                ..runtime.metadata
            },
            ..runtime
        }),
{
}

/// Law: a status is consistent exactly where a match names its conversation, its peer and its
/// visibility, and a session that starts, was left or is closed names none of them.
pub proof fn law_consistency_of_a_status(status: StatusView)
    ensures
        is_consistent(status) <==> {
            &&& status.state == "matched"@ ==> status.conversation_id is Some
                && status.peer_agent_id is Some && status.visibility is Some
            &&& status.state == "starting"@ || status.state == "peer_left"@ || status.state
                == "closed"@ ==> status.conversation_id is None && status.peer_agent_id is None
                && status.visibility is None
        },
{
}

/// Law: what is kept of a session says what it holds.
pub proof fn law_session_values_say_what_they_hold(
    action: SessionAction,
    runtime: RuntimeState,
    stored: StoredEvent,
)
    ensures
        match action {
            SessionAction::Find => action@ == ActionView::Find,
            SessionAction::Message { content } => action@ == ActionView::Message(content@),
            SessionAction::Next => action@ == ActionView::Next,
            SessionAction::Leave => action@ == ActionView::Leave,
            SessionAction::Cancel => action@ == ActionView::Cancel,
            SessionAction::Close => action@ == ActionView::Close,
        },
        stored@.cursor == stored.cursor && stored@.event == stored.event@,
        runtime@.searching_intent == runtime.searching_intent,
        ({
            let kept = runtime.metadata;
            let shown = runtime@.metadata;
            &&& shown.session_id == kept.session_id.bytes@
            &&& shown.token == kept.token@
            &&& shown.port == kept.port
            &&& shown.pid == kept.pid
            &&& shown.created_at_ms == kept.created_at_ms
            &&& shown.status == kept.status@
            &&& shown.status.session_id == kept.status.session_id.bytes@
            &&& shown.status.state == kept.status.state@
            &&& shown.status.last_cursor == kept.status.last_cursor
            &&& match kept.status.agent_id {
                Some(text) => shown.status.agent_id == Some(text@),
                None => shown.status.agent_id is None,
            }
            &&& match kept.status.conversation_id {
                Some(id) => shown.status.conversation_id == Some(id.bytes@),
                None => shown.status.conversation_id is None,
            }
            &&& match kept.status.peer_agent_id {
                Some(text) => shown.status.peer_agent_id == Some(text@),
                None => shown.status.peer_agent_id is None,
            }
            &&& match kept.status.visibility {
                Some(text) => shown.status.visibility == Some(text@),
                None => shown.status.visibility is None,
            }
            &&& match kept.status.last_error {
                Some(text) => shown.status.last_error == Some(text@),
                None => shown.status.last_error is None,
            }
        }),
{
}

} // verus!
