//! The chat client: commands, events, and what turns one into the other.

use std::borrow::Cow;

use vstd::prelude::*;
use vstd::string::*;
use vstd::utf8::*;

use crate::bytes::{be_bytes, put_bytes};
use crate::history::{history_error_text, visibility_name, visibility_text, HistoryError};
use crate::ids::Uuid;
use crate::outside::{header_accepts, is_header_text, lossy_text, utf8_lossy};
use crate::protocol::{
    client_fault, client_image, client_parse, decode_server, encode_client, law_client_round_trip,
    protocol_message, server_parse, ClientFrame, ClientView, EndReason, ProtocolError, ServerFrame,
    ServerView, Visibility,
};
use crate::text::{join, option_view};

verus! {

/// Why the client could not do what it was asked.
#[derive(Debug)]
pub enum ClientError {
    Config(String),
    Authentication(String),
    Network(String),
    Protocol(ProtocolError),
    History(HistoryError),
    Closed,
}

/// What the user of a client asks for.
#[derive(Debug)]
pub enum Command {
    Find,
    Cancel,
    Message(Vec<u8>),
    Leave,
    Next,
    Close,
}

/// What a client tells its user.
#[derive(Debug, Clone)]
pub enum ChatEvent {
    Ready { agent_id: String },
    Searching,
    Matched { conversation_id: Uuid, peer_agent_id: String, visibility: String },
    Message { seq: u64, sender: String, content: String },
    PeerLeft { final_seq: u64, reason: String },
    RateLimited { retry_after_ms: u32 },
    ServerBusy { retry_after_ms: u32 },
    Error { code: u16, message: String },
}

/// What is to be written to local history.
#[derive(Debug)]
pub enum HistoryCommand {
    Begin(Uuid, String, Visibility),
    Append(Uuid, u64, u8, u64, Vec<u8>),
    Finish(Uuid, u64),
}

/// A place in the queue of the history writer: `open` while one more command can be taken.
#[derive(Debug)]
pub struct HistorySlot {
    pub open: bool,
    pub command: Option<HistoryCommand>,
}

/// What a command says.
pub enum CommandView {
    Find,
    Cancel,
    Message(Seq<u8>),
    Leave,
    Next,
    Close,
}

impl View for Command {
    type V = CommandView;

    open spec fn view(&self) -> CommandView {
        match self {
            Command::Find => CommandView::Find,
            Command::Cancel => CommandView::Cancel,
            Command::Message(content) => CommandView::Message(content@),
            Command::Leave => CommandView::Leave,
            Command::Next => CommandView::Next,
            Command::Close => CommandView::Close,
        }
    }
}

/// What an event says.
pub enum EventView {
    Ready { agent_id: Seq<char> },
    Searching,
    Matched { conversation_id: Seq<u8>, peer_agent_id: Seq<char>, visibility: Seq<char> },
    Message { seq: u64, sender: Seq<char>, content: Seq<char> },
    PeerLeft { final_seq: u64, reason: Seq<char> },
    RateLimited { retry_after_ms: u32 },
    ServerBusy { retry_after_ms: u32 },
    Error { code: u16, message: Seq<char> },
}

/// What a history command says.
pub enum HistoryView {
    Begin(Seq<u8>, Seq<char>, Visibility),
    Append(Seq<u8>, u64, u8, u64, Seq<u8>),
    Finish(Seq<u8>, u64),
}

impl View for ChatEvent {
    type V = EventView;

    open spec fn view(&self) -> EventView {
        match self {
            ChatEvent::Ready { agent_id } => EventView::Ready { agent_id: agent_id@ },
            ChatEvent::Searching => EventView::Searching,
            ChatEvent::Matched { conversation_id, peer_agent_id, visibility } =>
                EventView::Matched {
                conversation_id: conversation_id@,
                peer_agent_id: peer_agent_id@,
                visibility: visibility@,
            },
            ChatEvent::Message { seq, sender, content } => EventView::Message {
                seq: *seq,
                sender: sender@,
                content: content@,
            },
            ChatEvent::PeerLeft { final_seq, reason } => EventView::PeerLeft {
                final_seq: *final_seq,
                reason: reason@,
            },
            ChatEvent::RateLimited { retry_after_ms } => EventView::RateLimited {
                retry_after_ms: *retry_after_ms,
            },
            ChatEvent::ServerBusy { retry_after_ms } => EventView::ServerBusy {
                retry_after_ms: *retry_after_ms,
            },
            ChatEvent::Error { code, message } => EventView::Error {
                code: *code,
                message: message@,
            },
        }
    }
}

impl View for HistoryCommand {
    type V = HistoryView;

    open spec fn view(&self) -> HistoryView {
        match self {
            HistoryCommand::Begin(id, peer, visibility) => HistoryView::Begin(
                id@,
                peer@,
                *visibility,
            ),
            HistoryCommand::Append(id, seq, sender, timestamp_ms, payload) => HistoryView::Append(
                id@,
                *seq,
                *sender,
                *timestamp_ms,
                payload@,
            ),
            HistoryCommand::Finish(id, final_seq) => HistoryView::Finish(id@, *final_seq),
        }
    }
}

/// The name of an end reason.
pub open spec fn reason_text(value: EndReason) -> Seq<char> {
    match value {
        EndReason::Left => "left"@,
        EndReason::Next => "next"@,
        EndReason::Disconnected => "disconnected"@,
        EndReason::Timeout => "timeout"@,
        EndReason::ProtocolError => "protocol_error"@,
    }
}

/// The name of an end reason.
pub fn reason_name(value: EndReason) -> (name: &'static str)
    ensures
        name@ == reason_text(value),
        name@ == match value {
            EndReason::Left => "left"@,
            EndReason::Next => "next"@,
            EndReason::Disconnected => "disconnected"@,
            EndReason::Timeout => "timeout"@,
            EndReason::ProtocolError => "protocol_error"@,
        },
{
    match value {
        EndReason::Left => "left",
        EndReason::Next => "next",
        EndReason::Disconnected => "disconnected",
        EndReason::Timeout => "timeout",
        EndReason::ProtocolError => "protocol_error",
    }
}

/// An error in words.
pub open spec fn client_error_text(error: ClientError) -> Seq<char> {
    match error {
        ClientError::Config(cause) => "configuration error: "@ + cause@,
        ClientError::Authentication(cause) => "authentication error: "@ + cause@,
        ClientError::Network(cause) => "network error: "@ + cause@,
        ClientError::Protocol(cause) => "protocol error: "@ + protocol_message(cause),
        ClientError::History(cause) => "local history error: "@ + history_error_text(cause),
        ClientError::Closed => "client command queue is closed"@,
    }
}

impl ClientError {
    /// The error in words.
    pub fn message(&self) -> (text: String)
        ensures
            text@ == client_error_text(*self),
    {
        match self {
            ClientError::Config(cause) => join("configuration error: ", cause.as_str()),
            ClientError::Authentication(cause) => join("authentication error: ", cause.as_str()),
            ClientError::Network(cause) => join("network error: ", cause.as_str()),
            ClientError::Protocol(cause) => join("protocol error: ", cause.message().as_str()),
            ClientError::History(cause) => join("local history error: ", cause.message().as_str()),
            ClientError::Closed => "client command queue is closed".to_owned(),
        }
    }
}

/// The conversation in which a client is: its identifier and the peer's name.
pub open spec fn active_view(active: Option<(Uuid, String)>) -> Option<(Seq<u8>, Seq<char>)> {
    match active {
        Some((id, peer)) => Some((id@, peer@)),
        None => None,
    }
}

/// What a frame has written to history, for a client in the conversation `active`.
pub open spec fn frame_history(
    frame: ServerView,
    active: Option<(Seq<u8>, Seq<char>)>,
    now_ms: u64,
) -> Option<HistoryView> {
    match frame {
        ServerView::Matched { conversation_id, peer_agent_id, visibility } => Some(
            HistoryView::Begin(conversation_id, peer_agent_id, visibility),
        ),
        ServerView::Message { seq, sender, payload } => match active {
            Some((id, _)) => Some(HistoryView::Append(id, seq, sender, now_ms, payload)),
            None => None,
        },
        ServerView::PeerLeft { final_seq, .. } => match active {
            Some((id, _)) => Some(HistoryView::Finish(id, final_seq)),
            None => None,
        },
        _ => None,
    }
}

/// The conversation in which a client is after a frame.
pub open spec fn frame_active(
    frame: ServerView,
    active: Option<(Seq<u8>, Seq<char>)>,
) -> Option<(Seq<u8>, Seq<char>)> {
    match frame {
        ServerView::Matched { conversation_id, peer_agent_id, .. } => Some(
            (conversation_id, peer_agent_id),
        ),
        ServerView::PeerLeft { .. } => None,
        _ => active,
    }
}

/// The event that a frame brings. The answer to a heartbeat brings none.
pub open spec fn frame_event(frame: ServerView) -> Option<EventView> {
    match frame {
        ServerView::Ready { agent_id } => Some(EventView::Ready { agent_id }),
        ServerView::Searching => Some(EventView::Searching),
        ServerView::Matched { conversation_id, peer_agent_id, visibility } => Some(
            EventView::Matched {
                conversation_id,
                peer_agent_id,
                visibility: visibility_text(visibility),
            },
        ),
        ServerView::Message { seq, sender, payload } => Some(
            EventView::Message {
                seq,
                sender: if sender == 0 {
                    "self"@
                } else {
                    "peer"@
                },
                content: lossy_text(payload),
            },
        ),
        ServerView::PeerLeft { final_seq, reason } => Some(
            EventView::PeerLeft { final_seq, reason: reason_text(reason) },
        ),
        ServerView::RateLimited { retry_after_ms } => Some(EventView::RateLimited { retry_after_ms }),
        ServerView::ServerBusy { retry_after_ms } => Some(EventView::ServerBusy { retry_after_ms }),
        ServerView::Error { code, message } => Some(EventView::Error { code, message }),
        ServerView::Pong(_) => None,
    }
}

/// Puts a command into the place that the history writer has reserved, if history is kept.
pub fn history_send(history: Option<&mut HistorySlot>, command: HistoryCommand) -> (sent: Result<
    (),
    ClientError,
>)
    ensures
        history matches Some(slot) ==> {
            &&& slot.open ==> sent is Ok && *final(slot) == (HistorySlot {
                open: false,
                command: Some(command),
            })
            &&& !slot.open ==> sent == Err::<(), _>(ClientError::Closed) && *final(slot) == *slot
        },
        history is None ==> sent is Ok,
{
    match history {
        Some(slot) => {
            if slot.open {
                slot.open = false;
                slot.command = Some(command);
                Ok(())
            } else {
                Err(ClientError::Closed)
            }
        },
        None => Ok(()),
    }
}

fn owned(text: Cow<'_, str>) -> (copy: String)
    ensures
        copy@ == text@,
{
    match text {
        Cow::Borrowed(s) => s.to_owned(),
        Cow::Owned(s) => s,
    }
}

fn copied(bytes: &[u8]) -> (copy: Vec<u8>)
    ensures
        copy@ == bytes@,
{
    let mut copy: Vec<u8> = Vec::new();
    put_bytes(&mut copy, bytes);
    assert(copy@ =~= bytes@);
    copy
}

/// Whether a slot holds what a frame has written to history.
pub open spec fn slot_holds(slot: HistorySlot, before: HistorySlot, command: Option<HistoryView>) -> bool {
    match command {
        Some(view) => !slot.open && slot.command is Some && slot.command->0@ == view,
        None => slot == before,
    }
}

/// What the bytes of a frame lead to: the event, the conversation from `before` to `after`, and the
/// slot of the history writer before and after, where history is kept.
pub open spec fn is_mapped(
    bytes: Seq<u8>,
    now_ms: u64,
    before: Option<(Uuid, String)>,
    after: Option<(Uuid, String)>,
    history: Option<(HistorySlot, HistorySlot)>,
    event: Result<Option<ChatEvent>, ClientError>,
) -> bool {
    match server_parse(bytes) {
        Err(error) => {
            &&& event == Err::<Option<ChatEvent>, _>(ClientError::Protocol(error))
            &&& after == before
            &&& history matches Some((slot, left)) ==> left == slot
        },
        Ok(frame) => {
            let command = frame_history(frame, active_view(before), now_ms);
            if command is Some && (history matches Some((slot, _)) && !slot.open) {
                &&& event == Err::<Option<ChatEvent>, _>(ClientError::Closed)
                &&& after == before
                &&& history matches Some((slot, left)) ==> left == slot
            } else {
                &&& event is Ok
                &&& option_view(event->Ok_0) == frame_event(frame)
                &&& active_view(after) == frame_active(frame, active_view(before))
                &&& history matches Some((slot, left)) ==> slot_holds(left, slot, command)
            }
        },
    }
}

/// Whether an event holds exactly the text whose UTF-8 form the frame holds.
pub open spec fn keeps_message(bytes: Seq<u8>, event: Option<ChatEvent>) -> bool {
    match (server_parse(bytes), event) {
        (Ok(ServerView::Message { payload, .. }), Some(ChatEvent::Message { content, .. })) =>
            valid_utf8(payload) ==> content@ == decode_utf8(payload),
        _ => true,
    }
}

/// Turns the bytes of a server frame into an event, and notes in history what the frame says of
/// the conversation. `active` is the conversation in which the client is, and `now_ms` the time.
///
/// Where the history writer can take nothing more, the frame is refused and `active` stays.
pub fn map_event(
    bytes: &[u8],
    active: &mut Option<(Uuid, String)>,
    history: Option<&mut HistorySlot>,
    now_ms: u64,
) -> (event: Result<Option<ChatEvent>, ClientError>)
    ensures
        is_mapped(
            bytes@,
            now_ms,
            *old(active),
            *final(active),
            match history {
                Some(slot) => Some((*slot, *final(slot))),
                None => None,
            },
            event,
        ),
        event matches Ok(brought) ==> keeps_message(bytes@, brought),
        event matches Ok(Some(ChatEvent::Message { content, .. })) ==> encode_utf8(content@)
            == bytes@.skip(10),
{
    let frame = match decode_server(bytes) {
        Ok(frame) => frame,
        Err(error) => return Err(ClientError::Protocol(error)),
    };
    let event = match frame {
        ServerFrame::Ready { agent_id } => ChatEvent::Ready { agent_id: owned(agent_id) },
        ServerFrame::Searching => ChatEvent::Searching,
        ServerFrame::Matched { conversation_id, peer_agent_id, visibility } => {
            let peer = owned(peer_agent_id);
            history_send(history, HistoryCommand::Begin(conversation_id, peer.clone(), visibility))?;
            *active = Some((conversation_id, peer.clone()));
            ChatEvent::Matched {
                conversation_id,
                peer_agent_id: peer,
                visibility: visibility_name(visibility).to_owned(),
            }
        },
        ServerFrame::Message { seq, sender, payload } => {
            proof {
                assert(bytes@.skip(1).skip(9) =~= bytes@.skip(10));
                decode_utf8_encode_utf8(payload@);
            }
            if let Some((conversation_id, _)) = active {
                history_send(
                    history,
                    HistoryCommand::Append(
                        *conversation_id,
                        seq,
                        sender,
                        now_ms,
                        copied(payload),
                    ),
                )?;
            }
            ChatEvent::Message {
                seq,
                sender: if sender == 0 {
                    "self"
                } else {
                    "peer"
                }.to_owned(),
                content: utf8_lossy(payload),
            }
        },
        ServerFrame::PeerLeft { final_seq, reason } => {
            if let Some((conversation_id, _)) = active {
                history_send(history, HistoryCommand::Finish(*conversation_id, final_seq))?;
            }
            *active = None;
            ChatEvent::PeerLeft { final_seq, reason: reason_name(reason).to_owned() }
        },
        ServerFrame::RateLimited { retry_after_ms } => ChatEvent::RateLimited { retry_after_ms },
        ServerFrame::ServerBusy { retry_after_ms } => ChatEvent::ServerBusy { retry_after_ms },
        ServerFrame::Error { code, message } => ChatEvent::Error { code, message: owned(message) },
        ServerFrame::Pong(_) => return Ok(None),
    };
    Ok(Some(event))
}

/// The frames that carry out a command, in the order in which they are sent.
pub open spec fn command_frames(command: Command) -> Seq<ClientView> {
    match command {
        Command::Find => seq![ClientView::Find],
        Command::Cancel => seq![ClientView::Cancel],
        Command::Message(content) => seq![ClientView::Message(content@)],
        Command::Leave => seq![ClientView::Leave],
        Command::Next => seq![ClientView::Leave, ClientView::Find],
        Command::Close => seq![ClientView::Close],
    }
}

/// Whether `packets` are what a list of frames is sent as.
pub open spec fn are_packets(packets: Seq<Vec<u8>>, frames: Seq<ClientView>) -> bool {
    &&& packets.len() == frames.len()
    &&& forall|i: int|
        0 <= i < frames.len() ==> (#[trigger] packets[i])@ == client_image(frames[i])
}

/// Why a command cannot be sent: only the text of a message can stand in the way.
pub open spec fn command_fault(command: Command) -> Option<ProtocolError> {
    match command {
        Command::Message(content) => client_fault(ClientView::Message(content@)),
        _ => None,
    }
}

/// The packets that carry out a command.
pub fn command_packets(command: &Command) -> (packets: Result<Vec<Vec<u8>>, ProtocolError>)
    ensures
        command_fault(*command) matches Some(error) ==> packets == Err::<Vec<Vec<u8>>, _>(error),
        command_fault(*command) is None ==> (packets matches Ok(list) && are_packets(
            list@,
            command_frames(*command),
        )),
        match *command {
            Command::Find => packets matches Ok(list) && list@.len() == 1 && list@[0]@
                == seq![0x01u8],
            Command::Cancel => packets matches Ok(list) && list@.len() == 1 && list@[0]@
                == seq![0x02u8],
            Command::Message(content) => if content@.len() > 16384 {
                packets == Err::<Vec<Vec<u8>>, _>(ProtocolError::MessageTooLarge)
            } else if !valid_utf8(content@) {
                packets == Err::<Vec<Vec<u8>>, _>(ProtocolError::InvalidUtf8)
            } else {
                packets matches Ok(list) && list@.len() == 1 && list@[0]@ == seq![0x03u8] + content@
            },
            Command::Leave => packets matches Ok(list) && list@.len() == 1 && list@[0]@
                == seq![0x04u8],
            Command::Next => packets matches Ok(list) && list@.len() == 2 && list@[0]@
                == seq![0x04u8] && list@[1]@ == seq![0x01u8],
            Command::Close => packets matches Ok(list) && list@.len() == 1 && list@[0]@
                == seq![0x06u8],
        },
{
    let mut packets: Vec<Vec<u8>> = Vec::new();
    match command {
        Command::Find => packets.push(encode_client(ClientFrame::Find)?),
        Command::Cancel => packets.push(encode_client(ClientFrame::Cancel)?),
        Command::Message(content) => packets.push(
            encode_client(ClientFrame::Message(content.as_slice()))?,
        ),
        Command::Leave => packets.push(encode_client(ClientFrame::Leave)?),
        Command::Next => {
            packets.push(encode_client(ClientFrame::Leave)?);
            packets.push(encode_client(ClientFrame::Find)?);
        },
        Command::Close => packets.push(encode_client(ClientFrame::Close)?),
    }
    Ok(packets)
}

/// The value of the header that authenticates a connection; a token that no header can hold is
/// refused.
pub fn bearer_header(token: &str) -> (header: Result<String, ClientError>)
    ensures
        is_header_text(encode_utf8("Bearer "@ + token@)) ==> (header matches Ok(text) && text@
            == "Bearer "@ + token@),
        !is_header_text(encode_utf8("Bearer "@ + token@)) ==> (header matches Err(
            ClientError::Config(cause),
        ) && cause@ == "invalid session token"@),
{
    let text = join("Bearer ", token);
    if header_accepts(text.as_str()) {
        Ok(text)
    } else {
        Err(ClientError::Config("invalid session token".to_owned()))
    }
}

/// What reaches the task that writes to the socket.
pub enum WriterInput {
    /// A command, or the end of the command queue.
    Command(Option<Command>),
    /// The time of a heartbeat, in milliseconds.
    Heartbeat(u64),
}

/// What that task does next. Where a packet cannot be sent, it stops too.
pub enum WriterAction {
    Send(Vec<Vec<u8>>),
    Stop,
}

/// The frames that an input of the writer is sent as; `None` where the writer stops.
pub open spec fn writer_frames(input: WriterInput) -> Option<Seq<ClientView>> {
    match input {
        WriterInput::Command(Some(command)) => if command_fault(command) is None {
            Some(command_frames(command))
        } else {
            None
        },
        WriterInput::Command(None) => None,
        WriterInput::Heartbeat(now_ms) => Some(seq![ClientView::Ping(now_ms)]),
    }
}

/// What the writer does with an input. A command that cannot be sent ends it.
pub fn writer_step(input: WriterInput) -> (action: WriterAction)
    ensures
        match action {
            WriterAction::Send(packets) => writer_frames(input) is Some && are_packets(
                packets@,
                writer_frames(input)->0,
            ),
            WriterAction::Stop => writer_frames(input) is None,
        },
        input matches WriterInput::Command(None) ==> action is Stop,
        input matches WriterInput::Command(Some(Command::Message(content))) ==> (action is Stop
            <==> content@.len() > 16384 || !valid_utf8(content@)),
        input matches WriterInput::Command(Some(command)) && !(command is Message)
            ==> action is Send,
        input matches WriterInput::Heartbeat(now_ms) ==> (action matches WriterAction::Send(packets)
            && packets@.len() == 1 && packets@[0]@ == seq![0x05u8] + be_bytes(now_ms as nat, 8)),
{
    match input {
        WriterInput::Command(Some(command)) => match command_packets(&command) {
            Ok(packets) => WriterAction::Send(packets),
            Err(_) => WriterAction::Stop,
        },
        WriterInput::Command(None) => WriterAction::Stop,
        WriterInput::Heartbeat(now_ms) => match encode_client(ClientFrame::Ping(now_ms)) {
            Ok(packet) => {
                let mut packets: Vec<Vec<u8>> = Vec::new();
                packets.push(packet);
                WriterAction::Send(packets)
            },
            Err(_) => WriterAction::Stop,
        },
    }
}

/// What reaches the task that reads from the socket.
pub enum Incoming {
    Binary(Vec<u8>),
    /// The end of the stream, or a request to close it.
    Ended,
    /// A message of a kind that carries no frame.
    Other,
    /// The transport failed, for this reason.
    Failed(String),
}

/// What that task does next. Where an event cannot be handed on, it stops too.
pub enum ReaderAction {
    Deliver(Result<ChatEvent, ClientError>),
    Continue,
    Stop,
}

/// What a frame must have been mapped to, where the reader goes on with `action`.
pub open spec fn mapped_to(action: ReaderAction) -> Result<Option<ChatEvent>, ClientError> {
    match action {
        ReaderAction::Deliver(Ok(event)) => Ok(Some(event)),
        ReaderAction::Deliver(Err(error)) => Err(error),
        _ => Ok(None),
    }
}

/// What the reader does with what came in. Only the end of the stream ends it: a frame that is
/// refused, or a transport that failed, is reported and reading goes on.
pub fn reader_step(
    incoming: Incoming,
    active: &mut Option<(Uuid, String)>,
    history: Option<&mut HistorySlot>,
    now_ms: u64,
) -> (action: ReaderAction)
    ensures
        incoming matches Incoming::Binary(bytes) ==> !(action is Stop) && is_mapped(
            bytes@,
            now_ms,
            *old(active),
            *final(active),
            match history {
                Some(slot) => Some((*slot, *final(slot))),
                None => None,
            },
            mapped_to(action),
        ),
        incoming matches Incoming::Binary(bytes) ==> is_mapped(
            bytes@,
            now_ms,
            *old(active),
            *final(active),
            match history {
                Some(slot) => Some((*slot, *final(slot))),
                None => None,
            },
            match action {
                ReaderAction::Deliver(Ok(event)) => Ok(Some(event)),
                ReaderAction::Deliver(Err(error)) => Err(error),
                _ => Ok(None),
            },
        ),
        incoming matches Incoming::Binary(bytes) ==> (mapped_to(action) matches Ok(brought)
            ==> keeps_message(bytes@, brought)),
        incoming is Ended ==> action is Stop,
        incoming is Other ==> action is Continue,
        incoming matches Incoming::Failed(cause) ==> action == ReaderAction::Deliver(
            Err(ClientError::Network(cause)),
        ),
        !(incoming is Binary) ==> *final(active) == *old(active) && (history matches Some(slot)
            ==> *final(slot) == *slot),
{
    match incoming {
        Incoming::Binary(bytes) => {
            match map_event(bytes.as_slice(), active, history, now_ms) {
                Ok(Some(event)) => ReaderAction::Deliver(Ok(event)),
                Ok(None) => ReaderAction::Continue,
                Err(error) => ReaderAction::Deliver(Err(error)),
            }
        },
        Incoming::Ended => ReaderAction::Stop,
        Incoming::Other => ReaderAction::Continue,
        Incoming::Failed(cause) => ReaderAction::Deliver(Err(ClientError::Network(cause))),
    }
}

/// Law: a server that reads the packets of a command reads the frames that the command stands for.
pub proof fn law_commands_reach_the_server(command: Command, packets: Seq<Vec<u8>>, index: int)
    requires
        command_fault(command) is None,
        are_packets(packets, command_frames(command)),
        0 <= index < packets.len(),
    ensures
        client_parse(packets[index]@) == Ok::<_, ProtocolError>(command_frames(command)[index]),
{
    law_client_round_trip(command_frames(command)[index]);
}

/// Law: the answer to a heartbeat is consumed. It brings no event, and changes neither the
/// conversation nor history.
pub proof fn law_pong_changes_nothing(
    value: u64,
    active: Option<(Seq<u8>, Seq<char>)>,
    now_ms: u64,
)
    ensures
        frame_event(ServerView::Pong(value)) is None,
        frame_active(ServerView::Pong(value), active) == active,
        frame_history(ServerView::Pong(value), active, now_ms) is None,
{
}

/// Law: history follows the conversation. What begins one is written under its own identifier and
/// makes it the active one, and whatever else is written goes to the active one, with the payload
/// and the number that the frame has.
pub proof fn law_history_follows_the_conversation(
    frame: ServerView,
    active: Option<(Seq<u8>, Seq<char>)>,
    now_ms: u64,
)
    ensures
        match frame_history(frame, active, now_ms) {
            Some(HistoryView::Begin(id, peer, _)) => frame_active(frame, active) == Some((id, peer)),
            Some(HistoryView::Append(id, seq, sender, at_ms, payload)) => {
                &&& active is Some && (active->0).0 == id
                &&& frame_active(frame, active) == active
                &&& at_ms == now_ms
                &&& frame == ServerView::Message { seq, sender, payload }
            },
            Some(HistoryView::Finish(id, final_seq)) => {
                &&& active is Some && (active->0).0 == id
                &&& frame_active(frame, active) is None
                &&& frame matches ServerView::PeerLeft { final_seq: counted, .. } && counted
                    == final_seq
            },
            None => !(frame is Matched),
        },
{
}

/// Law: a command reaches the server as the frames of its own name: one byte for each of find,
/// cancel, leave and close, leave and then find for next, and the text of a message behind its byte.
pub proof fn law_commands_on_the_wire(command: Command, packets: Seq<Vec<u8>>)
    requires
        are_packets(packets, command_frames(command)),
    ensures
        match command {
            Command::Find => packets.len() == 1 && packets[0]@ == seq![0x01u8],
            Command::Cancel => packets.len() == 1 && packets[0]@ == seq![0x02u8],
            Command::Message(content) => packets.len() == 1 && packets[0]@ == seq![0x03u8]
                + content@,
            Command::Leave => packets.len() == 1 && packets[0]@ == seq![0x04u8],
            Command::Next => packets.len() == 2 && packets[0]@ == seq![0x04u8] && packets[1]@
                == seq![0x01u8],
            Command::Close => packets.len() == 1 && packets[0]@ == seq![0x06u8],
        },
{
    assert(packets[0]@ == client_image(command_frames(command)[0]));
    if command is Next {
        assert(packets[1]@ == client_image(command_frames(command)[1]));
    }
}

/// Law: only a message can be refused, for more than 16384 bytes or for not being UTF-8.
pub proof fn law_commands_that_are_refused(command: Command)
    ensures
        match command {
            Command::Message(content) => command_fault(command) == if content@.len() > 16384 {
                Some(ProtocolError::MessageTooLarge)
            } else if !valid_utf8(content@) {
                Some(ProtocolError::InvalidUtf8)
            } else {
                None
            },
            _ => command_fault(command) is None,
        },
{
}

/// Law: what the writer sends of a command are its packets, each as it would be sent alone, and a
/// heartbeat is one packet with the time in it; the end of the commands, and a message that cannot
/// be sent, end the writer.
pub proof fn law_writer_sends_what_it_gets(input: WriterInput, packets: Seq<Vec<u8>>)
    requires
        writer_frames(input) is Some,
        are_packets(packets, writer_frames(input)->0),
    ensures
        match input {
            WriterInput::Heartbeat(now_ms) => packets.len() == 1 && packets[0]@ == seq![0x05u8]
                + be_bytes(now_ms as nat, 8),
            WriterInput::Command(Some(command)) => are_packets(packets, command_frames(command))
                && command_fault(command) is None,
            WriterInput::Command(None) => false,
        },
{
    if input is Heartbeat {
        assert(packets[0]@ == client_image(writer_frames(input)->0[0]));
    }
}

/// Law: a frame becomes the event of its own name with what it says; a match opens the conversation
/// that it names and is noted as its beginning, the leaving of the peer ends it, and a message in it
/// is noted with its number, sender, time and bytes. Nothing else is noted, and nothing at all where
/// the frame cannot be read or the history can take nothing more.
pub proof fn law_frames_become_events(
    bytes: Seq<u8>,
    now_ms: u64,
    before: Option<(Uuid, String)>,
    after: Option<(Uuid, String)>,
    history: Option<(HistorySlot, HistorySlot)>,
    event: Result<Option<ChatEvent>, ClientError>,
)
    requires
        is_mapped(bytes, now_ms, before, after, history, event),
    ensures
        server_parse(bytes) matches Err(error) ==> event == Err::<Option<ChatEvent>, _>(
            ClientError::Protocol(error),
        ) && after == before && (history matches Some((slot, left)) ==> left == slot),
        server_parse(bytes) matches Ok(frame) ==> {
            let noted = frame is Matched || before is Some && (frame is Message
                || frame is PeerLeft);
            let same = match (before, after) {
                (Some((id, peer)), Some((kept, named))) => kept.bytes@ == id.bytes@ && named@
                    == peer@,
                (None, None) => true,
                _ => false,
            };
            let full = history matches Some((slot, _)) && !slot.open;
            &&& noted && full ==> event == Err::<Option<ChatEvent>, _>(ClientError::Closed) && after
                == before
            &&& history matches Some((slot, left)) ==> if noted && !full {
                !left.open
            } else {
                left == slot
            }
            &&& !noted || !full ==> match frame {
                ServerView::Ready { agent_id } => same && (event matches Ok(
                    Some(ChatEvent::Ready { agent_id: named }),
                ) && named@ == agent_id),
                ServerView::Searching => same && event == Ok::<_, ClientError>(
                    Some(ChatEvent::Searching),
                ),
                ServerView::Matched { conversation_id, peer_agent_id, visibility } => {
                    let shown = match visibility {
                        Visibility::Public => "public"@,
                        Visibility::Unlisted => "unlisted"@,
                        Visibility::Private => "private"@,
                    };
                    &&& after matches Some((id, peer)) && id.bytes@ == conversation_id && peer@
                        == peer_agent_id
                    &&& event matches Ok(
                        Some(
                            ChatEvent::Matched {
                                conversation_id: id,
                                peer_agent_id: peer,
                                visibility: text,
                            },
                        ),
                    ) && id.bytes@ == conversation_id && peer@ == peer_agent_id && text@ == shown
                    &&& history matches Some((_, left)) ==> (left.command matches Some(
                        HistoryCommand::Begin(id, peer, kept),
                    ) && id.bytes@ == conversation_id && peer@ == peer_agent_id && kept
                        == visibility)
                },
                ServerView::Message { seq, sender, payload } => {
                    &&& same
                    &&& event matches Ok(
                        Some(ChatEvent::Message { seq: number, sender: party, content }),
                    ) && number == seq && party@ == (if sender == 0 {
                        "self"@
                    } else {
                        "peer"@
                    }) && content@ == lossy_text(payload)
                    &&& (before, history) matches (Some((id, _)), Some((_, left))) ==> (left.command matches Some(
                        HistoryCommand::Append(kept, number, party, time, text),
                    ) && kept.bytes@ == id.bytes@ && number == seq && party == sender && time
                        == now_ms && text@ == payload)
                },
                ServerView::PeerLeft { final_seq, reason } => {
                    &&& after is None
                    &&& event matches Ok(
                        Some(ChatEvent::PeerLeft { final_seq: number, reason: text }),
                    ) && number == final_seq && text@ == match reason {
                        EndReason::Left => "left"@,
                        EndReason::Next => "next"@,
                        EndReason::Disconnected => "disconnected"@,
                        EndReason::Timeout => "timeout"@,
                        EndReason::ProtocolError => "protocol_error"@,
                    }
                    &&& (before, history) matches (Some((id, _)), Some((_, left))) ==> (left.command matches Some(
                        HistoryCommand::Finish(kept, number),
                    ) && kept.bytes@ == id.bytes@ && number == final_seq)
                },
                ServerView::RateLimited { retry_after_ms } => same && event == Ok::<_, ClientError>(
                    Some(ChatEvent::RateLimited { retry_after_ms }),
                ),
                ServerView::ServerBusy { retry_after_ms } => same && event == Ok::<_, ClientError>(
                    Some(ChatEvent::ServerBusy { retry_after_ms }),
                ),
                ServerView::Error { code, message } => same && (event matches Ok(
                    Some(ChatEvent::Error { code: number, message: text }),
                ) && number == code && text@ == message),
                ServerView::Pong(_) => same && event == Ok::<Option<ChatEvent>, ClientError>(None),
            }
        },
{
}

/// Law: what the reader hands on is what the frame was mapped to.
pub proof fn law_reader_hands_on_what_it_got(event: ChatEvent, error: ClientError)
    ensures
        mapped_to(ReaderAction::Deliver(Ok(event))) == Ok::<_, ClientError>(Some(event)),
        mapped_to(ReaderAction::Deliver(Err(error))) == Err::<Option<ChatEvent>, _>(error),
        mapped_to(ReaderAction::Continue) == Ok::<Option<ChatEvent>, ClientError>(None),
{
}

/// Law: commands, events and what goes to history say what they hold.
pub proof fn law_client_values_say_what_they_hold(
    command: Command,
    event: ChatEvent,
    noted: HistoryCommand,
)
    ensures
        match command {
            Command::Find => command@ == CommandView::Find,
            Command::Cancel => command@ == CommandView::Cancel,
            Command::Message(content) => command@ == CommandView::Message(content@),
            Command::Leave => command@ == CommandView::Leave,
            Command::Next => command@ == CommandView::Next,
            Command::Close => command@ == CommandView::Close,
        },
        match event {
            ChatEvent::Ready { agent_id } => event@ == (EventView::Ready { agent_id: agent_id@ }),
            ChatEvent::Searching => event@ == EventView::Searching,
            ChatEvent::Matched { conversation_id, peer_agent_id, visibility } => event@ == (
            EventView::Matched {
                conversation_id: conversation_id.bytes@,
                peer_agent_id: peer_agent_id@,
                visibility: visibility@,
            }),
            ChatEvent::Message { seq, sender, content } => event@ == (EventView::Message {
                seq,
                sender: sender@,
                content: content@,
            }),
            ChatEvent::PeerLeft { final_seq, reason } => event@ == (EventView::PeerLeft {
                final_seq,
                reason: reason@,
            }),
            ChatEvent::RateLimited { retry_after_ms } => event@ == (EventView::RateLimited {
                retry_after_ms,
            }),
            ChatEvent::ServerBusy { retry_after_ms } => event@ == (EventView::ServerBusy {
                retry_after_ms,
            }),
            ChatEvent::Error { code, message } => event@ == (EventView::Error {
                code,
                message: message@,
            }),
        },
        match noted {
            HistoryCommand::Begin(id, peer, visibility) => noted@ == HistoryView::Begin(
                id.bytes@,
                peer@,
                visibility,
            ),
            HistoryCommand::Append(id, seq, sender, time_ms, text) => noted@ == HistoryView::Append(
                id.bytes@,
                seq,
                sender,
                time_ms,
                text@,
            ),
            HistoryCommand::Finish(id, final_seq) => noted@ == HistoryView::Finish(
                id.bytes@,
                final_seq,
            ),
        },
{
}

/// Law: an error says what kind it is and why.
pub proof fn law_client_errors_in_words(error: ClientError)
    ensures
        client_error_text(error) == match error {
            ClientError::Config(cause) => "configuration error: "@ + cause@,
            ClientError::Authentication(cause) => "authentication error: "@ + cause@,
            ClientError::Network(cause) => "network error: "@ + cause@,
            ClientError::Protocol(cause) => "protocol error: "@ + protocol_message(cause),
            ClientError::History(cause) => "local history error: "@ + history_error_text(cause),
            ClientError::Closed => "client command queue is closed"@,
        },
{
}

} // verus!
