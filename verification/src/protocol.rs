//! The binary frames that client and server exchange.

pub mod opcode;

use std::borrow::Cow;

use vstd::prelude::*;
use vstd::string::*;
use vstd::utf8::*;

use crate::bytes::{
    be_bytes, be_value, get_be, law_be_round_trip, law_be_value_determines_bytes,
    lemma_be_bytes_len, lemma_be_limits, lemma_be_value_bound, put_be, put_bytes, same_bytes,
};
use crate::ids::Uuid;
use crate::outside::str_from_utf8;
use crate::text::{decimal_text, hex_text, join, to_decimal, to_hex};

verus! {

/// The bytes that open a connection: `AING`.
pub const MAGIC: [u8; 4] = [0x41, 0x49, 0x4e, 0x47];

/// The protocol version that this library speaks.
pub const VERSION: u16 = 1;

/// The largest message payload, in bytes.
pub const MAX_MESSAGE_SIZE: usize = 16 * 1024;

/// Who may read a conversation.
#[derive(Debug, Clone, Copy, PartialEq, Eq, Structural)]
pub enum Visibility {
    Public,
    Unlisted,
    Private,
}

/// Why a conversation ended.
#[derive(Debug, Clone, Copy, PartialEq, Eq, Structural)]
pub enum EndReason {
    Left,
    Next,
    Disconnected,
    Timeout,
    ProtocolError,
}

/// Why a frame was refused.
#[derive(Debug, PartialEq, Eq)]
pub enum ProtocolError {
    Empty,
    UnknownOpcode(u8),
    InvalidLength,
    InvalidUtf8,
    InvalidField(&'static str),
    MessageTooLarge,
    IncompatibleVersion(u16),
}

/// A frame from client to server.
#[derive(Debug, PartialEq, Eq)]
pub enum ClientFrame<'a> {
    Find,
    Cancel,
    Message(&'a [u8]),
    Leave,
    Ping(u64),
    Close,
}

/// A frame from server to client.
#[derive(Debug, PartialEq, Eq)]
pub enum ServerFrame<'a> {
    Ready { agent_id: Cow<'a, str> },
    Searching,
    Matched { conversation_id: Uuid, peer_agent_id: Cow<'a, str>, visibility: Visibility },
    Message { seq: u64, sender: u8, payload: &'a [u8] },
    PeerLeft { final_seq: u64, reason: EndReason },
    RateLimited { retry_after_ms: u32 },
    ServerBusy { retry_after_ms: u32 },
    Error { code: u16, message: Cow<'a, str> },
    Pong(u64),
}

/// What a client frame says.
pub enum ClientView {
    Find,
    Cancel,
    Message(Seq<u8>),
    Leave,
    Ping(u64),
    Close,
}

/// What a server frame says.
pub enum ServerView {
    Ready { agent_id: Seq<char> },
    Searching,
    Matched { conversation_id: Seq<u8>, peer_agent_id: Seq<char>, visibility: Visibility },
    Message { seq: u64, sender: u8, payload: Seq<u8> },
    PeerLeft { final_seq: u64, reason: EndReason },
    RateLimited { retry_after_ms: u32 },
    ServerBusy { retry_after_ms: u32 },
    Error { code: u16, message: Seq<char> },
    Pong(u64),
}

impl<'a> View for ClientFrame<'a> {
    type V = ClientView;

    open spec fn view(&self) -> ClientView {
        match self {
            ClientFrame::Find => ClientView::Find,
            ClientFrame::Cancel => ClientView::Cancel,
            ClientFrame::Message(payload) => ClientView::Message(payload@),
            ClientFrame::Leave => ClientView::Leave,
            ClientFrame::Ping(value) => ClientView::Ping(*value),
            ClientFrame::Close => ClientView::Close,
        }
    }
}

impl<'a> View for ServerFrame<'a> {
    type V = ServerView;

    open spec fn view(&self) -> ServerView {
        match self {
            ServerFrame::Ready { agent_id } => ServerView::Ready { agent_id: agent_id@ },
            ServerFrame::Searching => ServerView::Searching,
            ServerFrame::Matched { conversation_id, peer_agent_id, visibility } =>
                ServerView::Matched {
                conversation_id: conversation_id@,
                peer_agent_id: peer_agent_id@,
                visibility: *visibility,
            },
            ServerFrame::Message { seq, sender, payload } => ServerView::Message {
                seq: *seq,
                sender: *sender,
                payload: payload@,
            },
            ServerFrame::PeerLeft { final_seq, reason } => ServerView::PeerLeft {
                final_seq: *final_seq,
                reason: *reason,
            },
            ServerFrame::RateLimited { retry_after_ms } => ServerView::RateLimited {
                retry_after_ms: *retry_after_ms,
            },
            ServerFrame::ServerBusy { retry_after_ms } => ServerView::ServerBusy {
                retry_after_ms: *retry_after_ms,
            },
            ServerFrame::Error { code, message } => ServerView::Error {
                code: *code,
                message: message@,
            },
            ServerFrame::Pong(value) => ServerView::Pong(*value),
        }
    }
}

impl<'a> Clone for ClientFrame<'a> {
    fn clone(&self) -> (frame: Self)
        ensures
            frame@ == self@,
    {
        match self {
            ClientFrame::Find => ClientFrame::Find,
            ClientFrame::Cancel => ClientFrame::Cancel,
            ClientFrame::Message(payload) => ClientFrame::Message(*payload),
            ClientFrame::Leave => ClientFrame::Leave,
            ClientFrame::Ping(value) => ClientFrame::Ping(*value),
            ClientFrame::Close => ClientFrame::Close,
        }
    }
}

fn copy_text<'a>(text: &Cow<'a, str>) -> (copy: Cow<'a, str>)
    ensures
        copy@ == text@,
{
    match text {
        Cow::Borrowed(s) => Cow::Borrowed(*s),
        Cow::Owned(s) => Cow::Owned(s.clone()),
    }
}

impl<'a> Clone for ServerFrame<'a> {
    fn clone(&self) -> (frame: Self)
        ensures
            frame@ == self@,
    {
        match self {
            ServerFrame::Ready { agent_id } => ServerFrame::Ready { agent_id: copy_text(agent_id) },
            ServerFrame::Searching => ServerFrame::Searching,
            ServerFrame::Matched { conversation_id, peer_agent_id, visibility } =>
                ServerFrame::Matched {
                conversation_id: *conversation_id,
                peer_agent_id: copy_text(peer_agent_id),
                visibility: *visibility,
            },
            ServerFrame::Message { seq, sender, payload } => ServerFrame::Message {
                seq: *seq,
                sender: *sender,
                payload: *payload,
            },
            ServerFrame::PeerLeft { final_seq, reason } => ServerFrame::PeerLeft {
                final_seq: *final_seq,
                reason: *reason,
            },
            ServerFrame::RateLimited { retry_after_ms } => ServerFrame::RateLimited {
                retry_after_ms: *retry_after_ms,
            },
            ServerFrame::ServerBusy { retry_after_ms } => ServerFrame::ServerBusy {
                retry_after_ms: *retry_after_ms,
            },
            ServerFrame::Error { code, message } => ServerFrame::Error {
                code: *code,
                message: copy_text(message),
            },
            ServerFrame::Pong(value) => ServerFrame::Pong(*value),
        }
    }
}

/// The byte that stands for a visibility.
pub open spec fn visibility_code(value: Visibility) -> u8 {
    match value {
        Visibility::Public => 0,
        Visibility::Unlisted => 1,
        Visibility::Private => 2,
    }
}

/// The visibility that a byte stands for.
pub open spec fn visibility_of(code: u8) -> Result<Visibility, ProtocolError> {
    if code == 0 {
        Ok(Visibility::Public)
    } else if code == 1 {
        Ok(Visibility::Unlisted)
    } else if code == 2 {
        Ok(Visibility::Private)
    } else {
        Err(ProtocolError::InvalidField("visibility"))
    }
}

/// The byte that stands for an end reason.
pub open spec fn reason_code(value: EndReason) -> u8 {
    match value {
        EndReason::Left => 0,
        EndReason::Next => 1,
        EndReason::Disconnected => 2,
        EndReason::Timeout => 3,
        EndReason::ProtocolError => 4,
    }
}

/// The end reason that a byte stands for.
pub open spec fn reason_of(code: u8) -> Result<EndReason, ProtocolError> {
    if code == 0 {
        Ok(EndReason::Left)
    } else if code == 1 {
        Ok(EndReason::Next)
    } else if code == 2 {
        Ok(EndReason::Disconnected)
    } else if code == 3 {
        Ok(EndReason::Timeout)
    } else if code == 4 {
        Ok(EndReason::ProtocolError)
    } else {
        Err(ProtocolError::InvalidField("end_reason"))
    }
}

impl Visibility {
    /// The byte that stands for this visibility.
    pub fn code(self) -> (code: u8)
        ensures
            code == visibility_code(self),
            self == Visibility::Public ==> code == 0,
            self == Visibility::Unlisted ==> code == 1,
            self == Visibility::Private ==> code == 2,
    {
        match self {
            Visibility::Public => 0,
            Visibility::Unlisted => 1,
            Visibility::Private => 2,
        }
    }
}

impl EndReason {
    /// The byte that stands for this reason.
    pub fn code(self) -> (code: u8)
        ensures
            code == reason_code(self),
            self == EndReason::Left ==> code == 0,
            self == EndReason::Next ==> code == 1,
            self == EndReason::Disconnected ==> code == 2,
            self == EndReason::Timeout ==> code == 3,
            self == EndReason::ProtocolError ==> code == 4,
    {
        match self {
            EndReason::Left => 0,
            EndReason::Next => 1,
            EndReason::Disconnected => 2,
            EndReason::Timeout => 3,
            EndReason::ProtocolError => 4,
        }
    }
}

impl TryFrom<u8> for Visibility {
    type Error = ProtocolError;

    fn try_from(value: u8) -> (visibility: Result<Self, ProtocolError>) {
        match value {
            0 => Ok(Visibility::Public),
            1 => Ok(Visibility::Unlisted),
            2 => Ok(Visibility::Private),
            _ => Err(ProtocolError::InvalidField("visibility")),
        }
    }
}

impl vstd::std_specs::convert::TryFromSpecImpl<u8> for Visibility {
    open spec fn obeys_try_from_spec() -> bool {
        true
    }

    open spec fn try_from_spec(value: u8) -> Result<Self, ProtocolError> {
        visibility_of(value)
    }
}

impl TryFrom<u8> for EndReason {
    type Error = ProtocolError;

    fn try_from(value: u8) -> (reason: Result<Self, ProtocolError>) {
        match value {
            0 => Ok(EndReason::Left),
            1 => Ok(EndReason::Next),
            2 => Ok(EndReason::Disconnected),
            3 => Ok(EndReason::Timeout),
            4 => Ok(EndReason::ProtocolError),
            _ => Err(ProtocolError::InvalidField("end_reason")),
        }
    }
}

impl vstd::std_specs::convert::TryFromSpecImpl<u8> for EndReason {
    open spec fn obeys_try_from_spec() -> bool {
        true
    }

    open spec fn try_from_spec(value: u8) -> Result<Self, ProtocolError> {
        reason_of(value)
    }
}

/// The bytes of a greeting.
pub open spec fn hello_image(version: u16, flags: u16) -> Seq<u8> {
    MAGIC@ + be_bytes(version as nat, 2) + be_bytes(flags as nat, 2)
}

/// What a greeting says: its flags, if magic and version are right.
pub open spec fn hello_parse(bytes: Seq<u8>) -> Result<u16, ProtocolError> {
    let version = be_value(bytes.subrange(4, 6)) as u16;
    if bytes.len() != 8 || bytes.subrange(0, 4) != MAGIC@ {
        Err(ProtocolError::InvalidLength)
    } else if version != VERSION {
        Err(ProtocolError::IncompatibleVersion(version))
    } else {
        Ok(be_value(bytes.subrange(6, 8)) as u16)
    }
}

/// The greeting with the given flags.
pub fn client_hello(flags: u16) -> (bytes: [u8; 8])
    ensures
        bytes@ == hello_image(VERSION, flags),
{
    let bytes: [u8; 8] = [
        MAGIC[0],
        MAGIC[1],
        MAGIC[2],
        MAGIC[3],
        (VERSION / 256) as u8,
        (VERSION % 256) as u8,
        (flags / 256) as u8,
        (flags % 256) as u8,
    ];
    proof {
        reveal_with_fuel(be_bytes, 3);
        assert(bytes@ =~= hello_image(VERSION, flags));
    }
    bytes
}

/// Reads a greeting.
pub fn decode_hello(bytes: &[u8]) -> (flags: Result<u16, ProtocolError>)
    ensures
        flags == hello_parse(bytes@),
{
    if bytes.len() != 8 || !same_bytes(&bytes[0..4], MAGIC.as_slice()) {
        return Err(ProtocolError::InvalidLength);
    }
    let version: u16 = read_u16(&bytes[4..6]);
    if version != VERSION {
        return Err(ProtocolError::IncompatibleVersion(version));
    }
    Ok(read_u16(&bytes[6..8]))
}

fn read_u16(bytes: &[u8]) -> (value: u16)
    requires
        bytes@.len() == 2,
    ensures
        value == be_value(bytes@),
{
    proof {
        lemma_be_value_bound(bytes@);
        lemma_be_limits();
    }
    get_be(bytes) as u16
}

fn read_u32(bytes: &[u8]) -> (value: u32)
    requires
        bytes@.len() >= 4,
    ensures
        value == be_value(bytes@.subrange(0, 4)),
{
    proof {
        lemma_be_value_bound(bytes@.subrange(0, 4));
        lemma_be_limits();
    }
    get_be(&bytes[0..4]) as u32
}

fn read_u64(bytes: &[u8]) -> (value: u64)
    requires
        bytes@.len() >= 8,
    ensures
        value == be_value(bytes@.subrange(0, 8)),
{
    get_be(&bytes[0..8])
}

/// Law: a greeting of this library is read back, and its flags with it.
pub proof fn law_hello_round_trip(flags: u16)
    ensures
        hello_parse(hello_image(VERSION, flags)) == Ok::<u16, ProtocolError>(flags),
{
    let bytes = hello_image(VERSION, flags);
    lemma_be_bytes_len(VERSION as nat, 2);
    lemma_be_bytes_len(flags as nat, 2);
    lemma_be_limits();
    law_be_round_trip(VERSION as nat, 2);
    law_be_round_trip(flags as nat, 2);
    assert(bytes.subrange(0, 4) =~= MAGIC@);
    assert(bytes.subrange(4, 6) =~= be_bytes(VERSION as nat, 2));
    assert(bytes.subrange(6, 8) =~= be_bytes(flags as nat, 2));
}

/// Law: a greeting in another version is refused with that version.
pub proof fn law_foreign_hello_is_named(version: u16, flags: u16)
    requires
        version != VERSION,
    ensures
        hello_parse(hello_image(version, flags)) == Err::<u16, ProtocolError>(
            ProtocolError::IncompatibleVersion(version),
        ),
{
    let bytes = hello_image(version, flags);
    lemma_be_bytes_len(version as nat, 2);
    lemma_be_bytes_len(flags as nat, 2);
    lemma_be_limits();
    law_be_round_trip(version as nat, 2);
    assert(bytes.subrange(0, 4) =~= MAGIC@);
    assert(bytes.subrange(4, 6) =~= be_bytes(version as nat, 2));
}

/// Why a client frame cannot be sent, if it cannot.
pub open spec fn client_fault(frame: ClientView) -> Option<ProtocolError> {
    match frame {
        ClientView::Message(payload) => if payload.len() > MAX_MESSAGE_SIZE {
            Some(ProtocolError::MessageTooLarge)
        } else if !valid_utf8(payload) {
            Some(ProtocolError::InvalidUtf8)
        } else {
            None
        },
        _ => None,
    }
}

/// The bytes of a client frame.
pub open spec fn client_image(frame: ClientView) -> Seq<u8> {
    match frame {
        ClientView::Find => seq![opcode::FIND],
        ClientView::Cancel => seq![opcode::CANCEL],
        ClientView::Message(payload) => seq![opcode::MESSAGE] + payload,
        ClientView::Leave => seq![opcode::LEAVE],
        ClientView::Ping(value) => seq![opcode::PING] + be_bytes(value as nat, 8),
        ClientView::Close => seq![opcode::CLOSE],
    }
}

/// What the bytes of a client frame say.
pub open spec fn client_parse(bytes: Seq<u8>) -> Result<ClientView, ProtocolError> {
    let op = bytes[0];
    let payload = bytes.skip(1);
    if bytes.len() == 0 {
        Err(ProtocolError::Empty)
    } else if op == opcode::FIND && payload.len() == 0 {
        Ok(ClientView::Find)
    } else if op == opcode::CANCEL && payload.len() == 0 {
        Ok(ClientView::Cancel)
    } else if op == opcode::MESSAGE {
        match client_fault(ClientView::Message(payload)) {
            Some(error) => Err(error),
            None => Ok(ClientView::Message(payload)),
        }
    } else if op == opcode::LEAVE && payload.len() == 0 {
        Ok(ClientView::Leave)
    } else if op == opcode::PING && payload.len() == 8 {
        Ok(ClientView::Ping(be_value(payload) as u64))
    } else if op == opcode::CLOSE && payload.len() == 0 {
        Ok(ClientView::Close)
    } else if opcode::FIND <= op <= opcode::CLOSE {
        Err(ProtocolError::InvalidLength)
    } else {
        Err(ProtocolError::UnknownOpcode(op))
    }
}

/// The bytes of a client frame, or why it cannot be sent.
pub fn encode_client(frame: ClientFrame<'_>) -> (bytes: Result<Vec<u8>, ProtocolError>)
    ensures
        client_fault(frame@) matches Some(error) ==> bytes == Err::<Vec<u8>, _>(error),
        client_fault(frame@) is None ==> (bytes matches Ok(b) && b@ == client_image(frame@)),
{
    let mut output: Vec<u8> = Vec::new();
    match frame {
        ClientFrame::Find => output.push(opcode::FIND),
        ClientFrame::Cancel => output.push(opcode::CANCEL),
        ClientFrame::Message(payload) => {
            if payload.len() > MAX_MESSAGE_SIZE {
                return Err(ProtocolError::MessageTooLarge);
            }
            if str_from_utf8(payload).is_none() {
                return Err(ProtocolError::InvalidUtf8);
            }
            output.push(opcode::MESSAGE);
            put_bytes(&mut output, payload);
        },
        ClientFrame::Leave => output.push(opcode::LEAVE),
        ClientFrame::Ping(value) => {
            output.push(opcode::PING);
            put_be(&mut output, value, 8);
        },
        ClientFrame::Close => output.push(opcode::CLOSE),
    }
    assert(output@ =~= client_image(frame@));
    Ok(output)
}

/// Reads a client frame.
pub fn decode_client(bytes: &[u8]) -> (frame: Result<ClientFrame<'_>, ProtocolError>)
    ensures
        client_parse(bytes@) matches Ok(view) ==> (frame matches Ok(f) && f@ == view),
        client_parse(bytes@) matches Err(error) ==> frame == Err::<ClientFrame<'_>, _>(error),
{
    if bytes.len() == 0 {
        return Err(ProtocolError::Empty);
    }
    let op: u8 = bytes[0];
    let payload = &bytes[1..bytes.len()];
    assert(payload@ =~= bytes@.skip(1));
    if op == opcode::FIND && payload.len() == 0 {
        Ok(ClientFrame::Find)
    } else if op == opcode::CANCEL && payload.len() == 0 {
        Ok(ClientFrame::Cancel)
    } else if op == opcode::MESSAGE {
        if payload.len() > MAX_MESSAGE_SIZE {
            Err(ProtocolError::MessageTooLarge)
        } else if str_from_utf8(payload).is_none() {
            Err(ProtocolError::InvalidUtf8)
        } else {
            Ok(ClientFrame::Message(payload))
        }
    } else if op == opcode::LEAVE && payload.len() == 0 {
        Ok(ClientFrame::Leave)
    } else if op == opcode::PING && payload.len() == 8 {
        assert(payload@.subrange(0, 8) =~= payload@);
        Ok(ClientFrame::Ping(read_u64(payload)))
    } else if op == opcode::CLOSE && payload.len() == 0 {
        Ok(ClientFrame::Close)
    } else if opcode::FIND <= op && op <= opcode::CLOSE {
        Err(ProtocolError::InvalidLength)
    } else {
        Err(ProtocolError::UnknownOpcode(op))
    }
}

/// Law: what is encoded is decoded to the same frame.
pub proof fn law_client_round_trip(frame: ClientView)
    requires
        client_fault(frame) is None,
    ensures
        client_parse(client_image(frame)) == Ok::<_, ProtocolError>(frame),
{
    let bytes = client_image(frame);
    match frame {
        ClientView::Message(payload) => {
            assert(bytes.skip(1) =~= payload);
        },
        ClientView::Ping(value) => {
            lemma_be_limits();
            law_be_round_trip(value as nat, 8);
            lemma_be_bytes_len(value as nat, 8);
            assert(bytes.skip(1) =~= be_bytes(value as nat, 8));
        },
        _ => {},
    }
}

/// Law: only the encoding of a frame is decoded to it, and what is decoded can be sent.
pub proof fn law_client_bytes_are_canonical(bytes: Seq<u8>)
    ensures
        client_parse(bytes) matches Ok(frame) ==> client_fault(frame) is None && client_image(frame)
            == bytes,
{
    if let Ok(frame) = client_parse(bytes) {
        let payload = bytes.skip(1);
        assert(seq![bytes[0]] + payload =~= bytes);
        if frame is Ping {
            lemma_be_value_bound(payload);
            lemma_be_limits();
            law_be_value_determines_bytes(payload);
        }
        assert(client_image(frame) =~= bytes);
    }
}

/// A short text: its length in one byte, then the text.
pub open spec fn short_image(text: Seq<char>) -> Seq<u8> {
    seq![encode_utf8(text).len() as u8] + encode_utf8(text)
}

/// Why a short text cannot be written, if it cannot.
pub open spec fn short_fault(text: Seq<char>) -> Option<ProtocolError> {
    if encode_utf8(text).len() > 255 {
        Some(ProtocolError::InvalidLength)
    } else {
        None
    }
}

/// The short text in a byte sequence that holds nothing else.
pub open spec fn short_parse(bytes: Seq<u8>) -> Result<Seq<char>, ProtocolError> {
    if bytes.len() == 0 || bytes[0] != bytes.len() - 1 {
        Err(ProtocolError::InvalidLength)
    } else if !valid_utf8(bytes.skip(1)) {
        Err(ProtocolError::InvalidUtf8)
    } else {
        Ok(decode_utf8(bytes.skip(1)))
    }
}

/// Appends a short text: its length in one byte, then the text.
pub fn put_short_string(output: &mut Vec<u8>, value: &str) -> (done: Result<(), ProtocolError>)
    ensures
        short_fault(value@) matches Some(error) ==> done == Err::<(), _>(error) && final(output)@
            == old(output)@,
        short_fault(value@) is None ==> done is Ok && final(output)@ == old(output)@ + short_image(
            value@,
        ),
{
    let bytes = value.as_bytes();
    if bytes.len() > 255 {
        return Err(ProtocolError::InvalidLength);
    }
    output.push(bytes.len() as u8);
    put_bytes(output, bytes);
    assert(output@ =~= old(output)@ + short_image(value@));
    Ok(())
}

/// Reads a short text out of bytes that hold nothing else.
pub fn read_short_string(bytes: &[u8]) -> (text: Result<&str, ProtocolError>)
    ensures
        short_parse(bytes@) matches Ok(view) ==> (text matches Ok(t) && t@ == view),
        short_parse(bytes@) matches Err(error) ==> text == Err::<&str, _>(error),
{
    if bytes.len() == 0 {
        return Err(ProtocolError::InvalidLength);
    }
    let value = &bytes[1..bytes.len()];
    assert(value@ =~= bytes@.skip(1));
    if value.len() != bytes[0] as usize {
        return Err(ProtocolError::InvalidLength);
    }
    match str_from_utf8(value) {
        Some(text) => {
            proof {
                encode_utf8_decode_utf8(text@);
            }
            Ok(text)
        },
        None => Err(ProtocolError::InvalidUtf8),
    }
}

/// Law: a short text that was written is read back.
pub proof fn law_short_text_round_trip(text: Seq<char>)
    requires
        short_fault(text) is None,
    ensures
        short_parse(short_image(text)) == Ok::<_, ProtocolError>(text),
{
    let bytes = short_image(text);
    assert(bytes.skip(1) =~= encode_utf8(text));
    encode_utf8_valid_utf8(text);
    encode_utf8_decode_utf8(text);
}

/// Law: a short text is read exactly where its length is that of the rest of the bytes, no more and
/// no less, and the rest is UTF-8; what is read is written as the same bytes.
pub proof fn law_short_text_is_canonical(bytes: Seq<u8>)
    ensures
        short_parse(bytes) == Err::<Seq<char>, _>(ProtocolError::InvalidLength) <==> bytes.len()
            == 0 || bytes.len() - 1 != bytes[0],
        short_parse(bytes) == Err::<Seq<char>, _>(ProtocolError::InvalidUtf8) <==> bytes.len() > 0
            && bytes.len() - 1 == bytes[0] && !valid_utf8(bytes.skip(1)),
        short_parse(bytes) matches Ok(text) ==> encode_utf8(text) == bytes.skip(1) && short_fault(
            text,
        ) is None && short_image(text) == bytes,
{
    if let Ok(text) = short_parse(bytes) {
        decode_utf8_encode_utf8(bytes.skip(1));
        assert(short_image(text) =~= bytes);
    }
}

/// Why a server frame cannot be sent, if it cannot.
pub open spec fn server_fault(frame: ServerView) -> Option<ProtocolError> {
    match frame {
        ServerView::Ready { agent_id } => short_fault(agent_id),
        ServerView::Matched { peer_agent_id, .. } => short_fault(peer_agent_id),
        ServerView::Message { sender, payload, .. } => if payload.len() > MAX_MESSAGE_SIZE {
            Some(ProtocolError::MessageTooLarge)
        } else if sender > 1 {
            Some(ProtocolError::InvalidField("sender"))
        } else if !valid_utf8(payload) {
            Some(ProtocolError::InvalidUtf8)
        } else {
            None
        },
        _ => None,
    }
}

/// The bytes of a server frame.
pub open spec fn server_image(frame: ServerView) -> Seq<u8> {
    match frame {
        ServerView::Ready { agent_id } => seq![opcode::READY] + short_image(agent_id),
        ServerView::Searching => seq![opcode::SEARCHING],
        ServerView::Matched { conversation_id, peer_agent_id, visibility } => seq![opcode::MATCHED]
            + conversation_id + seq![visibility_code(visibility)] + short_image(peer_agent_id),
        ServerView::Message { seq, sender, payload } => seq![opcode::SERVER_MESSAGE] + be_bytes(
            seq as nat,
            8,
        ) + seq![sender] + payload,
        ServerView::PeerLeft { final_seq, reason } => seq![opcode::PEER_LEFT] + be_bytes(
            final_seq as nat,
            8,
        ) + seq![reason_code(reason)],
        ServerView::RateLimited { retry_after_ms } => seq![opcode::RATE_LIMITED] + be_bytes(
            retry_after_ms as nat,
            4,
        ),
        ServerView::ServerBusy { retry_after_ms } => seq![opcode::SERVER_BUSY] + be_bytes(
            retry_after_ms as nat,
            4,
        ),
        ServerView::Error { code, message } => seq![opcode::ERROR] + be_bytes(code as nat, 2)
            + encode_utf8(message),
        ServerView::Pong(value) => seq![opcode::PONG] + be_bytes(value as nat, 8),
    }
}

/// What the payload of a match frame says.
pub open spec fn matched_parse(payload: Seq<u8>) -> Result<ServerView, ProtocolError> {
    match visibility_of(payload[16]) {
        Err(error) => Err(error),
        Ok(visibility) => match short_parse(payload.skip(17)) {
            Err(error) => Err(error),
            Ok(peer_agent_id) => Ok(
                ServerView::Matched {
                    conversation_id: payload.subrange(0, 16),
                    peer_agent_id,
                    visibility,
                },
            ),
        },
    }
}

/// What the bytes of a server frame say.
pub open spec fn server_parse(bytes: Seq<u8>) -> Result<ServerView, ProtocolError> {
    let op = bytes[0];
    let payload = bytes.skip(1);
    if bytes.len() == 0 {
        Err(ProtocolError::Empty)
    } else if op == opcode::READY {
        match short_parse(payload) {
            Ok(agent_id) => Ok(ServerView::Ready { agent_id }),
            Err(error) => Err(error),
        }
    } else if op == opcode::SEARCHING && payload.len() == 0 {
        Ok(ServerView::Searching)
    } else if op == opcode::MATCHED && payload.len() >= 18 {
        matched_parse(payload)
    } else if op == opcode::SERVER_MESSAGE && 9 <= payload.len() <= 9 + MAX_MESSAGE_SIZE
        && payload[8] <= 1 {
        if valid_utf8(payload.skip(9)) {
            Ok(
                ServerView::Message {
                    seq: be_value(payload.subrange(0, 8)) as u64,
                    sender: payload[8],
                    payload: payload.skip(9),
                },
            )
        } else {
            Err(ProtocolError::InvalidUtf8)
        }
    } else if op == opcode::PEER_LEFT && payload.len() == 9 {
        match reason_of(payload[8]) {
            Ok(reason) => Ok(
                ServerView::PeerLeft {
                    final_seq: be_value(payload.subrange(0, 8)) as u64,
                    reason,
                },
            ),
            Err(error) => Err(error),
        }
    } else if op == opcode::RATE_LIMITED && payload.len() == 4 {
        Ok(ServerView::RateLimited { retry_after_ms: be_value(payload) as u32 })
    } else if op == opcode::SERVER_BUSY && payload.len() == 4 {
        Ok(ServerView::ServerBusy { retry_after_ms: be_value(payload) as u32 })
    } else if op == opcode::ERROR && payload.len() >= 2 {
        if valid_utf8(payload.skip(2)) {
            Ok(
                ServerView::Error {
                    code: be_value(payload.subrange(0, 2)) as u16,
                    message: decode_utf8(payload.skip(2)),
                },
            )
        } else {
            Err(ProtocolError::InvalidUtf8)
        }
    } else if op == opcode::PONG && payload.len() == 8 {
        Ok(ServerView::Pong(be_value(payload) as u64))
    } else if opcode::SEARCHING <= op <= opcode::PONG {
        Err(ProtocolError::InvalidLength)
    } else {
        Err(ProtocolError::UnknownOpcode(op))
    }
}

fn text_of<'b>(text: &'b Cow<'_, str>) -> (s: &'b str)
    ensures
        s@ == text@,
{
    match text {
        Cow::Borrowed(s) => *s,
        Cow::Owned(s) => s.as_str(),
    }
}

/// The bytes of a server frame, or why it cannot be sent.
pub fn encode_server(frame: ServerFrame<'_>) -> (bytes: Result<Vec<u8>, ProtocolError>)
    ensures
        server_fault(frame@) matches Some(error) ==> bytes == Err::<Vec<u8>, _>(error),
        server_fault(frame@) is None ==> (bytes matches Ok(b) && b@ == server_image(frame@)),
{
    let mut output: Vec<u8> = Vec::new();
    match &frame {
        ServerFrame::Ready { agent_id } => {
            output.push(opcode::READY);
            put_short_string(&mut output, text_of(agent_id))?;
        },
        ServerFrame::Searching => output.push(opcode::SEARCHING),
        ServerFrame::Matched { conversation_id, peer_agent_id, visibility } => {
            output.push(opcode::MATCHED);
            put_bytes(&mut output, conversation_id.as_bytes());
            output.push(visibility.code());
            put_short_string(&mut output, text_of(peer_agent_id))?;
        },
        ServerFrame::Message { seq, sender, payload } => {
            if payload.len() > MAX_MESSAGE_SIZE {
                return Err(ProtocolError::MessageTooLarge);
            }
            if *sender > 1 {
                return Err(ProtocolError::InvalidField("sender"));
            }
            if str_from_utf8(payload).is_none() {
                return Err(ProtocolError::InvalidUtf8);
            }
            output.push(opcode::SERVER_MESSAGE);
            put_be(&mut output, *seq, 8);
            output.push(*sender);
            put_bytes(&mut output, payload);
        },
        ServerFrame::PeerLeft { final_seq, reason } => {
            output.push(opcode::PEER_LEFT);
            put_be(&mut output, *final_seq, 8);
            output.push(reason.code());
        },
        ServerFrame::RateLimited { retry_after_ms } => {
            output.push(opcode::RATE_LIMITED);
            put_be(&mut output, *retry_after_ms as u64, 4);
        },
        ServerFrame::ServerBusy { retry_after_ms } => {
            output.push(opcode::SERVER_BUSY);
            put_be(&mut output, *retry_after_ms as u64, 4);
        },
        ServerFrame::Error { code, message } => {
            output.push(opcode::ERROR);
            put_be(&mut output, *code as u64, 2);
            put_bytes(&mut output, text_of(message).as_bytes());
        },
        ServerFrame::Pong(value) => {
            output.push(opcode::PONG);
            put_be(&mut output, *value, 8);
        },
    }
    assert(output@ =~= server_image(frame@));
    Ok(output)
}

/// Reads a server frame.
pub fn decode_server(bytes: &[u8]) -> (frame: Result<ServerFrame<'_>, ProtocolError>)
    ensures
        server_parse(bytes@) matches Ok(view) ==> (frame matches Ok(f) && f@ == view),
        server_parse(bytes@) matches Err(error) ==> frame == Err::<ServerFrame<'_>, _>(error),
{
    if bytes.len() == 0 {
        return Err(ProtocolError::Empty);
    }
    let op: u8 = bytes[0];
    let payload = &bytes[1..bytes.len()];
    assert(payload@ =~= bytes@.skip(1));
    if op == opcode::READY {
        let agent_id = read_short_string(payload)?;
        Ok(ServerFrame::Ready { agent_id: Cow::Borrowed(agent_id) })
    } else if op == opcode::SEARCHING && payload.len() == 0 {
        Ok(ServerFrame::Searching)
    } else if op == opcode::MATCHED && payload.len() >= 18 {
        decode_matched(payload)
    } else if op == opcode::SERVER_MESSAGE && payload.len() >= 9 && payload.len() - 9
        <= MAX_MESSAGE_SIZE && payload[8] <= 1 {
        let content = &payload[9..payload.len()];
        assert(content@ =~= payload@.skip(9));
        if str_from_utf8(content).is_none() {
            return Err(ProtocolError::InvalidUtf8);
        }
        Ok(ServerFrame::Message { seq: read_u64(payload), sender: payload[8], payload: content })
    } else if op == opcode::PEER_LEFT && payload.len() == 9 {
        let reason = EndReason::try_from(payload[8])?;
        Ok(ServerFrame::PeerLeft { final_seq: read_u64(payload), reason })
    } else if op == opcode::RATE_LIMITED && payload.len() == 4 {
        assert(payload@.subrange(0, 4) =~= payload@);
        Ok(ServerFrame::RateLimited { retry_after_ms: read_u32(payload) })
    } else if op == opcode::SERVER_BUSY && payload.len() == 4 {
        assert(payload@.subrange(0, 4) =~= payload@);
        Ok(ServerFrame::ServerBusy { retry_after_ms: read_u32(payload) })
    } else if op == opcode::ERROR && payload.len() >= 2 {
        let rest = &payload[2..payload.len()];
        assert(rest@ =~= payload@.skip(2));
        match str_from_utf8(rest) {
            Some(message) => {
                proof {
                    encode_utf8_decode_utf8(message@);
                }
                Ok(
                    ServerFrame::Error {
                        code: read_u16(&payload[0..2]),
                        message: Cow::Borrowed(message),
                    },
                )
            },
            None => Err(ProtocolError::InvalidUtf8),
        }
    } else if op == opcode::PONG && payload.len() == 8 {
        assert(payload@.subrange(0, 8) =~= payload@);
        Ok(ServerFrame::Pong(read_u64(payload)))
    } else if opcode::SEARCHING <= op && op <= opcode::PONG {
        Err(ProtocolError::InvalidLength)
    } else {
        Err(ProtocolError::UnknownOpcode(op))
    }
}

fn decode_matched(payload: &[u8]) -> (frame: Result<ServerFrame<'_>, ProtocolError>)
    requires
        payload@.len() >= 18,
    ensures
        matched_parse(payload@) matches Ok(view) ==> (frame matches Ok(f) && f@ == view),
        matched_parse(payload@) matches Err(error) ==> frame == Err::<ServerFrame<'_>, _>(error),
{
    match Uuid::from_slice(&payload[0..16]) {
        Some(conversation_id) => {
            let visibility = Visibility::try_from(payload[16])?;
            let rest = &payload[17..payload.len()];
            assert(rest@ =~= payload@.skip(17));
            let peer_agent_id = read_short_string(rest)?;
            Ok(
                ServerFrame::Matched {
                    conversation_id,
                    peer_agent_id: Cow::Borrowed(peer_agent_id),
                    visibility,
                },
            )
        },
        None => Err(ProtocolError::InvalidField("conversation_id")),
    }
}

/// Law: what is encoded is decoded to the same frame.
pub proof fn law_server_round_trip(frame: ServerView)
    requires
        server_fault(frame) is None,
        frame matches ServerView::Matched { conversation_id, .. } ==> conversation_id.len() == 16,
    ensures
        server_parse(server_image(frame)) == Ok::<_, ProtocolError>(frame),
{
    let bytes = server_image(frame);
    let payload = bytes.skip(1);
    lemma_be_limits();
    match frame {
        ServerView::Ready { agent_id } => {
            law_short_text_round_trip(agent_id);
            assert(payload =~= short_image(agent_id));
        },
        ServerView::Searching => {},
        ServerView::Matched { conversation_id, peer_agent_id, visibility } => {
            law_short_text_round_trip(peer_agent_id);
            assert(payload.subrange(0, 16) =~= conversation_id);
            assert(payload[16] == visibility_code(visibility));
            assert(payload.skip(17) =~= short_image(peer_agent_id));
        },
        ServerView::Message { seq, sender, payload: content } => {
            lemma_be_bytes_len(seq as nat, 8);
            law_be_round_trip(seq as nat, 8);
            assert(payload.subrange(0, 8) =~= be_bytes(seq as nat, 8));
            assert(payload.skip(9) =~= content);
        },
        ServerView::PeerLeft { final_seq, reason } => {
            lemma_be_bytes_len(final_seq as nat, 8);
            law_be_round_trip(final_seq as nat, 8);
            assert(payload.subrange(0, 8) =~= be_bytes(final_seq as nat, 8));
        },
        ServerView::RateLimited { retry_after_ms } => {
            lemma_be_bytes_len(retry_after_ms as nat, 4);
            law_be_round_trip(retry_after_ms as nat, 4);
            assert(payload =~= be_bytes(retry_after_ms as nat, 4));
        },
        ServerView::ServerBusy { retry_after_ms } => {
            lemma_be_bytes_len(retry_after_ms as nat, 4);
            law_be_round_trip(retry_after_ms as nat, 4);
            assert(payload =~= be_bytes(retry_after_ms as nat, 4));
        },
        ServerView::Error { code, message } => {
            lemma_be_bytes_len(code as nat, 2);
            law_be_round_trip(code as nat, 2);
            assert(payload.subrange(0, 2) =~= be_bytes(code as nat, 2));
            assert(payload.skip(2) =~= encode_utf8(message));
            encode_utf8_valid_utf8(message);
            encode_utf8_decode_utf8(message);
        },
        ServerView::Pong(value) => {
            lemma_be_bytes_len(value as nat, 8);
            law_be_round_trip(value as nat, 8);
            assert(payload =~= be_bytes(value as nat, 8));
        },
    }
}

proof fn lemma_visibility_codes(code: u8, value: Visibility)
    ensures
        visibility_of(code) == Ok::<_, ProtocolError>(value) <==> visibility_code(value) == code,
{
}

proof fn lemma_reason_codes(code: u8, value: EndReason)
    ensures
        reason_of(code) == Ok::<_, ProtocolError>(value) <==> reason_code(value) == code,
{
}

/// Law: only the encoding of a frame is decoded to it, and what is decoded can be sent.
pub proof fn law_server_bytes_are_canonical(bytes: Seq<u8>)
    ensures
        server_parse(bytes) matches Ok(frame) ==> server_fault(frame) is None && server_image(frame)
            == bytes,
{
    if let Ok(frame) = server_parse(bytes) {
        let payload = bytes.skip(1);
        assert(seq![bytes[0]] + payload =~= bytes);
        lemma_be_limits();
        match frame {
            ServerView::Ready { agent_id } => {
                law_short_text_is_canonical(payload);
            },
            ServerView::Searching => {},
            ServerView::Matched { conversation_id, peer_agent_id, visibility } => {
                law_short_text_is_canonical(payload.skip(17));
                lemma_visibility_codes(payload[16], visibility);
                assert(payload =~= conversation_id + seq![visibility_code(visibility)]
                    + short_image(peer_agent_id));
            },
            ServerView::Message { seq, sender, payload: content } => {
                let head = payload.subrange(0, 8);
                lemma_be_value_bound(head);
                law_be_value_determines_bytes(head);
                assert(payload =~= head + seq![sender] + content);
            },
            ServerView::PeerLeft { final_seq, reason } => {
                let head = payload.subrange(0, 8);
                lemma_be_value_bound(head);
                law_be_value_determines_bytes(head);
                lemma_reason_codes(payload[8], reason);
                assert(payload =~= head + seq![reason_code(reason)]);
            },
            ServerView::Error { code, message } => {
                let head = payload.subrange(0, 2);
                lemma_be_value_bound(head);
                law_be_value_determines_bytes(head);
                decode_utf8_encode_utf8(payload.skip(2));
                assert(payload =~= head + encode_utf8(message));
            },
            _ => {
                lemma_be_value_bound(payload);
                law_be_value_determines_bytes(payload);
            },
        }
        assert(server_image(frame) =~= bytes);
    }
}

/// Law: neither side accepts a frame of its own kind back: the opcodes of the two directions
/// have nothing in common.
pub proof fn law_directions_are_disjoint(bytes: Seq<u8>)
    ensures
        client_parse(bytes) is Ok ==> server_parse(bytes) == Err::<ServerView, _>(
            ProtocolError::UnknownOpcode(bytes[0]),
        ),
        server_parse(bytes) is Ok ==> client_parse(bytes) == Err::<ClientView, _>(
            ProtocolError::UnknownOpcode(bytes[0]),
        ),
{
}

/// What a protocol error says.
pub open spec fn protocol_message(error: ProtocolError) -> Seq<char> {
    match error {
        ProtocolError::Empty => "empty frame"@,
        ProtocolError::UnknownOpcode(op) => "unknown opcode 0x"@ + hex_text(seq![op]),
        ProtocolError::InvalidLength => "invalid frame length"@,
        ProtocolError::InvalidUtf8 => "invalid UTF-8"@,
        ProtocolError::InvalidField(field) => "invalid "@ + field@,
        ProtocolError::MessageTooLarge => "message exceeds 16384 bytes"@,
        ProtocolError::IncompatibleVersion(version) => "incompatible protocol version "@
            + decimal_text(version as nat),
    }
}

impl ProtocolError {
    /// What the error says.
    pub fn message(&self) -> (text: String)
        ensures
            text@ == protocol_message(*self),
    {
        match self {
            ProtocolError::Empty => "empty frame".to_owned(),
            ProtocolError::UnknownOpcode(op) => {
                let code: [u8; 1] = [*op];
                assert(code@ =~= seq![*op]);
                join("unknown opcode 0x", to_hex(code.as_slice()).as_str())
            },
            ProtocolError::InvalidLength => "invalid frame length".to_owned(),
            ProtocolError::InvalidUtf8 => "invalid UTF-8".to_owned(),
            ProtocolError::InvalidField(field) => join("invalid ", *field),
            ProtocolError::MessageTooLarge => "message exceeds 16384 bytes".to_owned(),
            ProtocolError::IncompatibleVersion(version) => join(
                "incompatible protocol version ",
                to_decimal(*version as u64).as_str(),
            ),
        }
    }
}

/// Law: a greeting is `AING`, the version in two bytes, which is one, and the flags in two bytes.
pub proof fn law_hello_on_the_wire(flags: u16)
    ensures
        hello_image(VERSION, flags) == seq![
            0x41u8,
            0x49u8,
            0x4eu8,
            0x47u8,
            0u8,
            1u8,
            (flags / 256) as u8,
            (flags % 256) as u8,
        ],
{
    reveal_with_fuel(be_bytes, 3);
    assert(hello_image(VERSION, flags) =~= seq![
        0x41u8,
        0x49u8,
        0x4eu8,
        0x47u8,
        0u8,
        1u8,
        (flags / 256) as u8,
        (flags % 256) as u8,
    ]);
}

/// Law: a greeting is read exactly where it has eight bytes, begins with `AING` and names version
/// one; another version is refused by its number, everything else for its length.
pub proof fn law_hello_is_read_by_its_bytes(bytes: Seq<u8>)
    ensures
        ({
            let framed = bytes.len() == 8 && bytes[0] == 0x41 && bytes[1] == 0x49 && bytes[2]
                == 0x4e && bytes[3] == 0x47;
            let version = 256 * bytes[4] + bytes[5];
            &&& !framed ==> hello_parse(bytes) == Err::<u16, _>(ProtocolError::InvalidLength)
            &&& framed && version != 1 ==> hello_parse(bytes) == Err::<u16, _>(
                ProtocolError::IncompatibleVersion(version as u16),
            )
            &&& framed && version == 1 ==> hello_parse(bytes) == Ok::<u16, ProtocolError>(
                (256 * bytes[6] + bytes[7]) as u16,
            )
        }),
{
    if bytes.len() == 8 {
        reveal_with_fuel(be_value, 3);
        let magic = bytes.subrange(0, 4);
        if bytes[0] == 0x41 && bytes[1] == 0x49 && bytes[2] == 0x4e && bytes[3] == 0x47 {
            assert(magic =~= MAGIC@);
        } else if magic == MAGIC@ {
            assert(magic[0] == bytes[0] && magic[1] == bytes[1] && magic[2] == bytes[2] && magic[3]
                == bytes[3]);
        }
        let version = bytes.subrange(4, 6);
        let flags = bytes.subrange(6, 8);
        assert(version.drop_last().drop_last() =~= Seq::<u8>::empty());
        assert(flags.drop_last().drop_last() =~= Seq::<u8>::empty());
        assert(be_value(version) == 256 * bytes[4] + bytes[5]);
        assert(be_value(flags) == 256 * bytes[6] + bytes[7]);
    }
}

/// Law: every client frame begins with the byte of its own kind; a message goes on with its text and
/// a heartbeat with its number, and nothing else follows.
pub proof fn law_client_frames_on_the_wire(text: Seq<u8>, value: u64)
    ensures
        client_image(ClientView::Find) == seq![0x01u8],
        client_image(ClientView::Cancel) == seq![0x02u8],
        client_image(ClientView::Message(text)) == seq![0x03u8] + text,
        client_image(ClientView::Leave) == seq![0x04u8],
        client_image(ClientView::Ping(value)) == seq![0x05u8] + be_bytes(value as nat, 8),
        client_image(ClientView::Close) == seq![0x06u8],
{
}

/// Law: only a message can be refused by the sender: for more than 16384 bytes, and within those for
/// not being UTF-8.
pub proof fn law_client_frames_that_are_refused(text: Seq<u8>, value: u64)
    ensures
        client_fault(ClientView::Find) is None,
        client_fault(ClientView::Cancel) is None,
        client_fault(ClientView::Leave) is None,
        client_fault(ClientView::Ping(value)) is None,
        client_fault(ClientView::Close) is None,
        client_fault(ClientView::Message(text)) == if text.len() > 16384 {
            Some(ProtocolError::MessageTooLarge)
        } else if !valid_utf8(text) {
            Some(ProtocolError::InvalidUtf8)
        } else {
            None
        },
{
}

/// Law: bytes that are no client frame are refused for what is wrong with them: nothing there, a
/// byte that names no frame, a wrong length for the frame that it names, a text that is too long or
/// is not UTF-8.
pub proof fn law_client_bytes_that_are_refused(bytes: Seq<u8>)
    ensures
        ({
            let refused = client_parse(bytes);
            let first = bytes[0];
            let bare = first == 1 || first == 2 || first == 4 || first == 6;
            &&& refused == Err::<ClientView, _>(ProtocolError::Empty) <==> bytes.len() == 0
            &&& bytes.len() > 0 ==> {
                &&& refused == Err::<ClientView, _>(ProtocolError::UnknownOpcode(first))
                    <==> first == 0 || first > 6
                &&& refused == Err::<ClientView, _>(ProtocolError::InvalidLength) <==> bare
                    && bytes.len() != 1 || first == 5 && bytes.len() != 9
                &&& refused == Err::<ClientView, _>(ProtocolError::MessageTooLarge) <==> first == 3
                    && bytes.len() > 16385
                &&& refused == Err::<ClientView, _>(ProtocolError::InvalidUtf8) <==> first == 3
                    && bytes.len() <= 16385 && !valid_utf8(bytes.skip(1))
                &&& refused is Ok <==> bare && bytes.len() == 1 || first == 5 && bytes.len() == 9
                    || first == 3 && bytes.len() <= 16385 && valid_utf8(bytes.skip(1))
            }
        }),
{
}

/// Law: every server frame begins with the byte of its own kind, and what it says follows in a fixed
/// order: numbers in eight, four or two bytes with the highest first, names behind their length.
pub proof fn law_server_frames_on_the_wire(
    id: Seq<u8>,
    name: Seq<char>,
    visibility: Visibility,
    number: u64,
    sender: u8,
    text: Seq<u8>,
    reason: EndReason,
    wait_ms: u32,
    code: u16,
)
    ensures
        ({
            let named = seq![encode_utf8(name).len() as u8] + encode_utf8(name);
            let shown = match visibility {
                Visibility::Public => 0u8,
                Visibility::Unlisted => 1u8,
                Visibility::Private => 2u8,
            };
            let ended = match reason {
                EndReason::Left => 0u8,
                EndReason::Next => 1u8,
                EndReason::Disconnected => 2u8,
                EndReason::Timeout => 3u8,
                EndReason::ProtocolError => 4u8,
            };
            &&& server_image(ServerView::Ready { agent_id: name }) == seq![0x10u8] + named
            &&& server_image(ServerView::Searching) == seq![0x11u8]
            &&& server_image(
                ServerView::Matched { conversation_id: id, peer_agent_id: name, visibility },
            ) == seq![0x12u8] + id + seq![shown] + named
            &&& server_image(ServerView::Message { seq: number, sender, payload: text })
                == seq![0x13u8] + be_bytes(number as nat, 8) + seq![sender] + text
            &&& server_image(ServerView::PeerLeft { final_seq: number, reason }) == seq![0x14u8]
                + be_bytes(number as nat, 8) + seq![ended]
            &&& server_image(ServerView::RateLimited { retry_after_ms: wait_ms }) == seq![0x15u8]
                + be_bytes(wait_ms as nat, 4)
            &&& server_image(ServerView::ServerBusy { retry_after_ms: wait_ms }) == seq![0x16u8]
                + be_bytes(wait_ms as nat, 4)
            &&& server_image(ServerView::Error { code, message: name }) == seq![0x17u8] + be_bytes(
                code as nat,
                2,
            ) + encode_utf8(name)
            &&& server_image(ServerView::Pong(number)) == seq![0x18u8] + be_bytes(number as nat, 8)
        }),
{
}

/// Law: the sender refuses a message exactly where it has more than 16384 bytes, names a sender
/// other than the two parties, or is not UTF-8, and a name exactly where it has more than 255 bytes;
/// no other frame is refused.
pub proof fn law_server_frames_that_are_refused(
    id: Seq<u8>,
    name: Seq<char>,
    visibility: Visibility,
    number: u64,
    sender: u8,
    text: Seq<u8>,
    reason: EndReason,
    wait_ms: u32,
    code: u16,
)
    ensures
        ({
            let too_long = if encode_utf8(name).len() > 255 {
                Some(ProtocolError::InvalidLength)
            } else {
                None
            };
            &&& server_fault(ServerView::Message { seq: number, sender, payload: text }) == if text.len()
                > 16384 {
                Some(ProtocolError::MessageTooLarge)
            } else if sender > 1 {
                Some(ProtocolError::InvalidField("sender"))
            } else if !valid_utf8(text) {
                Some(ProtocolError::InvalidUtf8)
            } else {
                None
            }
            &&& server_fault(ServerView::Ready { agent_id: name }) == too_long
            &&& server_fault(
                ServerView::Matched { conversation_id: id, peer_agent_id: name, visibility },
            ) == too_long
            &&& server_fault(ServerView::Searching) is None
            &&& server_fault(ServerView::PeerLeft { final_seq: number, reason }) is None
            &&& server_fault(ServerView::RateLimited { retry_after_ms: wait_ms }) is None
            &&& server_fault(ServerView::ServerBusy { retry_after_ms: wait_ms }) is None
            &&& server_fault(ServerView::Error { code, message: name }) is None
            &&& server_fault(ServerView::Pong(number)) is None
        }),
{
}

/// Law: every message within the limits of the protocol is read, with its number, its sender and its
/// text.
pub proof fn law_messages_within_limits_are_read(seq: u64, sender: u8, text: Seq<u8>)
    requires
        sender <= 1,
        text.len() <= 16384,
        valid_utf8(text),
    ensures
        server_parse(seq![0x13u8] + be_bytes(seq as nat, 8) + seq![sender] + text) == Ok::<
            ServerView,
            ProtocolError,
        >(ServerView::Message { seq, sender, payload: text }),
{
    law_server_round_trip(ServerView::Message { seq, sender, payload: text });
}

/// Law: bytes that are no server frame are refused for what is wrong with them: nothing there, a
/// byte that names no frame, a wrong length for the frame that it names, a text that is not UTF-8,
/// or a code that stands for nothing.
pub proof fn law_server_bytes_that_are_refused(bytes: Seq<u8>)
    ensures
        ({
            let refused = server_parse(bytes);
            let first = bytes[0];
            let size = bytes.len();
            let named = size >= 2 && bytes[1] == size - 2;
            let matched = size >= 19 && bytes[18] == size - 19;
            let message = 10 <= size <= 16394 && bytes[9] <= 1;
            &&& refused == Err::<ServerView, _>(ProtocolError::Empty) <==> size == 0
            &&& size > 0 ==> {
                &&& refused == Err::<ServerView, _>(ProtocolError::UnknownOpcode(first))
                    <==> first < 0x10 || first > 0x18
                &&& refused == Err::<ServerView, _>(ProtocolError::InvalidLength) <==> {
                    ||| first == 0x10 && !named
                    ||| first == 0x11 && size != 1
                    ||| first == 0x12 && (size < 19 || bytes[17] <= 2 && !matched)
                    ||| first == 0x13 && !message
                    ||| first == 0x14 && size != 10
                    ||| (first == 0x15 || first == 0x16) && size != 5
                    ||| first == 0x17 && size < 3
                    ||| first == 0x18 && size != 9
                }
                &&& refused == Err::<ServerView, _>(ProtocolError::InvalidUtf8) <==> {
                    ||| first == 0x10 && named && !valid_utf8(bytes.skip(2))
                    ||| first == 0x12 && matched && bytes[17] <= 2 && !valid_utf8(bytes.skip(19))
                    ||| first == 0x13 && message && !valid_utf8(bytes.skip(10))
                    ||| first == 0x17 && size >= 3 && !valid_utf8(bytes.skip(3))
                }
                &&& first == 0x12 && size >= 19 && bytes[17] > 2 ==> refused == Err::<ServerView, _>(
                    ProtocolError::InvalidField("visibility"),
                )
                &&& first == 0x14 && size == 10 && bytes[9] > 4 ==> refused == Err::<ServerView, _>(
                    ProtocolError::InvalidField("end_reason"),
                )
                &&& refused is Ok <==> {
                    ||| first == 0x10 && named && valid_utf8(bytes.skip(2))
                    ||| first == 0x11 && size == 1
                    ||| first == 0x12 && matched && bytes[17] <= 2 && valid_utf8(bytes.skip(19))
                    ||| first == 0x13 && message && valid_utf8(bytes.skip(10))
                    ||| first == 0x14 && size == 10 && bytes[9] <= 4
                    ||| (first == 0x15 || first == 0x16) && size == 5
                    ||| first == 0x17 && size >= 3 && valid_utf8(bytes.skip(3))
                    ||| first == 0x18 && size == 9
                }
            }
        }),
{
    let payload = bytes.skip(1);
    if bytes.len() > 0 {
        if bytes.len() >= 2 {
            assert(payload.skip(1) =~= bytes.skip(2));
        }
        if bytes.len() >= 19 {
            assert(payload.skip(17).skip(1) =~= bytes.skip(19));
            assert(payload.skip(17)[0] == bytes[18]);
        }
        if bytes.len() >= 10 {
            assert(payload.skip(9) =~= bytes.skip(10));
        }
        if bytes.len() >= 3 {
            assert(payload.skip(2) =~= bytes.skip(3));
        }
    }
}

/// Law: frames say what their fields hold.
pub proof fn law_frames_say_what_they_hold(client: ClientFrame<'_>, server: ServerFrame<'_>)
    ensures
        match client {
            ClientFrame::Find => client@ == ClientView::Find,
            ClientFrame::Cancel => client@ == ClientView::Cancel,
            ClientFrame::Message(text) => client@ == ClientView::Message(text@),
            ClientFrame::Leave => client@ == ClientView::Leave,
            ClientFrame::Ping(value) => client@ == ClientView::Ping(value),
            ClientFrame::Close => client@ == ClientView::Close,
        },
        match server {
            ServerFrame::Ready { agent_id } => server@ == (ServerView::Ready {
                agent_id: agent_id@,
            }),
            ServerFrame::Searching => server@ == ServerView::Searching,
            ServerFrame::Matched { conversation_id, peer_agent_id, visibility } => server@ == (
            ServerView::Matched {
                conversation_id: conversation_id.bytes@,
                peer_agent_id: peer_agent_id@,
                visibility,
            }),
            ServerFrame::Message { seq, sender, payload } => server@ == (ServerView::Message {
                seq,
                sender,
                payload: payload@,
            }),
            ServerFrame::PeerLeft { final_seq, reason } => server@ == (ServerView::PeerLeft {
                final_seq,
                reason,
            }),
            ServerFrame::RateLimited { retry_after_ms } => server@ == (ServerView::RateLimited {
                retry_after_ms,
            }),
            ServerFrame::ServerBusy { retry_after_ms } => server@ == (ServerView::ServerBusy {
                retry_after_ms,
            }),
            ServerFrame::Error { code, message } => server@ == (ServerView::Error {
                code,
                message: message@,
            }),
            ServerFrame::Pong(value) => server@ == ServerView::Pong(value),
        },
{
}

/// Law: the codes of visibilities and end reasons are the numbers from zero on, and no other number
/// stands for one.
pub proof fn law_codes_are_numbers_from_zero(code: u8)
    ensures
        visibility_of(0) == Ok::<_, ProtocolError>(Visibility::Public),
        visibility_of(1) == Ok::<_, ProtocolError>(Visibility::Unlisted),
        visibility_of(2) == Ok::<_, ProtocolError>(Visibility::Private),
        code > 2 ==> visibility_of(code) == Err::<Visibility, _>(
            ProtocolError::InvalidField("visibility"),
        ),
        reason_of(0) == Ok::<_, ProtocolError>(EndReason::Left),
        reason_of(1) == Ok::<_, ProtocolError>(EndReason::Next),
        reason_of(2) == Ok::<_, ProtocolError>(EndReason::Disconnected),
        reason_of(3) == Ok::<_, ProtocolError>(EndReason::Timeout),
        reason_of(4) == Ok::<_, ProtocolError>(EndReason::ProtocolError),
        code > 4 ==> reason_of(code) == Err::<EndReason, _>(
            ProtocolError::InvalidField("end_reason"),
        ),
{
}

/// Law: an error says what is wrong, and names the byte, the field or the version that is.
pub proof fn law_protocol_errors_in_words(error: ProtocolError)
    ensures
        protocol_message(error) == match error {
            ProtocolError::Empty => "empty frame"@,
            ProtocolError::UnknownOpcode(op) => "unknown opcode 0x"@ + hex_text(seq![op]),
            ProtocolError::InvalidLength => "invalid frame length"@,
            ProtocolError::InvalidUtf8 => "invalid UTF-8"@,
            ProtocolError::InvalidField(field) => "invalid "@ + field@,
            ProtocolError::MessageTooLarge => "message exceeds 16384 bytes"@,
            ProtocolError::IncompatibleVersion(version) => "incompatible protocol version "@
                + decimal_text(version as nat),
        },
{
}

} // verus!
