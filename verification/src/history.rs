//! Local conversation transcripts.
//!
//! A transcript is a header that names the conversation and the peer, followed by one record for
//! each message, in the order of arrival. Records are only ever added at the end.

use vstd::prelude::*;
use vstd::string::*;
use vstd::utf8::*;

use crate::bytes::{
    be_bytes, be_value, get_be, law_be_round_trip, lemma_be_bytes_len, lemma_be_limits,
    lemma_be_value_bound, put_be, put_bytes, same_bytes,
};
use crate::ids::{uuid_text, Uuid};
use crate::outside::{lossy_text, utf8_lossy};
use crate::protocol::Visibility;
use crate::text::{join, same_text};

verus! {

/// The bytes that open a transcript: `AINGHST1`.
pub const FILE_MAGIC: [u8; 8] = [0x41, 0x49, 0x4e, 0x47, 0x48, 0x53, 0x54, 0x31];

/// Why local history could not be read or written.
#[derive(Debug)]
pub enum HistoryError {
    Io(String),
    Database(String),
    InvalidTranscript(String),
}

/// One line of the list of conversations.
#[derive(Debug)]
pub struct ConversationSummary {
    pub conversation_id: Uuid,
    pub peer_agent_id: String,
    pub started_at: String,
    pub ended_at: Option<String>,
    pub message_count: u64,
    pub final_seq: Option<u64>,
    pub sync_status: String,
}

/// One message of a transcript.
#[derive(Debug)]
pub struct StoredMessage {
    pub seq: u64,
    pub sender: u8,
    pub timestamp_ms: u64,
    pub content: String,
}

/// What a stored message says.
pub struct MessageView {
    pub seq: u64,
    pub sender: u8,
    pub timestamp_ms: u64,
    pub content: Seq<char>,
}

impl View for StoredMessage {
    type V = MessageView;

    open spec fn view(&self) -> MessageView {
        MessageView {
            seq: self.seq,
            sender: self.sender,
            timestamp_ms: self.timestamp_ms,
            content: self.content@,
        }
    }
}

/// One record of a transcript.
pub struct RecordView {
    pub seq: u64,
    pub sender: u8,
    pub timestamp_ms: u64,
    pub payload: Seq<u8>,
}

/// The texts of the messages.
pub open spec fn message_views(messages: Seq<StoredMessage>) -> Seq<MessageView> {
    messages.map_values(|message: StoredMessage| message@)
}

/// The message that a record holds: its payload is read as text, invalid UTF-8 replaced.
pub open spec fn record_message(record: RecordView) -> MessageView {
    MessageView {
        seq: record.seq,
        sender: record.sender,
        timestamp_ms: record.timestamp_ms,
        content: lossy_text(record.payload),
    }
}

/// The messages that records hold.
pub open spec fn record_messages(records: Seq<RecordView>) -> Seq<MessageView> {
    records.map_values(|record: RecordView| record_message(record))
}

/// The bytes of a header. The length of the peer's name is kept in two bytes.
pub open spec fn header_image(id: Seq<u8>, peer: Seq<u8>) -> Seq<u8> {
    FILE_MAGIC@ + id + be_bytes(peer.len(), 2) + peer
}

/// The bytes of a record. The length of the payload is kept in four bytes.
pub open spec fn record_image(record: RecordView) -> Seq<u8> {
    be_bytes(record.seq as nat, 8) + seq![record.sender] + be_bytes(record.timestamp_ms as nat, 8)
        + be_bytes(record.payload.len(), 4) + record.payload
}

/// The bytes of a list of records.
pub open spec fn records_image(records: Seq<RecordView>) -> Seq<u8>
    decreases records.len(),
{
    if records.len() == 0 {
        Seq::empty()
    } else {
        records_image(records.drop_last()) + record_image(records.last())
    }
}

/// The length of the payload that the record at the front of `bytes` announces.
pub open spec fn announced_len(bytes: Seq<u8>) -> int {
    be_value(bytes.subrange(17, 21)) as int
}

/// The record at the front of `bytes`.
pub open spec fn first_record(bytes: Seq<u8>) -> RecordView {
    RecordView {
        seq: be_value(bytes.subrange(0, 8)) as u64,
        sender: bytes[8],
        timestamp_ms: be_value(bytes.subrange(9, 17)) as u64,
        payload: bytes.subrange(21, 21 + announced_len(bytes)),
    }
}

/// `done` followed by the records that were read, if they could be read.
pub open spec fn after_records(
    done: Seq<RecordView>,
    rest: Result<Seq<RecordView>, Seq<char>>,
) -> Result<Seq<RecordView>, Seq<char>> {
    match rest {
        Ok(records) => Ok(done + records),
        Err(fault) => Err(fault),
    }
}

/// The records in `bytes`, or what is wrong with the first one that is cut off.
pub open spec fn records_parse(bytes: Seq<u8>) -> Result<Seq<RecordView>, Seq<char>>
    decreases bytes.len(),
{
    if bytes.len() == 0 {
        Ok(Seq::empty())
    } else if bytes.len() < 21 {
        Err("truncated message header"@)
    } else if bytes.len() - 21 < announced_len(bytes) {
        Err("truncated message body"@)
    } else {
        after_records(
            seq![first_record(bytes)],
            records_parse(bytes.skip(21 + announced_len(bytes))),
        )
    }
}

/// Where the records of a transcript begin.
pub open spec fn records_start(bytes: Seq<u8>) -> int {
    26 + be_value(bytes.subrange(24, 26)) as int
}

/// The records of the transcript of conversation `id`, or what is wrong with it.
pub open spec fn transcript_parse(id: Seq<u8>, bytes: Seq<u8>) -> Result<
    Seq<RecordView>,
    Seq<char>,
> {
    if bytes.len() < 26 || bytes.subrange(0, 8) != FILE_MAGIC@ || bytes.subrange(8, 24) != id {
        Err("invalid header"@)
    } else if records_start(bytes) > bytes.len() {
        Err("truncated peer identity"@)
    } else {
        records_parse(bytes.skip(records_start(bytes)))
    }
}

/// Whether the messages are numbered from one without a gap, up to `final_seq`.
pub open spec fn is_complete(messages: Seq<MessageView>, final_seq: u64) -> bool {
    &&& messages.len() == final_seq
    &&& forall|i: int| 0 <= i < messages.len() ==> (#[trigger] messages[i]).seq == i + 1
}

impl HistoryError {
    /// The error in words.
    pub fn message(&self) -> (text: String)
        ensures
            text@ == history_error_text(*self),
    {
        match self {
            HistoryError::Io(cause) => join("history I/O error: ", cause.as_str()),
            HistoryError::Database(cause) => join("history database error: ", cause.as_str()),
            HistoryError::InvalidTranscript(cause) => join("invalid transcript: ", cause.as_str()),
        }
    }
}

/// An error in words.
pub open spec fn history_error_text(error: HistoryError) -> Seq<char> {
    match error {
        HistoryError::Io(cause) => "history I/O error: "@ + cause@,
        HistoryError::Database(cause) => "history database error: "@ + cause@,
        HistoryError::InvalidTranscript(cause) => "invalid transcript: "@ + cause@,
    }
}

/// The bytes that begin the transcript of a conversation.
pub fn transcript_header(id: &Uuid, peer_agent_id: &str) -> (bytes: Vec<u8>)
    ensures
        bytes@ == header_image(id@, peer_agent_id.spec_bytes()),
{
    let peer = peer_agent_id.as_bytes();
    let mut bytes: Vec<u8> = Vec::new();
    put_bytes(&mut bytes, FILE_MAGIC.as_slice());
    put_bytes(&mut bytes, id.as_bytes());
    put_be(&mut bytes, peer.len() as u64, 2);
    put_bytes(&mut bytes, peer);
    assert(bytes@ =~= header_image(id@, peer@));
    bytes
}

/// The bytes that add a message to a transcript.
pub fn transcript_record(seq: u64, sender: u8, timestamp_ms: u64, payload: &[u8]) -> (bytes: Vec<
    u8,
>)
    ensures
        bytes@ == record_image(RecordView { seq, sender, timestamp_ms, payload: payload@ }),
{
    let mut bytes: Vec<u8> = Vec::new();
    put_be(&mut bytes, seq, 8);
    bytes.push(sender);
    put_be(&mut bytes, timestamp_ms, 8);
    put_be(&mut bytes, payload.len() as u64, 4);
    put_bytes(&mut bytes, payload);
    assert(bytes@ =~= record_image(RecordView { seq, sender, timestamp_ms, payload: payload@ }));
    bytes
}

/// The name of the file that keeps the transcript of a conversation.
pub fn transcript_name(id: &Uuid) -> (name: String)
    ensures
        name@ == uuid_text(id@) + ".aingle"@,
{
    join(id.to_text().as_str(), ".aingle")
}

fn invalid_transcript(cause: &str) -> (error: HistoryError)
    ensures
        error matches HistoryError::InvalidTranscript(text) && text@ == cause@,
{
    HistoryError::InvalidTranscript(cause.to_owned())
}

/// What a reading of a transcript gives: its messages, or the fault that it has.
pub open spec fn is_reading(
    outcome: Result<Vec<StoredMessage>, HistoryError>,
    parse: Result<Seq<RecordView>, Seq<char>>,
) -> bool {
    match outcome {
        Ok(messages) => parse is Ok && message_views(messages@) == record_messages(parse->Ok_0),
        Err(HistoryError::InvalidTranscript(text)) => parse is Err && text@ == parse->Err_0,
        Err(_) => false,
    }
}

/// Whether the messages hold exactly the texts whose UTF-8 form the records hold.
pub open spec fn keeps_texts(messages: Seq<StoredMessage>, records: Seq<RecordView>) -> bool {
    &&& messages.len() == records.len()
    &&& forall|i: int|
        0 <= i < records.len() && valid_utf8(#[trigger] records[i].payload)
            ==> messages[i].content@ == decode_utf8(records[i].payload)
}

/// The messages in the transcript of conversation `id`.
pub fn read_transcript(id: &Uuid, bytes: &[u8]) -> (messages: Result<
    Vec<StoredMessage>,
    HistoryError,
>)
    ensures
        is_reading(messages, transcript_parse(id@, bytes@)),
        messages matches Ok(list) ==> keeps_texts(list@, transcript_parse(id@, bytes@)->Ok_0),
{
    if bytes.len() < 26 || !same_bytes(&bytes[0..8], FILE_MAGIC.as_slice()) || !same_bytes(
        &bytes[8..24],
        id.as_bytes(),
    ) {
        return Err(invalid_transcript("invalid header"));
    }
    proof {
        lemma_be_limits();
        lemma_be_value_bound(bytes@.subrange(24, 26));
    }
    let peer_length: usize = get_be(&bytes[24..26]) as usize;
    let mut offset: usize = 26 + peer_length;
    if offset > bytes.len() {
        return Err(invalid_transcript("truncated peer identity"));
    }
    let mut messages: Vec<StoredMessage> = Vec::new();
    let ghost mut done: Seq<RecordView> = Seq::empty();
    let ghost start = offset as int;
    let ghost whole = records_parse(bytes@.skip(start));
    proof {
        assert(message_views(messages@) =~= record_messages(done));
        match whole {
            Ok(records) => {
                assert(done + records =~= records);
            },
            Err(_) => {},
        }
    }
    while offset < bytes.len()
        invariant
            offset <= bytes@.len(),
            whole == transcript_parse(id@, bytes@),
            whole == after_records(done, records_parse(bytes@.skip(offset as int))),
            message_views(messages@) == record_messages(done),
            keeps_texts(messages@, done),
        decreases bytes@.len() - offset,
    {
        let ghost rest = bytes@.skip(offset as int);
        if bytes.len() - offset < 21 {
            return Err(invalid_transcript("truncated message header"));
        }
        proof {
            lemma_be_limits();
            lemma_be_value_bound(rest.subrange(0, 8));
            lemma_be_value_bound(rest.subrange(9, 17));
            lemma_be_value_bound(rest.subrange(17, 21));
            assert(bytes@.subrange(offset as int, offset + 8) =~= rest.subrange(0, 8));
            assert(bytes@.subrange(offset + 9, offset + 17) =~= rest.subrange(9, 17));
            assert(bytes@.subrange(offset + 17, offset + 21) =~= rest.subrange(17, 21));
        }
        let seq: u64 = get_be(&bytes[offset..offset + 8]);
        let sender: u8 = bytes[offset + 8];
        let timestamp_ms: u64 = get_be(&bytes[offset + 9..offset + 17]);
        let length: usize = get_be(&bytes[offset + 17..offset + 21]) as usize;
        offset = offset + 21;
        if bytes.len() - offset < length {
            return Err(invalid_transcript("truncated message body"));
        }
        let content = utf8_lossy(&bytes[offset..offset + length]);
        let ghost before = messages@;
        messages.push(StoredMessage { seq, sender, timestamp_ms, content });
        proof {
            let record = first_record(rest);
            assert(record.payload =~= bytes@.subrange(offset as int, offset + length));
            assert(messages@.last()@ == record_message(record));
            assert(message_views(messages@) =~= message_views(before).push(record_message(record)));
            assert(record_messages(done.push(record)) =~= record_messages(done).push(
                record_message(record),
            ));
            assert(rest.skip(21 + length) =~= bytes@.skip(offset + length));
            let tail = records_parse(rest.skip(21 + length));
            match tail {
                Ok(records) => {
                    assert(done + (seq![record] + records) =~= done.push(record) + records);
                },
                Err(_) => {},
            }
            done = done.push(record);
        }
        offset = offset + length;
    }
    proof {
        assert(bytes@.skip(offset as int) =~= Seq::<u8>::empty());
        assert(done + Seq::<RecordView>::empty() =~= done);
    }
    Ok(messages)
}

/// How far a transcript agrees with the number of messages that the server counted.
pub open spec fn sync_status_text(messages: Seq<MessageView>, final_seq: u64) -> Seq<char> {
    if is_complete(messages, final_seq) {
        "complete"@
    } else {
        "partial"@
    }
}

/// How far a transcript agrees with the number of messages that the server counted.
pub fn sync_status(messages: &Vec<StoredMessage>, final_seq: u64) -> (status: &'static str)
    ensures
        status@ == sync_status_text(message_views(messages@), final_seq),
        status@ == if messages@.len() == final_seq && forall|i: int|
            0 <= i < messages@.len() ==> (#[trigger] messages@[i]).seq == i + 1 {
            "complete"@
        } else {
            "partial"@
        },
{
    if messages.len() as u64 != final_seq {
        return "partial";
    }
    let mut index: usize = 0;
    while index < messages.len()
        invariant
            index <= messages@.len(),
            forall|i: int|
                0 <= i < index ==> (#[trigger] message_views(messages@)[i]).seq == i + 1,
            forall|i: int| 0 <= i < index ==> (#[trigger] messages@[i]).seq == i + 1,
        decreases messages@.len() - index,
    {
        if messages[index].seq != index as u64 + 1 {
            assert(messages@[index as int].seq != index + 1);
            assert(message_views(messages@)[index as int].seq != index + 1);
            return "partial";
        }
        index = index + 1;
    }
    "complete"
}

/// The name of a visibility.
pub open spec fn visibility_text(value: Visibility) -> Seq<char> {
    match value {
        Visibility::Public => "public"@,
        Visibility::Unlisted => "unlisted"@,
        Visibility::Private => "private"@,
    }
}

/// The name of a visibility.
pub fn visibility_name(value: Visibility) -> (name: &'static str)
    ensures
        name@ == visibility_text(value),
        value == Visibility::Public ==> name@ == "public"@,
        value == Visibility::Unlisted ==> name@ == "unlisted"@,
        value == Visibility::Private ==> name@ == "private"@,
{
    match value {
        Visibility::Public => "public",
        Visibility::Unlisted => "unlisted",
        Visibility::Private => "private",
    }
}

/// The visibility that has the given name.
pub open spec fn visibility_of_text(name: Seq<char>) -> Option<Visibility> {
    if name == "public"@ {
        Some(Visibility::Public)
    } else if name == "unlisted"@ {
        Some(Visibility::Unlisted)
    } else if name == "private"@ {
        Some(Visibility::Private)
    } else {
        None
    }
}

proof fn lemma_visibility_names()
    ensures
        "public"@ != "unlisted"@,
        "public"@ != "private"@,
        "unlisted"@ != "private"@,
{
    reveal_strlit("public");
    reveal_strlit("unlisted");
    reveal_strlit("private");
    assert("public"@.len() == 6 && "unlisted"@.len() == 8 && "private"@.len() == 7);
}

/// The visibility that has the given name.
pub fn visibility_named(name: &str) -> (value: Option<Visibility>)
    ensures
        value == visibility_of_text(name@),
        value == Some(Visibility::Public) <==> name@ == "public"@,
        value == Some(Visibility::Unlisted) <==> name@ == "unlisted"@,
        value == Some(Visibility::Private) <==> name@ == "private"@,
{
    proof {
        lemma_visibility_names();
    }

    if same_text(name, "public") {
        Some(Visibility::Public)
    } else if same_text(name, "unlisted") {
        Some(Visibility::Unlisted)
    } else if same_text(name, "private") {
        Some(Visibility::Private)
    } else {
        None
    }
}

/// A message as the server keeps it.
#[derive(Debug)]
pub struct RemoteMessage {
    pub seq: u64,
    pub sender: u8,
    pub timestamp_ms: u64,
    pub content: Vec<u8>,
}

/// A conversation as the server keeps it.
#[derive(Debug)]
pub struct RemoteConversation {
    pub agent_a_id: String,
    pub agent_b_id: String,
    pub visibility: String,
    pub final_seq: Option<u64>,
    pub messages: Vec<RemoteMessage>,
}

/// A conversation that is to be written to local history.
#[derive(Debug)]
pub struct RecoveredConversation {
    pub peer_agent_id: String,
    pub visibility: Visibility,
    pub messages: Vec<StoredMessage>,
    pub final_seq: u64,
}

/// The record of a message that the server keeps.
pub open spec fn remote_record(message: RemoteMessage) -> RecordView {
    RecordView {
        seq: message.seq,
        sender: message.sender,
        timestamp_ms: message.timestamp_ms,
        payload: message.content@,
    }
}

/// The records of the messages that the server keeps.
pub open spec fn remote_records(messages: Seq<RemoteMessage>) -> Seq<RecordView> {
    messages.map_values(|message: RemoteMessage| remote_record(message))
}

/// The other party of a conversation, seen from `agent_id`.
pub open spec fn peer_of(remote: RemoteConversation, agent_id: Seq<char>) -> Seq<char> {
    if remote.agent_a_id@ == agent_id {
        remote.agent_b_id@
    } else {
        remote.agent_a_id@
    }
}

/// How many messages a conversation should have: as many as it has, where the server does not say.
pub open spec fn expected_seq(remote: RemoteConversation) -> u64 {
    match remote.final_seq {
        Some(final_seq) => final_seq,
        None => remote.messages@.len() as u64,
    }
}

fn stored_messages(remote: &Vec<RemoteMessage>) -> (messages: Vec<StoredMessage>)
    ensures
        message_views(messages@) == record_messages(remote_records(remote@)),
        keeps_texts(messages@, remote_records(remote@)),
{
    let mut messages: Vec<StoredMessage> = Vec::new();
    let mut index: usize = 0;
    while index < remote.len()
        invariant
            index <= remote@.len(),
            messages@.len() == index,
            forall|i: int|
                0 <= i < index ==> (#[trigger] messages@[i])@ == record_message(
                    remote_record(remote@[i]),
                ),
            forall|i: int|
                0 <= i < index && valid_utf8(remote@[i].content@)
                    ==> (#[trigger] messages@[i]).content@ == decode_utf8(remote@[i].content@),
        decreases remote@.len() - index,
    {
        let message = &remote[index];
        messages.push(
            StoredMessage {
                seq: message.seq,
                sender: message.sender,
                timestamp_ms: message.timestamp_ms,
                content: utf8_lossy(message.content.as_slice()),
            },
        );
        index = index + 1;
    }
    assert(message_views(messages@) =~= record_messages(remote_records(remote@)));
    messages
}

/// What local history gets of a conversation that the server keeps: the other party's name, the
/// messages as texts, and the number of messages. A visibility without a known name is refused.
pub fn recover_history(remote: RemoteConversation, agent_id: &str) -> (recovered: Result<
    RecoveredConversation,
    String,
>)
    ensures
        recovered is Ok <==> visibility_of_text(remote.visibility@) is Some,
        recovered matches Ok(conversation) ==> {
            &&& conversation.peer_agent_id@ == peer_of(remote, agent_id@)
            &&& Some(conversation.visibility) == visibility_of_text(remote.visibility@)
            &&& message_views(conversation.messages@) == record_messages(
                remote_records(remote.messages@),
            )
            &&& keeps_texts(conversation.messages@, remote_records(remote.messages@))
            &&& conversation.final_seq == expected_seq(remote)
        },
        recovered matches Err(text) ==> text@ == "invalid remote visibility"@,
        recovered is Ok <==> remote.visibility@ == "public"@ || remote.visibility@ == "unlisted"@
            || remote.visibility@ == "private"@,
        recovered matches Ok(conversation) ==> {
            &&& remote.agent_a_id@ == agent_id@ ==> conversation.peer_agent_id@
                == remote.agent_b_id@
            &&& remote.agent_a_id@ != agent_id@ ==> conversation.peer_agent_id@
                == remote.agent_a_id@
            &&& remote.visibility@ == match conversation.visibility {
                Visibility::Public => "public"@,
                Visibility::Unlisted => "unlisted"@,
                Visibility::Private => "private"@,
            }
            &&& remote.final_seq matches Some(final_seq) ==> conversation.final_seq == final_seq
            &&& remote.final_seq is None ==> conversation.final_seq == remote.messages@.len()
            &&& conversation.messages@.len() == remote.messages@.len()
            &&& forall|i: int|
                0 <= i < remote.messages@.len() ==> {
                    let kept = #[trigger] conversation.messages@[i];
                    let told = remote.messages@[i];
                    &&& kept.seq == told.seq && kept.sender == told.sender && kept.timestamp_ms
                        == told.timestamp_ms
                    &&& valid_utf8(told.content@) ==> encode_utf8(kept.content@) == told.content@
                }
        },
{
    let visibility = match visibility_named(remote.visibility.as_str()) {
        Some(visibility) => visibility,
        None => return Err("invalid remote visibility".to_owned()),
    };
    let messages = stored_messages(&remote.messages);
    proof {
        lemma_visibility_names();
        let told = remote.messages@;
        assert(message_views(messages@).len() == record_messages(remote_records(told)).len());
        assert forall|i: int| 0 <= i < told.len() implies {
            let kept = #[trigger] messages@[i];
            &&& kept.seq == told[i].seq && kept.sender == told[i].sender && kept.timestamp_ms
                == told[i].timestamp_ms
            &&& valid_utf8(told[i].content@) ==> encode_utf8(kept.content@) == told[i].content@
        } by {
            assert(message_views(messages@)[i] == record_messages(remote_records(told))[i]);
            assert(remote_records(told)[i].payload == told[i].content@);
            if valid_utf8(told[i].content@) {
                decode_utf8_encode_utf8(told[i].content@);
            }
        }
    }
    let final_seq: u64 = match remote.final_seq {
        Some(final_seq) => final_seq,
        None => messages.len() as u64,
    };
    let peer_agent_id = if same_text(remote.agent_a_id.as_str(), agent_id) {
        remote.agent_b_id
    } else {
        remote.agent_a_id
    };
    Ok(RecoveredConversation { peer_agent_id, visibility, messages, final_seq })
}

/// What is written to local history for a conversation that was not there.
#[derive(Debug)]
pub struct Import {
    /// The whole transcript.
    pub transcript: Vec<u8>,
    pub message_count: u64,
    pub final_seq: u64,
    /// How far the transcript agrees with the number of messages, or why it cannot be read.
    pub sync_status: Result<&'static str, HistoryError>,
}

/// The bytes of the transcript of an imported conversation.
pub open spec fn import_image(id: Seq<u8>, peer: Seq<char>, messages: Seq<MessageView>) -> Seq<u8> {
    header_image(id, encode_utf8(peer)) + records_image(message_records(messages))
}

/// Whether a conversation fits into a transcript: its peer's name and its messages are short
/// enough for their length fields.
pub open spec fn fits_transcript(peer: Seq<char>, messages: Seq<MessageView>) -> bool {
    &&& encode_utf8(peer).len() < 0x1_0000
    &&& forall|i: int|
        0 <= i < messages.len() ==> encode_utf8((#[trigger] messages[i]).content).len()
            < 0x1_0000_0000
}

/// Whether an outcome is what a transcript that was just written comes to once it is read.
pub open spec fn is_settlement(
    outcome: Result<&'static str, HistoryError>,
    parse: Result<Seq<RecordView>, Seq<char>>,
    final_seq: u64,
) -> bool {
    match outcome {
        Ok(status) => parse is Ok && status@ == sync_status_text(
            record_messages(parse->Ok_0),
            final_seq,
        ),
        Err(HistoryError::InvalidTranscript(text)) => parse is Err && text@ == parse->Err_0,
        Err(_) => false,
    }
}

/// What is to be written to import a conversation. Nothing is, if its transcript exists already,
/// whatever the conversation holds.
pub fn import_conversation(exists: bool, id: &Uuid, conversation: &RecoveredConversation) -> (import:
    Option<Import>)
    ensures
        import is None <==> exists,
        import matches Some(plan) ==> {
            let messages = message_views(conversation.messages@);
            let peer = conversation.peer_agent_id@;
            &&& plan.transcript@ == import_image(id@, peer, messages)
            &&& plan.message_count == messages.len()
            &&& plan.final_seq == conversation.final_seq
            &&& is_settlement(
                plan.sync_status,
                transcript_parse(id@, plan.transcript@),
                conversation.final_seq,
            )
            &&& fits_transcript(peer, messages) ==> (plan.sync_status matches Ok(status) && status@
                == sync_status_text(messages, conversation.final_seq))
        },
{
    if exists {
        return None;
    }
    let ghost messages = message_views(conversation.messages@);
    let ghost records = message_records(messages);
    let mut transcript = transcript_header(id, conversation.peer_agent_id.as_str());
    let ghost header = transcript@;
    let mut index: usize = 0;
    assert(header + records_image(records.take(0)) =~= header);
    while index < conversation.messages.len()
        invariant
            index <= conversation.messages@.len(),
            messages == message_views(conversation.messages@),
            records == message_records(messages),
            transcript@ == header + records_image(records.take(index as int)),
        decreases conversation.messages@.len() - index,
    {
        let message = &conversation.messages[index];
        let record = transcript_record(
            message.seq,
            message.sender,
            message.timestamp_ms,
            message.content.as_str().as_bytes(),
        );
        put_bytes(&mut transcript, record.as_slice());
        proof {
            let next = records.take(index as int + 1);
            assert(next.drop_last() =~= records.take(index as int));
            assert(next.last() == records[index as int]);
            assert(messages[index as int] == conversation.messages@[index as int]@);
            assert(record@ == record_image(records[index as int]));
            assert(transcript@ =~= header + records_image(next));
        }
        index = index + 1;
    }
    assert(records.take(index as int) =~= records);
    proof {
        if fits_transcript(conversation.peer_agent_id@, messages) {
            law_messages_read_back(id@, encode_utf8(conversation.peer_agent_id@), messages);
            lemma_same_numbers(messages, record_messages(records), conversation.final_seq);
        }
    }
    let sync = match read_transcript(id, transcript.as_slice()) {
        Ok(read) => Ok(sync_status(&read, conversation.final_seq)),
        Err(error) => Err(error),
    };
    Some(
        Import {
            transcript,
            message_count: conversation.messages.len() as u64,
            final_seq: conversation.final_seq,
            sync_status: sync,
        },
    )
}

proof fn lemma_same_numbers(left: Seq<MessageView>, right: Seq<MessageView>, final_seq: u64)
    requires
        left.len() == right.len(),
        forall|i: int| 0 <= i < left.len() ==> (#[trigger] left[i]).seq == right[i].seq,
    ensures
        is_complete(left, final_seq) == is_complete(right, final_seq),
{
    if is_complete(right, final_seq) {
        assert forall|i: int| 0 <= i < left.len() implies (#[trigger] left[i]).seq == i + 1 by {
            assert(right[i].seq == i + 1);
        }
    }
    if is_complete(left, final_seq) {
        assert forall|i: int| 0 <= i < right.len() implies (#[trigger] right[i]).seq == i + 1 by {
            assert(left[i].seq == i + 1);
        }
    }
}

/// Law: whoever reads an imported transcript gets the messages that were imported, in their order
/// and with every part the same.
pub proof fn law_import_reads_back(
    id: Seq<u8>,
    peer: Seq<char>,
    messages: Seq<MessageView>,
    reading: Result<Vec<StoredMessage>, HistoryError>,
)
    requires
        id.len() == 16,
        fits_transcript(peer, messages),
        is_reading(reading, transcript_parse(id, import_image(id, peer, messages))),
        reading matches Ok(list) ==> keeps_texts(
            list@,
            transcript_parse(id, import_image(id, peer, messages))->Ok_0,
        ),
    ensures
        reading is Ok,
        message_views(reading->Ok_0@) == messages,
{
    law_messages_read_back(id, encode_utf8(peer), messages);
    let records = message_records(messages);
    let list = reading->Ok_0@;
    assert forall|i: int| 0 <= i < messages.len() implies message_views(list)[i] == messages[i] by {
        assert(valid_utf8(records[i].payload));
        assert(message_views(list)[i] == record_messages(records)[i]);
    }
    assert(message_views(list) =~= messages);
}

/// Whether a record can be stored: its payload is short enough for its length field.
pub open spec fn is_storable(record: RecordView) -> bool {
    record.payload.len() < 0x1_0000_0000
}

proof fn lemma_record_front(record: RecordView, rest: Seq<u8>)
    requires
        is_storable(record),
    ensures
        (record_image(record) + rest).len() >= 21,
        announced_len(record_image(record) + rest) == record.payload.len(),
        first_record(record_image(record) + rest) == record,
        record_image(record).len() == 21 + record.payload.len(),
        (record_image(record) + rest).skip(21 + record.payload.len() as int) == rest,
{
    let bytes = record_image(record) + rest;
    let seq = be_bytes(record.seq as nat, 8);
    let timestamp = be_bytes(record.timestamp_ms as nat, 8);
    let length = be_bytes(record.payload.len(), 4);
    lemma_be_limits();
    lemma_be_bytes_len(record.seq as nat, 8);
    lemma_be_bytes_len(record.timestamp_ms as nat, 8);
    lemma_be_bytes_len(record.payload.len(), 4);
    law_be_round_trip(record.seq as nat, 8);
    law_be_round_trip(record.timestamp_ms as nat, 8);
    law_be_round_trip(record.payload.len(), 4);
    assert(bytes.subrange(0, 8) =~= seq);
    assert(bytes.subrange(9, 17) =~= timestamp);
    assert(bytes.subrange(17, 21) =~= length);
    assert(first_record(bytes).payload =~= record.payload);
    assert(bytes.skip(21 + record.payload.len() as int) =~= rest);
}

proof fn lemma_records_append(bytes: Seq<u8>, record: RecordView)
    requires
        is_storable(record),
        records_parse(bytes) is Ok,
    ensures
        records_parse(bytes + record_image(record)) == Ok::<Seq<RecordView>, Seq<char>>(
            records_parse(bytes)->Ok_0.push(record),
        ),
    decreases bytes.len(),
{
    let image = record_image(record);
    if bytes.len() == 0 {
        lemma_record_front(record, Seq::empty());
        assert(image + Seq::<u8>::empty() =~= image);
        assert(bytes + image =~= image);
        assert(records_parse(Seq::<u8>::empty()) == Ok::<Seq<RecordView>, Seq<char>>(Seq::empty()));
        assert(seq![record] + Seq::<RecordView>::empty() =~= Seq::<RecordView>::empty().push(
            record,
        ));
    } else {
        let grown = bytes + image;
        let end = 21 + announced_len(bytes);
        let rest = bytes.skip(end);
        assert(grown.subrange(17, 21) =~= bytes.subrange(17, 21));
        assert(grown.subrange(0, 8) =~= bytes.subrange(0, 8));
        assert(grown.subrange(9, 17) =~= bytes.subrange(9, 17));
        assert(grown.subrange(21, end) =~= bytes.subrange(21, end));
        assert(grown.skip(end) =~= rest + image);
        lemma_records_append(rest, record);
        assert(seq![first_record(bytes)] + records_parse(rest)->Ok_0.push(record) =~= (
        seq![first_record(bytes)] + records_parse(rest)->Ok_0).push(record));
    }
}

/// Law: a transcript only grows. What was readable stays readable, and a record that is added at
/// the end is read after all the others.
pub proof fn law_transcript_append(id: Seq<u8>, bytes: Seq<u8>, record: RecordView)
    requires
        is_storable(record),
        transcript_parse(id, bytes) is Ok,
    ensures
        transcript_parse(id, bytes + record_image(record)) == Ok::<Seq<RecordView>, Seq<char>>(
            transcript_parse(id, bytes)->Ok_0.push(record),
        ),
{
    let grown = bytes + record_image(record);
    assert(grown.subrange(0, 8) =~= bytes.subrange(0, 8));
    assert(grown.subrange(8, 24) =~= bytes.subrange(8, 24));
    assert(grown.subrange(24, 26) =~= bytes.subrange(24, 26));
    lemma_records_append(bytes.skip(records_start(bytes)), record);
    assert(grown.skip(records_start(bytes)) =~= bytes.skip(records_start(bytes)) + record_image(
        record,
    ));
}

/// Law: reading a transcript gives back the records that were written, in their order.
pub proof fn law_transcript_round_trip(id: Seq<u8>, peer: Seq<u8>, records: Seq<RecordView>)
    requires
        id.len() == 16,
        peer.len() < 0x1_0000,
        forall|i: int| 0 <= i < records.len() ==> is_storable(#[trigger] records[i]),
    ensures
        transcript_parse(id, header_image(id, peer) + records_image(records)) == Ok::<
            Seq<RecordView>,
            Seq<char>,
        >(records),
    decreases records.len(),
{
    let header = header_image(id, peer);
    if records.len() == 0 {
        lemma_be_limits();
        lemma_be_bytes_len(peer.len(), 2);
        law_be_round_trip(peer.len(), 2);
        assert(header + records_image(records) =~= header);
        assert(header.subrange(0, 8) =~= FILE_MAGIC@);
        assert(header.subrange(8, 24) =~= id);
        assert(header.subrange(24, 26) =~= be_bytes(peer.len(), 2));
        assert(header.skip(records_start(header)) =~= Seq::<u8>::empty());
        assert(records =~= Seq::<RecordView>::empty());
    } else {
        let front = records.drop_last();
        law_transcript_round_trip(id, peer, front);
        law_transcript_append(id, header + records_image(front), records.last());
        assert(header + records_image(records) =~= header + records_image(front) + record_image(
            records.last(),
        ));
        assert(front.push(records.last()) =~= records);
    }
}

/// The records that are written for messages: their texts in UTF-8.
pub open spec fn message_records(messages: Seq<MessageView>) -> Seq<RecordView> {
    messages.map_values(
        |message: MessageView|
            RecordView {
                seq: message.seq,
                sender: message.sender,
                timestamp_ms: message.timestamp_ms,
                payload: encode_utf8(message.content),
            },
    )
}

/// Law: messages that are written to a transcript are read back with the same numbers, senders,
/// times and texts.
pub proof fn law_messages_read_back(id: Seq<u8>, peer: Seq<u8>, messages: Seq<MessageView>)
    requires
        id.len() == 16,
        peer.len() < 0x1_0000,
        forall|i: int|
            0 <= i < messages.len() ==> encode_utf8((#[trigger] messages[i]).content).len()
                < 0x1_0000_0000,
    ensures
        ({
            let image = header_image(id, peer) + records_image(message_records(messages));
            &&& transcript_parse(id, image) == Ok::<Seq<RecordView>, Seq<char>>(
                message_records(messages),
            )
            &&& forall|i: int|
                0 <= i < messages.len() ==> {
                    let record = #[trigger] message_records(messages)[i];
                    &&& record.seq == messages[i].seq
                    &&& record.sender == messages[i].sender
                    &&& record.timestamp_ms == messages[i].timestamp_ms
                    &&& valid_utf8(record.payload)
                    &&& decode_utf8(record.payload) == messages[i].content
                }
        }),
{
    let records = message_records(messages);
    assert forall|i: int| 0 <= i < records.len() implies is_storable(#[trigger] records[i]) by {
        assert(encode_utf8(messages[i].content).len() < 0x1_0000_0000);
    }
    law_transcript_round_trip(id, peer, records);
    assert forall|i: int| 0 <= i < messages.len() implies valid_utf8(
        (#[trigger] message_records(messages)[i]).payload,
    ) && decode_utf8(message_records(messages)[i].payload) == messages[i].content by {
        encode_utf8_valid_utf8(messages[i].content);
        encode_utf8_decode_utf8(messages[i].content);
    }
}

/// Law: a transcript opens only for the conversation that it was begun for.
pub proof fn law_transcript_names_its_conversation(
    id: Seq<u8>,
    other: Seq<u8>,
    peer: Seq<u8>,
    rest: Seq<u8>,
)
    requires
        id.len() == 16,
        other != id,
    ensures
        transcript_parse(other, header_image(id, peer) + rest) == Err::<Seq<RecordView>, Seq<char>>(
            "invalid header"@,
        ),
{
    lemma_be_bytes_len(peer.len(), 2);
    assert((header_image(id, peer) + rest).subrange(8, 24) =~= id);
}

/// Law: the name of a visibility leads back to it.
pub proof fn law_visibility_names(value: Visibility)
    ensures
        visibility_of_text(visibility_text(value)) == Some(value),
{
    reveal_strlit("public");
    reveal_strlit("unlisted");
    reveal_strlit("private");
    assert("public"@.len() == 6 && "unlisted"@.len() == 8 && "private"@.len() == 7);
}

/// Law: a transcript begins with `AINGHST1`, the conversation's sixteen bytes, the length of the
/// peer's name in two bytes and the name, and each record is the number in eight bytes, the sender,
/// the time in eight bytes, the length in four and the text.
pub proof fn law_transcripts_on_disk(id: Seq<u8>, peer: Seq<u8>, record: RecordView)
    ensures
        header_image(id, peer) == seq![
            0x41u8,
            0x49u8,
            0x4eu8,
            0x47u8,
            0x48u8,
            0x53u8,
            0x54u8,
            0x31u8,
        ] + id + be_bytes(peer.len(), 2) + peer,
        record_image(record) == be_bytes(record.seq as nat, 8) + seq![record.sender] + be_bytes(
            record.timestamp_ms as nat,
            8,
        ) + be_bytes(record.payload.len(), 4) + record.payload,
        records_image(Seq::empty()) == Seq::<u8>::empty(),
{
    assert(FILE_MAGIC@ =~= seq![
        0x41u8,
        0x49u8,
        0x4eu8,
        0x47u8,
        0x48u8,
        0x53u8,
        0x54u8,
        0x31u8,
    ]);
}

/// Law: a transcript is an image of its records, one behind the other, and an imported one is that
/// of its messages, whose texts stand in it as UTF-8.
pub proof fn law_records_stand_in_order(
    records: Seq<RecordView>,
    record: RecordView,
    id: Seq<u8>,
    peer: Seq<char>,
    messages: Seq<MessageView>,
    message: MessageView,
)
    ensures
        records_image(records.push(record)) == records_image(records) + record_image(record),
        import_image(id, peer, Seq::empty()) == header_image(id, encode_utf8(peer)),
        import_image(id, peer, messages.push(message)) == import_image(id, peer, messages)
            + record_image(
            RecordView {
                seq: message.seq,
                sender: message.sender,
                timestamp_ms: message.timestamp_ms,
                payload: encode_utf8(message.content),
            },
        ),
{
    assert(records.push(record).drop_last() =~= records);
    assert(message_records(Seq::empty()) =~= Seq::<RecordView>::empty());
    assert(import_image(id, peer, Seq::empty()) =~= header_image(id, encode_utf8(peer)));
    let grown = message_records(messages.push(message));
    assert(grown.drop_last() =~= message_records(messages));
    assert(import_image(id, peer, messages.push(message)) =~= import_image(id, peer, messages)
        + record_image(grown.last()));
}

/// Law: a transcript is refused by what is wrong with it: a header that is too short, does not begin
/// with the right words or names another conversation, a peer's name that is cut off, or a record
/// whose head or text is cut off.
pub proof fn law_damaged_transcripts_are_refused(id: Seq<u8>, bytes: Seq<u8>)
    ensures
        ({
            let headed = bytes.len() >= 26 && bytes.subrange(0, 8) == seq![
                0x41u8,
                0x49u8,
                0x4eu8,
                0x47u8,
                0x48u8,
                0x53u8,
                0x54u8,
                0x31u8,
            ] && bytes.subrange(8, 24) == id;
            let start = 26 + be_value(bytes.subrange(24, 26));
            let length = be_value(bytes.subrange(17, 21));
            &&& !headed ==> transcript_parse(id, bytes) == Err::<Seq<RecordView>, _>(
                "invalid header"@,
            )
            &&& headed && bytes.len() < start ==> transcript_parse(id, bytes) == Err::<
                Seq<RecordView>,
                _,
            >("truncated peer identity"@)
            &&& headed && bytes.len() >= start ==> transcript_parse(id, bytes) == records_parse(
                bytes.skip(start as int),
            )
            &&& bytes.len() == 0 ==> records_parse(bytes) == Ok::<_, Seq<char>>(
                Seq::<RecordView>::empty(),
            )
            &&& 0 < bytes.len() < 21 ==> records_parse(bytes) == Err::<Seq<RecordView>, _>(
                "truncated message header"@,
            )
            &&& 21 <= bytes.len() < 21 + length ==> records_parse(bytes) == Err::<
                Seq<RecordView>,
                _,
            >("truncated message body"@)
            &&& 21 <= bytes.len() && 21 + length <= bytes.len() && records_parse(
                bytes.skip(21 + length as int),
            ) is Err ==> records_parse(bytes) == records_parse(bytes.skip(21 + length as int))
        }),
{
    assert(FILE_MAGIC@ =~= seq![
        0x41u8,
        0x49u8,
        0x4eu8,
        0x47u8,
        0x48u8,
        0x53u8,
        0x54u8,
        0x31u8,
    ]);
}

/// Law: what is read of a transcript are its records, each with its number, sender and time.
pub proof fn law_readings_show_the_records(
    outcome: Result<Vec<StoredMessage>, HistoryError>,
    parse: Result<Seq<RecordView>, Seq<char>>,
)
    requires
        is_reading(outcome, parse),
    ensures
        outcome is Ok <==> parse is Ok,
        outcome matches Ok(messages) ==> messages@.len() == parse->Ok_0.len() && forall|i: int|
            0 <= i < messages@.len() ==> {
                let message = #[trigger] messages@[i];
                let record = parse->Ok_0[i];
                &&& message.seq == record.seq
                &&& message.sender == record.sender
                &&& message.timestamp_ms == record.timestamp_ms
                &&& message.content@ == lossy_text(record.payload)
            },
        outcome matches Err(error) ==> (error matches HistoryError::InvalidTranscript(text) && text@
            == parse->Err_0),
{
    if let Ok(messages) = outcome {
        let records = parse->Ok_0;
        assert(message_views(messages@).len() == record_messages(records).len());
        assert forall|i: int| 0 <= i < messages@.len() implies {
            let message = #[trigger] messages@[i];
            let record = records[i];
            &&& message.seq == record.seq
            &&& message.sender == record.sender
            &&& message.timestamp_ms == record.timestamp_ms
            &&& message.content@ == lossy_text(record.payload)
        } by {
            assert(message_views(messages@)[i] == record_messages(records)[i]);
        }
    }
}

/// Law: a transcript is complete exactly where its messages are numbered from one on, without gaps,
/// up to the number that the server counted.
pub proof fn law_completeness_is_counted(messages: Seq<MessageView>, final_seq: u64)
    ensures
        ({
            let counted = messages.len() == final_seq && forall|i: int|
                0 <= i < messages.len() ==> (#[trigger] messages[i]).seq == i + 1;
            &&& counted ==> sync_status_text(messages, final_seq) == "complete"@
            &&& !counted ==> sync_status_text(messages, final_seq) == "partial"@
        }),
{
}

/// Law: an error says where it arose and why.
pub proof fn law_history_errors_in_words(error: HistoryError)
    ensures
        history_error_text(error) == match error {
            HistoryError::Io(cause) => "history I/O error: "@ + cause@,
            HistoryError::Database(cause) => "history database error: "@ + cause@,
            HistoryError::InvalidTranscript(cause) => "invalid transcript: "@ + cause@,
        },
{
}

/// Law: of a conversation that the server keeps, the peer is the party that is not the agent, the
/// messages keep their numbers, senders, times and bytes in order, and the number of messages is the
/// one the server tells, or else how many it sent.
pub proof fn law_recovered_conversations_by_their_parts(
    remote: RemoteConversation,
    agent_id: Seq<char>,
)
    ensures
        agent_id == remote.agent_a_id@ ==> peer_of(remote, agent_id) == remote.agent_b_id@,
        agent_id == remote.agent_b_id@ ==> peer_of(remote, agent_id) == remote.agent_a_id@,
        remote.final_seq matches Some(last) ==> expected_seq(remote) == last,
        remote.final_seq is None ==> expected_seq(remote) == remote.messages.len(),
        remote_records(remote.messages@).len() == remote.messages@.len(),
        forall|i: int|
            0 <= i < remote.messages@.len() ==> {
                let record = #[trigger] remote_records(remote.messages@)[i];
                let told = remote.messages@[i];
                &&& record.seq == told.seq && record.sender == told.sender
                &&& record.timestamp_ms == told.timestamp_ms && record.payload == told.content@
            },
{
}

/// Law: an import is settled by reading what it wrote: it is complete or partial by the records that
/// come out, and damaged where they do not.
pub proof fn law_imports_are_settled_by_reading(
    outcome: Result<&'static str, HistoryError>,
    parse: Result<Seq<RecordView>, Seq<char>>,
    final_seq: u64,
)
    requires
        is_settlement(outcome, parse, final_seq),
    ensures
        outcome is Ok <==> parse is Ok,
        outcome matches Ok(status) ==> {
            let records = parse->Ok_0;
            let counted = records.len() == final_seq && forall|i: int|
                0 <= i < records.len() ==> (#[trigger] records[i]).seq == i + 1;
            &&& counted ==> status@ == "complete"@
            &&& !counted ==> status@ == "partial"@
        },
        outcome matches Err(error) ==> (error matches HistoryError::InvalidTranscript(text) && text@
            == parse->Err_0),
{
    if outcome is Ok {
        let records = parse->Ok_0;
        let messages = record_messages(records);
        assert forall|i: int| 0 <= i < records.len() implies (#[trigger] records[i]).seq
            == messages[i].seq by {}
        assert forall|i: int| 0 <= i < messages.len() implies (#[trigger] messages[i]).seq
            == records[i].seq by {}
    }
}

} // verus!
