//! What the SQLite store writes and reads: the row a message is kept as, the message
//! read back from a row, the order of a replay, and the store's statistics.
use vstd::prelude::*;
use vstd::string::*;
use crate::ids::{id_text, new_message_id, parse_id, spec_parse_uuid, uuid_text};
use crate::time::{in_four_digit_years, spec_parse_rfc3339, spec_rfc3339, Timestamp};
use crate::types::{copy_opt, lemma_channel_name_roundtrip, lemma_channel_names_distinct, opt_view, Channel, CnsMessage, MessageModel, Payload, PayloadModel, Priority};

verus! {

/// The content a stored payload is read as when its JSON cannot be read.
pub open spec fn unparseable_payload() -> PayloadModel {
    PayloadModel::Text { content: "(unparseable payload)"@ }
}

/// A row of the `messages` table, as written and read (all columns but `seq`).
#[derive(Debug)]
pub struct MessageRow {
    pub id: String,
    pub channel: String,
    pub priority: i64,
    pub origin: String,
    pub destination: Option<String>,
    pub timestamp: String,
    /// The payload's JSON text.
    pub payload: String,
    pub correlation_id: Option<String>,
}

pub struct RowModel {
    pub id: Seq<char>,
    pub channel: Seq<char>,
    pub priority: i64,
    pub origin: Seq<char>,
    pub destination: Option<Seq<char>>,
    pub timestamp: Seq<char>,
    pub payload: Seq<char>,
    pub correlation_id: Option<Seq<char>>,
}

impl View for MessageRow {
    type V = RowModel;

    open spec fn view(&self) -> RowModel {
        RowModel {
            id: self.id@,
            channel: self.channel@,
            priority: self.priority,
            origin: self.origin@,
            destination: opt_view(self.destination),
            timestamp: self.timestamp@,
            payload: self.payload@,
            correlation_id: opt_view(self.correlation_id),
        }
    }
}

/// The row a message is stored as, with its payload's JSON text: the id's hyphenated
/// text, the channel's wire name, the priority's rank, the RFC 3339 time.
pub open spec fn row_of(m: MessageModel, payload_json: Seq<char>) -> RowModel {
    RowModel {
        id: uuid_text(m.id),
        channel: m.channel.name(),
        priority: m.priority.rank() as i64,
        origin: m.origin,
        destination: m.destination,
        timestamp: spec_rfc3339(m.timestamp.0, m.timestamp.1),
        payload: payload_json,
        correlation_id: m.correlation_id,
    }
}

/// Whether `m` is a message read back from `row` on `channel`, given what its payload
/// text was read as: the channel asked for, the priority its stored integer names,
/// the texts as stored, the payload read (or the unparseable-payload text); the id
/// the row's id text names (a fresh one when it names none), the time its timestamp
/// text names (the current time when it names none).
pub open spec fn decodes_row(
    m: MessageModel,
    row: RowModel,
    channel: Channel,
    payload: Option<PayloadModel>,
) -> bool {
    &&& m.channel == channel
    &&& m.priority == Priority::from_level_spec(row.priority)
    &&& m.origin == row.origin
    &&& m.destination == row.destination
    &&& m.correlation_id == row.correlation_id
    &&& m.payload == match payload {
        Some(p) => p,
        None => unparseable_payload(),
    }
    &&& (spec_parse_uuid(row.id) matches Some(v) ==> m.id == v)
    &&& (forall|v: u128| row.id == uuid_text(v) ==> m.id == v)
    &&& (spec_parse_rfc3339(row.timestamp) matches Some(t) ==> m.timestamp == t)
}

impl MessageRow {
    /// The row a message is stored as (see `row_of`).
    pub fn from_message(msg: &CnsMessage, payload_json: String) -> (row: MessageRow)
        ensures
            row@ == row_of(msg@, payload_json@),
            in_four_digit_years(msg@.timestamp.0) ==> spec_parse_rfc3339(row.timestamp@) == Some(
                msg@.timestamp,
            ),
    {
        MessageRow {
            id: id_text(msg.id),
            channel: msg.channel.to_string(),
            priority: msg.priority.level(),
            origin: msg.origin.clone(),
            destination: copy_opt(&msg.destination),
            timestamp: msg.timestamp.to_rfc3339(),
            payload: payload_json,
            correlation_id: copy_opt(&msg.correlation_id),
        }
    }

    /// The message read back from this row on `channel`, given what its payload text
    /// was read as (see `decodes_row`).
    pub fn to_message(&self, channel: Channel, payload: Option<Payload>) -> (m: CnsMessage)
        ensures
            decodes_row(
                m@,
                self@,
                channel,
                match payload {
                    Some(p) => Some(p@),
                    None => None,
                },
            ),
    {
        let id = match parse_id(self.id.as_str()) {
            Some(v) => v,
            None => new_message_id(),
        };
        let timestamp = match Timestamp::parse_rfc3339(self.timestamp.as_str()) {
            Some(t) => t,
            None => Timestamp::now(),
        };
        let payload = match payload {
            Some(p) => p,
            None => Payload::Text { content: String::from_str("(unparseable payload)") },
        };
        CnsMessage {
            id,
            channel,
            priority: Priority::from_level(self.priority),
            origin: self.origin.clone(),
            destination: copy_opt(&self.destination),
            timestamp,
            payload,
            correlation_id: copy_opt(&self.correlation_id),
        }
    }
}

/// A stored message reads back with its id, channel, priority, origin, destination,
/// correlation id and payload; and with its time whenever chrono reads back the RFC
/// 3339 text it wrote for it.
pub proof fn lemma_store_roundtrip(
    m: MessageModel,
    payload_json: Seq<char>,
    back: MessageModel,
    payload: PayloadModel,
)
    requires
        decodes_row(back, row_of(m, payload_json), m.channel, Some(payload)),
    ensures
        back.id == m.id,
        back.channel == m.channel,
        back.priority == m.priority,
        back.origin == m.origin,
        back.destination == m.destination,
        back.correlation_id == m.correlation_id,
        back.payload == payload,
        spec_parse_rfc3339(spec_rfc3339(m.timestamp.0, m.timestamp.1)) == Some(m.timestamp)
            ==> back.timestamp == m.timestamp,
{
}

/// The channel column of a stored row is the channel's wire name (`Channel::as_str`,
/// the text replay and `since` select rows by): it reads back as the message's
/// channel, and two rows share it exactly when their messages share a channel, so
/// a replay on a channel finds that channel's rows and no others.
pub proof fn lemma_row_channel_is_wire_name(
    m: MessageModel,
    payload_json: Seq<char>,
    other: MessageModel,
    other_json: Seq<char>,
)
    ensures
        row_of(m, payload_json).channel == m.channel.name(),
        Channel::recognised(row_of(m, payload_json).channel) == Some(m.channel),
        row_of(m, payload_json).channel == row_of(other, other_json).channel <==> m.channel
            == other.channel,
{
    lemma_channel_name_roundtrip(m.channel);
    lemma_channel_names_distinct(m.channel, other.channel);
}

/// A replay's messages, oldest first, from the rows the store gives newest first.
pub fn oldest_first(newest_first: Vec<CnsMessage>) -> (r: Vec<CnsMessage>)
    ensures
        r@ == newest_first@.reverse(),
{
    let mut rest = newest_first;
    let ghost given = rest@;
    let mut r: Vec<CnsMessage> = Vec::new();
    while rest.len() > 0
        invariant
            rest@ == given.take(rest@.len() as int),
            r@ == given.skip(rest@.len() as int).reverse(),
            rest@.len() <= given.len(),
        decreases rest@.len(),
    {
        let ghost before = rest@.len() as int;
        let m = rest.pop().unwrap();
        r.push(m);
        assert(rest@ =~= given.take(before - 1));
        assert(r@ =~= given.skip(before - 1).reverse());
    }
    assert(given.skip(0) =~= given);
    r
}

/// Figures about the stored messages.
#[derive(Debug)]
pub struct StoreStats {
    pub total_messages: usize,
    pub oldest: Option<Timestamp>,
    pub newest: Option<Timestamp>,
    /// Message counts per channel name, largest first.
    pub per_channel: Vec<(String, usize)>,
}

impl StoreStats {
    /// The statistics from the store's answers: the count, the earliest and latest
    /// timestamp texts (each read as an instant, or none when it names none) and the
    /// counts per channel.
    pub fn from_answers(
        total_messages: usize,
        oldest: Option<String>,
        newest: Option<String>,
        per_channel: Vec<(String, usize)>,
    ) -> (s: StoreStats)
        ensures
            s.total_messages == total_messages,
            s.per_channel@ == per_channel@,
            match (oldest, s.oldest) {
                (Some(t), Some(i)) => spec_parse_rfc3339(t@) == Some(i.parts()),
                (Some(t), None) => spec_parse_rfc3339(t@) is None,
                (None, None) => true,
                (None, Some(_)) => false,
            },
            match (newest, s.newest) {
                (Some(t), Some(i)) => spec_parse_rfc3339(t@) == Some(i.parts()),
                (Some(t), None) => spec_parse_rfc3339(t@) is None,
                (None, None) => true,
                (None, Some(_)) => false,
            },
    {
        let oldest = match oldest {
            Some(t) => Timestamp::parse_rfc3339(t.as_str()),
            None => None,
        };
        let newest = match newest {
            Some(t) => Timestamp::parse_rfc3339(t.as_str()),
            None => None,
        };
        StoreStats { total_messages, oldest, newest, per_channel }
    }
}

} // verus!
