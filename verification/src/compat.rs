//! Compatibility with Hermes: the names of the JSONL spool files the bus writes to
//! the Hermes inbox, and which files of the Hermes outbox hold packets to import.
use vstd::prelude::*;
use vstd::string::*;
use crate::ids::{id_text, uuid_text};
use crate::time::{spec_compact_stamp, Timestamp};
use crate::json::{spec_json_pretty_text, spec_parse_json, JsonValue};
use crate::types::{carries, same_text, uscp_decode, uscp_json, CnsMessage};

verus! {

/// The directory, under the Hermes directory, that the bus writes messages into.
pub const INBOX_DIR: &'static str = "cns_inbox";

/// The directory, under the Hermes directory, that Hermes leaves packets in.
pub const OUTBOX_DIR: &'static str = "cns_outbox";

/// The directory, under the outbox, that imported packet files are moved to.
pub const PROCESSED_DIR: &'static str = "processed";

/// The name of the inbox file for a message written at instant `at`: `cns_v3_`, the
/// origin, the compact time stamp, the first eight hexadecimal digits of the id,
/// and `.json`, joined by underscores.
pub open spec fn inbox_file_name_spec(origin: Seq<char>, at: (i64, u32), id: u128) -> Seq<char> {
    "cns_v3_"@ + origin + "_"@ + spec_compact_stamp(at.0, at.1) + "_"@ + uuid_text(id).subrange(
        0,
        8,
    ) + ".json"@
}

/// The name of the inbox file for a message written at instant `at` (see
/// `inbox_file_name_spec`).
pub fn inbox_file_name(msg: &CnsMessage, at: &Timestamp) -> (name: String)
    ensures
        name@ == inbox_file_name_spec(msg.origin@, at.parts(), msg.id),
{
    let id = id_text(msg.id);
    let short = id.as_str().substring_char(0, 8);
    let mut name = String::from_str("cns_v3_");
    name.append(msg.origin.as_str());
    name.append("_");
    name.append(at.compact_stamp().as_str());
    name.append("_");
    name.append(short);
    name.append(".json");
    name
}

/// The position of the last `.` in a file name; -1 when it has none.
pub open spec fn last_dot(name: Seq<char>) -> int
    decreases name.len(),
{
    if name.len() == 0 {
        -1
    } else if name.last() == '.' {
        name.len() - 1
    } else {
        last_dot(name.drop_last())
    }
}

/// The extension of a file name, as std's `Path::extension` documents it: none when
/// the name has no `.`, or when its only `.` is its first character; otherwise the
/// text after the last `.`.
pub open spec fn file_extension(name: Seq<char>) -> Option<Seq<char>> {
    let d = last_dot(name);
    if d <= 0 {
        None
    } else {
        Some(name.subrange(d + 1, name.len() as int))
    }
}

/// Whether a file of the Hermes outbox, by its name, holds a USCP packet: its
/// extension is `json`.
pub fn is_packet_file(name: &str) -> (r: bool)
    ensures
        r == (file_extension(name@) == Some("json"@)),
{
    let n = name.unicode_len();
    let mut i = n;
    assert(name@.subrange(0, n as int) =~= name@);
    while i > 0
        invariant_except_break
            i <= n,
            n == name@.len(),
            last_dot(name@) == last_dot(name@.subrange(0, i as int)),
        ensures
            i <= n,
            n == name@.len(),
            i == 0 ==> last_dot(name@) == -1,
            i > 0 ==> last_dot(name@) == i - 1,
        decreases i,
    {
        let ghost t = name@.subrange(0, i as int);
        if name.get_char(i - 1) == '.' {
            assert(t.last() == '.');
            break;
        }
        assert(t.drop_last() =~= name@.subrange(0, i - 1));
        i = i - 1;
    }
    if i <= 1 {
        return false;
    }
    let ext = name.substring_char(i, n);
    same_text(ext, "json")
}

/// The text of the inbox file for a message: its USCP packet as indented JSON.
pub fn inbox_file_text(msg: &CnsMessage) -> (text: String)
    ensures
        text@ == spec_json_pretty_text(uscp_json(msg@)),
{
    msg.to_uscp().to_pretty_text()
}

/// What an outbox file's text imports as: an error when the text is not JSON;
/// otherwise the message its USCP packet reads as, or none when the packet does not
/// read as a message (see `CnsMessage::from_uscp`).
pub fn import_outbox_text(text: &str) -> (r: Result<Option<CnsMessage>, ()>)
    ensures
        match (r, spec_parse_json(text@)) {
            (Err(()), None) => true,
            (Ok(None), Some(j)) => uscp_decode(j) is None,
            (Ok(Some(m)), Some(j)) => uscp_decode(j) matches Some(f) && carries(m@, f),
            _ => false,
        },
{
    match JsonValue::parse(text) {
        Some(raw) => Ok(CnsMessage::from_uscp(&raw)),
        None => Err(()),
    }
}

} // verus!
