//! Core types of the bus: typed channels, priorities, payloads and the message.
use vstd::prelude::*;
use vstd::string::*;
use crate::ids::{id_text, new_message_id, uuid_text};
use crate::json::{
    distinct_names, float_text, lemma_members_get_at, lemma_members_insert_all_get, members_get, members_insert_all, members_set, members_view, object_members, opt_str_json, Json, JsonNumber,
    JsonValue,
};
use crate::time::{in_four_digit_years, spec_parse_rfc3339, spec_rfc3339, Timestamp};
use vstd::std_specs::cmp::{PartialOrdSpec, PartialOrdSpecImpl};
use std::cmp::Ordering;

verus! {

/// The upper-case form of text, as `str::to_uppercase` computes it (Unicode case
/// mapping).
pub uninterp spec fn spec_to_uppercase(s: Seq<char>) -> Seq<char>;

/// Whether every character of the text is ASCII.
pub open spec fn is_ascii_text(s: Seq<char>) -> bool {
    forall|i: int| 0 <= i < s.len() ==> (#[trigger] s[i] as u32) < 128
}

/// The character in upper case, for the ASCII letters `a` to `z`; any other
/// character as it is.
pub open spec fn ascii_upper_char(c: char) -> char {
    if 'a' <= c && c <= 'z' {
        ((c as u32) - 32) as char
    } else {
        c
    }
}

/// The character in lower case, for the ASCII letters `A` to `Z`; any other
/// character as it is.
pub open spec fn ascii_lower_char(c: char) -> char {
    if 'A' <= c && c <= 'Z' {
        ((c as u32) + 32) as char
    } else {
        c
    }
}

/// The text with its ASCII letters in upper case.
pub open spec fn ascii_upper(s: Seq<char>) -> Seq<char> {
    s.map_values(|c: char| ascii_upper_char(c))
}

/// The text with its ASCII letters in lower case.
pub open spec fn ascii_lower(s: Seq<char>) -> Seq<char> {
    s.map_values(|c: char| ascii_lower_char(c))
}

/// The upper-case form of `s`, computed by std's `str::to_uppercase`. Unicode's
/// upper-case mapping of an ASCII character is the ASCII upper-case letter for `a`
/// to `z`, and the character itself for every other one.
#[verifier::external_body]
fn to_uppercase(s: &str) -> (u: String)
    ensures
        u@ == spec_to_uppercase(s@),
        is_ascii_text(s@) ==> u@ == ascii_upper(s@),
{
    s.to_uppercase()
}

/// Whether two texts are the same.
pub fn same_text(a: &str, b: &str) -> (r: bool)
    ensures
        r == (a@ == b@),
{
    String::from_str(a) == String::from_str(b)
}

/// Known channels: a closed set in place of untyped intents.
#[derive(Debug, Clone, Copy, PartialEq, Eq, Hash, Structural)]
pub enum Channel {
    /// Heartbeat / keep-alive pulses from agents
    Pulse,
    /// Status updates (online/offline, working/idle, resource usage)
    Status,
    /// Creative output (stories, art, music, ideas)
    Creative,
    /// Decisions made by agents (should be logged for audit)
    Decision,
    /// Emotional tilt / mood shifts
    FeelTilt,
    /// Broadcast intents (an agent announces it starts or finishes something)
    IntentBroadcast,
}

/// Every channel, in the order `Channel::ALL` lists them.
pub open spec fn all_channels() -> Seq<Channel> {
    seq![
        Channel::Pulse,
        Channel::Status,
        Channel::Creative,
        Channel::Decision,
        Channel::FeelTilt,
        Channel::IntentBroadcast,
    ]
}

impl Channel {
    /// Every channel.
    pub const ALL: &'static [Channel; 6] = &[
        Channel::Pulse,
        Channel::Status,
        Channel::Creative,
        Channel::Decision,
        Channel::FeelTilt,
        Channel::IntentBroadcast,
    ];

    /// The wire name of the channel.
    pub open spec fn name(self) -> Seq<char> {
        match self {
            Channel::Pulse => "PULSE"@,
            Channel::Status => "STATUS"@,
            Channel::Creative => "CREATIVE"@,
            Channel::Decision => "DECISION"@,
            Channel::FeelTilt => "FEEL_TILT"@,
            Channel::IntentBroadcast => "INTENT_BROADCAST"@,
        }
    }

    /// The position of the channel in `all_channels()`.
    pub open spec fn index(self) -> int {
        match self {
            Channel::Pulse => 0,
            Channel::Status => 1,
            Channel::Creative => 2,
            Channel::Decision => 3,
            Channel::FeelTilt => 4,
            Channel::IntentBroadcast => 5,
        }
    }

    /// The channel an upper-case spelling stands for: a wire name, or `FEELTILT` and
    /// `INTENTBROADCAST` without their underscore.
    pub open spec fn recognised(u: Seq<char>) -> Option<Channel> {
        if u == "PULSE"@ {
            Some(Channel::Pulse)
        } else if u == "STATUS"@ {
            Some(Channel::Status)
        } else if u == "CREATIVE"@ {
            Some(Channel::Creative)
        } else if u == "DECISION"@ {
            Some(Channel::Decision)
        } else if u == "FEEL_TILT"@ || u == "FEELTILT"@ {
            Some(Channel::FeelTilt)
        } else if u == "INTENT_BROADCAST"@ || u == "INTENTBROADCAST"@ {
            Some(Channel::IntentBroadcast)
        } else {
            None
        }
    }

    /// What parsing text gives: the channel its upper-case form spells, or an error
    /// holding that upper-case form.
    pub open spec fn parse_spec(s: Seq<char>) -> Result<Channel, Seq<char>> {
        match Channel::recognised(s) {
            Some(c) => Ok(c),
            None => match Channel::recognised(spec_to_uppercase(s)) {
                Some(c) => Ok(c),
                None => Err(spec_to_uppercase(s)),
            },
        }
    }

    /// The spellings that are recognised have no lower-case ASCII letter.
    pub proof fn lemma_names_in_upper_case(u: Seq<char>)
        ensures
            Channel::recognised(u) is Some ==> ascii_upper(u) == u,
    {
        reveal_strlit("PULSE");
        reveal_strlit("STATUS");
        reveal_strlit("CREATIVE");
        reveal_strlit("DECISION");
        reveal_strlit("FEEL_TILT");
        reveal_strlit("FEELTILT");
        reveal_strlit("INTENT_BROADCAST");
        reveal_strlit("INTENTBROADCAST");
        assert("PULSE"@.len() == 5);
        assert("STATUS"@.len() == 6);
        assert("CREATIVE"@.len() == 8);
        assert("DECISION"@.len() == 8);
        assert("FEEL_TILT"@.len() == 9);
        assert("FEELTILT"@.len() == 8);
        assert("INTENT_BROADCAST"@.len() == 16);
        assert("INTENTBROADCAST"@.len() == 15);
        assert(ascii_upper("PULSE"@) =~= "PULSE"@);
        assert(ascii_upper("STATUS"@) =~= "STATUS"@);
        assert(ascii_upper("CREATIVE"@) =~= "CREATIVE"@);
        assert(ascii_upper("DECISION"@) =~= "DECISION"@);
        assert(ascii_upper("FEEL_TILT"@) =~= "FEEL_TILT"@);
        assert(ascii_upper("FEELTILT"@) =~= "FEELTILT"@);
        assert(ascii_upper("INTENT_BROADCAST"@) =~= "INTENT_BROADCAST"@);
        assert(ascii_upper("INTENTBROADCAST"@) =~= "INTENTBROADCAST"@);
    }

    pub fn as_str(&self) -> (s: &'static str)
        ensures
            s@ == self.name(),
    {
        match self {
            Channel::Pulse => "PULSE",
            Channel::Status => "STATUS",
            Channel::Creative => "CREATIVE",
            Channel::Decision => "DECISION",
            Channel::FeelTilt => "FEEL_TILT",
            Channel::IntentBroadcast => "INTENT_BROADCAST",
        }
    }

    /// The wire name as an owned string (what the channel displays as).
    pub fn to_string(&self) -> (s: String)
        ensures
            s@ == self.name(),
    {
        String::from_str(self.as_str())
    }

    /// The position of the channel in `Channel::ALL`.
    pub fn position(&self) -> (i: usize)
        ensures
            i == self.index(),
            i < 6,
    {
        match self {
            Channel::Pulse => 0,
            Channel::Status => 1,
            Channel::Creative => 2,
            Channel::Decision => 3,
            Channel::FeelTilt => 4,
            Channel::IntentBroadcast => 5,
        }
    }

    /// The channel at position `i` of `Channel::ALL`.
    pub fn at(i: usize) -> (c: Channel)
        requires
            i < 6,
        ensures
            c == all_channels()[i as int],
            c.index() == i,
    {
        if i == 0 {
            Channel::Pulse
        } else if i == 1 {
            Channel::Status
        } else if i == 2 {
            Channel::Creative
        } else if i == 3 {
            Channel::Decision
        } else if i == 4 {
            Channel::FeelTilt
        } else {
            Channel::IntentBroadcast
        }
    }

    /// The channel that upper-case text spells, if any (see `recognised`).
    pub fn from_upper(u: &str) -> (r: Option<Channel>)
        ensures
            r == Channel::recognised(u@),
    {
        if same_text(u, "PULSE") {
            Some(Channel::Pulse)
        } else if same_text(u, "STATUS") {
            Some(Channel::Status)
        } else if same_text(u, "CREATIVE") {
            Some(Channel::Creative)
        } else if same_text(u, "DECISION") {
            Some(Channel::Decision)
        } else if same_text(u, "FEEL_TILT") || same_text(u, "FEELTILT") {
            Some(Channel::FeelTilt)
        } else if same_text(u, "INTENT_BROADCAST") || same_text(u, "INTENTBROADCAST") {
            Some(Channel::IntentBroadcast)
        } else {
            None
        }
    }

    /// Reads a channel from text, ignoring case. Text that already is one of the
    /// recognised upper-case spellings is taken as it stands; any other text is
    /// upper-cased (`str::to_uppercase`) and then looked up. The error holds the
    /// upper-cased text.
    pub fn parse(s: &str) -> (r: Result<Channel, ChannelParseError>)
        ensures
            match r {
                Ok(c) => Channel::parse_spec(s@) == Ok::<Channel, Seq<char>>(c),
                Err(e) => Channel::parse_spec(s@) == Err::<Channel, Seq<char>>(e.text@),
            },
            is_ascii_text(s@) ==> match r {
                Ok(c) => Channel::recognised(ascii_upper(s@)) == Some(c),
                Err(e) => Channel::recognised(ascii_upper(s@)) is None && e.text@ == ascii_upper(s@),
            },
    {
        proof {
            Channel::lemma_names_in_upper_case(s@);
        }
        match Channel::from_upper(s) {
            Some(c) => Ok(c),
            None => {
                let u = to_uppercase(s);
                match Channel::from_upper(u.as_str()) {
                    Some(c) => Ok(c),
                    None => Err(ChannelParseError { text: u }),
                }
            },
        }
    }
}

impl std::str::FromStr for Channel {
    type Err = ChannelParseError;

    fn from_str(s: &str) -> (r: Result<Channel, ChannelParseError>)
        ensures
            match r {
                Ok(c) => Channel::parse_spec(s@) == Ok::<Channel, Seq<char>>(c),
                Err(e) => Channel::parse_spec(s@) == Err::<Channel, Seq<char>>(e.text@),
            },
            is_ascii_text(s@) ==> match r {
                Ok(c) => Channel::recognised(ascii_upper(s@)) == Some(c),
                Err(e) => Channel::recognised(ascii_upper(s@)) is None && e.text@ == ascii_upper(s@),
            },
    {
        Channel::parse(s)
    }
}

/// Parsing a channel failed; holds the upper-cased text that was not recognised.
#[derive(Debug)]
pub struct ChannelParseError {
    pub text: String,
}

impl ChannelParseError {
    /// The error's message: `unknown channel: ` and the text.
    pub fn message(&self) -> (m: String)
        ensures
            m@ == "unknown channel: "@ + self.text@,
    {
        let mut m = String::from_str("unknown channel: ");
        m.append(self.text.as_str());
        m
    }
}

/// Message priority, lowest first: `Low < Normal < High < Critical`.
#[derive(Debug, Clone, Copy, PartialEq, Eq, Ord, Hash, Structural)]
pub enum Priority {
    Low,
    Normal,
    High,
    Critical,
}

impl Priority {
    /// The priority's place in the order, from 0 for `Low` to 3 for `Critical`.
    pub open spec fn rank(self) -> int {
        match self {
            Priority::Low => 0,
            Priority::Normal => 1,
            Priority::High => 2,
            Priority::Critical => 3,
        }
    }

    /// The wire name of the priority.
    pub open spec fn name(self) -> Seq<char> {
        match self {
            Priority::Low => "LOW"@,
            Priority::Normal => "NORMAL"@,
            Priority::High => "HIGH"@,
            Priority::Critical => "CRITICAL"@,
        }
    }

    /// The priority an upper-case wire name stands for.
    pub open spec fn recognised(u: Seq<char>) -> Option<Priority> {
        if u == "CRITICAL"@ {
            Some(Priority::Critical)
        } else if u == "HIGH"@ {
            Some(Priority::High)
        } else if u == "NORMAL"@ {
            Some(Priority::Normal)
        } else if u == "LOW"@ {
            Some(Priority::Low)
        } else {
            None
        }
    }

    /// What parsing text gives: the priority its upper-case form names, or an error
    /// holding that upper-case form.
    pub open spec fn parse_spec(s: Seq<char>) -> Result<Priority, Seq<char>> {
        match Priority::recognised(s) {
            Some(p) => Ok(p),
            None => match Priority::recognised(spec_to_uppercase(s)) {
                Some(p) => Ok(p),
                None => Err(spec_to_uppercase(s)),
            },
        }
    }

    /// The priority stored as the integer `i`: 3, 2 and 1 are `Critical`, `High` and
    /// `Normal`; any other integer is `Low`.
    pub open spec fn from_level_spec(i: i64) -> Priority {
        if i == 3 {
            Priority::Critical
        } else if i == 2 {
            Priority::High
        } else if i == 1 {
            Priority::Normal
        } else {
            Priority::Low
        }
    }

    /// The spellings that are recognised have no lower-case ASCII letter.
    pub proof fn lemma_names_in_upper_case(u: Seq<char>)
        ensures
            Priority::recognised(u) is Some ==> ascii_upper(u) == u,
    {
        reveal_strlit("CRITICAL");
        reveal_strlit("HIGH");
        reveal_strlit("NORMAL");
        reveal_strlit("LOW");
        assert("CRITICAL"@.len() == 8);
        assert("HIGH"@.len() == 4);
        assert("NORMAL"@.len() == 6);
        assert("LOW"@.len() == 3);
        assert(ascii_upper("CRITICAL"@) =~= "CRITICAL"@);
        assert(ascii_upper("HIGH"@) =~= "HIGH"@);
        assert(ascii_upper("NORMAL"@) =~= "NORMAL"@);
        assert(ascii_upper("LOW"@) =~= "LOW"@);
    }

    pub fn as_str(&self) -> (s: &'static str)
        ensures
            s@ == self.name(),
    {
        match self {
            Priority::Critical => "CRITICAL",
            Priority::High => "HIGH",
            Priority::Normal => "NORMAL",
            Priority::Low => "LOW",
        }
    }

    /// The wire name as an owned string (what the priority displays as).
    pub fn to_string(&self) -> (s: String)
        ensures
            s@ == self.name(),
    {
        String::from_str(self.as_str())
    }

    /// The integer the priority is stored as: its rank.
    pub fn level(&self) -> (i: i64)
        ensures
            i == self.rank(),
    {
        match self {
            Priority::Low => 0,
            Priority::Normal => 1,
            Priority::High => 2,
            Priority::Critical => 3,
        }
    }

    /// The priority stored as the integer `i` (see `from_level_spec`).
    pub fn from_level(i: i64) -> (p: Priority)
        ensures
            p == Priority::from_level_spec(i),
    {
        if i == 3 {
            Priority::Critical
        } else if i == 2 {
            Priority::High
        } else if i == 1 {
            Priority::Normal
        } else {
            Priority::Low
        }
    }

    /// The priority that an upper-case wire name names, if any.
    pub fn from_upper(u: &str) -> (r: Option<Priority>)
        ensures
            r == Priority::recognised(u@),
    {
        if same_text(u, "CRITICAL") {
            Some(Priority::Critical)
        } else if same_text(u, "HIGH") {
            Some(Priority::High)
        } else if same_text(u, "NORMAL") {
            Some(Priority::Normal)
        } else if same_text(u, "LOW") {
            Some(Priority::Low)
        } else {
            None
        }
    }

    /// Reads a priority from text, ignoring case. Text that already is a wire name is
    /// taken as it stands; any other text is upper-cased (`str::to_uppercase`) and
    /// then looked up. The error holds the upper-cased text.
    pub fn parse(s: &str) -> (r: Result<Priority, PriorityParseError>)
        ensures
            match r {
                Ok(p) => Priority::parse_spec(s@) == Ok::<Priority, Seq<char>>(p),
                Err(e) => Priority::parse_spec(s@) == Err::<Priority, Seq<char>>(e.text@),
            },
            is_ascii_text(s@) ==> match r {
                Ok(p) => Priority::recognised(ascii_upper(s@)) == Some(p),
                Err(e) => Priority::recognised(ascii_upper(s@)) is None && e.text@ == ascii_upper(s@),
            },
    {
        proof {
            Priority::lemma_names_in_upper_case(s@);
        }
        match Priority::from_upper(s) {
            Some(p) => Ok(p),
            None => {
                let u = to_uppercase(s);
                match Priority::from_upper(u.as_str()) {
                    Some(p) => Ok(p),
                    None => Err(PriorityParseError { text: u }),
                }
            },
        }
    }
}

impl Default for Priority {
    fn default() -> (p: Priority)
        ensures
            p == Priority::Normal,
    {
        Priority::Normal
    }
}

/// Priorities compare by rank.
impl PartialOrd for Priority {
    fn partial_cmp(&self, other: &Priority) -> (r: Option<Ordering>) {
        let a = self.level();
        let b = other.level();
        if a < b {
            Some(Ordering::Less)
        } else if a == b {
            Some(Ordering::Equal)
        } else {
            Some(Ordering::Greater)
        }
    }
}

impl PartialOrdSpecImpl for Priority {
    open spec fn obeys_partial_cmp_spec() -> bool {
        true
    }

    open spec fn partial_cmp_spec(&self, other: &Priority) -> Option<Ordering> {
        if self.rank() < other.rank() {
            Some(Ordering::Less)
        } else if self.rank() == other.rank() {
            Some(Ordering::Equal)
        } else {
            Some(Ordering::Greater)
        }
    }
}

impl std::str::FromStr for Priority {
    type Err = PriorityParseError;

    fn from_str(s: &str) -> (r: Result<Priority, PriorityParseError>)
        ensures
            match r {
                Ok(c) => Priority::parse_spec(s@) == Ok::<Priority, Seq<char>>(c),
                Err(e) => Priority::parse_spec(s@) == Err::<Priority, Seq<char>>(e.text@),
            },
            is_ascii_text(s@) ==> match r {
                Ok(c) => Priority::recognised(ascii_upper(s@)) == Some(c),
                Err(e) => Priority::recognised(ascii_upper(s@)) is None && e.text@ == ascii_upper(s@),
            },
    {
        Priority::parse(s)
    }
}

/// Parsing a priority failed; holds the upper-cased text that was not recognised.
#[derive(Debug)]
pub struct PriorityParseError {
    pub text: String,
}

impl PriorityParseError {
    /// The error's message: `unknown priority: ` and the text.
    pub fn message(&self) -> (m: String)
        ensures
            m@ == "unknown priority: "@ + self.text@,
    {
        let mut m = String::from_str("unknown priority: ");
        m.append(self.text.as_str());
        m
    }
}

/// Reading the wire name of a channel gives the channel back.
pub proof fn lemma_channel_name_roundtrip(c: Channel)
    ensures
        Channel::parse_spec(c.name()) == Ok::<Channel, Seq<char>>(c),
        Channel::recognised(c.name()) == Some(c),
{
    reveal_strlit("PULSE");
    reveal_strlit("STATUS");
    reveal_strlit("CREATIVE");
    reveal_strlit("DECISION");
    reveal_strlit("FEEL_TILT");
    reveal_strlit("FEELTILT");
    reveal_strlit("INTENT_BROADCAST");
    reveal_strlit("INTENTBROADCAST");
    assert("PULSE"@.len() == 5);
    assert("STATUS"@.len() == 6);
    assert("CREATIVE"@.len() == 8);
    assert("DECISION"@.len() == 8);
    assert("FEEL_TILT"@.len() == 9);
    assert("FEELTILT"@.len() == 8);
    assert("INTENT_BROADCAST"@.len() == 16);
    assert("INTENTBROADCAST"@.len() == 15);
    assert("CREATIVE"@[0] != "DECISION"@[0]);
    assert("FEELTILT"@[0] != "CREATIVE"@[0]);
    assert("FEELTILT"@[0] != "DECISION"@[0]);
}

/// `Channel::ALL` lists every channel exactly once, each at its position.
pub proof fn lemma_all_channels(c: Channel)
    ensures
        Channel::ALL@ == all_channels(),
        0 <= c.index() < 6,
        all_channels()[c.index()] == c,
        forall|i: int, j: int| 0 <= i < j < 6 ==> all_channels()[i] != all_channels()[j],
{
    assert(Channel::ALL@ =~= all_channels());
}

/// Reading a channel or a priority ignores the case of ASCII text: the text, its
/// lower-case form and its upper-case form are all read by the same upper-case form
/// (see the ASCII clause of `Channel::parse` and `Priority::parse`).
pub proof fn lemma_parse_ignores_ascii_case(s: Seq<char>)
    requires
        is_ascii_text(s),
    ensures
        is_ascii_text(ascii_lower(s)),
        is_ascii_text(ascii_upper(s)),
        ascii_upper(ascii_lower(s)) == ascii_upper(s),
        ascii_upper(ascii_upper(s)) == ascii_upper(s),
        Channel::recognised(ascii_upper(ascii_lower(s))) == Channel::recognised(ascii_upper(s)),
        Priority::recognised(ascii_upper(ascii_lower(s))) == Priority::recognised(ascii_upper(s)),
{
    assert forall|i: int| 0 <= i < s.len() implies {
        &&& (#[trigger] ascii_lower(s)[i] as u32) < 128
        &&& (ascii_upper(s)[i] as u32) < 128
        &&& ascii_upper_char(ascii_lower(s)[i]) == ascii_upper(s)[i]
        &&& ascii_upper_char(ascii_upper(s)[i]) == ascii_upper(s)[i]
    } by {
        let c = s[i];
        assert((c as u32) < 128);
    }
    assert(ascii_upper(ascii_lower(s)) =~= ascii_upper(s));
    assert(ascii_upper(ascii_upper(s)) =~= ascii_upper(s));
}

/// Distinct channels have distinct wire names.
pub proof fn lemma_channel_names_distinct(a: Channel, b: Channel)
    ensures
        a.name() == b.name() ==> a == b,
{
    lemma_channel_name_roundtrip(a);
    lemma_channel_name_roundtrip(b);
}

/// Reading the wire name of a priority gives the priority back.
pub proof fn lemma_priority_name_roundtrip(p: Priority)
    ensures
        Priority::parse_spec(p.name()) == Ok::<Priority, Seq<char>>(p),
        Priority::recognised(p.name()) == Some(p),
{
    reveal_strlit("LOW");
    reveal_strlit("NORMAL");
    reveal_strlit("HIGH");
    reveal_strlit("CRITICAL");
    assert("LOW"@.len() == 3);
    assert("NORMAL"@.len() == 6);
    assert("HIGH"@.len() == 4);
    assert("CRITICAL"@.len() == 8);
}

/// How two priorities compare, as `partial_cmp` (and so `<`, `<=`, `>`, `>=`) has it.
pub open spec fn compare(a: Priority, b: Priority) -> Option<Ordering> {
    PartialOrdSpec::partial_cmp_spec(&a, &b)
}

/// The priorities are totally ordered, `LOW < NORMAL < HIGH < CRITICAL`: any two
/// compare, as their ranks do; only equal priorities compare equal; the order is
/// antisymmetric and transitive.
pub proof fn lemma_priority_order(a: Priority, b: Priority, c: Priority)
    ensures
        compare(Priority::Low, Priority::Normal) == Some(Ordering::Less),
        compare(Priority::Normal, Priority::High) == Some(Ordering::Less),
        compare(Priority::High, Priority::Critical) == Some(Ordering::Less),
        compare(a, b) is Some,
        compare(a, b) == Some(Ordering::Less) <==> a.rank() < b.rank(),
        compare(a, b) == Some(Ordering::Equal) <==> a == b,
        compare(a, b) == Some(Ordering::Less) <==> compare(b, a) == Some(Ordering::Greater),
        compare(a, b) == Some(Ordering::Less) && compare(b, c) == Some(Ordering::Less) ==> compare(
            a,
            c,
        ) == Some(Ordering::Less),
{
}

/// The integer a priority is stored as reads back as that priority.
pub proof fn lemma_priority_level_roundtrip(p: Priority)
    ensures
        Priority::from_level_spec(p.rank() as i64) == p,
{
}

/// The model of an optional string.
pub open spec fn opt_view(o: Option<String>) -> Option<Seq<char>> {
    match o {
        Some(s) => Some(s@),
        None => None,
    }
}

/// The text, or `default` when there is none.
pub open spec fn text_or(o: Option<Seq<char>>, default: Seq<char>) -> Seq<char> {
    match o {
        Some(s) => s,
        None => default,
    }
}

/// A copy of an optional string.
pub fn copy_opt(o: &Option<String>) -> (r: Option<String>)
    ensures
        opt_view(r) == opt_view(*o),
{
    match o {
        Some(s) => Some(s.clone()),
        None => None,
    }
}

/// Typed payloads: each kind of content that agents send.
#[derive(Debug, PartialEq)]
pub enum Payload {
    /// Heartbeat pulse: the agent is alive
    Pulse { agent_id: String, status: String },
    /// Free-form text (creative writing, status note, decision rationale)
    Text { content: String },
    /// Status report, with optional metrics
    Status { agent_id: String, state: String, metrics: Option<JsonValue> },
    /// Decision record
    Decision { agent_id: String, summary: String, rationale: String },
    /// Emotional tilt; the intensity is a number
    FeelTilt { agent_id: String, mood: String, intensity: JsonNumber },
    /// Intent broadcast
    Intent { agent_id: String, action: String, target: Option<String> },
    /// Structured data that fits no other kind: the members of a JSON object
    Data { fields: Vec<(String, JsonValue)> },
}

/// The model of a payload.
pub enum PayloadModel {
    Pulse { agent_id: Seq<char>, status: Seq<char> },
    Text { content: Seq<char> },
    Status { agent_id: Seq<char>, state: Seq<char>, metrics: Option<Json> },
    Decision { agent_id: Seq<char>, summary: Seq<char>, rationale: Seq<char> },
    FeelTilt { agent_id: Seq<char>, mood: Seq<char>, intensity: Seq<char> },
    Intent { agent_id: Seq<char>, action: Seq<char>, target: Option<Seq<char>> },
    Data { fields: Seq<(Seq<char>, Json)> },
}

impl View for Payload {
    type V = PayloadModel;

    open spec fn view(&self) -> PayloadModel {
        match *self {
            Payload::Pulse { agent_id, status } => PayloadModel::Pulse {
                agent_id: agent_id@,
                status: status@,
            },
            Payload::Text { content } => PayloadModel::Text { content: content@ },
            Payload::Status { agent_id, state, metrics } => PayloadModel::Status {
                agent_id: agent_id@,
                state: state@,
                metrics: match metrics {
                    Some(m) => Some(m@),
                    None => None,
                },
            },
            Payload::Decision { agent_id, summary, rationale } => PayloadModel::Decision {
                agent_id: agent_id@,
                summary: summary@,
                rationale: rationale@,
            },
            Payload::FeelTilt { agent_id, mood, intensity } => PayloadModel::FeelTilt {
                agent_id: agent_id@,
                mood: mood@,
                intensity: intensity.text@,
            },
            Payload::Intent { agent_id, action, target } => PayloadModel::Intent {
                agent_id: agent_id@,
                action: action@,
                target: opt_view(target),
            },
            Payload::Data { fields } => PayloadModel::Data { fields: members_view(fields@) },
        }
    }
}

impl Payload {
    /// A copy of the payload.
    pub fn copy(&self) -> (r: Payload)
        ensures
            r@ == self@,
    {
        match self {
            Payload::Pulse { agent_id, status } => Payload::Pulse {
                agent_id: agent_id.clone(),
                status: status.clone(),
            },
            Payload::Text { content } => Payload::Text { content: content.clone() },
            Payload::Status { agent_id, state, metrics } => Payload::Status {
                agent_id: agent_id.clone(),
                state: state.clone(),
                metrics: match metrics {
                    Some(m) => Some(m.deep_clone()),
                    None => None,
                },
            },
            Payload::Decision { agent_id, summary, rationale } => Payload::Decision {
                agent_id: agent_id.clone(),
                summary: summary.clone(),
                rationale: rationale.clone(),
            },
            Payload::FeelTilt { agent_id, mood, intensity } => Payload::FeelTilt {
                agent_id: agent_id.clone(),
                mood: mood.clone(),
                intensity: intensity.copy(),
            },
            Payload::Intent { agent_id, action, target } => Payload::Intent {
                agent_id: agent_id.clone(),
                action: action.clone(),
                target: copy_opt(target),
            },
            Payload::Data { fields } => Payload::Data { fields: copy_members(fields) },
        }
    }
}

impl Clone for Payload {
    fn clone(&self) -> (r: Payload)
        ensures
            r@ == self@,
    {
        self.copy()
    }
}

/// A copy of a list of object members.
pub fn copy_members(m: &Vec<(String, JsonValue)>) -> (r: Vec<(String, JsonValue)>)
    ensures
        members_view(r@) == members_view(m@),
{
    let mut r: Vec<(String, JsonValue)> = Vec::new();
    let mut i: usize = 0;
    while i < m.len()
        invariant
            0 <= i <= m@.len(),
            r@.len() == i,
            forall|j: int|
                0 <= j < i ==> (#[trigger] r@[j]).0@ == m@[j].0@ && r@[j].1@ == m@[j].1@,
        decreases m@.len() - i,
    {
        let k = m[i].0.clone();
        let v = m[i].1.deep_clone();
        r.push((k, v));
        i = i + 1;
    }
    assert(members_view(r@) =~= members_view(m@));
    r
}

/// The message that flows through the bus.
#[derive(Debug, PartialEq)]
pub struct CnsMessage {
    pub id: u128,
    pub channel: Channel,
    pub priority: Priority,
    pub origin: String,
    pub destination: Option<String>,
    pub timestamp: Timestamp,
    pub payload: Payload,
    /// For correlation with USCP packets
    pub correlation_id: Option<String>,
}

/// The model of a message.
pub struct MessageModel {
    pub id: u128,
    pub channel: Channel,
    pub priority: Priority,
    pub origin: Seq<char>,
    pub destination: Option<Seq<char>>,
    pub timestamp: (i64, u32),
    pub payload: PayloadModel,
    pub correlation_id: Option<Seq<char>>,
}

impl CnsMessage {
    /// A copy of the message.
    pub fn copy(&self) -> (r: CnsMessage)
        ensures
            r@ == self@,
    {
        CnsMessage {
            id: self.id,
            channel: self.channel,
            priority: self.priority,
            origin: self.origin.clone(),
            destination: copy_opt(&self.destination),
            timestamp: self.timestamp,
            payload: self.payload.copy(),
            correlation_id: copy_opt(&self.correlation_id),
        }
    }
}

impl Clone for CnsMessage {
    fn clone(&self) -> (r: CnsMessage)
        ensures
            r@ == self@,
    {
        self.copy()
    }
}

impl View for CnsMessage {
    type V = MessageModel;

    open spec fn view(&self) -> MessageModel {
        MessageModel {
            id: self.id,
            channel: self.channel,
            priority: self.priority,
            origin: self.origin@,
            destination: opt_view(self.destination),
            timestamp: self.timestamp.parts(),
            payload: self.payload@,
            correlation_id: opt_view(self.correlation_id),
        }
    }
}

/// The member `key` holding `v`.
pub fn member(key: &str, v: JsonValue) -> (r: (String, JsonValue))
    ensures
        r.0@ == key@,
        r.1@ == v@,
{
    (String::from_str(key), v)
}

/// The object with these members, in this order.
pub fn object(members: Vec<(String, JsonValue)>) -> (r: JsonValue)
    ensures
        r@ == Json::Object(members_view(members@)),
{
    let r = JsonValue::Object(members);
    assert(r@->Object_0 =~= members_view(members@));
    r
}

/// The value, or `null` when there is none.
pub open spec fn opt_json(v: Option<Json>) -> Json {
    match v {
        Some(j) => j,
        None => Json::Null,
    }
}

/// The intent that a payload of this kind is sent under in a USCP packet.
pub open spec fn payload_intent(p: PayloadModel) -> Seq<char> {
    match p {
        PayloadModel::Pulse { .. } => "PULSE"@,
        PayloadModel::Text { .. } => "CREATIVE"@,
        PayloadModel::Status { .. } => "STATUS"@,
        PayloadModel::Decision { .. } => "DECISION"@,
        PayloadModel::FeelTilt { .. } => "FEEL"@,
        PayloadModel::Intent { .. } => "INTENT_BROADCAST"@,
        PayloadModel::Data { .. } => "DATA"@,
    }
}

/// The body payload of a USCP packet carrying this payload.
pub open spec fn payload_json(p: PayloadModel) -> Json {
    match p {
        PayloadModel::Pulse { agent_id, status } => Json::Object(
            seq![("agent_id"@, Json::Str(agent_id)), ("status"@, Json::Str(status))],
        ),
        PayloadModel::Text { content } => Json::Object(seq![("content"@, Json::Str(content))]),
        PayloadModel::Status { agent_id, state, metrics } => Json::Object(
            seq![
                ("agent_id"@, Json::Str(agent_id)),
                ("state"@, Json::Str(state)),
                ("metrics"@, opt_json(metrics)),
            ],
        ),
        PayloadModel::Decision { agent_id, summary, rationale } => Json::Object(
            seq![
                ("agent_id"@, Json::Str(agent_id)),
                ("summary"@, Json::Str(summary)),
                ("rationale"@, Json::Str(rationale)),
            ],
        ),
        PayloadModel::FeelTilt { agent_id, mood, intensity } => Json::Object(
            seq![
                ("agent_id"@, Json::Str(agent_id)),
                ("mood"@, Json::Str(mood)),
                ("intensity"@, Json::Number(intensity)),
            ],
        ),
        PayloadModel::Intent { agent_id, action, target } => Json::Object(
            seq![
                ("agent_id"@, Json::Str(agent_id)),
                ("action"@, Json::Str(action)),
                ("target"@, opt_str_json(target)),
            ],
        ),
        PayloadModel::Data { fields } => Json::Object(fields),
    }
}

/// The USCP packet for a message: a header (origin, RFC 3339 timestamp, priority,
/// destination and correlation id, the last two `null` when absent), a body (intent
/// and payload) and a signature (format, version and the message id).
pub open spec fn uscp_json(m: MessageModel) -> Json {
    Json::Object(
        seq![
            ("header"@, Json::Object(
                seq![
                    ("origin_id"@, Json::Str(m.origin)),
                    ("timestamp"@, Json::Str(spec_rfc3339(m.timestamp.0, m.timestamp.1))),
                    ("priority"@, Json::Str(m.priority.name())),
                    ("destination_id"@, opt_str_json(m.destination)),
                    ("correlation_id"@, opt_str_json(m.correlation_id)),
                ],
            )),
            ("body"@, Json::Object(
                seq![
                    ("intent"@, Json::Str(payload_intent(m.payload))),
                    ("payload"@, payload_json(m.payload)),
                ],
            )),
            ("signature"@, Json::Object(
                seq![
                    ("type"@, Json::Str("USCP-v3"@)),
                    ("version"@, Json::Str("3.0"@)),
                    ("message_id"@, Json::Str(uuid_text(m.id))),
                ],
            )),
        ],
    )
}

impl Payload {
    /// The intent this payload is sent under in a USCP packet.
    pub fn intent(&self) -> (s: &'static str)
        ensures
            s@ == payload_intent(self@),
    {
        match self {
            Payload::Pulse { .. } => "PULSE",
            Payload::Text { .. } => "CREATIVE",
            Payload::Status { .. } => "STATUS",
            Payload::Decision { .. } => "DECISION",
            Payload::FeelTilt { .. } => "FEEL",
            Payload::Intent { .. } => "INTENT_BROADCAST",
            Payload::Data { .. } => "DATA",
        }
    }

    /// The payload as the body of a USCP packet.
    pub fn to_json(&self) -> (r: JsonValue)
        ensures
            r@ == payload_json(self@),
    {
        let mut m: Vec<(String, JsonValue)> = Vec::new();
        match self {
            Payload::Pulse { agent_id, status } => {
                m.push(member("agent_id", JsonValue::String(agent_id.clone())));
                m.push(member("status", JsonValue::String(status.clone())));
                assert(members_view(m@) =~= seq![
                    ("agent_id"@, Json::Str(agent_id@)),
                    ("status"@, Json::Str(status@)),
                ]);
                let r = object(m);
                assert(r@ == payload_json(self@));
                r
            },
            Payload::Text { content } => {
                m.push(member("content", JsonValue::String(content.clone())));
                let r = object(m);
                assert(members_view(m@) =~= seq![("content"@, Json::Str(content@))]);
                assert(r@ == payload_json(self@));
                r
            },
            Payload::Status { agent_id, state, metrics } => {
                m.push(member("agent_id", JsonValue::String(agent_id.clone())));
                m.push(member("state", JsonValue::String(state.clone())));
                let mv = match metrics {
                    Some(x) => x.deep_clone(),
                    None => JsonValue::Null,
                };
                assert(mv@ == opt_json(self@->Status_metrics));
                m.push(member("metrics", mv));
                let ghost pm = self@;
                assert(members_view(m@) =~= seq![
                    ("agent_id"@, Json::Str(agent_id@)),
                    ("state"@, Json::Str(state@)),
                    ("metrics"@, opt_json(pm->Status_metrics)),
                ]);
                assert(payload_json(pm) == Json::Object(members_view(m@)));
                let r = object(m);
                assert(r@ == payload_json(self@));
                r
            },
            Payload::Decision { agent_id, summary, rationale } => {
                m.push(member("agent_id", JsonValue::String(agent_id.clone())));
                m.push(member("summary", JsonValue::String(summary.clone())));
                m.push(member("rationale", JsonValue::String(rationale.clone())));
                let r = object(m);
                assert(members_view(m@) =~= seq![
                    ("agent_id"@, Json::Str(agent_id@)),
                    ("summary"@, Json::Str(summary@)),
                    ("rationale"@, Json::Str(rationale@)),
                ]);
                assert(r@ == payload_json(self@));
                r
            },
            Payload::FeelTilt { agent_id, mood, intensity } => {
                m.push(member("agent_id", JsonValue::String(agent_id.clone())));
                m.push(member("mood", JsonValue::String(mood.clone())));
                m.push(member("intensity", JsonValue::Number(intensity.copy())));
                let r = object(m);
                assert(members_view(m@) =~= seq![
                    ("agent_id"@, Json::Str(agent_id@)),
                    ("mood"@, Json::Str(mood@)),
                    ("intensity"@, Json::Number(intensity.text@)),
                ]);
                assert(r@ == payload_json(self@));
                r
            },
            Payload::Intent { agent_id, action, target } => {
                m.push(member("agent_id", JsonValue::String(agent_id.clone())));
                m.push(member("action", JsonValue::String(action.clone())));
                m.push(member("target", JsonValue::from_opt_string(target)));
                let r = object(m);
                assert(members_view(m@) =~= seq![
                    ("agent_id"@, Json::Str(agent_id@)),
                    ("action"@, Json::Str(action@)),
                    ("target"@, opt_str_json(opt_view(*target))),
                ]);
                assert(r@ == payload_json(self@));
                r
            },
            Payload::Data { fields } => {
                let r = object(copy_members(fields));
                assert(r@ == payload_json(self@));
                r
            },
        }
    }
}

impl CnsMessage {
    /// Converts the message to a USCP packet, the format Hermes reads. For a time in
    /// the years 0 to 9999, the packet reads back (see `uscp_decode`) with the
    /// message's origin, destination, priority, correlation id and time, and the
    /// channel and payload of `uscp_echo`.
    pub fn to_uscp(&self) -> (r: JsonValue)
        ensures
            r@ == uscp_json(self@),
            in_four_digit_years(self@.timestamp.0) ==> uscp_decode(r@) == Some(
                UscpFields {
                    origin: self@.origin,
                    destination: self@.destination,
                    priority: self@.priority,
                    timestamp: Some(self@.timestamp),
                    correlation_id: self@.correlation_id,
                    channel: uscp_echo(self@).0,
                    payload: uscp_echo(self@).1,
                },
            ),
    {
        let mut header: Vec<(String, JsonValue)> = Vec::new();
        header.push(member("origin_id", JsonValue::String(self.origin.clone())));
        header.push(member("timestamp", JsonValue::String(self.timestamp.to_rfc3339())));
        header.push(member("priority", JsonValue::String(self.priority.to_string())));
        header.push(member("destination_id", JsonValue::from_opt_string(&self.destination)));
        header.push(member("correlation_id", JsonValue::from_opt_string(&self.correlation_id)));
        let ghost hv = members_view(header@);
        let h = object(header);
        let mut body: Vec<(String, JsonValue)> = Vec::new();
        body.push(member("intent", JsonValue::from_str(self.payload.intent())));
        body.push(member("payload", self.payload.to_json()));
        let ghost bv = members_view(body@);
        let b = object(body);
        let mut signature: Vec<(String, JsonValue)> = Vec::new();
        signature.push(member("type", JsonValue::from_str("USCP-v3")));
        signature.push(member("version", JsonValue::from_str("3.0")));
        signature.push(member("message_id", JsonValue::String(id_text(self.id))));
        let ghost sv = members_view(signature@);
        let s = object(signature);
        let mut packet: Vec<(String, JsonValue)> = Vec::new();
        packet.push(member("header", h));
        packet.push(member("body", b));
        packet.push(member("signature", s));
        let ghost pv = members_view(packet@);
        let r = object(packet);
        let ghost m = self@;
        assert(hv =~= seq![
            ("origin_id"@, Json::Str(m.origin)),
            ("timestamp"@, Json::Str(spec_rfc3339(m.timestamp.0, m.timestamp.1))),
            ("priority"@, Json::Str(m.priority.name())),
            ("destination_id"@, opt_str_json(m.destination)),
            ("correlation_id"@, opt_str_json(m.correlation_id)),
        ]);
        assert(bv =~= seq![
            ("intent"@, Json::Str(payload_intent(m.payload))),
            ("payload"@, payload_json(m.payload)),
        ]);
        assert(sv =~= seq![
            ("type"@, Json::Str("USCP-v3"@)),
            ("version"@, Json::Str("3.0"@)),
            ("message_id"@, Json::Str(uuid_text(m.id))),
        ]);
        assert(pv =~= seq![
            ("header"@, Json::Object(hv)),
            ("body"@, Json::Object(bv)),
            ("signature"@, Json::Object(sv)),
        ]);
        proof {
            lemma_uscp_roundtrip(m);
        }
        r
    }
}

/// What a USCP packet's body decodes to, given its intent, the packet's origin and
/// the body's payload (`null` when it has none): the channel, and the payload, whose
/// agent is the origin. Text members missing from the payload take the defaults
/// below; an intent of no known kind becomes a status message carrying the payload's
/// members and the intent itself as structured data.
pub open spec fn intent_decode(intent: Seq<char>, origin: Seq<char>, d: Json) -> (
    Channel,
    PayloadModel,
) {
    if intent == "PULSE"@ || intent == "HEARTBEAT"@ {
        (
            Channel::Pulse,
            PayloadModel::Pulse { agent_id: origin, status: text_or(d.get_str("status"@), "alive"@) },
        )
    } else if intent == "STATUS"@ || intent == "STATE"@ {
        (
            Channel::Status,
            PayloadModel::Status {
                agent_id: origin,
                state: text_or(d.get_str("state"@), "unknown"@),
                metrics: d.get("metrics"@),
            },
        )
    } else if intent == "DECISION"@ {
        (
            Channel::Decision,
            PayloadModel::Decision {
                agent_id: origin,
                summary: text_or(d.get_str("summary"@), ""@),
                rationale: text_or(d.get_str("rationale"@), ""@),
            },
        )
    } else if intent == "CREATIVE"@ || intent == "ART"@ || intent == "STORY"@ {
        (Channel::Creative, PayloadModel::Text { content: text_or(d.get_str("content"@), ""@) })
    } else if intent == "FEEL"@ || intent == "MOOD"@ || intent == "TILT"@ {
        (
            Channel::FeelTilt,
            PayloadModel::FeelTilt {
                agent_id: origin,
                mood: text_or(d.get_str("mood"@), "neutral"@),
                intensity: intensity_of(d),
            },
        )
    } else if intent == "INTENT"@ || intent == "BROADCAST"@ || intent == "INTENT_BROADCAST"@ {
        (
            Channel::IntentBroadcast,
            PayloadModel::Intent {
                agent_id: origin,
                action: text_or(d.get_str("action"@), ""@),
                target: d.get_str("target"@),
            },
        )
    } else {
        (
            Channel::Status,
            PayloadModel::Data {
                fields: members_insert_all(seq![("intent"@, Json::Str(intent))], object_members(d)),
            },
        )
    }
}

/// The intensity a payload's JSON gives: its number `intensity` as it reads back
/// through a 64-bit float (see `float_text`), or 0.5 when it has none.
pub open spec fn intensity_of(d: Json) -> Seq<char> {
    match d.get_number("intensity"@) {
        Some(t) => float_text(t),
        None => "0.5"@,
    }
}

/// The intensity a payload's JSON gives (see `intensity_of`).
pub fn intensity_member(d: &JsonValue) -> (n: JsonNumber)
    ensures
        n.text@ == intensity_of(d@),
{
    match d.get_number("intensity") {
        Some(n) => n.as_float(),
        None => JsonNumber { text: String::from_str("0.5") },
    }
}

/// The fields of a message read from a USCP packet.
pub struct UscpFields {
    pub origin: Seq<char>,
    pub destination: Option<Seq<char>>,
    pub priority: Priority,
    /// The instant the header's timestamp names; none when it names none (the
    /// message then takes the time it was read).
    pub timestamp: Option<(i64, u32)>,
    pub correlation_id: Option<Seq<char>>,
    pub channel: Channel,
    pub payload: PayloadModel,
}

/// The priority a USCP header gives: its priority text, read as a priority; `Normal`
/// when there is none or it names no priority.
pub open spec fn header_priority(h: Json) -> Priority {
    match h.get_str("priority"@) {
        Some(s) => match Priority::parse_spec(s) {
            Ok(p) => p,
            Err(_) => Priority::Normal,
        },
        None => Priority::Normal,
    }
}

/// The instant a USCP header's timestamp text names, if it has one.
pub open spec fn header_timestamp(h: Json) -> Option<(i64, u32)> {
    match h.get_str("timestamp"@) {
        Some(s) => spec_parse_rfc3339(s),
        None => None,
    }
}

/// What a USCP packet decodes to: nothing unless it has a header, a body and a
/// string `origin_id` in the header. The intent defaults to `DATA`, the payload to
/// `null`.
pub open spec fn uscp_decode(raw: Json) -> Option<UscpFields> {
    match (raw.get("header"@), raw.get("body"@)) {
        (Some(h), Some(b)) => match h.get_str("origin_id"@) {
            Some(origin) => {
                let intent = text_or(b.get_str("intent"@), "DATA"@);
                let d = match b.get("payload"@) {
                    Some(p) => p,
                    None => Json::Null,
                };
                let cp = intent_decode(intent, origin, d);
                Some(
                    UscpFields {
                        origin,
                        destination: h.get_str("destination_id"@),
                        priority: header_priority(h),
                        timestamp: header_timestamp(h),
                        correlation_id: h.get_str("correlation_id"@),
                        channel: cp.0,
                        payload: cp.1,
                    },
                )
            },
            None => None,
        },
        _ => None,
    }
}

/// Whether a message carries the fields decoded from a packet (its id is fresh, and
/// its time, when the packet names none, is the clock's).
pub open spec fn carries(m: MessageModel, f: UscpFields) -> bool {
    &&& m.origin == f.origin
    &&& m.destination == f.destination
    &&& m.priority == f.priority
    &&& m.correlation_id == f.correlation_id
    &&& m.channel == f.channel
    &&& m.payload == f.payload
    &&& (f.timestamp matches Some(t) ==> m.timestamp == t)
}

/// The text, or a copy of `default` when there is none.
fn string_or(o: Option<String>, default: &str) -> (s: String)
    ensures
        s@ == text_or(opt_view(o), default@),
{
    match o {
        Some(s) => s,
        None => String::from_str(default),
    }
}

/// Decodes a USCP body (see `intent_decode`).
pub fn decode_intent(intent: &String, origin: &String, d: &JsonValue) -> (r: (Channel, Payload))
    ensures
        (r.0, r.1@) == intent_decode(intent@, origin@, d@),
{
    let i = intent.as_str();
    if same_text(i, "PULSE") || same_text(i, "HEARTBEAT") {
        (
            Channel::Pulse,
            Payload::Pulse { agent_id: origin.clone(), status: string_or(d.get_str("status"), "alive") },
        )
    } else if same_text(i, "STATUS") || same_text(i, "STATE") {
        (
            Channel::Status,
            Payload::Status {
                agent_id: origin.clone(),
                state: string_or(d.get_str("state"), "unknown"),
                metrics: d.get_cloned("metrics"),
            },
        )
    } else if same_text(i, "DECISION") {
        (
            Channel::Decision,
            Payload::Decision {
                agent_id: origin.clone(),
                summary: string_or(d.get_str("summary"), ""),
                rationale: string_or(d.get_str("rationale"), ""),
            },
        )
    } else if same_text(i, "CREATIVE") || same_text(i, "ART") || same_text(i, "STORY") {
        (Channel::Creative, Payload::Text { content: string_or(d.get_str("content"), "") })
    } else if same_text(i, "FEEL") || same_text(i, "MOOD") || same_text(i, "TILT") {
        let intensity = intensity_member(d);
        (
            Channel::FeelTilt,
            Payload::FeelTilt {
                agent_id: origin.clone(),
                mood: string_or(d.get_str("mood"), "neutral"),
                intensity,
            },
        )
    } else if same_text(i, "INTENT") || same_text(i, "BROADCAST") || same_text(
        i,
        "INTENT_BROADCAST",
    ) {
        (
            Channel::IntentBroadcast,
            Payload::Intent {
                agent_id: origin.clone(),
                action: string_or(d.get_str("action"), ""),
                target: d.get_str("target"),
            },
        )
    } else {
        let mut fields: Vec<(String, JsonValue)> = Vec::new();
        fields.push(member("intent", JsonValue::String(intent.clone())));
        let ghost start = members_view(fields@);
        assert(start =~= seq![("intent"@, Json::Str(intent@))]);
        match d {
            JsonValue::Object(m) => {
                let ghost mv = members_view(m@);
                assert(d@->Object_0 =~= mv);
                let mut k: usize = 0;
                while k < m.len()
                    invariant
                        0 <= k <= m@.len(),
                        mv == members_view(m@),
                        members_view(fields@) == members_insert_all(start, mv.take(k as int)),
                    decreases m@.len() - k,
                {
                    members_set(&mut fields, m[k].0.clone(), m[k].1.deep_clone());
                    assert(mv.take(k + 1).drop_last() =~= mv.take(k as int));
                    k = k + 1;
                }
                assert(mv.take(m@.len() as int) =~= mv);
            },
            _ => {
                assert(object_members(d@) =~= Seq::<(Seq<char>, Json)>::empty());
            },
        }
        (Channel::Status, Payload::Data { fields })
    }
}

impl CnsMessage {
    /// A message with a fresh random id, the current time, and neither destination
    /// nor correlation id.
    pub fn new(channel: Channel, priority: Priority, origin: &str, payload: Payload) -> (r:
        CnsMessage)
        ensures
            r.channel == channel,
            r.priority == priority,
            r.origin@ == origin@,
            r.destination is None,
            r.correlation_id is None,
            r.payload == payload,
    {
        CnsMessage {
            id: new_message_id(),
            channel,
            priority,
            origin: String::from_str(origin),
            destination: None,
            timestamp: Timestamp::now(),
            payload,
            correlation_id: None,
        }
    }

    /// Reads a USCP packet (from Hermes) as a message (see `uscp_decode`). The message
    /// gets a fresh random id; when the header names no time, it takes the current
    /// time.
    pub fn from_uscp(raw: &JsonValue) -> (r: Option<CnsMessage>)
        ensures
            match (r, uscp_decode(raw@)) {
                (None, None) => true,
                (Some(m), Some(f)) => carries(m@, f),
                _ => false,
            },
    {
        let header = match raw.get("header") {
            Some(h) => h,
            None => return None,
        };
        let body = match raw.get("body") {
            Some(b) => b,
            None => return None,
        };
        let origin = match header.get_str("origin_id") {
            Some(o) => o,
            None => return None,
        };
        let destination = header.get_str("destination_id");
        let priority = match header.get_str("priority") {
            Some(s) => match Priority::parse(s.as_str()) {
                Ok(p) => p,
                Err(_) => Priority::Normal,
            },
            None => Priority::Normal,
        };
        let timestamp = match header.get_str("timestamp") {
            Some(s) => match Timestamp::parse_rfc3339(s.as_str()) {
                Some(t) => t,
                None => Timestamp::now(),
            },
            None => Timestamp::now(),
        };
        let correlation_id = header.get_str("correlation_id");
        let intent = string_or(body.get_str("intent"), "DATA");
        let null = JsonValue::Null;
        let d = match body.get("payload") {
            Some(p) => p,
            None => &null,
        };
        let (channel, payload) = decode_intent(&intent, &origin, d);
        Some(
            CnsMessage {
                id: new_message_id(),
                channel,
                priority,
                origin,
                destination,
                timestamp,
                payload,
                correlation_id,
            },
        )
    }
}

/// What a message reads back as from its own USCP packet: the channel and payload
/// that its payload's intent decodes to. The agent of the payload becomes the
/// message's origin, absent metrics become `null`, an integer intensity comes back
/// as it reads through a float (`1` as `1.0`), and structured data comes back as a
/// status message whose members include the intent `DATA`.
pub open spec fn uscp_echo(m: MessageModel) -> (Channel, PayloadModel) {
    match m.payload {
        PayloadModel::Pulse { agent_id, status } => (
            Channel::Pulse,
            PayloadModel::Pulse { agent_id: m.origin, status },
        ),
        PayloadModel::Text { content } => (Channel::Creative, PayloadModel::Text { content }),
        PayloadModel::Status { agent_id, state, metrics } => (
            Channel::Status,
            PayloadModel::Status { agent_id: m.origin, state, metrics: Some(opt_json(metrics)) },
        ),
        PayloadModel::Decision { agent_id, summary, rationale } => (
            Channel::Decision,
            PayloadModel::Decision { agent_id: m.origin, summary, rationale },
        ),
        PayloadModel::FeelTilt { agent_id, mood, intensity } => (
            Channel::FeelTilt,
            PayloadModel::FeelTilt { agent_id: m.origin, mood, intensity: float_text(intensity) },
        ),
        PayloadModel::Intent { agent_id, action, target } => (
            Channel::IntentBroadcast,
            PayloadModel::Intent { agent_id: m.origin, action, target },
        ),
        PayloadModel::Data { fields } => (
            Channel::Status,
            PayloadModel::Data {
                fields: members_insert_all(seq![("intent"@, Json::Str("DATA"@))], fields),
            },
        ),
    }
}

/// The channel whose kind of content a payload carries.
pub open spec fn payload_channel(p: PayloadModel) -> Channel {
    match p {
        PayloadModel::Pulse { .. } => Channel::Pulse,
        PayloadModel::Text { .. } => Channel::Creative,
        PayloadModel::Status { .. } => Channel::Status,
        PayloadModel::Decision { .. } => Channel::Decision,
        PayloadModel::FeelTilt { .. } => Channel::FeelTilt,
        PayloadModel::Intent { .. } => Channel::IntentBroadcast,
        PayloadModel::Data { .. } => Channel::Status,
    }
}

/// Whether the text is one of the intents a USCP body is read by (with their
/// aliases).
pub open spec fn known_intent(t: Seq<char>) -> bool {
    t == "PULSE"@ || t == "HEARTBEAT"@ || t == "STATUS"@ || t == "STATE"@ || t == "DECISION"@
        || t == "CREATIVE"@ || t == "ART"@ || t == "STORY"@ || t == "FEEL"@ || t == "MOOD"@
        || t == "TILT"@ || t == "INTENT"@ || t == "BROADCAST"@ || t == "INTENT_BROADCAST"@
}

/// A packet whose intent is none of the known ones is kept as a STATUS message of
/// structured data: the data holds the packet's own intent text under `intent`
/// (unless the payload has its own `intent` member), and every member of the
/// payload under its own name.
pub proof fn lemma_unknown_intent_kept(raw: Json, b: Json, p: Json, t: Seq<char>)
    requires
        uscp_decode(raw) is Some,
        raw.get("body"@) == Some(b),
        b.get_str("intent"@) == Some(t),
        b.get("payload"@) == Some(p),
        !known_intent(t),
        distinct_names(object_members(p)),
    ensures
        uscp_decode(raw)->Some_0.channel == Channel::Status,
        uscp_decode(raw)->Some_0.payload is Data,
        p.get("intent"@) is None ==> members_get(uscp_decode(raw)->Some_0.payload->Data_fields, "intent"@)
            == Some(Json::Str(t)),
        forall|k: Seq<char>|
            #![trigger members_get(uscp_decode(raw)->Some_0.payload->Data_fields, k)]
            k != "intent"@ ==> members_get(uscp_decode(raw)->Some_0.payload->Data_fields, k)
                == p.get(k),
{
    let fields = uscp_decode(raw)->Some_0.payload->Data_fields;
    let base = seq![("intent"@, Json::Str(t))];
    assert(fields == members_insert_all(base, object_members(p)));
    assert forall|k: Seq<char>| true implies #[trigger] members_get(fields, k) == match members_get(
        object_members(p),
        k,
    ) {
        Some(v) => Some(v),
        None => members_get(base, k),
    } by {
        lemma_members_insert_all_get(base, object_members(p), k);
    }
    assert(members_get(base, "intent"@) == Some(Json::Str(t)));
    assert forall|k: Seq<char>| k != "intent"@ implies members_get(base, k) is None by {
        assert(base.drop_first() =~= Seq::<(Seq<char>, Json)>::empty());
    }
    assert forall|k: Seq<char>| true implies members_get(object_members(p), k) == p.get(k) by {}
}

/// A message's USCP packet carries the message: its header gives the origin, the
/// time's text, the priority's name, the destination and the correlation id; its
/// body gives the payload's intent and a payload holding every member of the
/// message's payload under its own name (the agent under `agent_id`); its signature
/// gives the message id.
pub proof fn lemma_packet_carries_message(m: MessageModel)
    ensures
        ({
            let packet = uscp_json(m);
            let h = packet.get("header"@)->Some_0;
            let b = packet.get("body"@)->Some_0;
            let p = b.get("payload"@)->Some_0;
            &&& packet.get("header"@) is Some
            &&& h.get_str("origin_id"@) == Some(m.origin)
            &&& h.get_str("timestamp"@) == Some(spec_rfc3339(m.timestamp.0, m.timestamp.1))
            &&& h.get_str("priority"@) == Some(m.priority.name())
            &&& h.get("destination_id"@) == Some(opt_str_json(m.destination))
            &&& h.get("correlation_id"@) == Some(opt_str_json(m.correlation_id))
            &&& packet.get("body"@) is Some
            &&& b.get_str("intent"@) == Some(payload_intent(m.payload))
            &&& b.get("payload"@) is Some
            &&& packet.get("signature"@)->Some_0.get_str("message_id"@) == Some(uuid_text(m.id))
            &&& match m.payload {
                PayloadModel::Pulse { agent_id, status } => {
                    &&& p.get_str("agent_id"@) == Some(agent_id)
                    &&& p.get_str("status"@) == Some(status)
                },
                PayloadModel::Text { content } => p.get_str("content"@) == Some(content),
                PayloadModel::Status { agent_id, state, metrics } => {
                    &&& p.get_str("agent_id"@) == Some(agent_id)
                    &&& p.get_str("state"@) == Some(state)
                    &&& p.get("metrics"@) == Some(opt_json(metrics))
                },
                PayloadModel::Decision { agent_id, summary, rationale } => {
                    &&& p.get_str("agent_id"@) == Some(agent_id)
                    &&& p.get_str("summary"@) == Some(summary)
                    &&& p.get_str("rationale"@) == Some(rationale)
                },
                PayloadModel::FeelTilt { agent_id, mood, intensity } => {
                    &&& p.get_str("agent_id"@) == Some(agent_id)
                    &&& p.get_str("mood"@) == Some(mood)
                    &&& p.get_number("intensity"@) == Some(intensity)
                },
                PayloadModel::Intent { agent_id, action, target } => {
                    &&& p.get_str("agent_id"@) == Some(agent_id)
                    &&& p.get_str("action"@) == Some(action)
                    &&& p.get("target"@) == Some(opt_str_json(target))
                },
                PayloadModel::Data { fields } => p == Json::Object(fields),
            }
        }),
{
    lemma_packet_words();
    reveal_strlit("signature");
    reveal_strlit("message_id");
    reveal_strlit("type");
    reveal_strlit("version");
    let packet = uscp_json(m);
    let ps = packet->Object_0;
    lemma_members_get_at(ps, "header"@, 0);
    lemma_members_get_at(ps, "body"@, 1);
    lemma_members_get_at(ps, "signature"@, 2);
    let hs = ps[0].1->Object_0;
    let bs = ps[1].1->Object_0;
    let ss = ps[2].1->Object_0;
    lemma_members_get_at(hs, "origin_id"@, 0);
    lemma_members_get_at(hs, "timestamp"@, 1);
    lemma_members_get_at(hs, "priority"@, 2);
    lemma_members_get_at(hs, "destination_id"@, 3);
    lemma_members_get_at(hs, "correlation_id"@, 4);
    lemma_members_get_at(bs, "intent"@, 0);
    lemma_members_get_at(bs, "payload"@, 1);
    assert("message_id"@.len() == 10 && "type"@.len() == 4 && "version"@.len() == 7);
    lemma_members_get_at(ss, "message_id"@, 2);
    let d = payload_json(m.payload);
    match m.payload {
        PayloadModel::Pulse { agent_id, status } => {
            lemma_members_get_at(d->Object_0, "agent_id"@, 0);
            lemma_members_get_at(d->Object_0, "status"@, 1);
        },
        PayloadModel::Text { content } => {
            lemma_members_get_at(d->Object_0, "content"@, 0);
        },
        PayloadModel::Status { agent_id, state, metrics } => {
            lemma_members_get_at(d->Object_0, "agent_id"@, 0);
            lemma_members_get_at(d->Object_0, "state"@, 1);
            lemma_members_get_at(d->Object_0, "metrics"@, 2);
        },
        PayloadModel::Decision { agent_id, summary, rationale } => {
            lemma_members_get_at(d->Object_0, "agent_id"@, 0);
            lemma_members_get_at(d->Object_0, "summary"@, 1);
            lemma_members_get_at(d->Object_0, "rationale"@, 2);
        },
        PayloadModel::FeelTilt { agent_id, mood, intensity } => {
            lemma_members_get_at(d->Object_0, "agent_id"@, 0);
            lemma_members_get_at(d->Object_0, "mood"@, 1);
            lemma_members_get_at(d->Object_0, "intensity"@, 2);
        },
        PayloadModel::Intent { agent_id, action, target } => {
            lemma_members_get_at(d->Object_0, "agent_id"@, 0);
            lemma_members_get_at(d->Object_0, "action"@, 1);
            lemma_members_get_at(d->Object_0, "target"@, 2);
        },
        PayloadModel::Data { fields } => {},
    }
}

/// The lengths of the words of a USCP packet, and the letters that tell apart the
/// words of equal length.
proof fn lemma_packet_words()
    ensures
        "header"@.len() == 6,
        "body"@.len() == 4,
        "signature"@.len() == 9,
        "origin_id"@.len() == 9,
        "timestamp"@.len() == 9,
        "priority"@.len() == 8,
        "destination_id"@.len() == 14,
        "correlation_id"@.len() == 14,
        "intent"@.len() == 6,
        "payload"@.len() == 7,
        "type"@.len() == 4,
        "version"@.len() == 7,
        "message_id"@.len() == 10,
        "agent_id"@.len() == 8,
        "status"@.len() == 6,
        "content"@.len() == 7,
        "state"@.len() == 5,
        "metrics"@.len() == 7,
        "summary"@.len() == 7,
        "rationale"@.len() == 9,
        "mood"@.len() == 4,
        "intensity"@.len() == 9,
        "action"@.len() == 6,
        "target"@.len() == 6,
        "PULSE"@.len() == 5,
        "HEARTBEAT"@.len() == 9,
        "STATUS"@.len() == 6,
        "STATE"@.len() == 5,
        "DECISION"@.len() == 8,
        "CREATIVE"@.len() == 8,
        "ART"@.len() == 3,
        "STORY"@.len() == 5,
        "FEEL"@.len() == 4,
        "MOOD"@.len() == 4,
        "TILT"@.len() == 4,
        "INTENT"@.len() == 6,
        "BROADCAST"@.len() == 9,
        "INTENT_BROADCAST"@.len() == 16,
        "DATA"@.len() == 4,
        "CREATIVE"@[0] != "DECISION"@[0],
        "DATA"@[0] != "FEEL"@[0],
        "DATA"@[0] != "MOOD"@[0],
        "DATA"@[0] != "TILT"@[0],
        "origin_id"@[0] != "timestamp"@[0],
        "destination_id"@[0] != "correlation_id"@[0],
        "action"@[0] != "target"@[0],
        "FEEL"@[0] != "MOOD"@[0],
        "FEEL"@[0] != "TILT"@[0],
        "MOOD"@[0] != "TILT"@[0],
        "header"@[0] != "intent"@[0],
        "status"@[0] != "action"@[0],
        "status"@[0] != "target"@[0],
        "intent"@[0] != "action"@[0],
        "intent"@[0] != "target"@[0],
        "status"@[0] != "intent"@[0],
        "STATUS"@[0] != "INTENT"@[0],
        "content"@[0] != "payload"@[0],
        "content"@[0] != "metrics"@[0],
        "content"@[0] != "summary"@[0],
        "metrics"@[0] != "payload"@[0],
        "summary"@[0] != "payload"@[0],
        "metrics"@[0] != "summary"@[0],
        "PULSE"@[0] != "STATE"@[0],
        "PULSE"@[0] != "STORY"@[0],
        "STATE"@[2] != "STORY"@[2],
{
    reveal_strlit("header");
    reveal_strlit("body");
    reveal_strlit("signature");
    reveal_strlit("origin_id");
    reveal_strlit("timestamp");
    reveal_strlit("priority");
    reveal_strlit("destination_id");
    reveal_strlit("correlation_id");
    reveal_strlit("intent");
    reveal_strlit("payload");
    reveal_strlit("type");
    reveal_strlit("version");
    reveal_strlit("message_id");
    reveal_strlit("agent_id");
    reveal_strlit("status");
    reveal_strlit("content");
    reveal_strlit("state");
    reveal_strlit("metrics");
    reveal_strlit("summary");
    reveal_strlit("rationale");
    reveal_strlit("mood");
    reveal_strlit("intensity");
    reveal_strlit("action");
    reveal_strlit("target");
    reveal_strlit("PULSE");
    reveal_strlit("HEARTBEAT");
    reveal_strlit("STATUS");
    reveal_strlit("STATE");
    reveal_strlit("DECISION");
    reveal_strlit("CREATIVE");
    reveal_strlit("ART");
    reveal_strlit("STORY");
    reveal_strlit("FEEL");
    reveal_strlit("MOOD");
    reveal_strlit("TILT");
    reveal_strlit("INTENT");
    reveal_strlit("BROADCAST");
    reveal_strlit("INTENT_BROADCAST");
    reveal_strlit("DATA");
}

/// A message read back from its own USCP packet keeps its origin, destination,
/// priority and correlation id; its channel and payload are those of `uscp_echo`;
/// its time is what chrono reads back from the RFC 3339 text it wrote.
pub proof fn lemma_uscp_roundtrip(m: MessageModel)
    ensures
        uscp_decode(uscp_json(m)) == Some(
            UscpFields {
                origin: m.origin,
                destination: m.destination,
                priority: m.priority,
                timestamp: spec_parse_rfc3339(spec_rfc3339(m.timestamp.0, m.timestamp.1)),
                correlation_id: m.correlation_id,
                channel: uscp_echo(m).0,
                payload: uscp_echo(m).1,
            },
        ),
        uscp_echo(m).0 == payload_channel(m.payload),
{
    lemma_packet_words();
    lemma_priority_name_roundtrip(m.priority);
    let ps = seq![
        ("header"@, Json::Object(
            seq![
                ("origin_id"@, Json::Str(m.origin)),
                ("timestamp"@, Json::Str(spec_rfc3339(m.timestamp.0, m.timestamp.1))),
                ("priority"@, Json::Str(m.priority.name())),
                ("destination_id"@, opt_str_json(m.destination)),
                ("correlation_id"@, opt_str_json(m.correlation_id)),
            ],
        )),
        ("body"@, Json::Object(
            seq![
                ("intent"@, Json::Str(payload_intent(m.payload))),
                ("payload"@, payload_json(m.payload)),
            ],
        )),
        ("signature"@, Json::Object(
            seq![
                ("type"@, Json::Str("USCP-v3"@)),
                ("version"@, Json::Str("3.0"@)),
                ("message_id"@, Json::Str(uuid_text(m.id))),
            ],
        )),
    ];
    let hs = ps[0].1->Object_0;
    let bs = ps[1].1->Object_0;
    assert(uscp_json(m) == Json::Object(ps));
    lemma_members_get_at(ps, "header"@, 0);
    lemma_members_get_at(ps, "body"@, 1);
    lemma_members_get_at(hs, "origin_id"@, 0);
    lemma_members_get_at(hs, "timestamp"@, 1);
    lemma_members_get_at(hs, "priority"@, 2);
    lemma_members_get_at(hs, "destination_id"@, 3);
    lemma_members_get_at(hs, "correlation_id"@, 4);
    lemma_members_get_at(bs, "intent"@, 0);
    lemma_members_get_at(bs, "payload"@, 1);
    lemma_echo(m);
}

proof fn lemma_echo(m: MessageModel)
    ensures
        intent_decode(payload_intent(m.payload), m.origin, payload_json(m.payload)) == uscp_echo(m),
{
    lemma_packet_words();
    let d = payload_json(m.payload);
    match m.payload {
        PayloadModel::Pulse { agent_id, status } => {
            lemma_members_get_at(d->Object_0, "status"@, 1);
        },
        PayloadModel::Text { content } => {
            lemma_members_get_at(d->Object_0, "content"@, 0);
        },
        PayloadModel::Status { agent_id, state, metrics } => {
            lemma_members_get_at(d->Object_0, "state"@, 1);
            lemma_members_get_at(d->Object_0, "metrics"@, 2);
        },
        PayloadModel::Decision { agent_id, summary, rationale } => {
            lemma_members_get_at(d->Object_0, "summary"@, 1);
            lemma_members_get_at(d->Object_0, "rationale"@, 2);
        },
        PayloadModel::FeelTilt { agent_id, mood, intensity } => {
            lemma_members_get_at(d->Object_0, "mood"@, 1);
            lemma_members_get_at(d->Object_0, "intensity"@, 2);
        },
        PayloadModel::Intent { agent_id, action, target } => {
            lemma_members_get_at(d->Object_0, "action"@, 1);
            lemma_members_get_at(d->Object_0, "target"@, 2);
        },
        PayloadModel::Data { fields } => {},
    }
}

} // verus!
