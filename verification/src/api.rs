//! The decisions behind the HTTP endpoints: reading requests into messages, the
//! steps of publishing and relaying, and the replies.
use vstd::prelude::*;
use vstd::string::*;
use crate::ids::{id_text, uuid_text};
use crate::json::{decimal, decimal_text, members_view, spec_json_text, Json, JsonNumber, JsonValue};
use crate::types::{
    carries, copy_opt, lemma_priority_name_roundtrip, intensity_member, intensity_of, member, object, opt_view, text_or, uscp_decode, Channel, CnsMessage,
    MessageModel, Payload, PayloadModel, Priority,
};

verus! {

/// How many recent messages a new subscriber is replayed.
pub const HISTORY_REPLAY: usize = 5;

/// How many days messages are kept.
pub const RETENTION_DAYS: u32 = 7;

/// The body of `POST /publish`.
#[derive(Debug)]
pub struct PublishRequest {
    pub channel: String,
    /// Empty when the request gives none.
    pub priority: String,
    pub origin: String,
    pub destination: Option<String>,
    pub payload: JsonValue,
    pub correlation_id: Option<String>,
}

/// The body of `POST /relay`: a raw USCP packet.
#[derive(Debug)]
pub struct RelayRequest {
    pub packet: JsonValue,
}

/// A refused or failed request: the HTTP status and the text of the reply.
#[derive(Debug)]
pub struct ApiError {
    pub status: u16,
    pub message: String,
}

/// The text of the member `key`, or `default`.
fn str_member_or(raw: &JsonValue, key: &str, default: &str) -> (s: String)
    ensures
        s@ == text_or(raw@.get_str(key@), default@),
{
    match raw.get_str(key) {
        Some(s) => s,
        None => String::from_str(default),
    }
}

/// The payload a publish request's JSON gives on a channel. The agent defaults to
/// the request's origin; the other text members default as below. On the creative
/// channel, a payload without a string `content` is kept whole as its JSON text.
pub open spec fn payload_from_json(channel: Channel, origin: Seq<char>, raw: Json) -> PayloadModel {
    match channel {
        Channel::Pulse => PayloadModel::Pulse {
            agent_id: text_or(raw.get_str("agent_id"@), origin),
            status: text_or(raw.get_str("status"@), "alive"@),
        },
        Channel::Status => PayloadModel::Status {
            agent_id: text_or(raw.get_str("agent_id"@), origin),
            state: text_or(raw.get_str("state"@), "unknown"@),
            metrics: raw.get("metrics"@),
        },
        Channel::Creative => PayloadModel::Text {
            content: text_or(raw.get_str("content"@), spec_json_text(raw)),
        },
        Channel::Decision => PayloadModel::Decision {
            agent_id: text_or(raw.get_str("agent_id"@), origin),
            summary: text_or(raw.get_str("summary"@), ""@),
            rationale: text_or(raw.get_str("rationale"@), ""@),
        },
        Channel::FeelTilt => PayloadModel::FeelTilt {
            agent_id: text_or(raw.get_str("agent_id"@), origin),
            mood: text_or(raw.get_str("mood"@), "neutral"@),
            intensity: intensity_of(raw),
        },
        Channel::IntentBroadcast => PayloadModel::Intent {
            agent_id: text_or(raw.get_str("agent_id"@), origin),
            action: text_or(raw.get_str("action"@), ""@),
            target: raw.get_str("target"@),
        },
    }
}

/// Reads a request's JSON payload as the typed payload of the channel (see
/// `payload_from_json`).
pub fn parse_payload_from_json(channel: &Channel, origin: &str, raw: &JsonValue) -> (p: Payload)
    ensures
        p@ == payload_from_json(*channel, origin@, raw@),
{
    match channel {
        Channel::Pulse => Payload::Pulse {
            agent_id: str_member_or(raw, "agent_id", origin),
            status: str_member_or(raw, "status", "alive"),
        },
        Channel::Status => Payload::Status {
            agent_id: str_member_or(raw, "agent_id", origin),
            state: str_member_or(raw, "state", "unknown"),
            metrics: raw.get_cloned("metrics"),
        },
        Channel::Creative => match raw.get_str("content") {
            Some(content) => Payload::Text { content },
            None => Payload::Text { content: raw.to_text() },
        },
        Channel::Decision => Payload::Decision {
            agent_id: str_member_or(raw, "agent_id", origin),
            summary: str_member_or(raw, "summary", ""),
            rationale: str_member_or(raw, "rationale", ""),
        },
        Channel::FeelTilt => Payload::FeelTilt {
            agent_id: str_member_or(raw, "agent_id", origin),
            mood: str_member_or(raw, "mood", "neutral"),
            intensity: intensity_member(raw),
        },
        Channel::IntentBroadcast => Payload::Intent {
            agent_id: str_member_or(raw, "agent_id", origin),
            action: str_member_or(raw, "action", ""),
            target: raw.get_str("target"),
        },
    }
}

/// What a channel named in a request is read as: the channel, or the reply `400
/// unknown channel: ...` (the prefix, then the parse error's own message).
pub open spec fn channel_check(text: Seq<char>) -> Result<Channel, (u16, Seq<char>)> {
    match Channel::parse_spec(text) {
        Ok(c) => Ok(c),
        Err(u) => Err((400u16, "unknown channel: "@ + "unknown channel: "@ + u)),
    }
}

/// Reads the channel a request names (see `channel_check`).
pub fn parse_channel_param(text: &str) -> (r: Result<Channel, ApiError>)
    ensures
        match (r, channel_check(text@)) {
            (Ok(c), Ok(d)) => c == d,
            (Err(e), Err((status, message))) => e.status == status && e.message@ == message,
            _ => false,
        },
{
    match Channel::parse(text) {
        Ok(c) => Ok(c),
        Err(e) => {
            let mut message = String::from_str("unknown channel: ");
            message.append(e.message().as_str());
            Err(ApiError { status: 400, message })
        },
    }
}

/// What a publish request is read as: its channel (or the reply `400 unknown
/// channel: ...`), then its priority, `Normal` when empty (or the reply `400 unknown
/// priority: ...`). The texts repeat the parse error's own message after the prefix.
pub open spec fn publish_check(channel: Seq<char>, priority: Seq<char>) -> Result<
    (Channel, Priority),
    (u16, Seq<char>),
> {
    match channel_check(channel) {
        Err(e) => Err(e),
        Ok(c) => if priority.len() == 0 {
            Ok((c, Priority::Normal))
        } else {
            match Priority::parse_spec(priority) {
                Ok(p) => Ok((c, p)),
                Err(u) => Err((400u16, "unknown priority: "@ + "unknown priority: "@ + u)),
            }
        },
    }
}

/// Reads a publish request as a new message (fresh id, current time) with the
/// request's channel, priority, origin, destination, correlation id and payload; or
/// the reply that refuses it (see `publish_check`).
pub fn prepare_publish(req: &PublishRequest) -> (r: Result<CnsMessage, ApiError>)
    ensures
        match (r, publish_check(req.channel@, req.priority@)) {
            (Ok(m), Ok((c, p))) => {
                &&& m.channel == c
                &&& m.priority == p
                &&& m.origin@ == req.origin@
                &&& opt_view(m.destination) == opt_view(req.destination)
                &&& opt_view(m.correlation_id) == opt_view(req.correlation_id)
                &&& m.payload@ == payload_from_json(c, req.origin@, req.payload@)
            },
            (Err(e), Err((status, text))) => e.status == status && e.message@ == text,
            _ => false,
        },
{
    let channel = match parse_channel_param(req.channel.as_str()) {
        Ok(c) => c,
        Err(e) => return Err(e),
    };
    let priority = if req.priority.as_str().is_empty() {
        Priority::Normal
    } else {
        match Priority::parse(req.priority.as_str()) {
            Ok(p) => p,
            Err(e) => {
                let mut message = String::from_str("unknown priority: ");
                message.append(e.message().as_str());
                return Err(ApiError { status: 400, message });
            },
        }
    };
    let payload = parse_payload_from_json(&channel, req.origin.as_str(), &req.payload);
    let mut msg = CnsMessage::new(channel, priority, req.origin.as_str(), payload);
    msg.destination = copy_opt(&req.destination);
    msg.correlation_id = copy_opt(&req.correlation_id);
    Ok(msg)
}

/// Reads a relay request's packet as a message (see `CnsMessage::from_uscp`), or
/// the reply `400 could not parse USCP packet`.
pub fn prepare_relay(req: &RelayRequest) -> (r: Result<CnsMessage, ApiError>)
    ensures
        match (r, uscp_decode(req.packet@)) {
            (Ok(m), Some(f)) => carries(m@, f),
            (Err(e), None) => e.status == 400 && e.message@ == "could not parse USCP packet"@,
            _ => false,
        },
{
    match CnsMessage::from_uscp(&req.packet) {
        Some(m) => Ok(m),
        None => Err(
            ApiError { status: 400, message: String::from_str("could not parse USCP packet") },
        ),
    }
}

/// A publish request is read by its own channel and priority: a priority text that
/// names a priority (in any case `Priority::parse` reads) gives that priority, in
/// particular each priority's own name; only an empty priority gives NORMAL; any
/// other text, or an unknown channel, is refused with 400.
pub proof fn lemma_publish_reads_priority(channel: Seq<char>, priority: Seq<char>, c: Channel, p: Priority)
    ensures
        Channel::parse_spec(channel) == Ok::<Channel, Seq<char>>(c) && priority.len() > 0
            && Priority::parse_spec(priority) == Ok::<Priority, Seq<char>>(p) ==> publish_check(
            channel,
            priority,
        ) == Ok::<(Channel, Priority), (u16, Seq<char>)>((c, p)),
        Channel::parse_spec(channel) == Ok::<Channel, Seq<char>>(c) ==> publish_check(channel, p.name())
            == Ok::<(Channel, Priority), (u16, Seq<char>)>((c, p)),
        Channel::parse_spec(channel) == Ok::<Channel, Seq<char>>(c) && priority.len() == 0
            ==> publish_check(channel, priority) == Ok::<(Channel, Priority), (u16, Seq<char>)>(
            (c, Priority::Normal),
        ),
        Channel::parse_spec(channel) is Ok && priority.len() > 0 && Priority::parse_spec(priority) is Err
            ==> (publish_check(channel, priority) matches Err((status, _)) && status == 400),
        Channel::parse_spec(channel) is Err ==> (publish_check(channel, priority) matches Err((status, _))
            && status == 400),
{
    lemma_priority_name_roundtrip(p);
    reveal_strlit("LOW");
    reveal_strlit("NORMAL");
    reveal_strlit("HIGH");
    reveal_strlit("CRITICAL");
    assert(p.name().len() > 0);
}

/// A publish request's payload keeps the members it gives: on every channel a text
/// member given as a string is taken as it is (the agent as `agent_id`), and only a
/// member that is missing or not a string takes its default (the agent defaults to
/// the request's origin).
pub proof fn lemma_payload_keeps_given_members(channel: Channel, origin: Seq<char>, raw: Json)
    ensures
        ({
            let given = |k: Seq<char>, default: Seq<char>|
                match raw.get_str(k) {
                    Some(v) => v,
                    None => default,
                };
            match payload_from_json(channel, origin, raw) {
                PayloadModel::Pulse { agent_id, status } => channel == Channel::Pulse && agent_id
                    == given("agent_id"@, origin) && status == given("status"@, "alive"@),
                PayloadModel::Status { agent_id, state, metrics } => channel == Channel::Status
                    && agent_id == given("agent_id"@, origin) && state == given("state"@, "unknown"@)
                    && metrics == raw.get("metrics"@),
                PayloadModel::Text { content } => channel == Channel::Creative && (raw.get_str(
                    "content"@,
                ) matches Some(v) ==> content == v),
                PayloadModel::Decision { agent_id, summary, rationale } => channel == Channel::Decision
                    && agent_id == given("agent_id"@, origin) && summary == given("summary"@, ""@)
                    && rationale == given("rationale"@, ""@),
                PayloadModel::FeelTilt { agent_id, mood, intensity } => channel == Channel::FeelTilt
                    && agent_id == given("agent_id"@, origin) && mood == given("mood"@, "neutral"@),
                PayloadModel::Intent { agent_id, action, target } => channel
                    == Channel::IntentBroadcast && agent_id == given("agent_id"@, origin) && action
                    == given("action"@, ""@) && target == raw.get_str("target"@),
                PayloadModel::Data { .. } => false,
            }
        }),
{
}

/// The endpoint a message came in through.
#[derive(Debug, Clone, Copy, PartialEq, Eq, Structural)]
pub enum Route {
    /// `POST /publish`: a failed write to the Hermes inbox is only logged.
    Publish,
    /// `POST /relay`: a failed write to the Hermes inbox fails the request.
    Relay,
}

/// How far the handling of a message has come.
#[derive(Debug, Clone, Copy, PartialEq, Eq, Structural)]
pub enum Stage {
    Storing,
    WritingInbox,
    Publishing,
    Done,
}

/// What the outside world reports back after performing an action.
#[derive(Debug)]
pub enum Event {
    /// The store answered: the sequence number, or the error's text.
    Stored(Result<i64, String>),
    /// The write to the Hermes inbox ended: done, or the error's text.
    InboxWritten(Result<(), String>),
    /// The message went out on the bus to this many receivers.
    Published(usize),
}

/// A reply to the HTTP request.
#[derive(Debug)]
pub enum Reply {
    Json(u16, JsonValue),
    Text(u16, String),
}

/// What to do next.
#[derive(Debug)]
pub enum Action {
    /// Store the message.
    Store,
    /// Write the message to the Hermes inbox.
    WriteInbox,
    /// Publish the message on the bus.
    Publish,
    /// Answer the request; the handling is over.
    Respond(Reply),
    /// The event does not belong to this stage: nothing to do.
    Ignore,
}

pub enum EventModel {
    Stored(Result<i64, Seq<char>>),
    InboxWritten(Result<(), Seq<char>>),
    Published(usize),
}

pub enum ReplyModel {
    Json(u16, Json),
    Text(u16, Seq<char>),
}

pub enum ActionModel {
    Store,
    WriteInbox,
    Publish,
    Respond(ReplyModel),
    Ignore,
}

impl View for Event {
    type V = EventModel;

    open spec fn view(&self) -> EventModel {
        match *self {
            Event::Stored(Ok(seq)) => EventModel::Stored(Ok(seq)),
            Event::Stored(Err(e)) => EventModel::Stored(Err(e@)),
            Event::InboxWritten(Ok(())) => EventModel::InboxWritten(Ok(())),
            Event::InboxWritten(Err(e)) => EventModel::InboxWritten(Err(e@)),
            Event::Published(n) => EventModel::Published(n),
        }
    }
}

impl View for Reply {
    type V = ReplyModel;

    open spec fn view(&self) -> ReplyModel {
        match *self {
            Reply::Json(status, body) => ReplyModel::Json(status, body@),
            Reply::Text(status, text) => ReplyModel::Text(status, text@),
        }
    }
}

impl View for Action {
    type V = ActionModel;

    open spec fn view(&self) -> ActionModel {
        match *self {
            Action::Store => ActionModel::Store,
            Action::WriteInbox => ActionModel::WriteInbox,
            Action::Publish => ActionModel::Publish,
            Action::Respond(r) => ActionModel::Respond(r@),
            Action::Ignore => ActionModel::Ignore,
        }
    }
}

/// The reply to a message published through `POST /publish`.
pub open spec fn published_reply(m: MessageModel, delivered: nat) -> Json {
    Json::Object(
        seq![
            ("status"@, Json::Str("published"@)),
            ("id"@, Json::Str(uuid_text(m.id))),
            ("channel"@, Json::Str(m.channel.name())),
            ("priority"@, Json::Str(m.priority.name())),
            ("delivered_to"@, Json::Number(decimal(delivered))),
        ],
    )
}

/// The reply to a packet relayed through `POST /relay`.
pub open spec fn relayed_reply(m: MessageModel, delivered: nat) -> Json {
    Json::Object(
        seq![
            ("status"@, Json::Str("relayed"@)),
            ("id"@, Json::Str(uuid_text(m.id))),
            ("channel"@, Json::Str(m.channel.name())),
            ("delivered_to"@, Json::Number(decimal(delivered))),
        ],
    )
}

/// The next stage and action of a message's handling, given the event: store, then
/// write to the Hermes inbox, then publish, then reply. A store error ends it with
/// `500 store error: ...`; an inbox error ends a relay with `500 inbox write
/// error: ...` and does not stop a publish. An event that does not belong to the
/// stage changes nothing.
pub open spec fn next(route: Route, stage: Stage, m: MessageModel, ev: EventModel) -> (
    Stage,
    ActionModel,
) {
    match (stage, ev) {
        (Stage::Storing, EventModel::Stored(Ok(_))) => (Stage::WritingInbox, ActionModel::WriteInbox),
        (Stage::Storing, EventModel::Stored(Err(e))) => (
            Stage::Done,
            ActionModel::Respond(ReplyModel::Text(500, "store error: "@ + e)),
        ),
        (Stage::WritingInbox, EventModel::InboxWritten(Ok(()))) => (
            Stage::Publishing,
            ActionModel::Publish,
        ),
        (Stage::WritingInbox, EventModel::InboxWritten(Err(e))) => match route {
            Route::Publish => (Stage::Publishing, ActionModel::Publish),
            Route::Relay => (
                Stage::Done,
                ActionModel::Respond(ReplyModel::Text(500, "inbox write error: "@ + e)),
            ),
        },
        (Stage::Publishing, EventModel::Published(n)) => (
            Stage::Done,
            ActionModel::Respond(
                ReplyModel::Json(
                    200,
                    match route {
                        Route::Publish => published_reply(m, n as nat),
                        Route::Relay => relayed_reply(m, n as nat),
                    },
                ),
            ),
        ),
        _ => (stage, ActionModel::Ignore),
    }
}

/// The handling of one message that a request brought in.
pub struct Flow {
    route: Route,
    stage: Stage,
    message: CnsMessage,
}

impl Flow {
    pub closed spec fn route(&self) -> Route {
        self.route
    }

    pub closed spec fn stage_spec(&self) -> Stage {
        self.stage
    }

    pub closed spec fn message_spec(&self) -> MessageModel {
        self.message@
    }

    /// Starts handling a message: first, store it.
    pub fn start(route: Route, message: CnsMessage) -> (r: (Flow, Action))
        ensures
            r.0.route() == route,
            r.0.stage_spec() == Stage::Storing,
            r.0.message_spec() == message@,
            r.1@ == ActionModel::Store,
    {
        (Flow { route, stage: Stage::Storing, message }, Action::Store)
    }

    /// The message being handled.
    pub fn message(&self) -> (m: &CnsMessage)
        ensures
            m@ == self.message_spec(),
    {
        &self.message
    }

    pub fn stage(&self) -> (s: Stage)
        ensures
            s == self.stage_spec(),
    {
        self.stage
    }

    /// Takes in what the last action came to, and says what to do next (see `next`).
    pub fn step(&mut self, ev: Event) -> (a: Action)
        ensures
            final(self).route() == old(self).route(),
            final(self).message_spec() == old(self).message_spec(),
            (final(self).stage_spec(), a@) == next(
                old(self).route(),
                old(self).stage_spec(),
                old(self).message_spec(),
                ev@,
            ),
    {
        match (self.stage, ev) {
            (Stage::Storing, Event::Stored(Ok(_))) => {
                self.stage = Stage::WritingInbox;
                Action::WriteInbox
            },
            (Stage::Storing, Event::Stored(Err(e))) => {
                self.stage = Stage::Done;
                let mut text = String::from_str("store error: ");
                text.append(e.as_str());
                Action::Respond(Reply::Text(500, text))
            },
            (Stage::WritingInbox, Event::InboxWritten(Ok(()))) => {
                self.stage = Stage::Publishing;
                Action::Publish
            },
            (Stage::WritingInbox, Event::InboxWritten(Err(e))) => match self.route {
                Route::Publish => {
                    self.stage = Stage::Publishing;
                    Action::Publish
                },
                Route::Relay => {
                    self.stage = Stage::Done;
                    let mut text = String::from_str("inbox write error: ");
                    text.append(e.as_str());
                    Action::Respond(Reply::Text(500, text))
                },
            },
            (Stage::Publishing, Event::Published(n)) => {
                self.stage = Stage::Done;
                let body = match self.route {
                    Route::Publish => published_reply_json(&self.message, n),
                    Route::Relay => relayed_reply_json(&self.message, n),
                };
                Action::Respond(Reply::Json(200, body))
            },
            (_, _) => Action::Ignore,
        }
    }
}

/// The reply to a message published through `POST /publish` (see
/// `published_reply`).
pub fn published_reply_json(m: &CnsMessage, delivered: usize) -> (r: JsonValue)
    ensures
        r@ == published_reply(m@, delivered as nat),
{
    let mut v: Vec<(String, JsonValue)> = Vec::new();
    v.push(member("status", JsonValue::from_str("published")));
    v.push(member("id", JsonValue::String(id_text(m.id))));
    v.push(member("channel", JsonValue::from_str(m.channel.as_str())));
    v.push(member("priority", JsonValue::from_str(m.priority.as_str())));
    v.push(member("delivered_to", JsonValue::Number(JsonNumber::from_u64(delivered as u64))));
    assert(members_view(v@) =~= seq![
        ("status"@, Json::Str("published"@)),
        ("id"@, Json::Str(uuid_text(m.id))),
        ("channel"@, Json::Str(m.channel.name())),
        ("priority"@, Json::Str(m.priority.name())),
        ("delivered_to"@, Json::Number(decimal(delivered as nat))),
    ]);
    object(v)
}

/// The reply to a packet relayed through `POST /relay` (see `relayed_reply`).
pub fn relayed_reply_json(m: &CnsMessage, delivered: usize) -> (r: JsonValue)
    ensures
        r@ == relayed_reply(m@, delivered as nat),
{
    let mut v: Vec<(String, JsonValue)> = Vec::new();
    v.push(member("status", JsonValue::from_str("relayed")));
    v.push(member("id", JsonValue::String(id_text(m.id))));
    v.push(member("channel", JsonValue::from_str(m.channel.as_str())));
    v.push(member("delivered_to", JsonValue::Number(JsonNumber::from_u64(delivered as u64))));
    assert(members_view(v@) =~= seq![
        ("status"@, Json::Str("relayed"@)),
        ("id"@, Json::Str(uuid_text(m.id))),
        ("channel"@, Json::Str(m.channel.name())),
        ("delivered_to"@, Json::Number(decimal(delivered as nat))),
    ]);
    object(v)
}

/// A message reaches the bus only once it was stored: the handling moves on to the
/// Hermes inbox, and from there to publishing, only after the store succeeded.
pub proof fn lemma_publish_only_after_store(route: Route, stage: Stage, m: MessageModel, ev: EventModel)
    ensures
        next(route, stage, m, ev).0 == Stage::WritingInbox && stage != Stage::WritingInbox ==> stage
            == Stage::Storing && ev matches EventModel::Stored(Ok(_)),
        next(route, stage, m, ev).0 == Stage::Publishing ==> stage == Stage::WritingInbox
            || stage == Stage::Publishing,
        next(route, stage, m, ev).1 is Publish ==> stage == Stage::WritingInbox,
{
}

/// A failed write to the Hermes inbox does not change what a publish comes to.
pub proof fn lemma_publish_ignores_inbox_errors(m: MessageModel, e: Seq<char>)
    ensures
        next(Route::Publish, Stage::WritingInbox, m, EventModel::InboxWritten(Err(e))) == next(
            Route::Publish,
            Stage::WritingInbox,
            m,
            EventModel::InboxWritten(Ok(())),
        ),
{
}

/// Each handling replies once: a reply ends it, and once ended, no event leads to
/// another action.
pub proof fn lemma_one_reply(route: Route, stage: Stage, m: MessageModel, ev: EventModel)
    ensures
        next(route, stage, m, ev).1 is Respond ==> next(route, stage, m, ev).0 == Stage::Done,
        stage == Stage::Done ==> next(route, stage, m, ev) == (Stage::Done, ActionModel::Ignore),
{
}

/// The data of the `ready` event a subscriber gets after its replay:
/// `{"channel":"<name>","replayed":<count>}`.
pub open spec fn ready_data(channel: Channel, replayed: nat) -> Seq<char> {
    "{\"channel\":\""@ + channel.name() + "\",\"replayed\":"@ + decimal(replayed) + "}"@
}

/// The data of the `lagged` event: `{"missed":<count>}`.
pub open spec fn lagged_data(missed: nat) -> Seq<char> {
    "{\"missed\":"@ + decimal(missed) + "}"@
}

/// What a subscriber's receiver came to.
#[derive(Debug)]
pub enum Delivery {
    /// A message, as its JSON text.
    Message(String),
    /// The subscriber fell behind and missed this many messages.
    Lagged(u64),
    /// The channel closed.
    Closed,
}

/// An event of a subscriber's stream: its name and data, and whether it ends the
/// stream.
#[derive(Debug)]
pub struct StreamEvent {
    pub name: String,
    pub data: String,
    pub last: bool,
}

/// The `ready` event after a replay of `replayed` messages (see `ready_data`).
pub fn ready_event(channel: Channel, replayed: usize) -> (e: StreamEvent)
    ensures
        e.name@ == "ready"@,
        e.data@ == ready_data(channel, replayed as nat),
        !e.last,
{
    let mut data = String::from_str("{\"channel\":\"");
    data.append(channel.as_str());
    data.append("\",\"replayed\":");
    data.append(decimal_text(replayed as u64).as_str());
    data.append("}");
    StreamEvent { name: String::from_str("ready"), data, last: false }
}

/// The stream event for what the receiver came to: a `message` event with the
/// message's JSON; a `lagged` event with the count missed; or a last `closed` event
/// with data `{}`.
pub fn stream_event(d: Delivery) -> (e: StreamEvent)
    ensures
        match d {
            Delivery::Message(json) => e.name@ == "message"@ && e.data@ == json@ && !e.last,
            Delivery::Lagged(n) => e.name@ == "lagged"@ && e.data@ == lagged_data(n as nat) && !e.last,
            Delivery::Closed => e.name@ == "closed"@ && e.data@ == "{}"@ && e.last,
        },
{
    match d {
        Delivery::Message(json) => StreamEvent { name: String::from_str("message"), data: json, last: false },
        Delivery::Lagged(n) => {
            let mut data = String::from_str("{\"missed\":");
            data.append(decimal_text(n).as_str());
            data.append("}");
            StreamEvent { name: String::from_str("lagged"), data, last: false }
        },
        Delivery::Closed => StreamEvent {
            name: String::from_str("closed"),
            data: String::from_str("{}"),
            last: true,
        },
    }
}

} // verus!
