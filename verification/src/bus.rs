//! The in-memory publish/subscribe bus: one broadcast channel per bus channel, with
//! the bookkeeping behind the status endpoints. SQLite is the source of truth; the
//! bus is the real-time fan-out layer.
use std::sync::Arc;
use tokio::sync::broadcast::error::SendError;
use tokio::sync::broadcast::{Receiver, Sender};
use tokio::sync::broadcast::error::TryRecvError;
use dashmap::DashMap;
use vstd::prelude::*;
use vstd::string::*;
use crate::time::Timestamp;
use crate::types::{all_channels, CnsMessage, Channel};

verus! {

/// Capacity of each channel's broadcast buffer. Messages beyond it are dropped for
/// slow subscribers, who can replay them from the store.
pub const CHANNEL_CAPACITY: usize = 256;

#[verifier::external_type_specification]
#[verifier::external_body]
#[verifier::reject_recursive_types(T)]
pub struct ExSender<T>(Sender<T>);

#[verifier::external_type_specification]
#[verifier::external_body]
#[verifier::reject_recursive_types(T)]
pub struct ExReceiver<T>(Receiver<T>);

#[verifier::external_type_specification]
#[verifier::external_body]
#[verifier::reject_recursive_types(T)]
pub struct ExSendError<T>(SendError<T>);

/// The sending half of a new broadcast channel of this capacity, made by tokio's
/// `broadcast::channel` (which panics on a capacity of 0 or above `usize::MAX / 2`).
/// The receiving half that comes with it is dropped at once.
#[verifier::external_body]
fn open_broadcast(capacity: usize) -> Sender<Arc<CnsMessage>>
    requires
        0 < capacity <= usize::MAX / 2,
{
    tokio::sync::broadcast::channel(capacity).0
}

/// How many receivers a send reached: the count tokio reports, or 0 when the channel
/// had none.
pub fn delivered_count(sent: &Result<usize, SendError<Arc<CnsMessage>>>) -> (n: usize)
    ensures
        n == match sent {
            Ok(k) => *k,
            Err(_) => 0,
        },
{
    match sent {
        Ok(k) => *k,
        Err(_) => 0,
    }
}

/// Per-channel figures reported by the status endpoints.
#[derive(Debug)]
pub struct ChannelInfo {
    pub channel: String,
    pub subscribers: usize,
    pub messages_published: u64,
}

/// What a subscriber's receiver came to on one try.
pub enum Arrival {
    /// A message sent on the channel.
    Message(Arc<CnsMessage>),
    /// Nothing is there yet.
    Empty,
    /// The receiver fell behind and this many messages were dropped for it.
    Lagged(u64),
    /// The channel's sender is gone.
    Closed,
}

/// Why a subscription has no message to hand out.
#[derive(Debug, PartialEq, Eq)]
pub enum Missing {
    /// No message is waiting yet.
    Empty,
    /// The subscriber fell behind and missed this many messages.
    Lagged(u64),
    /// The channel closed and every message that reached it was handed out.
    Closed,
}

/// What tokio's `Receiver::try_recv` came to, told apart by its variants. Receiving
/// never moves the receiver to another channel.
#[verifier::external_body]
fn try_take(rx: &mut Receiver<Arc<CnsMessage>>) -> (a: Arrival)
    ensures
        receiver_slot(*final(rx)) == receiver_slot(*old(rx)),
{
    match rx.try_recv() {
        Ok(m) => Arrival::Message(m),
        Err(TryRecvError::Empty) => Arrival::Empty,
        Err(TryRecvError::Lagged(n)) => Arrival::Lagged(n),
        Err(TryRecvError::Closed) => Arrival::Closed,
    }
}

/// The rank of a message's priority.
pub open spec fn rank_of(m: Arc<CnsMessage>) -> int {
    m.priority.rank()
}

/// Whether position `i` holds the next message in line: one of the highest priority
/// waiting, and the first of that priority to have arrived.
pub open spec fn next_in_line(w: Seq<Arc<CnsMessage>>, i: int) -> bool {
    &&& 0 <= i < w.len()
    &&& forall|j: int| 0 <= j < w.len() ==> rank_of(#[trigger] w[j]) <= rank_of(w[i])
    &&& forall|j: int| 0 <= j < i ==> rank_of(#[trigger] w[j]) < rank_of(w[i])
}

/// A subscriber of one channel: its receiver, and the messages that reached it and
/// wait to be handed out, highest priority first (critical messages jump the line),
/// in order of arrival within a priority.
pub struct Subscription {
    /// The receiver taken from the channel's sender.
    pub receiver: Receiver<Arc<CnsMessage>>,
    waiting: Vec<Arc<CnsMessage>>,
    missed: u64,
    closed: bool,
}

impl Subscription {
    /// The position of the channel whose sender the receiver was taken from.
    pub closed spec fn source(&self) -> usize {
        receiver_slot(self.receiver)
    }

    /// The messages waiting, in order of arrival.
    pub closed spec fn waiting(&self) -> Seq<Arc<CnsMessage>> {
        self.waiting@
    }

    /// How many messages the subscriber missed and has not been told of yet.
    pub closed spec fn missed(&self) -> u64 {
        self.missed
    }

    /// Whether the channel was seen to close.
    pub closed spec fn is_closed(&self) -> bool {
        self.closed
    }

    /// A subscription over a receiver, with nothing waiting.
    fn over(receiver: Receiver<Arc<CnsMessage>>) -> (sub: Subscription)
        ensures
            sub.source() == receiver_slot(receiver),
            sub.waiting().len() == 0,
            sub.missed() == 0,
            !sub.is_closed(),
    {
        Subscription { receiver, waiting: Vec::new(), missed: 0, closed: false }
    }

    /// Takes in what the receiver came to: a message joins the waiting ones, a lag
    /// adds to the count missed (up to `u64::MAX`), a close is remembered.
    pub fn hold(&mut self, a: Arrival)
        ensures
            final(self).source() == old(self).source(),
            final(self).waiting() == match a {
                Arrival::Message(m) => old(self).waiting().push(m),
                _ => old(self).waiting(),
            },
            final(self).missed() == match a {
                Arrival::Lagged(n) => if old(self).missed() + n <= u64::MAX {
                    (old(self).missed() + n) as u64
                } else {
                    u64::MAX
                },
                _ => old(self).missed(),
            },
            final(self).is_closed() == (old(self).is_closed() || a is Closed),
    {
        match a {
            Arrival::Message(m) => self.waiting.push(m),
            Arrival::Empty => {},
            Arrival::Lagged(n) => {
                if n <= u64::MAX - self.missed {
                    self.missed = self.missed + n;
                } else {
                    self.missed = u64::MAX;
                }
            },
            Arrival::Closed => self.closed = true,
        }
    }

    /// Hands out the next message in line (see `next_in_line`), if any waits.
    pub fn take_next(&mut self) -> (r: Option<Arc<CnsMessage>>)
        ensures
            final(self).source() == old(self).source(),
            final(self).missed() == old(self).missed(),
            final(self).is_closed() == old(self).is_closed(),
            match r {
                None => old(self).waiting().len() == 0 && final(self).waiting() == old(self).waiting(),
                Some(m) => exists|i: int|
                    next_in_line(old(self).waiting(), i) && m == old(self).waiting()[i]
                        && final(self).waiting() == old(self).waiting().remove(i),
            },
    {
        let len = self.waiting.len();
        if len == 0 {
            return None;
        }
        let mut best: usize = 0;
        let mut k: usize = 1;
        while k < len
            invariant
                1 <= k <= len,
                len == self.waiting@.len(),
                self.waiting@ == old(self).waiting@,
                self.missed == old(self).missed,
                self.closed == old(self).closed,
                self.receiver == old(self).receiver,
                best < k,
                forall|j: int| 0 <= j < k ==> rank_of(#[trigger] self.waiting@[j]) <= rank_of(
                    self.waiting@[best as int],
                ),
                forall|j: int| 0 <= j < best ==> rank_of(#[trigger] self.waiting@[j]) < rank_of(
                    self.waiting@[best as int],
                ),
            decreases len - k,
        {
            if self.waiting[k].priority.level() > self.waiting[best].priority.level() {
                best = k;
            }
            k = k + 1;
        }
        let ghost before = self.waiting@;
        let m = self.waiting.remove(best);
        assert(next_in_line(before, best as int));
        assert(m == before[best as int] && self.waiting@ == before.remove(best as int));
        assert(before == old(self).waiting());
        assert(self.waiting() == self.waiting@);
        assert(exists|i: int|
            next_in_line(old(self).waiting(), i) && m == old(self).waiting()[i]
                && self.waiting() == old(self).waiting().remove(i));
        Some(m)
    }

    /// Takes in every message that has reached the receiver (up to the channel's
    /// capacity at a time), then hands out: first a lag not yet told of; else the
    /// next message in line among all waiting; else `Closed` once the channel closed,
    /// or `Empty`.
    pub fn try_recv(&mut self) -> (r: Result<Arc<CnsMessage>, Missing>)
        ensures
            final(self).source() == old(self).source(),
            match r {
                Ok(m) => final(self).missed() == 0 && exists|w: Seq<Arc<CnsMessage>>, i: int|
                    old(self).waiting().is_prefix_of(w) && next_in_line(w, i) && m == w[i]
                        && final(self).waiting() == w.remove(i),
                Err(Missing::Lagged(n)) => n > 0 && final(self).missed() == 0
                    && old(self).waiting().is_prefix_of(final(self).waiting()),
                Err(Missing::Empty) => final(self).waiting().len() == 0 && final(self).missed() == 0
                    && !final(self).is_closed(),
                Err(Missing::Closed) => final(self).waiting().len() == 0 && final(self).missed() == 0
                    && final(self).is_closed(),
            },
    {
        let ghost start = self.waiting@;
        let mut k: usize = 0;
        let mut more = true;
        while more && k < CHANNEL_CAPACITY
            invariant
                k <= CHANNEL_CAPACITY,
                self.source() == old(self).source(),
                start.is_prefix_of(self.waiting@),
                start == old(self).waiting(),
            decreases CHANNEL_CAPACITY - k,
        {
            let a = try_take(&mut self.receiver);
            more = match a {
                Arrival::Message(_) | Arrival::Lagged(_) => true,
                _ => false,
            };
            self.hold(a);
            k = k + 1;
        }
        if self.missed > 0 {
            let n = self.missed;
            self.missed = 0;
            return Err(Missing::Lagged(n));
        }
        let ghost w = self.waiting@;
        match self.take_next() {
            Some(m) => Ok(m),
            None => if self.closed {
                Err(Missing::Closed)
            } else {
                Err(Missing::Empty)
            },
        }
    }
}

#[verifier::external_type_specification]
#[verifier::external_body]
#[verifier::reject_recursive_types(K)]
#[verifier::reject_recursive_types(V)]
#[verifier::reject_recursive_types(S)]
pub struct ExDashMap<K, V, S>(DashMap<K, V, S>);

/// The channel positions that a map of senders holds a sender for.
pub uninterp spec fn sender_slots(m: DashMap<usize, Sender<Arc<CnsMessage>>>) -> Set<usize>;

/// The ids of the messages sent through the map's sender at each position, oldest
/// first, since that sender was put there.
pub uninterp spec fn sent_ids(m: DashMap<usize, Sender<Arc<CnsMessage>>>) -> Map<usize, Seq<u128>>;

/// The position of the map's sender that a receiver was taken from.
pub uninterp spec fn receiver_slot(rx: Receiver<Arc<CnsMessage>>) -> usize;

/// What a map of subscriber counts holds: a count for each channel position.
pub uninterp spec fn count_entries(m: DashMap<usize, usize>) -> Map<usize, usize>;

/// What a map of message counts holds: a count for each channel position.
pub uninterp spec fn tally_entries(m: DashMap<usize, u64>) -> Map<usize, u64>;

/// An empty map of senders, made by dashmap's `DashMap::new`.
#[verifier::external_body]
fn new_sender_map() -> (fresh: DashMap<usize, Sender<Arc<CnsMessage>>>)
    ensures
        sender_slots(fresh) == Set::<usize>::empty(),
        sent_ids(fresh).dom() == Set::<usize>::empty(),
{
    DashMap::new()
}

/// An empty map of subscriber counts, made by dashmap's `DashMap::new`.
#[verifier::external_body]
fn new_count_map() -> (fresh: DashMap<usize, usize>)
    ensures
        count_entries(fresh).dom() == Set::<usize>::empty(),
{
    DashMap::new()
}

/// An empty map of message counts, made by dashmap's `DashMap::new`.
#[verifier::external_body]
fn new_tally_map() -> (fresh: DashMap<usize, u64>)
    ensures
        tally_entries(fresh).dom() == Set::<usize>::empty(),
{
    DashMap::new()
}

/// Stores the sender at the position with dashmap's `DashMap::insert` (any sender
/// there before is dropped).
#[verifier::external_body]
fn put_sender(m: &mut DashMap<usize, Sender<Arc<CnsMessage>>>, k: usize, s: Sender<Arc<CnsMessage>>)
    ensures
        sender_slots(*final(m)) == sender_slots(*old(m)).insert(k),
        sent_ids(*final(m)) == sent_ids(*old(m)).insert(k, Seq::<u128>::empty()),
{
    m.insert(k, s);
}

/// Sets the count at the position with dashmap's `DashMap::insert`.
#[verifier::external_body]
fn put_count(m: &mut DashMap<usize, usize>, k: usize, v: usize)
    ensures
        count_entries(*final(m)) == count_entries(*old(m)).insert(k, v),
{
    m.insert(k, v);
}

/// Sets the count at the position with dashmap's `DashMap::insert`.
#[verifier::external_body]
fn put_tally(m: &mut DashMap<usize, u64>, k: usize, v: u64)
    ensures
        tally_entries(*final(m)) == tally_entries(*old(m)).insert(k, v),
{
    m.insert(k, v);
}

/// Sends a message on the sender at the position, if the map holds one: dashmap's
/// `DashMap::get`, then tokio's `Sender::send` on the sender found. The send reaches
/// every live receiver taken from that sender (at least one), or fails when there is
/// none; either way the message counts as sent through that sender.
#[verifier::external_body]
fn send_at(m: &mut DashMap<usize, Sender<Arc<CnsMessage>>>, k: usize, msg: Arc<CnsMessage>) -> (r:
    Option<Result<usize, SendError<Arc<CnsMessage>>>>)
    ensures
        r is Some <==> sender_slots(*old(m)).contains(k),
        sender_slots(*final(m)) == sender_slots(*old(m)),
        sent_ids(*final(m)) == if sender_slots(*old(m)).contains(k) {
            sent_ids(*old(m)).insert(k, sent_ids(*old(m))[k].push(msg.id))
        } else {
            sent_ids(*old(m))
        },
        r matches Some(Ok(n)) ==> n >= 1,
{
    m.get(&k).map(|e| e.value().send(msg))
}

/// The number of live receivers of the sender at the position, if the map holds one:
/// dashmap's `DashMap::get`, then tokio's `Sender::receiver_count`, which depends on
/// receivers held elsewhere and never exceeds `usize::MAX >> 2`.
#[verifier::external_body]
fn receivers_at(m: &DashMap<usize, Sender<Arc<CnsMessage>>>, k: usize) -> (r: Option<usize>)
    ensures
        r is Some <==> sender_slots(*m).contains(k),
        r matches Some(n) ==> n < usize::MAX,
{
    m.get(&k).map(|e| e.value().receiver_count())
}

/// A new receiver of the sender at the position, if the map holds one: dashmap's
/// `DashMap::get`, then tokio's `Sender::subscribe`; the receiver gets the messages
/// sent on that sender after this call. (tokio panics if the sender already has
/// `usize::MAX >> 2` receivers, a count that nothing here bounds.)
#[verifier::external_body]
fn receiver_at(m: &DashMap<usize, Sender<Arc<CnsMessage>>>, k: usize) -> (r: Option<
    Receiver<Arc<CnsMessage>>,
>)
    ensures
        r is Some <==> sender_slots(*m).contains(k),
        r matches Some(rx) ==> receiver_slot(rx) == k,
{
    m.get(&k).map(|e| e.value().subscribe())
}

/// The count at the position, if the map holds one (dashmap's `DashMap::get`).
#[verifier::external_body]
fn count_at(m: &DashMap<usize, usize>, k: usize) -> (r: Option<usize>)
    ensures
        r == count_entries(*m).get(k),
{
    m.get(&k).map(|e| *e.value())
}

/// The count at the position, if the map holds one (dashmap's `DashMap::get`).
#[verifier::external_body]
fn tally_at(m: &DashMap<usize, u64>, k: usize) -> (r: Option<u64>)
    ensures
        r == tally_entries(*m).get(k),
{
    m.get(&k).map(|e| *e.value())
}

pub struct Bus {
    /// One broadcast sender per channel, keyed by the channel's position.
    senders: DashMap<usize, Sender<Arc<CnsMessage>>>,
    /// Subscriber counts, tracked for the status endpoints.
    subscriber_counts: DashMap<usize, usize>,
    /// Messages published since the start.
    total_published: u64,
    /// Messages published per channel since the start.
    per_channel: DashMap<usize, u64>,
    /// When the bus started.
    started_at: Timestamp,
}

impl Bus {
    /// The bus's bookkeeping is in order: a sender, a subscriber count and a message
    /// count for each channel, and the total is the sum of the channel counts.
    pub closed spec fn wf(&self) -> bool {
        &&& forall|i: usize| i < 6 ==> #[trigger] sender_slots(self.senders).contains(i)
        &&& forall|i: usize| i < 6 ==> #[trigger] sent_ids(self.senders).dom().contains(i)
        &&& forall|i: usize| i < 6 ==> #[trigger] count_entries(self.subscriber_counts).dom().contains(i)
        &&& forall|i: usize| i < 6 ==> #[trigger] tally_entries(self.per_channel).dom().contains(i)
        &&& self.total_published == self.tally(0) + self.tally(1) + self.tally(2) + self.tally(3)
            + self.tally(4) + self.tally(5)
    }

    /// The message count at a channel position.
    closed spec fn tally(&self, i: usize) -> u64 {
        tally_entries(self.per_channel)[i]
    }

    /// The ids of the messages sent on the channel's sender, oldest first.
    pub closed spec fn sent_on(&self, c: Channel) -> Seq<u128> {
        sent_ids(self.senders)[c.index() as usize]
    }

    /// The subscriber count recorded for the channel.
    pub closed spec fn subscribers(&self, c: Channel) -> nat {
        count_entries(self.subscriber_counts)[c.index() as usize] as nat
    }

    /// The number of messages published on the channel.
    pub closed spec fn published(&self, c: Channel) -> nat {
        self.tally(c.index() as usize) as nat
    }

    /// The number of messages published on all channels.
    pub closed spec fn total(&self) -> nat {
        self.total_published as nat
    }

    /// When the bus started.
    pub closed spec fn start(&self) -> Timestamp {
        self.started_at
    }

    /// A bus with a broadcast channel for every channel, no subscribers and nothing
    /// published yet, started now.
    pub fn new() -> (b: Bus)
        ensures
            b.wf(),
            b.total() == 0,
            forall|c: Channel| #[trigger] b.subscribers(c) == 0 && b.published(c) == 0,
            forall|c: Channel| #[trigger] b.sent_on(c) == Seq::<u128>::empty(),
    {
        let mut senders = new_sender_map();
        let mut subscriber_counts = new_count_map();
        let mut per_channel = new_tally_map();
        let mut i: usize = 0;
        while i < 6
            invariant
                0 <= i <= 6,
                forall|j: usize| j < i ==> #[trigger] sender_slots(senders).contains(j),
                forall|j: usize| j < i ==> #[trigger] sent_ids(senders).dom().contains(j),
                forall|j: usize| j < i ==> #[trigger] sent_ids(senders)[j] == Seq::<u128>::empty(),
                forall|j: usize| j < i ==> #[trigger] count_entries(subscriber_counts).dom().contains(j),
                forall|j: usize| j < i ==> #[trigger] tally_entries(per_channel).dom().contains(j),
                forall|j: usize| j < i ==> #[trigger] count_entries(subscriber_counts)[j] == 0,
                forall|j: usize| j < i ==> #[trigger] tally_entries(per_channel)[j] == 0,
            decreases 6 - i,
        {
            put_sender(&mut senders, i, open_broadcast(CHANNEL_CAPACITY));
            put_count(&mut subscriber_counts, i, 0);
            put_tally(&mut per_channel, i, 0);
            i = i + 1;
        }
        let b = Bus {
            senders,
            subscriber_counts,
            total_published: 0,
            per_channel,
            started_at: Timestamp::now(),
        };
        assert(b.tally(0) == 0 && b.tally(1) == 0 && b.tally(2) == 0 && b.tally(3) == 0);
        assert(b.tally(4) == 0 && b.tally(5) == 0);
        assert forall|c: Channel| #[trigger] b.subscribers(c) == 0 && b.published(c) == 0 by {
            assert(count_entries(b.subscriber_counts)[c.index() as usize] == 0);
            assert(b.tally(c.index() as usize) == 0);
        }
        assert forall|c: Channel| #[trigger] b.sent_on(c) == Seq::<u128>::empty() by {
            assert(sent_ids(b.senders)[c.index() as usize] == Seq::<u128>::empty());
        }
        b
    }

    /// Subscribes to a channel: a subscription whose receiver is taken from that
    /// channel's sender, so that it gets the messages published on the channel from
    /// now on, and nothing waiting yet. The channel's subscriber count becomes the
    /// number of live receivers the channel had before, plus one (see
    /// `record_subscriber`); nothing else changes.
    pub fn subscribe(&mut self, channel: Channel) -> (rx: Subscription)
        requires
            old(self).wf(),
        ensures
            final(self).wf(),
            rx.source() == channel.index(),
            rx.waiting().len() == 0,
            rx.missed() == 0,
            !rx.is_closed(),
            final(self).subscribers(channel) >= 1,
            forall|c: Channel| c != channel ==> #[trigger] final(self).subscribers(c) == old(self).subscribers(c),
            forall|c: Channel| #[trigger] final(self).published(c) == old(self).published(c),
            forall|c: Channel| #[trigger] final(self).sent_on(c) == old(self).sent_on(c),
            final(self).total() == old(self).total(),
            counts_kept(*old(self), *final(self)),
            final(self).start() == old(self).start(),
    {
        let i = channel.position();
        assert(sender_slots(self.senders).contains(i));
        let live = receivers_at(&self.senders, i).unwrap();
        self.record_subscriber(channel, live);
        assert(sender_slots(self.senders).contains(i));
        let receiver = receiver_at(&self.senders, i).unwrap();
        Subscription::over(receiver)
    }

    /// Records a new subscriber of a channel that had `live` receivers: its count
    /// becomes `live + 1`; nothing else changes.
    pub fn record_subscriber(&mut self, channel: Channel, live: usize)
        requires
            old(self).wf(),
            live < usize::MAX,
        ensures
            final(self).wf(),
            final(self).subscribers(channel) == live + 1,
            forall|c: Channel| c != channel ==> #[trigger] final(self).subscribers(c) == old(self).subscribers(c),
            forall|c: Channel| #[trigger] final(self).published(c) == old(self).published(c),
            final(self).total() == old(self).total(),
            counts_kept(*old(self), *final(self)),
            forall|c: Channel| #[trigger] final(self).sent_on(c) == old(self).sent_on(c),
            final(self).start() == old(self).start(),
    {
        let i = channel.position();
        put_count(&mut self.subscriber_counts, i, live + 1);
        proof {
            lemma_positions_distinct();
        }
    }

    /// Records that a subscriber of the channel left: its count drops by one, unless
    /// it is already zero.
    pub fn unsubscribe(&mut self, channel: &Channel)
        requires
            old(self).wf(),
        ensures
            final(self).wf(),
            final(self).subscribers(*channel) == if old(self).subscribers(*channel) > 0 {
                (old(self).subscribers(*channel) - 1) as nat
            } else {
                0
            },
            forall|c: Channel| c != *channel ==> #[trigger] final(self).subscribers(c) == old(self).subscribers(c),
            forall|c: Channel| #[trigger] final(self).published(c) == old(self).published(c),
            final(self).total() == old(self).total(),
            counts_kept(*old(self), *final(self)),
            forall|c: Channel| #[trigger] final(self).sent_on(c) == old(self).sent_on(c),
            final(self).start() == old(self).start(),
    {
        let i = channel.position();
        assert(count_entries(self.subscriber_counts).dom().contains(i));
        let count = count_at(&self.subscriber_counts, i).unwrap();
        if count > 0 {
            put_count(&mut self.subscriber_counts, i, count - 1);
        }
        proof {
            lemma_positions_distinct();
        }
    }

    /// Publishes a message to every subscriber of its channel, through that channel's
    /// sender and no other, and counts it (on its channel and in the total). Returns how many receivers it was sent to, or 0
    /// when the channel has none (see `delivered_count`); that number depends on the
    /// receivers held elsewhere.
    pub fn publish(&mut self, msg: Arc<CnsMessage>) -> (delivered: usize)
        requires
            old(self).wf(),
            old(self).total() < u64::MAX,
        ensures
            final(self).wf(),
            final(self).total() == old(self).total() + 1,
            final(self).published(msg.channel) == old(self).published(msg.channel) + 1,
            forall|c: Channel|
                c != msg.channel ==> #[trigger] final(self).published(c) == old(self).published(c),
            counts_publish(*old(self), *final(self), msg.channel),
            final(self).sent_on(msg.channel) == old(self).sent_on(msg.channel).push(msg.id),
            forall|c: Channel|
                c != msg.channel ==> #[trigger] final(self).sent_on(c) == old(self).sent_on(c),
            forall|c: Channel| #[trigger] final(self).subscribers(c) == old(self).subscribers(c),
            final(self).start() == old(self).start(),
    {
        let channel = msg.channel;
        let i = channel.position();
        assert(tally_entries(self.per_channel).dom().contains(i));
        assert(sender_slots(self.senders).contains(i));
        let n = tally_at(&self.per_channel, i).unwrap();
        self.total_published = self.total_published + 1;
        put_tally(&mut self.per_channel, i, n + 1);
        proof {
            lemma_positions_distinct();
        }
        let sent = send_at(&mut self.senders, i, msg).unwrap();
        delivered_count(&sent)
    }

    /// The subscriber count recorded for the channel.
    pub fn subscriber_count(&self, channel: &Channel) -> (n: usize)
        requires
            self.wf(),
        ensures
            n == self.subscribers(*channel),
    {
        let i = channel.position();
        assert(count_entries(self.subscriber_counts).dom().contains(i));
        count_at(&self.subscriber_counts, i).unwrap()
    }

    /// The figures of every channel, in the order of `Channel::ALL`.
    pub fn channel_info(&self) -> (info: Vec<ChannelInfo>)
        requires
            self.wf(),
        ensures
            info@.len() == 6,
            forall|i: int|
                0 <= i < 6 ==> {
                    let c = #[trigger] all_channels()[i];
                    &&& info@[i].channel@ == c.name()
                    &&& info@[i].subscribers == self.subscribers(c)
                    &&& info@[i].messages_published == self.published(c)
                },
    {
        let mut info: Vec<ChannelInfo> = Vec::new();
        let mut i: usize = 0;
        while i < 6
            invariant
                0 <= i <= 6,
                self.wf(),
                info@.len() == i,
                forall|j: int|
                    0 <= j < i ==> {
                        let c = #[trigger] all_channels()[j];
                        &&& info@[j].channel@ == c.name()
                        &&& info@[j].subscribers == self.subscribers(c)
                        &&& info@[j].messages_published == self.published(c)
                    },
            decreases 6 - i,
        {
            let c = Channel::at(i);
            assert(tally_entries(self.per_channel).dom().contains(i));
            let published = tally_at(&self.per_channel, i).unwrap();
            info.push(
                ChannelInfo {
                    channel: c.to_string(),
                    subscribers: self.subscriber_count(&c),
                    messages_published: published,
                },
            );
            i = i + 1;
        }
        info
    }

    /// The number of messages published since the start: the sum of the channels'
    /// counts.
    pub fn total_published(&self) -> (n: u64)
        requires
            self.wf(),
        ensures
            n == self.total(),
            n == self.published(Channel::Pulse) + self.published(Channel::Status)
                + self.published(Channel::Creative) + self.published(Channel::Decision)
                + self.published(Channel::FeelTilt) + self.published(Channel::IntentBroadcast),
    {
        self.total_published
    }

    /// When the bus started (for the uptime).
    pub fn started_at(&self) -> (t: Timestamp)
        ensures
            t == self.start(),
    {
        self.started_at
    }
}

/// Distinct channels sit at distinct positions.
proof fn lemma_positions_distinct()
    ensures
        forall|c: Channel, d: Channel| c != d ==> #[trigger] c.index() != #[trigger] d.index(),
        forall|c: Channel| 0 <= #[trigger] c.index() < 6,
{
}

/// One publish on channel `c` between two states of a bus: the count of `c` and the
/// total grow by one, every other channel's count stays.
pub open spec fn counts_publish(before: Bus, after: Bus, c: Channel) -> bool {
    &&& after.total() == before.total() + 1
    &&& after.published(c) == before.published(c) + 1
    &&& forall|d: Channel| d != c ==> #[trigger] after.published(d) == before.published(d)
}

/// A call between two states of a bus that publishes nothing: the counts and the
/// total stay.
pub open spec fn counts_kept(before: Bus, after: Bus) -> bool {
    &&& after.total() == before.total()
    &&& forall|d: Channel| #[trigger] after.published(d) == before.published(d)
}

/// How many of the calls publish (a call that publishes on a channel is that
/// channel; any other call is none).
pub open spec fn publish_calls(calls: Seq<Option<Channel>>) -> nat
    decreases calls.len(),
{
    if calls.len() == 0 {
        0
    } else {
        publish_calls(calls.drop_last()) + if calls.last() is Some {
            1nat
        } else {
            0nat
        }
    }
}

/// How many of the calls publish on channel `c`.
pub open spec fn publish_calls_on(calls: Seq<Option<Channel>>, c: Channel) -> nat
    decreases calls.len(),
{
    if calls.len() == 0 {
        0
    } else {
        publish_calls_on(calls.drop_last(), c) + if calls.last() == Some(c) {
            1nat
        } else {
            0nat
        }
    }
}

/// Over any run of calls on a bus (`Bus::publish`, whose contract gives
/// `counts_publish`, and `subscribe`, `record_subscriber` and `unsubscribe`, whose
/// contracts give `counts_kept`), the total grows by the number of publishes and each
/// channel's count by the publishes on it. From `Bus::new`, where all are zero, the
/// total is the number of messages published.
pub proof fn lemma_counts_over_calls(states: Seq<Bus>, calls: Seq<Option<Channel>>, c: Channel)
    requires
        states.len() == calls.len() + 1,
        forall|i: int|
            0 <= i < calls.len() ==> match #[trigger] calls[i] {
                Some(d) => counts_publish(states[i], states[i + 1], d),
                None => counts_kept(states[i], states[i + 1]),
            },
    ensures
        states.last().total() == states[0].total() + publish_calls(calls),
        states.last().published(c) == states[0].published(c) + publish_calls_on(calls, c),
    decreases calls.len(),
{
    if calls.len() > 0 {
        let n = calls.len() - 1;
        let front = states.drop_last();
        assert forall|i: int| 0 <= i < calls.drop_last().len() implies match #[trigger] calls.drop_last()[i] {
            Some(d) => counts_publish(front[i], front[i + 1], d),
            None => counts_kept(front[i], front[i + 1]),
        } by {
            assert(calls.drop_last()[i] == calls[i]);
        }
        lemma_counts_over_calls(front, calls.drop_last(), c);
        assert(front.last() == states[n]);
        let step = calls[n];
        assert(calls.last() == step);
        match step {
            Some(d) => {
                assert(counts_publish(states[n], states[n + 1], d));
            },
            None => {
                assert(counts_kept(states[n], states[n + 1]));
            },
        }
    }
}

/// Every channel's count grows by the messages published on it, and the total by
/// all of them: the total always equals the sum of the channel counts.
pub proof fn lemma_total_is_sum(bus: &Bus)
    requires
        bus.wf(),
    ensures
        bus.total() == bus.published(Channel::Pulse) + bus.published(Channel::Status)
            + bus.published(Channel::Creative) + bus.published(Channel::Decision)
            + bus.published(Channel::FeelTilt) + bus.published(Channel::IntentBroadcast),
{
}

} // verus!
