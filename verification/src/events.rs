//! The client's event plumbing: the events the network layer reports, the
//! broadcast channel the session republishes them on, and the bootstrap
//! rendezvous that decides when a fresh session is usable.
//!
//! The broadcast channel is modelled explicitly: a log of events with a
//! bounded retention window, and one cursor per subscriber. A slow subscriber
//! misses events rather than blocking the broadcaster, and learns how many it
//! missed.

use vstd::prelude::*;

use crate::address::PeerIdentity;
use crate::error::Error;
use crate::CLOSE_GROUP_SIZE;

verus! {

/// An event the client session publishes to its subscribers.
#[derive(Clone, Copy, Debug, PartialEq, Eq, Structural)]
pub enum ClientEvent {
    /// The client has been connected to the network.
    ConnectedToNetwork,
}

/// An event reported by the network layer.
#[derive(Debug, PartialEq, Eq)]
pub enum NetworkEvent {
    /// A peer sent us a request; clients do not handle requests.
    RequestReceived,
    /// The transport started listening on an address; clients do not listen.
    NewListenAddr,
    /// A peer entered the routing view.
    PeerAdded(PeerIdentity),
}

/// Why a blocking receive yielded no event.
#[derive(Clone, Copy, Debug, PartialEq, Eq, Structural)]
pub enum RecvError {
    /// The channel was closed: no further event will ever arrive.
    Closed,
    /// The receiver fell behind the retention window and missed this many
    /// events.
    Lagged(u64),
}

/// Why a non-blocking receive yielded no event.
#[derive(Clone, Copy, Debug, PartialEq, Eq, Structural)]
pub enum TryRecvError {
    /// No event is pending right now.
    Empty,
    /// The channel was closed and everything retained was already read.
    Closed,
    /// The receiver fell behind the retention window and missed this many
    /// events.
    Lagged(u64),
}

/// How many events a channel retains for slow subscribers by default.
pub const EVENTS_CHANNEL_CAPACITY: usize = 100;

/// The view of a broadcast channel: every event ever broadcast, the retention
/// bound, and whether the sender has closed it.
pub struct ChannelView {
    pub log: Seq<ClientEvent>,
    pub capacity: nat,
    pub closed: bool,
}

/// A multi-subscriber broadcast channel for client events, with a drop policy
/// for laggards: only the `capacity` newest events stay readable.
#[derive(Debug)]
pub struct ClientEventsChannel {
    log: Vec<ClientEvent>,
    capacity: usize,
    closed: bool,
}

/// A subscriber's cursor into the channel: the index of the next event it has
/// not yet seen.
#[derive(Debug)]
pub struct ClientEventsReceiver {
    next: usize,
}

impl View for ClientEventsChannel {
    type V = ChannelView;

    closed spec fn view(&self) -> ChannelView {
        ChannelView { log: self.log@, capacity: self.capacity as nat, closed: self.closed }
    }
}

impl View for ClientEventsReceiver {
    type V = nat;

    closed spec fn view(&self) -> nat {
        self.next as nat
    }
}

/// The oldest log position a channel still retains.
pub open spec fn oldest_retained(c: ChannelView) -> int {
    if c.log.len() > c.capacity {
        c.log.len() - c.capacity
    } else {
        0
    }
}

impl ClientEventsChannel {
    /// A fresh channel retaining up to `capacity` events.
    pub fn new(capacity: usize) -> (c: ClientEventsChannel)
        requires
            capacity >= 1,
        ensures
            c@.log.len() == 0,
            c@.capacity == capacity,
            !c@.closed,
    {
        ClientEventsChannel { log: Vec::new(), capacity, closed: false }
    }

    /// Publish an event to every subscriber. A broadcaster never waits for
    /// slow subscribers: it only appends to the log.
    pub fn broadcast(&mut self, event: ClientEvent)
        ensures
            final(self)@.log == old(self)@.log.push(event),
            final(self)@.capacity == old(self)@.capacity,
            final(self)@.closed == old(self)@.closed,
    {
        self.log.push(event);
    }

    /// Close the channel: subscribers drain what is retained, then see
    /// [`TryRecvError::Closed`].
    pub fn close(&mut self)
        ensures
            final(self)@.log == old(self)@.log,
            final(self)@.capacity == old(self)@.capacity,
            final(self)@.closed,
    {
        self.closed = true;
    }

    /// A new subscriber, seeing only events broadcast from now on.
    pub fn subscribe(&self) -> (r: ClientEventsReceiver)
        ensures
            r@ == self@.log.len(),
    {
        ClientEventsReceiver { next: self.log.len() }
    }
}

impl Default for ClientEventsChannel {
    /// A fresh channel at the default retention bound.
    fn default() -> (c: ClientEventsChannel)
        ensures
            c@.log.len() == 0,
            c@.capacity == EVENTS_CHANNEL_CAPACITY,
            !c@.closed,
    {
        ClientEventsChannel::new(EVENTS_CHANNEL_CAPACITY)
    }
}

impl ClientEventsReceiver {
    /// Read the next event, without blocking. A receiver that fell out of the
    /// retention window is moved forward to the oldest retained event and
    /// told how many it missed, rather than stalling the broadcaster.
    pub fn try_recv(&mut self, channel: &ClientEventsChannel) -> (r: Result<
        ClientEvent,
        TryRecvError,
    >)
        requires
            old(self)@ <= channel@.log.len(),
        ensures
            final(self)@ <= channel@.log.len(),
            old(self)@ < oldest_retained(channel@) ==> r == Err::<ClientEvent, TryRecvError>(
                TryRecvError::Lagged((oldest_retained(channel@) - old(self)@) as u64),
            ) && final(self)@ == oldest_retained(channel@),
            old(self)@ >= oldest_retained(channel@) && old(self)@ == channel@.log.len() ==> r == (
            if channel@.closed {
                Err::<ClientEvent, TryRecvError>(TryRecvError::Closed)
            } else {
                Err::<ClientEvent, TryRecvError>(TryRecvError::Empty)
            }) && final(self)@ == old(self)@,
            old(self)@ >= oldest_retained(channel@) && old(self)@ < channel@.log.len() ==> r
                == Ok::<ClientEvent, TryRecvError>(channel@.log[old(self)@ as int])
                && final(self)@ == old(self)@ + 1,
    {
        let len = channel.log.len();
        let oldest = if len > channel.capacity {
            len - channel.capacity
        } else {
            0
        };
        if self.next < oldest {
            let missed = oldest - self.next;
            self.next = oldest;
            Err(TryRecvError::Lagged(missed as u64))
        } else if self.next == len {
            if channel.closed {
                Err(TryRecvError::Closed)
            } else {
                Err(TryRecvError::Empty)
            }
        } else {
            let event = channel.log[self.next];
            self.next = self.next + 1;
            Ok(event)
        }
    }
}

// ---------------------------------------------------------------------------
// Bootstrap rendezvous
// ---------------------------------------------------------------------------

/// How many distinct connections a fresh session waits for before it is
/// usable: one more than the replication factor, an intentionally generous
/// bound so the first quorum operation does not find too sparse a view.
pub open spec fn required_connections() -> int {
    CLOSE_GROUP_SIZE as int + 1
}

/// Whether one received item reports a connection.
pub open spec fn is_connected_event(r: Result<ClientEvent, RecvError>) -> bool {
    r matches Ok(ClientEvent::ConnectedToNetwork)
}

/// Whether one received item reports the channel closed.
pub open spec fn is_closed_event(r: Result<ClientEvent, RecvError>) -> bool {
    r matches Err(RecvError::Closed)
}

/// How many items of the sequence report a connection.
pub open spec fn connected_events(s: Seq<Result<ClientEvent, RecvError>>) -> int
    decreases s.len(),
{
    if s.len() == 0 {
        0
    } else {
        connected_events(s.drop_last()) + if is_connected_event(s.last()) {
            1int
        } else {
            0int
        }
    }
}

/// The stream up to (and not including) its first closure: nothing after a
/// closure can ever be received.
pub open spec fn until_closed(s: Seq<Result<ClientEvent, RecvError>>) -> Seq<
    Result<ClientEvent, RecvError>,
>
    decreases s.len(),
{
    if s.len() == 0 {
        Seq::<Result<ClientEvent, RecvError>>::empty()
    } else if is_closed_event(s.first()) {
        Seq::<Result<ClientEvent, RecvError>>::empty()
    } else {
        seq![s.first()] + until_closed(s.drop_first())
    }
}

proof fn lemma_connected_take_succ(s: Seq<Result<ClientEvent, RecvError>>, i: int)
    requires
        0 <= i < s.len(),
    ensures
        connected_events(s.take(i + 1)) == connected_events(s.take(i)) + if is_connected_event(
            s[i],
        ) {
            1int
        } else {
            0int
        },
{
    assert(s.take(i + 1).drop_last() =~= s.take(i));
    assert(s.take(i + 1).last() == s[i]);
}

proof fn lemma_connected_monotone(s: Seq<Result<ClientEvent, RecvError>>, i: int, j: int)
    requires
        0 <= i <= j <= s.len(),
    ensures
        connected_events(s.take(i)) <= connected_events(s.take(j)),
    decreases j - i,
{
    if i < j {
        lemma_connected_monotone(s, i, j - 1);
        lemma_connected_take_succ(s, j - 1);
    }
}

proof fn lemma_connected_concat(
    a: Seq<Result<ClientEvent, RecvError>>,
    b: Seq<Result<ClientEvent, RecvError>>,
)
    ensures
        connected_events(a + b) == connected_events(a) + connected_events(b),
    decreases b.len(),
{
    if b.len() == 0 {
        assert(a + b =~= a);
    } else {
        assert((a + b).drop_last() =~= a + b.drop_last());
        assert((a + b).last() == b.last());
        lemma_connected_concat(a, b.drop_last());
    }
}

proof fn lemma_connected_nonneg(s: Seq<Result<ClientEvent, RecvError>>)
    ensures
        0 <= connected_events(s),
    decreases s.len(),
{
    if s.len() > 0 {
        lemma_connected_nonneg(s.drop_last());
    }
}

proof fn lemma_until_closed_split(s: Seq<Result<ClientEvent, RecvError>>, p: int)
    requires
        0 <= p <= s.len(),
        forall|k: int| 0 <= k < p ==> !is_closed_event(s[k]),
    ensures
        until_closed(s) == s.take(p) + until_closed(s.skip(p)),
    decreases p,
{
    if p == 0 {
        assert(s.skip(0) =~= s);
        assert(s.take(0) + until_closed(s) =~= until_closed(s));
    } else {
        assert(!is_closed_event(s.first()));
        lemma_until_closed_split(s.drop_first(), p - 1);
        assert(s.drop_first().take(p - 1) =~= s.take(p).drop_first());
        assert(s.drop_first().skip(p - 1) =~= s.skip(p));
        assert(seq![s.first()] + (s.take(p).drop_first() + until_closed(s.skip(p))) =~= s.take(p)
            + until_closed(s.skip(p)));
    }
}

/// Run the bootstrap rendezvous over the event stream a fresh session
/// received, in arrival order (the vector ends where the stream ended). The
/// session is usable exactly when the connections seen before the stream
/// closed reach the required count; it reads nothing past the connection that
/// crosses the threshold. Lagging reports are tolerated and skipped; a closed
/// stream short of the threshold is a hard bootstrap failure carrying the
/// observed count and the requirement.
pub fn bootstrap_rendezvous(events: &Vec<Result<ClientEvent, RecvError>>) -> (outcome: (
    Result<(), Error>,
    usize,
))
    ensures
        outcome.1 <= events@.len(),
        (outcome.0 is Ok) <==> connected_events(until_closed(events@)) >= required_connections(),
        outcome.0 is Ok ==> connected_events(events@.take(outcome.1 as int))
            == required_connections() && (forall|j: int|
            0 <= j < outcome.1 ==> connected_events(events@.take(j)) < required_connections()),
        outcome.0 is Err ==> outcome.0 == Err::<(), Error>(
            Error::SessionBootstrapFailure {
                connected: connected_events(until_closed(events@)) as usize,
                required: required_connections() as usize,
            },
        ),
{
    let required = CLOSE_GROUP_SIZE + 1;
    let n = events.len();
    let mut connected: usize = 0;
    let mut i: usize = 0;
    while i < n
        invariant
            i <= n,
            n == events@.len(),
            connected <= i,
            required == required_connections(),
            connected == connected_events(events@.take(i as int)),
            connected < required,
            forall|k: int| 0 <= k < i ==> !is_closed_event(events@[k]),
        decreases n - i,
    {
        proof {
            lemma_connected_take_succ(events@, i as int);
        }
        match &events[i] {
            Ok(ClientEvent::ConnectedToNetwork) => {
                connected = connected + 1;
                if connected >= required {
                    proof {
                        lemma_until_closed_split(events@, i + 1);
                        lemma_connected_concat(
                            events@.take(i + 1),
                            until_closed(events@.skip(i + 1)),
                        );
                        lemma_connected_nonneg(until_closed(events@.skip(i + 1)));
                        assert forall|j: int| 0 <= j < i + 1 implies connected_events(
                            events@.take(j),
                        ) < required_connections() by {
                            lemma_connected_monotone(events@, j, i as int);
                        }
                    }
                    return (Ok(()), i + 1);
                }
            },
            Err(RecvError::Closed) => {
                proof {
                    lemma_until_closed_split(events@, i as int);
                    assert(events@.skip(i as int).first() == events@[i as int]);
                    assert(until_closed(events@.skip(i as int)) =~= Seq::<
                        Result<ClientEvent, RecvError>,
                    >::empty());
                    assert(events@.take(i as int) + Seq::<
                        Result<ClientEvent, RecvError>,
                    >::empty() =~= events@.take(i as int));
                }
                return (
                    Err(Error::SessionBootstrapFailure { connected, required }),
                    i + 1,
                );
            },
            Err(RecvError::Lagged(_)) => {},
        }
        i = i + 1;
    }
    proof {
        lemma_until_closed_split(events@, n as int);
        assert(until_closed(events@.skip(n as int)) =~= Seq::<
            Result<ClientEvent, RecvError>,
        >::empty());
        assert(events@.take(n as int) + Seq::<Result<ClientEvent, RecvError>>::empty()
            =~= events@.take(n as int));
        assert(events@.take(n as int) =~= events@);
    }
    (Err(Error::SessionBootstrapFailure { connected, required }), n)
}

} // verus!
