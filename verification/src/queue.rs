//! The bounded queue between the user and the event loop, and the way the
//! loop empties it.

use crate::error::Error;
use crate::eventloop::{handle_request, requested, Request};
use crate::packet::Packet;
use crate::session::{Session, SessionState};
use vstd::prelude::*;

verus! {

/// The requests of the user that the event loop has not taken yet, oldest
/// first. It holds no more than its bound, so that a user who asks faster
/// than the broker answers is told.
#[derive(Debug)]
pub struct RequestQueue {
    items: Vec<Request>,
    bound: usize,
    closed: bool,
}

impl View for RequestQueue {
    type V = Seq<Request>;

    closed spec fn view(&self) -> Seq<Request> {
        self.items@
    }
}

/// What emptying the queue `queue` into the session `s` at `now` comes to:
/// the session afterwards, the requests that stay, and the packets that go
/// out. The requests are taken oldest first, and the first one that has to
/// wait stops the others behind it.
pub open spec fn drained(s: Session, queue: Seq<Request>, now: u64) -> (
    Session,
    Seq<Request>,
    Seq<Packet>,
)
    decreases queue.len(),
{
    if queue.len() == 0 {
        (s, queue, Seq::empty())
    } else {
        match requested(s, queue[0], now).1 {
            Ok(packet) => {
                let then = drained(requested(s, queue[0], now).0, queue.drop_first(), now);
                (then.0, then.1, seq![packet] + then.2)
            },
            Err(_) => (s, queue, Seq::empty()),
        }
    }
}

impl RequestQueue {
    /// The number of requests that the queue admits.
    pub closed spec fn bound(&self) -> nat {
        self.bound as nat
    }

    /// The event loop is gone for good and takes no further request.
    pub closed spec fn is_closed(&self) -> bool {
        self.closed
    }

    /// The bound and the end of the queue are the same in `self` and `other`.
    pub open spec fn same_terms(&self, other: &Self) -> bool {
        self.bound() == other.bound() && self.is_closed() == other.is_closed()
    }

    /// An empty queue that admits `bound` requests.
    pub fn new(bound: usize) -> (r: RequestQueue)
        ensures
            r@ == Seq::<Request>::empty(),
            r.bound() == bound,
            !r.is_closed(),
    {
        RequestQueue { items: Vec::new(), bound, closed: false }
    }

    /// Closes the queue: the event loop has ended and no request is taken
    /// any more. The requests that wait stay where they are.
    pub fn close(&mut self)
        ensures
            final(self).is_closed(),
            final(self).bound() == old(self).bound(),
            final(self)@ == old(self)@,
    {
        self.closed = true;
    }

    /// Whether the queue is closed.
    pub fn closed(&self) -> (r: bool)
        ensures
            r == self.is_closed(),
    {
        self.closed
    }

    /// The number of requests that wait.
    pub fn len(&self) -> (n: usize)
        ensures
            n == self@.len(),
    {
        self.items.len()
    }

    /// What `push` answers to a queue in this state.
    pub open spec fn admits(&self) -> Result<(), Error> {
        if self.is_closed() {
            Err(Error::Closed)
        } else if self@.len() >= self.bound() {
            Err(Error::QueueFull)
        } else {
            Ok(())
        }
    }

    /// Puts `request` behind the requests that wait. Fails with `Closed`
    /// when the queue is closed, and with `QueueFull` when it holds as many
    /// requests as it admits; the queue is then unchanged.
    pub fn push(&mut self, request: Request) -> (r: Result<(), Error>)
        ensures
            final(self).same_terms(old(self)),
            r == old(self).admits(),
            r.is_err() ==> final(self)@ == old(self)@,
            r.is_ok() ==> final(self)@ == old(self)@.push(request),
    {
        if self.closed {
            Err(Error::Closed)
        } else if self.items.len() >= self.bound {
            Err(Error::QueueFull)
        } else {
            self.items.push(request);
            Ok(())
        }
    }

    /// Takes the oldest request.
    pub fn pop(&mut self) -> (r: Option<Request>)
        ensures
            final(self).same_terms(old(self)),
            old(self)@.len() == 0 ==> r.is_none() && final(self)@ == old(self)@,
            old(self)@.len() > 0 ==> r == Some(old(self)@[0]) && final(self)@ == old(
                self,
            )@.drop_first(),
    {
        if self.items.len() == 0 {
            None
        } else {
            let request = self.items.remove(0);
            assert(self.items@ =~= old(self)@.drop_first());
            Some(request)
        }
    }

    /// Empties the queue into the session as far as there is room: turns
    /// the requests into packets, oldest first, and stops at the first one
    /// that has to wait, which stays at the head. The packets come back in
    /// the order of their requests.
    pub fn drain(&mut self, state: &mut SessionState, now: u64) -> (out: Vec<Packet>)
        requires
            old(state).wf(),
        ensures
            final(state).wf(),
            final(self).same_terms(old(self)),
            (final(state)@, final(self)@, out@) == drained(old(state)@, old(self)@, now),
    {
        let mut out: Vec<Packet> = Vec::new();
        while self.items.len() > 0
            invariant
                state.wf(),
                self.same_terms(old(self)),
                drained(old(state)@, old(self)@, now) == (
                    drained(state@, self@, now).0,
                    drained(state@, self@, now).1,
                    out@ + drained(state@, self@, now).2,
                ),
            decreases self.items.len(),
        {
            let ghost before = self@;
            let ghost s = state@;
            let request = self.items.remove(0);
            assert(self@ =~= before.drop_first());
            match handle_request(state, request, now) {
                Ok(packet) => {
                    out.push(packet);
                    assert(out@ + drained(state@, self@, now).2 =~= (out@.drop_last() + (seq![packet]
                        + drained(state@, self@, now).2)));
                },
                Err(request) => {
                    self.items.insert(0, request);
                    assert(self@ =~= before);
                    assert(out@ + Seq::<Packet>::empty() =~= out@);
                    return out;
                },
            }
        }
        assert(out@ + Seq::<Packet>::empty() =~= out@);
        out
    }

    /// Takes a session up again at `now`, after a reconnect: first what was
    /// in flight goes out again, then the requests that wait are taken as
    /// far as there is room.
    pub fn resume(&mut self, state: &mut SessionState, now: u64) -> (out: Vec<Packet>)
        requires
            old(state).wf(),
        ensures
            final(state).wf(),
            final(self).same_terms(old(self)),
            (final(state)@, final(self)@, out@) == resumed(old(state)@, old(self)@, now),
    {
        let mut out = state.replay();
        if out.len() > 0 {
            state.note_outgoing(now);
        }
        let mut fresh = self.drain(state, now);
        out.append(&mut fresh);
        out
    }
}

/// What taking the session `s` up again comes to, with `queue` waiting: the
/// session afterwards, the requests that stay, and the packets that go
/// out, those of the replay before those of the requests.
pub open spec fn resumed(s: Session, queue: Seq<Request>, now: u64) -> (
    Session,
    Seq<Request>,
    Seq<Packet>,
) {
    let kept = if s.in_flight() > 0 {
        s.spoke(now)
    } else {
        s
    };
    (
        drained(kept, queue, now).0,
        drained(kept, queue, now).1,
        s.replay() + drained(kept, queue, now).2,
    )
}

/// The packet `packet` is what the request `request` becomes on the wire:
/// a publication keeps its topic, payload, retain flag and level, and is no
/// duplicate; a subscription and its end keep their topics.
pub open spec fn carries(request: Request, packet: Packet) -> bool {
    match request {
        Request::Publish(message) => {
            &&& packet matches Packet::Publish(publish)
            &&& publish.topic_name == message.topic
            &&& publish.payload == message.payload
            &&& publish.retain == message.retain
            &&& publish.qos.level() == message.qos.level()
            &&& !publish.dup
        },
        Request::Subscribe(topics) => {
            &&& packet matches Packet::Subscribe(subscribe)
            &&& subscribe.topics == topics
        },
        Request::Unsubscribe(filters) => {
            &&& packet matches Packet::Unsubscribe(unsubscribe)
            &&& unsubscribe.topics == filters
        },
        Request::Ping => packet == Packet::Pingreq,
    }
}

/// Order: the packets that a drain sends are the requests at the head of
/// the queue, one packet for each and in the same order; the requests that
/// stay are the rest of the queue, unchanged.
pub proof fn lemma_drain_keeps_order(s: Session, queue: Seq<Request>, now: u64)
    ensures
        drained(s, queue, now).2.len() + drained(s, queue, now).1.len() == queue.len(),
        drained(s, queue, now).1 == queue.skip(drained(s, queue, now).2.len() as int),
        forall|i: int|
            0 <= i < drained(s, queue, now).2.len() ==> carries(
                queue[i],
                #[trigger] drained(s, queue, now).2[i],
            ),
    decreases queue.len(),
{
    if queue.len() == 0 {
        assert(queue.skip(0) =~= queue);
    } else {
        match requested(s, queue[0], now).1 {
            Ok(packet) => {
                let t = requested(s, queue[0], now).0;
                let rest = queue.drop_first();
                lemma_drain_keeps_order(t, rest, now);
                let then = drained(t, rest, now);
                let out = drained(s, queue, now).2;
                assert(out =~= seq![packet] + then.2);
                assert(rest.skip(then.2.len() as int) =~= queue.skip(out.len() as int));
                assert forall|i: int| 0 <= i < out.len() implies carries(
                    queue[i],
                    #[trigger] out[i],
                ) by {
                    if i > 0 {
                        assert(out[i] == then.2[i - 1]);
                        assert(queue[i] == rest[i - 1]);
                    }
                }
            },
            Err(_) => {
                assert(queue.skip(0) =~= queue);
            },
        }
    }
}

/// The publications that can still go in flight.
pub open spec fn room(s: Session) -> nat {
    if s.full() {
        0
    } else if s.pub_q_len <= crate::session::MAX_PKID {
        (s.pub_q_len - s.in_flight()) as nat
    } else {
        (crate::session::MAX_PKID - s.in_flight()) as nat
    }
}

/// `request` is a publication above QoS 0.
pub open spec fn tracked_publish(request: Request) -> bool {
    request matches Request::Publish(message) && message.qos.level() != crate::packet::QoS::Level0
}

/// A request leaves the session well formed.
pub proof fn lemma_requested_wf(s: Session, request: Request, now: u64)
    requires
        s.wf(),
    ensures
        requested(s, request, now).0.wf(),
        tracked_publish(request) && !s.full() ==> requested(s, request, now).1.is_ok()
            && requested(s, request, now).0.in_flight() == s.in_flight() + 1 && requested(
            s,
            request,
            now,
        ).0.pub_q_len == s.pub_q_len,
        tracked_publish(request) && s.full() ==> requested(s, request, now) == (
            s,
            Err::<Packet, Request>(request),
        ),
{
    match request {
        Request::Publish(message) => {
            if message.qos.level() != crate::packet::QoS::Level0 && !s.full() {
                crate::session::lemma_free_id(s);
                crate::session::lemma_enqueued(
                    s,
                    message,
                    Session::with_id(message.qos.level(), s.free_id()),
                );
            }
        },
        Request::Subscribe(topics) => {
            assert(s.numbered().wf());
        },
        Request::Unsubscribe(filters) => {
            assert(s.numbered().wf());
        },
        Request::Ping => {},
    }
}

/// Backpressure: of a queue of publications above QoS 0, a drain sends as
/// many as there is room for, and no more. Each one sent is in flight
/// afterwards; the next one waits at the head of the queue.
pub proof fn lemma_drain_fills_room(s: Session, queue: Seq<Request>, now: u64)
    requires
        s.wf(),
        forall|i: int| 0 <= i < queue.len() ==> tracked_publish(#[trigger] queue[i]),
    ensures
        drained(s, queue, now).0.wf(),
        drained(s, queue, now).2.len() == (if queue.len() <= room(s) {
            queue.len()
        } else {
            room(s)
        }),
        drained(s, queue, now).0.in_flight() == s.in_flight() + drained(s, queue, now).2.len(),
        drained(s, queue, now).1.len() > 0 ==> drained(s, queue, now).0.full(),
    decreases queue.len(),
{
    if queue.len() > 0 {
        assert(tracked_publish(queue[0]));
        lemma_requested_wf(s, queue[0], now);
        if !s.full() {
            let t = requested(s, queue[0], now).0;
            let rest = queue.drop_first();
            assert forall|i: int| 0 <= i < rest.len() implies tracked_publish(#[trigger] rest[i]) by {
                assert(rest[i] == queue[i + 1]);
            }
            lemma_drain_fills_room(t, rest, now);
        }
    }
}

/// Backpressure, from the beginning: in a fresh session with room for `n`
/// publications, of `n + 1` publications above QoS 0 the first `n` go out
/// and the last one waits.
pub proof fn lemma_backpressure(n: nat, queue: Seq<Request>, now: u64)
    requires
        n < crate::session::MAX_PKID,
        queue.len() == n + 1,
        forall|i: int| 0 <= i < queue.len() ==> tracked_publish(#[trigger] queue[i]),
    ensures
        drained(Session::fresh(n), queue, now).2.len() == n,
        drained(Session::fresh(n), queue, now).1 == seq![queue[n as int]],
        drained(Session::fresh(n), queue, now).0.in_flight() == n,
        drained(Session::fresh(n), queue, now).0.full(),
{
    let s = Session::fresh(n);
    assert(s.wf());
    lemma_drain_fills_room(s, queue, now);
    lemma_drain_keeps_order(s, queue, now);
    assert(drained(s, queue, now).1 =~= seq![queue[n as int]]);
}

/// Replay on reconnect: what was in flight goes out first and in its old
/// order, every publication that waits for its first answer as a duplicate
/// under its old identifier, then PUBREL for every publication that waits
/// for PUBCOMP; what the waiting requests become comes after all of it.
pub proof fn lemma_replay_comes_first(s: Session, queue: Seq<Request>, now: u64)
    ensures
        resumed(s, queue, now).2.len() >= s.in_flight(),
        forall|i: int|
            0 <= i < s.outgoing_pub.len() ==> #[trigger] resumed(s, queue, now).2[i]
                == Packet::Publish(s.outgoing_pub[i].as_publish(s.outgoing_pub[i].qos, true)),
        forall|j: int|
            0 <= j < s.outgoing_rel.len() ==> #[trigger] resumed(
                s,
                queue,
                now,
            ).2[s.outgoing_pub.len() + j] == Packet::Pubrel(s.outgoing_rel[j]),
        resumed(s, queue, now).2.skip(s.in_flight() as int) == drained(
            if s.in_flight() > 0 {
                s.spoke(now)
            } else {
                s
            },
            queue,
            now,
        ).2,
{
    let kept = if s.in_flight() > 0 {
        s.spoke(now)
    } else {
        s
    };
    let out = resumed(s, queue, now).2;
    assert(out.skip(s.in_flight() as int) =~= drained(kept, queue, now).2);
}

} // verus!
