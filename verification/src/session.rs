//! The state of a session: the publications in flight in both directions,
//! the packet identifiers in use, and the subscriptions to set up again.
//!
//! `Session` is the state as a mathematical value, with the transitions that
//! the protocol allows; `SessionState` is the state that the event loop
//! holds, and each of its methods carries out one transition.

use crate::error::{Error, NetworkError};
use crate::message::Message;
use crate::packet::{Packet, PublishPacket, QoS, QoSWithPacketIdentifier, SubscribeTopic};
use vstd::prelude::*;

verus! {

/// The greatest packet identifier. Identifiers run from 1 to this.
pub const MAX_PKID: u16 = 65535;

/// The identifier that a message in flight goes by; 0 where it has none.
pub open spec fn pkid_of(message: Message) -> u16 {
    match message.qos {
        QoSWithPacketIdentifier::Level0 => 0,
        QoSWithPacketIdentifier::Level1(id) => id,
        QoSWithPacketIdentifier::Level2(id) => id,
    }
}

/// The identifier after `id`; after the greatest comes 1. Zero is skipped.
pub open spec fn succ(id: u16) -> u16 {
    if id == MAX_PKID {
        1
    } else {
        (id + 1) as u16
    }
}

/// How many steps of `succ` lead from `from` to `to`, for identifiers
/// between 1 and `MAX_PKID`.
pub open spec fn distance(from: u16, to: u16) -> int {
    if to >= from {
        to - from
    } else {
        to + MAX_PKID - from
    }
}

/// The first place in `ids` that holds `id`; the length of `ids` where none does.
pub open spec fn position(ids: Seq<u16>, id: u16) -> int
    decreases ids.len(),
{
    if ids.len() == 0 {
        0
    } else if ids[0] == id {
        0
    } else {
        1 + position(ids.drop_first(), id)
    }
}

/// The identifiers of `messages`, in their order.
pub open spec fn pkids(messages: Seq<Message>) -> Seq<u16> {
    Seq::new(messages.len(), |i: int| pkid_of(messages[i]))
}

/// One of `filters` is `topic`.
pub open spec fn names(filters: Seq<String>, topic: Seq<char>) -> bool {
    exists|i: int| 0 <= i < filters.len() && (#[trigger] filters[i])@ == topic
}

/// The state of a session as a mathematical value.
pub struct Session {
    /// Where the search for a free identifier begins.
    pub next_pkid: u16,
    /// Sent at QoS 1 and not acknowledged, or at QoS 2 and not received;
    /// in the order in which they were sent.
    pub outgoing_pub: Seq<Message>,
    /// Sent at QoS 2 and received, not yet complete; in the order of PUBREC.
    pub outgoing_rel: Seq<u16>,
    /// Taken in at QoS 2 and not yet released by the broker.
    pub incoming_pub: Seq<u16>,
    /// What to subscribe to again when the broker has forgotten the session.
    pub subscriptions: Seq<SubscribeTopic>,
    /// The identifiers of the SUBSCRIBE packets that wait for SUBACK.
    pub pending_subscribes: Seq<u16>,
    /// The identifiers of the UNSUBSCRIBE packets that wait for UNSUBACK.
    pub pending_unsubscribes: Seq<u16>,
    /// When a packet last came in.
    pub last_pkt_in: u64,
    /// When a packet last went out.
    pub last_pkt_out: u64,
    /// When PINGREQ last went out.
    pub last_ping_sent: u64,
    /// A PINGREQ is out and no packet has come in since.
    pub await_pingresp: bool,
    /// The bound on the publications in flight.
    pub pub_q_len: nat,
}

impl Session {
    /// A session in which nothing has happened yet.
    pub open spec fn fresh(pub_q_len: nat) -> Session {
        Session {
            next_pkid: 1,
            outgoing_pub: Seq::empty(),
            outgoing_rel: Seq::empty(),
            incoming_pub: Seq::empty(),
            subscriptions: Seq::empty(),
            pending_subscribes: Seq::empty(),
            pending_unsubscribes: Seq::empty(),
            last_pkt_in: 0,
            last_pkt_out: 0,
            last_ping_sent: 0,
            await_pingresp: false,
            pub_q_len,
        }
    }

    /// The identifiers of the publications that wait for PUBACK or PUBREC.
    pub open spec fn pub_ids(self) -> Seq<u16> {
        pkids(self.outgoing_pub)
    }

    /// The number of outbound publications in flight.
    pub open spec fn in_flight(self) -> nat {
        self.outgoing_pub.len() + self.outgoing_rel.len()
    }

    /// `id` names an outbound publication in flight.
    pub open spec fn in_use(self, id: u16) -> bool {
        self.pub_ids().contains(id) || self.outgoing_rel.contains(id)
    }

    /// The publication `id` waits in the first table, sent at `level`.
    pub open spec fn awaits(self, id: u16, level: QoS) -> bool {
        self.pub_ids().contains(id) && self.outgoing_pub[position(
            self.pub_ids(),
            id,
        )].qos.level() == level
    }

    /// No further publication can go in flight: the bound is reached, or
    /// every identifier is in use.
    pub open spec fn full(self) -> bool {
        self.in_flight() >= self.pub_q_len || self.in_flight() >= MAX_PKID
    }

    /// `id` is the free identifier that the search from `next_pkid` meets
    /// first: it is free, and no free identifier is fewer steps away.
    pub open spec fn next_free(self, id: u16) -> bool {
        &&& id >= 1
        &&& !self.in_use(id)
        &&& forall|other: u16|
            other >= 1 && !self.in_use(other) ==> distance(self.next_pkid, id) <= distance(
                self.next_pkid,
                other,
            )
    }

    /// The identifier that is handed out next.
    pub open spec fn free_id(self) -> u16 {
        choose|id: u16| self.next_free(id)
    }

    /// The invariant of a session. No identifier is zero; none is in use
    /// twice, be it in one table or in both; the publications in flight stay
    /// within the bound; and each message in flight carries an identifier.
    pub open spec fn wf(self) -> bool {
        &&& self.next_pkid >= 1
        &&& self.in_flight() <= self.pub_q_len
        &&& self.pub_ids().no_duplicates()
        &&& self.outgoing_rel.no_duplicates()
        &&& self.incoming_pub.no_duplicates()
        &&& forall|i: int|
            0 <= i < self.outgoing_pub.len() ==> #[trigger] pkid_of(self.outgoing_pub[i]) >= 1
                && self.outgoing_pub[i].qos != QoSWithPacketIdentifier::Level0
        &&& forall|j: int| 0 <= j < self.outgoing_rel.len() ==> #[trigger] self.outgoing_rel[j] >= 1
        &&& forall|i: int, j: int|
            0 <= i < self.outgoing_pub.len() && 0 <= j < self.outgoing_rel.len() ==> pkid_of(
                #[trigger] self.outgoing_pub[i],
            ) != #[trigger] self.outgoing_rel[j]
    }

    /// The session after `message` has gone in flight under `qos`, which
    /// holds the identifier given to it.
    pub open spec fn enqueued(self, message: Message, qos: QoSWithPacketIdentifier) -> Session {
        Session {
            next_pkid: succ(pkid_of(message.with_qos(qos))),
            outgoing_pub: self.outgoing_pub.push(message.with_qos(qos)),
            ..self
        }
    }

    /// The level `level` with the identifier `id`.
    pub open spec fn with_id(level: QoS, id: u16) -> QoSWithPacketIdentifier {
        match level {
            QoS::Level0 => QoSWithPacketIdentifier::Level0,
            QoS::Level1 => QoSWithPacketIdentifier::Level1(id),
            QoS::Level2 => QoSWithPacketIdentifier::Level2(id),
        }
    }

    /// Sending `message` at `level`, which is 1 or 2: the session
    /// afterwards, and the packet that goes out.
    pub open spec fn sends(self, message: Message, level: QoS) -> (Session, PublishPacket) {
        let qos = Session::with_id(level, self.free_id());
        (self.enqueued(message, qos), message.as_publish(qos, false))
    }

    /// The session after an identifier was handed out for a packet that is
    /// no publication.
    pub open spec fn numbered(self) -> Session {
        Session { next_pkid: succ(self.free_id()), ..self }
    }

    /// Sending `message` at `level` gave `packet` and led to `after`: the
    /// packet carries the message under the identifier that was free next,
    /// is no duplicate, and the message is the last in flight.
    pub open spec fn sent(self, message: Message, level: QoS, packet: PublishPacket, after: Session) -> bool {
        &&& packet.qos.level() == level
        &&& packet.qos.pkid() is Some
        &&& self.next_free(packet.qos.pkid()->0)
        &&& packet == message.as_publish(packet.qos, false)
        &&& after == self.enqueued(message, packet.qos)
    }

    /// The session without the outbound publication `id`, in whichever
    /// table it stood.
    pub open spec fn released(self, id: u16) -> Session {
        Session {
            outgoing_pub: if self.pub_ids().contains(id) {
                self.outgoing_pub.remove(position(self.pub_ids(), id))
            } else {
                self.outgoing_pub
            },
            outgoing_rel: if self.outgoing_rel.contains(id) {
                self.outgoing_rel.remove(position(self.outgoing_rel, id))
            } else {
                self.outgoing_rel
            },
            ..self
        }
    }

    /// The session after PUBREC for `id`: the publication has left the
    /// first table and its identifier stands last in the second.
    pub open spec fn received(self, id: u16) -> Session {
        Session {
            outgoing_pub: self.outgoing_pub.remove(position(self.pub_ids(), id)),
            outgoing_rel: self.outgoing_rel.push(id),
            ..self
        }
    }

    /// The session after an inbound QoS 2 publication `id` was taken in.
    pub open spec fn taken_in(self, id: u16) -> Session {
        if self.incoming_pub.contains(id) {
            self
        } else {
            Session { incoming_pub: self.incoming_pub.push(id), ..self }
        }
    }

    /// The session after the broker released the inbound publication `id`.
    pub open spec fn let_go(self, id: u16) -> Session {
        if self.incoming_pub.contains(id) {
            Session {
                incoming_pub: self.incoming_pub.remove(position(self.incoming_pub, id)),
                ..self
            }
        } else {
            self
        }
    }

    /// The session after a packet came in at `now`: whatever it is, it
    /// shows that the broker is there.
    pub open spec fn heard(self, now: u64) -> Session {
        Session { last_pkt_in: now, await_pingresp: false, ..self }
    }

    /// The session after a packet went out at `now`.
    pub open spec fn spoke(self, now: u64) -> Session {
        Session { last_pkt_out: now, ..self }
    }

    /// The session after PINGREQ went out at `now`.
    pub open spec fn pinged(self, now: u64) -> Session {
        Session { last_pkt_out: now, last_ping_sent: now, await_pingresp: true, ..self }
    }

    /// Nothing has gone out for `keep_alive` and no PINGREQ is out: one is due.
    pub open spec fn ping_due(self, now: u64, keep_alive: u64) -> bool {
        !self.await_pingresp && now - self.last_pkt_out >= keep_alive
    }

    /// A PINGREQ has been out for `keep_alive` and nothing has come in.
    pub open spec fn ping_overdue(self, now: u64, keep_alive: u64) -> bool {
        self.await_pingresp && now - self.last_ping_sent >= keep_alive
    }

    /// The session after SUBSCRIBE went out under `id`.
    pub open spec fn awaiting_suback(self, id: u16) -> Session {
        Session { pending_subscribes: self.pending_subscribes.push(id), ..self }
    }

    /// The session after UNSUBSCRIBE went out under `id`.
    pub open spec fn awaiting_unsuback(self, id: u16) -> Session {
        Session { pending_unsubscribes: self.pending_unsubscribes.push(id), ..self }
    }

    /// The session after SUBACK for `id`, for which a SUBSCRIBE waits.
    pub open spec fn suback(self, id: u16) -> Session {
        Session {
            pending_subscribes: self.pending_subscribes.remove(
                position(self.pending_subscribes, id),
            ),
            ..self
        }
    }

    /// The session after UNSUBACK for `id`, for which an UNSUBSCRIBE waits.
    pub open spec fn unsuback(self, id: u16) -> Session {
        Session {
            pending_unsubscribes: self.pending_unsubscribes.remove(
                position(self.pending_unsubscribes, id),
            ),
            ..self
        }
    }

    /// The session with `topics` added to what it subscribes to.
    pub open spec fn subscribed(self, topics: Seq<SubscribeTopic>) -> Session {
        Session { subscriptions: self.subscriptions + topics, ..self }
    }

    /// The session without the subscriptions that one of `filters` names.
    pub open spec fn unsubscribed(self, filters: Seq<String>) -> Session {
        Session {
            subscriptions: self.subscriptions.filter(
                |t: SubscribeTopic| !names(filters, t.topic_path@),
            ),
            ..self
        }
    }

    /// What goes out again when a kept session is taken up after a
    /// reconnect: every publication that waits for its first answer, marked
    /// as a duplicate, then PUBREL for every publication that waits for
    /// PUBCOMP; each group in the order in which it came in flight.
    pub open spec fn replay(self) -> Seq<Packet> {
        Seq::new(
            self.outgoing_pub.len() + self.outgoing_rel.len(),
            |i: int|
                if i < self.outgoing_pub.len() {
                    Packet::Publish(
                        self.outgoing_pub[i].as_publish(self.outgoing_pub[i].qos, true),
                    )
                } else {
                    Packet::Pubrel(self.outgoing_rel[i - self.outgoing_pub.len()])
                },
        )
    }
}

/// `position` finds the first occurrence, and finds one exactly where there is one.
pub proof fn lemma_position(ids: Seq<u16>, id: u16)
    ensures
        0 <= position(ids, id) <= ids.len(),
        position(ids, id) < ids.len() <==> ids.contains(id),
        position(ids, id) < ids.len() ==> ids[position(ids, id)] == id,
        forall|j: int| 0 <= j < position(ids, id) ==> ids[j] != id,
    decreases ids.len(),
{
    if ids.len() > 0 && ids[0] != id {
        let rest = ids.drop_first();
        lemma_position(rest, id);
        let p = position(rest, id);
        assert forall|j: int| 0 <= j < p + 1 implies ids[j] != id by {
            if j > 0 {
                assert(rest[j - 1] == ids[j]);
            }
        }
        if p < rest.len() {
            assert(ids[p + 1] == rest[p]);
        }
        if ids.contains(id) {
            let k = choose|k: int| 0 <= k < ids.len() && ids[k] == id;
            assert(rest[k - 1] == id);
        }
    }
}

/// Taking one occurrence out of a sequence without repetitions takes the
/// value out, and nothing else.
pub proof fn lemma_remove(ids: Seq<u16>, i: int)
    requires
        ids.no_duplicates(),
        0 <= i < ids.len(),
    ensures
        ids.remove(i).no_duplicates(),
        !ids.remove(i).contains(ids[i]),
        forall|x: u16| x != ids[i] ==> ids.remove(i).contains(x) == ids.contains(x),
{
    let rest = ids.remove(i);
    assert forall|x: u16| x != ids[i] implies rest.contains(x) == ids.contains(x) by {
        if ids.contains(x) {
            let k = choose|k: int| 0 <= k < ids.len() && ids[k] == x;
            if k < i {
                assert(rest[k] == x);
            } else {
                assert(rest[k - 1] == x);
            }
        }
    }
}

/// A sequence without repetitions that holds every identifier from 1 to `n`
/// has at least `n` entries.
pub proof fn lemma_all_in_use(used: Seq<u16>, n: nat)
    requires
        n <= MAX_PKID,
        used.no_duplicates(),
        forall|x: u16| 1 <= x <= n ==> used.contains(x),
    ensures
        used.len() >= n,
    decreases n,
{
    if n > 0 {
        let top = n as u16;
        assert(used.contains(top));
        let i = choose|i: int| 0 <= i < used.len() && used[i] == top;
        lemma_remove(used, i);
        assert forall|x: u16| 1 <= x <= n - 1 implies used.remove(i).contains(x) by {
            assert(used.contains(x) && x != used[i]);
        }
        lemma_all_in_use(used.remove(i), (n - 1) as nat);
    }
}

/// In a well-formed session, the identifiers in use are as many as the
/// publications in flight; so while fewer than `MAX_PKID` are in flight, one
/// is free.
pub proof fn lemma_some_id_is_free(s: Session)
    requires
        s.wf(),
        s.in_flight() < MAX_PKID,
    ensures
        exists|id: u16| id >= 1 && !s.in_use(id),
{
    let used = s.pub_ids() + s.outgoing_rel;
    assert(used.no_duplicates()) by {
        assert forall|i: int, j: int| 0 <= i < used.len() && 0 <= j < used.len() && i != j implies used[i] != used[j] by {
            let n = s.pub_ids().len() as int;
            if i < n && j < n {
                assert(s.pub_ids()[i] != s.pub_ids()[j]);
            } else if i >= n && j >= n {
                assert(s.outgoing_rel[i - n] != s.outgoing_rel[j - n]);
            } else if i < n {
                assert(pkid_of(s.outgoing_pub[i]) != s.outgoing_rel[j - n]);
            } else {
                assert(pkid_of(s.outgoing_pub[j]) != s.outgoing_rel[i - n]);
            }
        }
    }
    if forall|id: u16| id >= 1 ==> s.in_use(id) {
        assert forall|x: u16| 1 <= x <= MAX_PKID implies used.contains(x) by {
            assert(s.in_use(x));
            if s.pub_ids().contains(x) {
                let k = choose|k: int| 0 <= k < s.pub_ids().len() && s.pub_ids()[k] == x;
                assert(used[k] == x);
            } else {
                let k = choose|k: int| 0 <= k < s.outgoing_rel.len() && s.outgoing_rel[k] == x;
                assert(used[k + s.pub_ids().len()] == x);
            }
        }
        lemma_all_in_use(used, MAX_PKID as nat);
    }
}

/// Taking the message at place `i` out takes its identifier out of the identifiers.
pub proof fn lemma_pkids_remove(messages: Seq<Message>, i: int)
    requires
        0 <= i < messages.len(),
    ensures
        pkids(messages.remove(i)) == pkids(messages).remove(i),
{
    assert(pkids(messages.remove(i)) =~= pkids(messages).remove(i));
}

/// A publication that goes in flight under a free identifier leaves the
/// session well formed, with one more in flight and its identifier in use.
pub proof fn lemma_enqueued(s: Session, message: Message, qos: QoSWithPacketIdentifier)
    requires
        s.wf(),
        s.in_flight() < s.pub_q_len,
        qos.pkid() is Some,
        qos.pkid()->0 >= 1,
        !s.in_use(qos.pkid()->0),
    ensures
        s.enqueued(message, qos).wf(),
        s.enqueued(message, qos).in_flight() == s.in_flight() + 1,
        s.enqueued(message, qos).in_use(qos.pkid()->0),
        forall|id: u16| s.in_use(id) ==> s.enqueued(message, qos).in_use(id),
{
    let id = qos.pkid()->0;
    let t = s.enqueued(message, qos);
    assert(pkid_of(message.with_qos(qos)) == id);
    assert(t.pub_ids() =~= s.pub_ids().push(id));
    assert(t.pub_ids()[s.pub_ids().len() as int] == id);
    assert forall|i: int, j: int|
        0 <= i < t.pub_ids().len() && 0 <= j < t.pub_ids().len() && i != j implies t.pub_ids()[i]
        != t.pub_ids()[j] by {
        if i < s.pub_ids().len() {
            assert(s.pub_ids()[i] == t.pub_ids()[i]);
        }
        if j < s.pub_ids().len() {
            assert(s.pub_ids()[j] == t.pub_ids()[j]);
        }
    }
    assert forall|i: int| 0 <= i < t.outgoing_pub.len() implies #[trigger] pkid_of(
        t.outgoing_pub[i],
    ) >= 1 && t.outgoing_pub[i].qos != QoSWithPacketIdentifier::Level0 by {
        if i < s.outgoing_pub.len() {
            assert(t.outgoing_pub[i] == s.outgoing_pub[i]);
        }
    }
    assert forall|i: int, j: int|
        0 <= i < t.outgoing_pub.len() && 0 <= j < t.outgoing_rel.len() implies pkid_of(
        #[trigger] t.outgoing_pub[i],
    ) != #[trigger] t.outgoing_rel[j] by {
        if i < s.outgoing_pub.len() {
            assert(t.outgoing_pub[i] == s.outgoing_pub[i]);
        }
    }
    assert forall|x: u16| s.in_use(x) implies t.in_use(x) by {
        if s.pub_ids().contains(x) {
            let k = choose|k: int| 0 <= k < s.pub_ids().len() && s.pub_ids()[k] == x;
            assert(t.pub_ids()[k] == x);
        }
    }
}

/// Taking an identifier out of the tables leaves the session well formed
/// and the identifier free; every other identifier stays as it was.
pub proof fn lemma_released(s: Session, id: u16)
    requires
        s.wf(),
    ensures
        s.released(id).wf(),
        !s.released(id).in_use(id),
        forall|other: u16| other != id ==> s.released(id).in_use(other) == s.in_use(other),
        s.in_use(id) ==> s.released(id).in_flight() == s.in_flight() - 1,
        !s.in_use(id) ==> s.released(id) == s,
{
    let t = s.released(id);
    lemma_position(s.pub_ids(), id);
    lemma_position(s.outgoing_rel, id);
    if s.pub_ids().contains(id) {
        let i = position(s.pub_ids(), id);
        lemma_pkids_remove(s.outgoing_pub, i);
        lemma_remove(s.pub_ids(), i);
        assert(pkid_of(s.outgoing_pub[i]) == id);
        assert(!s.outgoing_rel.contains(id)) by {
            if s.outgoing_rel.contains(id) {
                let j = choose|j: int| 0 <= j < s.outgoing_rel.len() && s.outgoing_rel[j] == id;
                assert(pkid_of(s.outgoing_pub[i]) != s.outgoing_rel[j]);
            }
        }
        assert forall|k: int| 0 <= k < t.outgoing_pub.len() implies #[trigger] pkid_of(
            t.outgoing_pub[k],
        ) >= 1 && t.outgoing_pub[k].qos != QoSWithPacketIdentifier::Level0 by {
            if k < i {
                assert(t.outgoing_pub[k] == s.outgoing_pub[k]);
            } else {
                assert(t.outgoing_pub[k] == s.outgoing_pub[k + 1]);
            }
        }
        assert forall|k: int, j: int|
            0 <= k < t.outgoing_pub.len() && 0 <= j < t.outgoing_rel.len() implies pkid_of(
            #[trigger] t.outgoing_pub[k],
        ) != #[trigger] t.outgoing_rel[j] by {
            if k < i {
                assert(t.outgoing_pub[k] == s.outgoing_pub[k]);
            } else {
                assert(t.outgoing_pub[k] == s.outgoing_pub[k + 1]);
            }
        }
    } else if s.outgoing_rel.contains(id) {
        let i = position(s.outgoing_rel, id);
        lemma_remove(s.outgoing_rel, i);
        assert forall|j: int| 0 <= j < t.outgoing_rel.len() implies #[trigger] t.outgoing_rel[j]
            >= 1 by {
            if j < i {
                assert(t.outgoing_rel[j] == s.outgoing_rel[j]);
            } else {
                assert(t.outgoing_rel[j] == s.outgoing_rel[j + 1]);
            }
        }
        assert forall|k: int, j: int|
            0 <= k < t.outgoing_pub.len() && 0 <= j < t.outgoing_rel.len() implies pkid_of(
            #[trigger] t.outgoing_pub[k],
        ) != #[trigger] t.outgoing_rel[j] by {
            if j < i {
                assert(t.outgoing_rel[j] == s.outgoing_rel[j]);
            } else {
                assert(t.outgoing_rel[j] == s.outgoing_rel[j + 1]);
            }
        }
    }
}

/// PUBREC for a publication in the first table leaves the session well
/// formed, with as many in flight as before and the identifier still in use.
pub proof fn lemma_received(s: Session, id: u16)
    requires
        s.wf(),
        s.pub_ids().contains(id),
    ensures
        s.received(id).wf(),
        s.received(id).in_flight() == s.in_flight(),
        forall|other: u16| s.received(id).in_use(other) == s.in_use(other),
        s.received(id).outgoing_rel.contains(id),
        !s.received(id).pub_ids().contains(id),
{
    let t = s.received(id);
    let u = s.released(id);
    lemma_released(s, id);
    lemma_position(s.pub_ids(), id);
    let i = position(s.pub_ids(), id);
    assert(pkid_of(s.outgoing_pub[i]) == id);
    assert(!s.outgoing_rel.contains(id)) by {
        if s.outgoing_rel.contains(id) {
            let j = choose|j: int| 0 <= j < s.outgoing_rel.len() && s.outgoing_rel[j] == id;
            assert(pkid_of(s.outgoing_pub[i]) != s.outgoing_rel[j]);
        }
    }
    assert(u.outgoing_rel == s.outgoing_rel);
    assert(t.outgoing_pub == u.outgoing_pub);
    assert(t.outgoing_rel == u.outgoing_rel.push(id));
    assert(t.outgoing_rel[s.outgoing_rel.len() as int] == id);
    assert(!u.pub_ids().contains(id));
    assert forall|k: int, j: int|
        0 <= k < t.outgoing_rel.len() && 0 <= j < t.outgoing_rel.len() && k != j implies t.outgoing_rel[k]
        != t.outgoing_rel[j] by {
        if k < s.outgoing_rel.len() {
            assert(s.outgoing_rel[k] == t.outgoing_rel[k]);
        }
        if j < s.outgoing_rel.len() {
            assert(s.outgoing_rel[j] == t.outgoing_rel[j]);
        }
    }
    assert forall|j: int| 0 <= j < t.outgoing_rel.len() implies #[trigger] t.outgoing_rel[j]
        >= 1 by {
        if j < s.outgoing_rel.len() {
            assert(t.outgoing_rel[j] == s.outgoing_rel[j]);
        }
    }
    assert forall|k: int, j: int|
        0 <= k < t.outgoing_pub.len() && 0 <= j < t.outgoing_rel.len() implies pkid_of(
        #[trigger] t.outgoing_pub[k],
    ) != #[trigger] t.outgoing_rel[j] by {
        if j < s.outgoing_rel.len() {
            assert(t.outgoing_rel[j] == u.outgoing_rel[j]);
            assert(pkid_of(u.outgoing_pub[k]) != u.outgoing_rel[j]);
        } else {
            assert(u.pub_ids()[k] == pkid_of(u.outgoing_pub[k]));
        }
    }
    assert forall|other: u16| t.in_use(other) == s.in_use(other) by {
        if other == id {
        } else {
            assert(u.in_use(other) == s.in_use(other));
            if u.outgoing_rel.contains(other) {
                let j = choose|j: int| 0 <= j < u.outgoing_rel.len() && u.outgoing_rel[j] == other;
                assert(t.outgoing_rel[j] == other);
            }
            if t.outgoing_rel.contains(other) {
                let j = choose|j: int| 0 <= j < t.outgoing_rel.len() && t.outgoing_rel[j] == other;
                assert(u.outgoing_rel[j] == other);
            }
        }
    }
}

/// No identifier stands in both tables of outbound publications, and the
/// two tables together stay within the bound.
pub proof fn lemma_packet_ids_unique(s: Session)
    requires
        s.wf(),
    ensures
        forall|id: u16| !(s.pub_ids().contains(id) && s.outgoing_rel.contains(id)),
        s.pub_ids().to_set().intersect(s.outgoing_rel.to_set()) == Set::<u16>::empty(),
        s.in_flight() <= s.pub_q_len,
{
    assert forall|id: u16| !(s.pub_ids().contains(id) && s.outgoing_rel.contains(id)) by {
        if s.pub_ids().contains(id) && s.outgoing_rel.contains(id) {
            let i = choose|i: int| 0 <= i < s.pub_ids().len() && s.pub_ids()[i] == id;
            let j = choose|j: int| 0 <= j < s.outgoing_rel.len() && s.outgoing_rel[j] == id;
            assert(pkid_of(s.outgoing_pub[i]) != s.outgoing_rel[j]);
        }
    }
    assert(s.pub_ids().to_set().intersect(s.outgoing_rel.to_set()) =~= Set::<u16>::empty());
}

/// The search for a free identifier has one answer.
pub proof fn lemma_free_id_unique(s: Session, id: u16)
    requires
        s.next_pkid >= 1,
        s.next_free(id),
    ensures
        id == s.free_id(),
{
    let other = s.free_id();
    assert(s.next_free(other));
    assert(distance(s.next_pkid, id) <= distance(s.next_pkid, other));
    assert(distance(s.next_pkid, other) <= distance(s.next_pkid, id));
}

/// The identifier that lies `steps` steps of `succ` after `from`.
pub open spec fn after(from: u16, steps: nat) -> u16 {
    (((from - 1 + steps) % (MAX_PKID as int)) + 1) as u16
}

/// The search from `next_pkid`, taken up at `steps` steps: it ends at a
/// free identifier with no free one before it.
proof fn lemma_search(s: Session, steps: nat)
    requires
        s.wf(),
        s.in_flight() < MAX_PKID,
        steps < MAX_PKID,
        forall|other: u16| other >= 1 && distance(s.next_pkid, other) < steps ==> s.in_use(other),
    ensures
        exists|id: u16| s.next_free(id),
    decreases MAX_PKID - steps,
{
    let candidate = after(s.next_pkid, steps);
    assert(candidate >= 1 && distance(s.next_pkid, candidate) == steps);
    if !s.in_use(candidate) {
        assert(s.next_free(candidate));
    } else {
        assert forall|other: u16|
            other >= 1 && distance(s.next_pkid, other) < steps + 1 implies s.in_use(other) by {
            if distance(s.next_pkid, other) == steps {
                assert(other == candidate);
            }
        }
        if steps + 1 >= MAX_PKID {
            lemma_some_id_is_free(s);
            let free = choose|id: u16| id >= 1 && !s.in_use(id);
            assert(distance(s.next_pkid, free) < MAX_PKID);
            assert(false);
        } else {
            lemma_search(s, steps + 1);
        }
    }
}

/// While fewer than `MAX_PKID` publications are in flight, the search for a
/// free identifier finds one: it is free, not zero, and the nearest.
pub proof fn lemma_free_id(s: Session)
    requires
        s.wf(),
        s.in_flight() < MAX_PKID,
    ensures
        s.next_free(s.free_id()),
        s.free_id() >= 1,
        !s.in_use(s.free_id()),
{
    lemma_search(s, 0);
}

/// Taking an inbound publication in leaves the session well formed; it is
/// held afterwards, and what else is held stays as it was.
pub proof fn lemma_taken_in(s: Session, id: u16)
    requires
        s.wf(),
    ensures
        s.taken_in(id).wf(),
        forall|k: u16|
            s.taken_in(id).incoming_pub.contains(k) == (s.incoming_pub.contains(k) || k == id),
{
    let t = s.taken_in(id);
    if !s.incoming_pub.contains(id) {
        let n = s.incoming_pub.len() as int;
        assert(t.incoming_pub[n] == id);
        assert forall|i: int, j: int|
            0 <= i < t.incoming_pub.len() && 0 <= j < t.incoming_pub.len() && i != j implies t.incoming_pub[i]
            != t.incoming_pub[j] by {
            if i < n {
                assert(s.incoming_pub[i] == t.incoming_pub[i]);
            }
            if j < n {
                assert(s.incoming_pub[j] == t.incoming_pub[j]);
            }
        }
        assert forall|k: u16|
            t.incoming_pub.contains(k) == (s.incoming_pub.contains(k) || k == id) by {
            if s.incoming_pub.contains(k) {
                let i = choose|i: int| 0 <= i < n && s.incoming_pub[i] == k;
                assert(t.incoming_pub[i] == k);
            }
            if t.incoming_pub.contains(k) && k != id {
                let i = choose|i: int| 0 <= i < t.incoming_pub.len() && t.incoming_pub[i] == k;
                assert(s.incoming_pub[i] == k);
            }
        }
    }
}

/// Letting an inbound publication go leaves the session well formed; it is
/// no longer held, and what else is held stays as it was.
pub proof fn lemma_let_go(s: Session, id: u16)
    requires
        s.wf(),
    ensures
        s.let_go(id).wf(),
        forall|k: u16|
            s.let_go(id).incoming_pub.contains(k) == (s.incoming_pub.contains(k) && k != id),
{
    if s.incoming_pub.contains(id) {
        lemma_position(s.incoming_pub, id);
        lemma_remove(s.incoming_pub, position(s.incoming_pub, id));
    }
}

/// The place of `id` in `ids`, if it is there.
fn find(ids: &Vec<u16>, id: u16) -> (r: Option<usize>)
    ensures
        r.is_some() == ids@.contains(id),
        r.is_some() ==> r->0 == position(ids@, id) && r->0 < ids@.len(),
{
    let mut i: usize = 0;
    while i < ids.len()
        invariant
            i <= ids.len(),
            forall|j: int| 0 <= j < i ==> ids@[j] != id,
        decreases ids.len() - i,
    {
        if ids[i] == id {
            proof {
                lemma_position(ids@, id);
            }
            return Some(i);
        }
        i += 1;
    }
    None
}

/// The identifier that `message` goes by; 0 where it has none.
pub fn message_pkid(message: &Message) -> (id: u16)
    ensures
        id == pkid_of(*message),
{
    match message.qos {
        QoSWithPacketIdentifier::Level0 => 0,
        QoSWithPacketIdentifier::Level1(id) => id,
        QoSWithPacketIdentifier::Level2(id) => id,
    }
}

/// The place of the message that goes by `id`, if one does.
fn find_message(messages: &Vec<Message>, id: u16) -> (r: Option<usize>)
    ensures
        r.is_some() == pkids(messages@).contains(id),
        r.is_some() ==> r->0 == position(pkids(messages@), id) && r->0 < messages@.len(),
{
    let mut i: usize = 0;
    while i < messages.len()
        invariant
            i <= messages.len(),
            forall|j: int| 0 <= j < i ==> pkids(messages@)[j] != id,
        decreases messages.len() - i,
    {
        if message_pkid(&messages[i]) == id {
            proof {
                lemma_position(pkids(messages@), id);
                assert(pkids(messages@)[i as int] == id);
            }
            return Some(i);
        }
        i += 1;
    }
    None
}

/// The state of a session as the event loop holds it.
#[derive(Debug)]
pub struct SessionState {
    next_pkid: u16,
    outgoing_pub: Vec<Message>,
    outgoing_rel: Vec<u16>,
    incoming_pub: Vec<u16>,
    subscriptions: Vec<SubscribeTopic>,
    pending_subscribes: Vec<u16>,
    pending_unsubscribes: Vec<u16>,
    last_pkt_in: u64,
    last_pkt_out: u64,
    last_ping_sent: u64,
    await_pingresp: bool,
    pub_q_len: usize,
}

impl View for SessionState {
    type V = Session;

    closed spec fn view(&self) -> Session {
        Session {
            next_pkid: self.next_pkid,
            outgoing_pub: self.outgoing_pub@,
            outgoing_rel: self.outgoing_rel@,
            incoming_pub: self.incoming_pub@,
            subscriptions: self.subscriptions@,
            pending_subscribes: self.pending_subscribes@,
            pending_unsubscribes: self.pending_unsubscribes@,
            last_pkt_in: self.last_pkt_in,
            last_pkt_out: self.last_pkt_out,
            last_ping_sent: self.last_ping_sent,
            await_pingresp: self.await_pingresp,
            pub_q_len: self.pub_q_len as nat,
        }
    }
}

impl SessionState {
    /// The state stands for a well-formed session.
    pub open spec fn wf(&self) -> bool {
        self@.wf() && self@.pub_q_len <= usize::MAX
    }

    /// A session in which nothing has happened yet, with room for
    /// `pub_q_len` publications in flight.
    pub fn new(pub_q_len: usize) -> (r: SessionState)
        ensures
            r@ == Session::fresh(pub_q_len as nat),
            r.wf(),
    {
        SessionState {
            next_pkid: 1,
            outgoing_pub: Vec::new(),
            outgoing_rel: Vec::new(),
            incoming_pub: Vec::new(),
            subscriptions: Vec::new(),
            pending_subscribes: Vec::new(),
            pending_unsubscribes: Vec::new(),
            last_pkt_in: 0,
            last_pkt_out: 0,
            last_ping_sent: 0,
            await_pingresp: false,
            pub_q_len,
        }
    }

    /// Whether `id` names an outbound publication in flight.
    pub fn in_use(&self, id: u16) -> (r: bool)
        ensures
            r == self@.in_use(id),
    {
        find_message(&self.outgoing_pub, id).is_some() || find(&self.outgoing_rel, id).is_some()
    }

    /// The number of outbound publications in flight.
    pub fn in_flight(&self) -> (n: usize)
        requires
            self.wf(),
        ensures
            n == self@.in_flight(),
    {
        self.outgoing_pub.len() + self.outgoing_rel.len()
    }

    /// The search itself: from `next_pkid` on, identifier by identifier,
    /// until one is free.
    fn scan(&mut self) -> (id: u16)
        requires
            old(self).wf(),
            old(self)@.in_flight() < MAX_PKID,
        ensures
            final(self).wf(),
            old(self)@.next_free(id),
            id == old(self)@.free_id(),
            final(self)@ == old(self)@.numbered(),
    {
        let mut candidate: u16 = self.next_pkid;
        let mut steps: u32 = 0;
        while self.in_use(candidate)
            invariant
                self.wf(),
                *self == *old(self),
                self@.in_flight() < MAX_PKID,
                candidate >= 1,
                steps < MAX_PKID,
                distance(self@.next_pkid, candidate) == steps,
                forall|other: u16|
                    other >= 1 && distance(self@.next_pkid, other) < steps ==> self@.in_use(other),
            decreases MAX_PKID - steps,
        {
            proof {
                if steps + 1 >= MAX_PKID {
                    lemma_some_id_is_free(self@);
                    let free = choose|id: u16| id >= 1 && !self@.in_use(id);
                    assert(distance(self@.next_pkid, free) < MAX_PKID);
                    assert(false);
                }
            }
            candidate = if candidate == MAX_PKID {
                1
            } else {
                candidate + 1
            };
            steps = steps + 1;
        }
        proof {
            lemma_free_id_unique(self@, candidate);
        }
        self.next_pkid = if candidate == MAX_PKID {
            1
        } else {
            candidate + 1
        };
        candidate
    }

    /// Hands out the free identifier that the search from `next_pkid` meets
    /// first, and moves `next_pkid` past it. Fails with `QueueFull`, and
    /// changes nothing, when no further publication can go in flight.
    pub fn alloc_id(&mut self) -> (r: Result<u16, Error>)
        requires
            old(self).wf(),
        ensures
            final(self).wf(),
            old(self)@.full() ==> r == Err::<u16, Error>(Error::QueueFull) && final(self)@ == old(self)@,
            !old(self)@.full() ==> r == Ok::<u16, Error>(old(self)@.free_id()) && old(self)@.next_free(r->Ok_0) && final(self)@ == old(self)@.numbered(),
    {
        let n: usize = self.in_flight();
        if n >= self.pub_q_len || n >= MAX_PKID as usize {
            return Err(Error::QueueFull);
        }
        Ok(self.scan())
    }

    /// Hands out an identifier for a packet that is no publication, such as
    /// SUBSCRIBE: the bound on the publications in flight does not count,
    /// and `None` comes only when every identifier is in use.
    pub fn control_id(&mut self) -> (r: Option<u16>)
        requires
            old(self).wf(),
        ensures
            final(self).wf(),
            r.is_some() == (old(self)@.in_flight() < MAX_PKID),
            r.is_none() ==> final(self)@ == old(self)@,
            r.is_some() ==> r == Some(old(self)@.free_id()) && old(self)@.next_free(r->0) && final(self)@ == old(self)@.numbered(),
    {
        if self.in_flight() >= MAX_PKID as usize {
            return None;
        }
        Some(self.scan())
    }

    /// Puts `message` in flight at `level`.
    fn enqueue(&mut self, message: &Message, level: QoS) -> (r: Result<Box<PublishPacket>, Error>)
        requires
            old(self).wf(),
            level != QoS::Level0,
        ensures
            final(self).wf(),
            old(self)@.full() ==> r == Err::<Box<PublishPacket>, Error>(Error::QueueFull) && final(self)@ == old(self)@,
            !old(self)@.full() ==> r.is_ok() && old(self)@.sent(*message, level, *r->Ok_0, final(self)@)
                && (final(self)@, *r->Ok_0) == old(self)@.sends(*message, level),
    {
        let id: u16 = match self.alloc_id() {
            Ok(id) => id,
            Err(_) => {
                return Err(Error::QueueFull);
            },
        };
        let qos = QoSWithPacketIdentifier::new(level, id);
        let in_flight = message.transform(Some(qos));
        let packet = in_flight.to_pub(None, false);
        self.outgoing_pub.push(*in_flight);
        proof {
            lemma_enqueued(old(self)@, *message, qos);
            assert(self@ == old(self)@.enqueued(*message, qos));
        }
        Ok(packet)
    }

    /// Sends `message` at QoS 1: gives it the next free identifier, keeps it
    /// until PUBACK, and hands back the PUBLISH packet, not marked as a
    /// duplicate. Fails with `QueueFull`, and changes nothing, when no
    /// further publication can go in flight.
    pub fn enqueue_qos1(&mut self, message: &Message) -> (r: Result<Box<PublishPacket>, Error>)
        requires
            old(self).wf(),
        ensures
            final(self).wf(),
            old(self)@.full() ==> r == Err::<Box<PublishPacket>, Error>(Error::QueueFull) && final(self)@ == old(self)@,
            !old(self)@.full() ==> r.is_ok() && old(self)@.sent(
                *message,
                QoS::Level1,
                *r->Ok_0,
                final(self)@,
            ) && (final(self)@, *r->Ok_0) == old(self)@.sends(*message, QoS::Level1),
    {
        self.enqueue(message, QoS::Level1)
    }

    /// Sends `message` at QoS 2: gives it the next free identifier, keeps it
    /// until PUBREC, and hands back the PUBLISH packet, not marked as a
    /// duplicate. Fails with `QueueFull`, and changes nothing, when no
    /// further publication can go in flight.
    pub fn enqueue_qos2(&mut self, message: &Message) -> (r: Result<Box<PublishPacket>, Error>)
        requires
            old(self).wf(),
        ensures
            final(self).wf(),
            old(self)@.full() ==> r == Err::<Box<PublishPacket>, Error>(Error::QueueFull) && final(self)@ == old(self)@,
            !old(self)@.full() ==> r.is_ok() && old(self)@.sent(
                *message,
                QoS::Level2,
                *r->Ok_0,
                final(self)@,
            ) && (final(self)@, *r->Ok_0) == old(self)@.sends(*message, QoS::Level2),
    {
        self.enqueue(message, QoS::Level2)
    }

    /// Returns `id` to the free identifiers: the publication that it names
    /// leaves the tables. Says whether the identifier was in use.
    pub fn release(&mut self, id: u16) -> (r: bool)
        requires
            old(self).wf(),
        ensures
            final(self).wf(),
            r == old(self)@.in_use(id),
            final(self)@ == old(self)@.released(id),
            !final(self)@.in_use(id),
    {
        let was_pub: bool = match find_message(&self.outgoing_pub, id) {
            Some(i) => {
                self.outgoing_pub.remove(i);
                true
            },
            None => false,
        };
        let was_rel: bool = match find(&self.outgoing_rel, id) {
            Some(i) => {
                self.outgoing_rel.remove(i);
                true
            },
            None => false,
        };
        proof {
            lemma_released(old(self)@, id);
        }
        was_pub || was_rel
    }

    /// PUBACK for `id`. Where a QoS 1 publication waits under `id`, it is
    /// done and its identifier is free again; any other `id` is a protocol
    /// error and changes nothing.
    pub fn on_puback(&mut self, id: u16) -> (r: Result<(), NetworkError>)
        requires
            old(self).wf(),
        ensures
            final(self).wf(),
            old(self)@.awaits(id, QoS::Level1) ==> r.is_ok() && final(self)@ == old(self)@.released(
                id,
            ) && !final(self)@.in_use(id),
            !old(self)@.awaits(id, QoS::Level1) ==> r == Err::<(), NetworkError>(
                NetworkError::Protocol,
            ) && final(self)@ == old(self)@,
    {
        match find_message(&self.outgoing_pub, id) {
            Some(i) => {
                match self.outgoing_pub[i].qos {
                    QoSWithPacketIdentifier::Level1(_) => {
                        self.outgoing_pub.remove(i);
                        proof {
                            lemma_packet_ids_unique(old(self)@);
                            lemma_released(old(self)@, id);
                        }
                        Ok(())
                    },
                    _ => Err(NetworkError::Protocol),
                }
            },
            None => Err(NetworkError::Protocol),
        }
    }

    /// PUBREC for `id`. Where a QoS 2 publication waits under `id`, it moves
    /// to the publications that wait for PUBCOMP, and the answer is
    /// PUBREL; any other `id` is a protocol error and changes nothing.
    pub fn on_pubrec(&mut self, id: u16) -> (r: Result<Packet, NetworkError>)
        requires
            old(self).wf(),
        ensures
            final(self).wf(),
            old(self)@.awaits(id, QoS::Level2) ==> r == Ok::<Packet, NetworkError>(
                Packet::Pubrel(id),
            ) && final(self)@ == old(self)@.received(id),
            !old(self)@.awaits(id, QoS::Level2) ==> r == Err::<Packet, NetworkError>(
                NetworkError::Protocol,
            ) && final(self)@ == old(self)@,
    {
        match find_message(&self.outgoing_pub, id) {
            Some(i) => {
                match self.outgoing_pub[i].qos {
                    QoSWithPacketIdentifier::Level2(_) => {
                        self.outgoing_pub.remove(i);
                        self.outgoing_rel.push(id);
                        proof {
                            lemma_received(old(self)@, id);
                        }
                        Ok(Packet::Pubrel(id))
                    },
                    _ => Err(NetworkError::Protocol),
                }
            },
            None => Err(NetworkError::Protocol),
        }
    }

    /// PUBCOMP for `id`. Where a publication waits for it under `id`, it is
    /// done and its identifier is free again; the result says so. Any other
    /// `id` changes nothing.
    pub fn on_pubcomp(&mut self, id: u16) -> (r: bool)
        requires
            old(self).wf(),
        ensures
            final(self).wf(),
            r == old(self)@.outgoing_rel.contains(id),
            r ==> final(self)@ == old(self)@.released(id) && !final(self)@.in_use(id),
            !r ==> final(self)@ == old(self)@,
    {
        match find(&self.outgoing_rel, id) {
            Some(i) => {
                self.outgoing_rel.remove(i);
                proof {
                    lemma_packet_ids_unique(old(self)@);
                    lemma_released(old(self)@, id);
                }
                true
            },
            None => false,
        }
    }

    /// An inbound QoS 2 publication `id`. Says whether it is new, and so to
    /// be delivered: one that was taken in and not yet released is a replay.
    /// Either way PUBREC is owed, and `id` counts as taken in afterwards.
    pub fn take_in(&mut self, id: u16) -> (fresh: bool)
        requires
            old(self).wf(),
        ensures
            final(self).wf(),
            fresh == !old(self)@.incoming_pub.contains(id),
            final(self)@ == old(self)@.taken_in(id),
            final(self)@.incoming_pub.contains(id),
    {
        match find(&self.incoming_pub, id) {
            Some(_) => false,
            None => {
                self.incoming_pub.push(id);
                proof {
                    let before = old(self)@.incoming_pub;
                    let after = self@.incoming_pub;
                    assert(after[before.len() as int] == id);
                    assert forall|i: int, j: int|
                        0 <= i < after.len() && 0 <= j < after.len() && i != j implies after[i]
                        != after[j] by {
                        if i < before.len() {
                            assert(before[i] == after[i]);
                        }
                        if j < before.len() {
                            assert(before[j] == after[j]);
                        }
                    }
                }
                true
            },
        }
    }

    /// PUBREL for the inbound publication `id`: it is no longer held, so
    /// that the next publication under `id` is new. Says whether it was
    /// held. Either way PUBCOMP is owed.
    pub fn let_go(&mut self, id: u16) -> (held: bool)
        requires
            old(self).wf(),
        ensures
            final(self).wf(),
            held == old(self)@.incoming_pub.contains(id),
            final(self)@ == old(self)@.let_go(id),
            !final(self)@.incoming_pub.contains(id),
    {
        match find(&self.incoming_pub, id) {
            Some(i) => {
                self.incoming_pub.remove(i);
                proof {
                    lemma_position(old(self)@.incoming_pub, id);
                    lemma_remove(old(self)@.incoming_pub, i as int);
                }
                true
            },
            None => false,
        }
    }

    /// The packets that go out again when the session is taken up after a
    /// reconnect: every publication that waits for its first answer, marked
    /// as a duplicate and under its old identifier, then PUBREL for every
    /// publication that waits for PUBCOMP; each group in the order in which
    /// it came in flight.
    pub fn replay(&self) -> (r: Vec<Packet>)
        ensures
            r@ == self@.replay(),
    {
        let mut packets: Vec<Packet> = Vec::new();
        let mut i: usize = 0;
        while i < self.outgoing_pub.len()
            invariant
                i <= self.outgoing_pub.len(),
                packets@.len() == i,
                forall|k: int| 0 <= k < i ==> packets@[k] == self@.replay()[k],
            decreases self.outgoing_pub.len() - i,
        {
            let publish = self.outgoing_pub[i].to_pub(None, true);
            packets.push(Packet::Publish(*publish));
            i += 1;
        }
        let mut j: usize = 0;
        while j < self.outgoing_rel.len()
            invariant
                j <= self.outgoing_rel.len(),
                packets@.len() == self.outgoing_pub.len() + j,
                forall|k: int| 0 <= k < packets@.len() ==> packets@[k] == self@.replay()[k],
            decreases self.outgoing_rel.len() - j,
        {
            packets.push(Packet::Pubrel(self.outgoing_rel[j]));
            j += 1;
        }
        assert(packets@ =~= self@.replay());
        packets
    }

    /// Forgets everything but the bound: the state of a clean session.
    pub fn reset(&mut self)
        ensures
            final(self)@ == Session::fresh(old(self)@.pub_q_len),
            final(self).wf(),
    {
        self.next_pkid = 1;
        self.outgoing_pub = Vec::new();
        self.outgoing_rel = Vec::new();
        self.incoming_pub = Vec::new();
        self.subscriptions = Vec::new();
        self.pending_subscribes = Vec::new();
        self.pending_unsubscribes = Vec::new();
        self.last_pkt_in = 0;
        self.last_pkt_out = 0;
        self.last_ping_sent = 0;
        self.await_pingresp = false;
    }

    /// A copy of what the session subscribes to again after a reconnect.
    pub fn subscriptions(&self) -> (r: Vec<SubscribeTopic>)
        ensures
            r@ == self@.subscriptions,
    {
        let mut topics: Vec<SubscribeTopic> = Vec::new();
        let mut i: usize = 0;
        while i < self.subscriptions.len()
            invariant
                i <= self.subscriptions.len(),
                topics@ == self.subscriptions@.take(i as int),
            decreases self.subscriptions.len() - i,
        {
            let topic = SubscribeTopic {
                topic_path: self.subscriptions[i].topic_path.clone(),
                qos: self.subscriptions[i].qos,
            };
            topics.push(topic);
            assert(self.subscriptions@.take(i + 1) =~= self.subscriptions@.take(i as int).push(
                self.subscriptions@[i as int],
            ));
            i += 1;
        }
        assert(self.subscriptions@.take(self.subscriptions.len() as int) =~= self.subscriptions@);
        topics
    }

    /// A packet came in at `now`: the broker is there, and a PINGREQ that
    /// was out is answered.
    pub fn note_incoming(&mut self, now: u64)
        ensures
            final(self)@ == old(self)@.heard(now),
            old(self).wf() ==> final(self).wf(),
    {
        self.last_pkt_in = now;
        self.await_pingresp = false;
    }

    /// A packet went out at `now`.
    pub fn note_outgoing(&mut self, now: u64)
        ensures
            final(self)@ == old(self)@.spoke(now),
            old(self).wf() ==> final(self).wf(),
    {
        self.last_pkt_out = now;
    }

    /// PINGREQ went out at `now`.
    pub fn note_ping(&mut self, now: u64)
        ensures
            final(self)@ == old(self)@.pinged(now),
            old(self).wf() ==> final(self).wf(),
    {
        self.last_pkt_out = now;
        self.last_ping_sent = now;
        self.await_pingresp = true;
    }

    /// The keep-alive check at `now`, for a keep-alive interval of
    /// `keep_alive`. While a PINGREQ is out, the session fails with
    /// `KeepAliveTimeout` once the interval has passed since it went out.
    /// While none is out, one is due once nothing has gone out for the
    /// interval: it is handed back and counts as sent at `now`.
    pub fn tick(&mut self, now: u64, keep_alive: u64) -> (r: Result<Option<Packet>, NetworkError>)
        ensures
            old(self).wf() ==> final(self).wf(),
            old(self)@.ping_overdue(now, keep_alive) ==> r == Err::<
                Option<Packet>,
                NetworkError,
            >(NetworkError::KeepAliveTimeout) && final(self)@ == old(self)@,
            old(self)@.ping_due(now, keep_alive) ==> r == Ok::<Option<Packet>, NetworkError>(
                Some(Packet::Pingreq),
            ) && final(self)@ == old(self)@.pinged(now),
            !old(self)@.ping_overdue(now, keep_alive) && !old(self)@.ping_due(now, keep_alive)
                ==> r == Ok::<Option<Packet>, NetworkError>(None) && final(self)@ == old(self)@,
    {
        if self.await_pingresp {
            if now >= self.last_ping_sent && now - self.last_ping_sent >= keep_alive {
                Err(NetworkError::KeepAliveTimeout)
            } else {
                Ok(None)
            }
        } else if now >= self.last_pkt_out && now - self.last_pkt_out >= keep_alive {
            self.await_pingresp = true;
            self.last_pkt_out = now;
            self.last_ping_sent = now;
            Ok(Some(Packet::Pingreq))
        } else {
            Ok(None)
        }
    }

    /// SUBSCRIBE went out under `id`: SUBACK for it is awaited.
    pub fn expect_suback(&mut self, id: u16)
        ensures
            final(self)@ == old(self)@.awaiting_suback(id),
            old(self).wf() ==> final(self).wf(),
    {
        self.pending_subscribes.push(id);
    }

    /// UNSUBSCRIBE went out under `id`: UNSUBACK for it is awaited.
    pub fn expect_unsuback(&mut self, id: u16)
        ensures
            final(self)@ == old(self)@.awaiting_unsuback(id),
            old(self).wf() ==> final(self).wf(),
    {
        self.pending_unsubscribes.push(id);
    }

    /// SUBACK for `id`. Where a SUBSCRIBE waits for it, the wait is over;
    /// any other `id` is a protocol error and changes nothing.
    pub fn on_suback(&mut self, id: u16) -> (r: Result<(), NetworkError>)
        ensures
            old(self).wf() ==> final(self).wf(),
            old(self)@.pending_subscribes.contains(id) ==> r.is_ok() && final(self)@ == old(self)@.suback(id),
            !old(self)@.pending_subscribes.contains(id) ==> r == Err::<(), NetworkError>(
                NetworkError::Protocol,
            ) && final(self)@ == old(self)@,
    {
        match find(&self.pending_subscribes, id) {
            Some(i) => {
                self.pending_subscribes.remove(i);
                Ok(())
            },
            None => Err(NetworkError::Protocol),
        }
    }

    /// UNSUBACK for `id`. Where an UNSUBSCRIBE waits for it, the wait is
    /// over; any other `id` is a protocol error and changes nothing.
    pub fn on_unsuback(&mut self, id: u16) -> (r: Result<(), NetworkError>)
        ensures
            old(self).wf() ==> final(self).wf(),
            old(self)@.pending_unsubscribes.contains(id) ==> r.is_ok() && final(self)@ == old(self)@.unsuback(id),
            !old(self)@.pending_unsubscribes.contains(id) ==> r == Err::<(), NetworkError>(
                NetworkError::Protocol,
            ) && final(self)@ == old(self)@,
    {
        match find(&self.pending_unsubscribes, id) {
            Some(i) => {
                self.pending_unsubscribes.remove(i);
                Ok(())
            },
            None => Err(NetworkError::Protocol),
        }
    }

    /// The identifiers of the SUBSCRIBE packets that wait for SUBACK.
    pub fn pending_subscribe_ids(&self) -> (ids: Vec<u16>)
        ensures
            ids@ == self@.pending_subscribes,
    {
        self.pending_subscribes.clone()
    }

    /// The identifiers of the UNSUBSCRIBE packets that wait for UNSUBACK.
    pub fn pending_unsubscribe_ids(&self) -> (ids: Vec<u16>)
        ensures
            ids@ == self@.pending_unsubscribes,
    {
        self.pending_unsubscribes.clone()
    }

    /// Adds `topics` to what is subscribed to again after a reconnect.
    pub fn remember(&mut self, topics: &Vec<SubscribeTopic>)
        ensures
            final(self)@ == old(self)@.subscribed(topics@),
            old(self).wf() ==> final(self).wf(),
    {
        let mut i: usize = 0;
        while i < topics.len()
            invariant
                i <= topics.len(),
                self@ == (Session {
                    subscriptions: old(self)@.subscriptions + topics@.take(i as int),
                    ..old(self)@
                }),
            decreases topics.len() - i,
        {
            let topic = SubscribeTopic { topic_path: topics[i].topic_path.clone(), qos: topics[i].qos };
            self.subscriptions.push(topic);
            assert(topics@.take(i + 1) =~= topics@.take(i as int).push(topics@[i as int]));
            assert(self@.subscriptions =~= old(self)@.subscriptions + topics@.take(i + 1));
            i += 1;
        }
        assert(topics@.take(topics.len() as int) =~= topics@);
    }

    /// Drops the subscriptions that one of `filters` names.
    pub fn forget(&mut self, filters: &Vec<String>)
        ensures
            final(self)@ == old(self)@.unsubscribed(filters@),
            old(self).wf() ==> final(self).wf(),
    {
        let ghost keep = |t: SubscribeTopic| !names(filters@, t.topic_path@);
        let mut kept: Vec<SubscribeTopic> = Vec::new();
        let mut i: usize = 0;
        while i < self.subscriptions.len()
            invariant
                *self == *old(self),
                i <= self.subscriptions.len(),
                keep == |t: SubscribeTopic| !names(filters@, t.topic_path@),
                kept@ == self.subscriptions@.take(i as int).filter(keep),
            decreases self.subscriptions.len() - i,
        {
            proof {
                reveal(Seq::filter);
                assert(self.subscriptions@.take(i + 1).drop_last() =~= self.subscriptions@.take(
                    i as int,
                ));
            }
            if !is_named(filters, &self.subscriptions[i].topic_path) {
                let topic = SubscribeTopic {
                    topic_path: self.subscriptions[i].topic_path.clone(),
                    qos: self.subscriptions[i].qos,
                };
                kept.push(topic);
            }
            i += 1;
        }
        assert(self.subscriptions@.take(self.subscriptions.len() as int) =~= self.subscriptions@);
        self.subscriptions = kept;
    }

    /// Where the search for a free identifier begins.
    pub fn next_pkid(&self) -> (id: u16)
        ensures
            id == self@.next_pkid,
    {
        self.next_pkid
    }

    /// The bound on the publications in flight.
    pub fn pub_q_len(&self) -> (n: usize)
        ensures
            n == self@.pub_q_len,
    {
        self.pub_q_len
    }

    /// Whether no further publication can go in flight.
    pub fn is_full(&self) -> (r: bool)
        requires
            self.wf(),
        ensures
            r == self@.full(),
    {
        let n: usize = self.in_flight();
        n >= self.pub_q_len || n >= MAX_PKID as usize
    }

    /// The identifiers of the publications that wait for PUBACK or PUBREC,
    /// in the order in which they were sent.
    pub fn outgoing_pub_ids(&self) -> (ids: Vec<u16>)
        ensures
            ids@ == self@.pub_ids(),
    {
        let mut ids: Vec<u16> = Vec::new();
        let mut i: usize = 0;
        while i < self.outgoing_pub.len()
            invariant
                i <= self.outgoing_pub.len(),
                ids@.len() == i,
                forall|k: int| 0 <= k < i ==> ids@[k] == pkid_of(self.outgoing_pub@[k]),
            decreases self.outgoing_pub.len() - i,
        {
            ids.push(message_pkid(&self.outgoing_pub[i]));
            i += 1;
        }
        assert(ids@ =~= self@.pub_ids());
        ids
    }

    /// The identifiers of the publications that wait for PUBCOMP, in the
    /// order in which PUBREC came.
    pub fn outgoing_rel_ids(&self) -> (ids: Vec<u16>)
        ensures
            ids@ == self@.outgoing_rel,
    {
        self.outgoing_rel.clone()
    }

    /// The identifiers of the inbound publications that are held.
    pub fn incoming_pub_ids(&self) -> (ids: Vec<u16>)
        ensures
            ids@ == self@.incoming_pub,
    {
        self.incoming_pub.clone()
    }

    /// Whether a PINGREQ is out and unanswered.
    pub fn awaits_pingresp(&self) -> (r: bool)
        ensures
            r == self@.await_pingresp,
    {
        self.await_pingresp
    }

    /// When a packet last came in.
    pub fn last_pkt_in(&self) -> (t: u64)
        ensures
            t == self@.last_pkt_in,
    {
        self.last_pkt_in
    }

    /// When a packet last went out.
    pub fn last_pkt_out(&self) -> (t: u64)
        ensures
            t == self@.last_pkt_out,
    {
        self.last_pkt_out
    }
}

/// The time between two keep-alive checks: half the keep-alive interval.
pub fn tick_interval(keep_alive: u64) -> (r: u64)
    ensures
        r == keep_alive / 2,
{
    keep_alive / 2
}

/// Whether one of `filters` is `topic`.
fn is_named(filters: &Vec<String>, topic: &String) -> (r: bool)
    ensures
        r == names(filters@, topic@),
{
    let mut i: usize = 0;
    while i < filters.len()
        invariant
            i <= filters.len(),
            forall|j: int| 0 <= j < i ==> (#[trigger] filters@[j])@ != topic@,
        decreases filters.len() - i,
    {
        if filters[i] == *topic {
            return true;
        }
        i += 1;
    }
    false
}

} // verus!
