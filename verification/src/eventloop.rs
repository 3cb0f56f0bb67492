//! The decisions of the event loop: what an inbound packet leads to, and
//! what a request of the user becomes on the wire.

use crate::error::NetworkError;
use crate::message::{valid_topic_name, Message};
use crate::packet::{
    Connack, ConnectReturnCode, Packet, PublishPacket, QoS, QoSWithPacketIdentifier, Suback,
    Subscribe, SubscribeTopic, Unsubscribe,
};
use crate::mqttasync::{Side, Tagged};
use crate::session::{Session, SessionState, MAX_PKID};
use vstd::prelude::*;

verus! {

/// An operation of the user before it has become a packet.
#[derive(Debug, PartialEq)]
pub enum Request {
    Publish(Message),
    Subscribe(Vec<SubscribeTopic>),
    Unsubscribe(Vec<String>),
    Ping,
}

/// What an inbound packet lets the user know beside a message.
#[derive(Debug, PartialEq)]
pub enum Notice {
    Nothing,
    /// The broker took the connection; it has kept the session or has not.
    Connected { session_present: bool },
    /// The broker answered a subscription.
    Suback(Suback),
    /// The broker answered the end of a subscription.
    Unsuback(u16),
}

/// What the event loop owes after an inbound packet.
#[derive(Debug, PartialEq)]
pub struct Reaction {
    /// The message to hand to the user's callback.
    pub deliver: Option<Box<Message>>,
    /// The packet to send to the broker.
    pub reply: Option<Packet>,
    pub notice: Notice,
}

impl Reaction {
    /// Nothing is owed.
    pub open spec fn quiet() -> Reaction {
        Reaction { deliver: None, reply: None, notice: Notice::Nothing }
    }

    /// Only a packet to the broker is owed.
    pub open spec fn answer(packet: Packet) -> Reaction {
        Reaction { deliver: None, reply: Some(packet), notice: Notice::Nothing }
    }

    /// Only a word to the user is owed.
    pub open spec fn word(notice: Notice) -> Reaction {
        Reaction { deliver: None, reply: None, notice }
    }
}

/// An inbound PUBLISH that the loop takes: its topic is a topic name, and
/// above QoS 0 its identifier is not zero.
pub open spec fn acceptable(publish: PublishPacket) -> bool {
    valid_topic_name(publish.topic_name@) && publish.qos.pkid() != Some(0u16)
}

/// What CONNACK leads to, once it is known to accept the connection.
pub open spec fn connected(
    heard: Session,
    connack: Connack,
    now: u64,
    clean_session: bool,
    after: Session,
    r: Result<Reaction, NetworkError>,
) -> bool {
    if !connack.session_present && !clean_session && heard.subscriptions.len() > 0
        && heard.in_flight() < MAX_PKID {
        &&& r is Ok
        &&& r->Ok_0.deliver is None
        &&& r->Ok_0.notice == (Notice::Connected { session_present: connack.session_present })
        &&& r->Ok_0.reply matches Some(Packet::Subscribe(again))
        &&& again.pkid == heard.free_id()
        &&& again.topics@ == heard.subscriptions
        &&& after == heard.numbered().awaiting_suback(heard.free_id()).spoke(now)
    } else {
        &&& r == Ok::<Reaction, NetworkError>(
            Reaction::word(Notice::Connected { session_present: connack.session_present }),
        )
        &&& after == heard
    }
}

/// What an acceptable inbound PUBLISH leads to.
pub open spec fn published(heard: Session, publish: PublishPacket, now: u64) -> (Session, Reaction) {
    let message = Some(Box::new(Message::of_publish(publish)));
    match publish.qos {
        QoSWithPacketIdentifier::Level0 => (
            heard,
            Reaction { deliver: message, reply: None, notice: Notice::Nothing },
        ),
        QoSWithPacketIdentifier::Level1(id) => (
            heard.spoke(now),
            Reaction { deliver: message, reply: Some(Packet::Puback(id)), notice: Notice::Nothing },
        ),
        QoSWithPacketIdentifier::Level2(id) => (
            heard.taken_in(id).spoke(now),
            Reaction {
                deliver: if heard.incoming_pub.contains(id) {
                    None
                } else {
                    message
                },
                reply: Some(Packet::Pubrec(id)),
                notice: Notice::Nothing,
            },
        ),
    }
}

/// An inbound packet `packet`, taken at `now` in the session `before`, led
/// to the session `after` and to `r`. Every packet counts as heard. Then:
/// CONNACK that refuses fails with the code, and one that accepts says so
/// and, where the broker kept no session though one was asked for, sets up
/// the subscriptions again; PUBLISH is delivered, once for QoS 2, and
/// answered as its level asks; PUBACK and PUBREC for a publication that
/// does not wait for them are protocol errors; PUBREL is answered with
/// PUBCOMP; SUBACK and UNSUBACK end the wait of the packet that they answer
/// and reach the user, and are protocol errors where none waits; a packet
/// that only a broker receives is a protocol error.
pub open spec fn reacts(
    before: Session,
    packet: Packet,
    now: u64,
    clean_session: bool,
    after: Session,
    r: Result<Reaction, NetworkError>,
) -> bool {
    let heard = before.heard(now);
    let protocol = Err::<Reaction, NetworkError>(NetworkError::Protocol);
    match packet {
        Packet::Connack(connack) => if connack.code != ConnectReturnCode::Accepted {
            r == Err::<Reaction, NetworkError>(NetworkError::ConnectionRefused(connack.code))
                && after == heard
        } else {
            connected(heard, connack, now, clean_session, after, r)
        },
        Packet::Publish(publish) => if acceptable(publish) {
            (after, r) == (
                published(heard, publish, now).0,
                Ok::<Reaction, NetworkError>(published(heard, publish, now).1),
            )
        } else {
            r == protocol && after == heard
        },
        Packet::Puback(id) => if heard.awaits(id, QoS::Level1) {
            r == Ok::<Reaction, NetworkError>(Reaction::quiet()) && after == heard.released(id)
        } else {
            r == protocol && after == heard
        },
        Packet::Pubrec(id) => if heard.awaits(id, QoS::Level2) {
            r == Ok::<Reaction, NetworkError>(Reaction::answer(Packet::Pubrel(id))) && after
                == heard.received(id).spoke(now)
        } else {
            r == protocol && after == heard
        },
        Packet::Pubrel(id) => r == Ok::<Reaction, NetworkError>(
            Reaction::answer(Packet::Pubcomp(id)),
        ) && after == heard.let_go(id).spoke(now),
        Packet::Pubcomp(id) => r == Ok::<Reaction, NetworkError>(Reaction::quiet()) && after == (
            if heard.outgoing_rel.contains(id) {
                heard.released(id)
            } else {
                heard
            }
        ),
        Packet::Suback(suback) => if heard.pending_subscribes.contains(suback.pkid) {
            r == Ok::<Reaction, NetworkError>(Reaction::word(Notice::Suback(suback))) && after
                == heard.suback(suback.pkid)
        } else {
            r == protocol && after == heard
        },
        Packet::Unsuback(id) => if heard.pending_unsubscribes.contains(id) {
            r == Ok::<Reaction, NetworkError>(Reaction::word(Notice::Unsuback(id))) && after
                == heard.unsuback(id)
        } else {
            r == protocol && after == heard
        },
        Packet::Pingresp => r == Ok::<Reaction, NetworkError>(Reaction::quiet()) && after == heard,
        _ => r == protocol && after == heard,
    }
}

/// Takes an inbound packet at `now`. `clean_session` is the flag that the
/// connection was asked for with.
pub fn handle_packet(state: &mut SessionState, packet: Packet, now: u64, clean_session: bool) -> (r:
    Result<Reaction, NetworkError>)
    requires
        old(state).wf(),
    ensures
        final(state).wf(),
        reacts(old(state)@, packet, now, clean_session, final(state)@, r),
{
    state.note_incoming(now);
    let quiet = Reaction { deliver: None, reply: None, notice: Notice::Nothing };
    match packet {
        Packet::Connack(connack) => {
            match connack.code {
                ConnectReturnCode::Accepted => {},
                _ => {
                    return Err(NetworkError::ConnectionRefused(connack.code));
                },
            }
            let notice = Notice::Connected { session_present: connack.session_present };
            if connack.session_present || clean_session {
                return Ok(Reaction { deliver: None, reply: None, notice });
            }
            let topics = state.subscriptions();
            if topics.len() == 0 {
                return Ok(Reaction { deliver: None, reply: None, notice });
            }
            match state.control_id() {
                Some(pkid) => {
                    state.expect_suback(pkid);
                    state.note_outgoing(now);
                    let again = Packet::Subscribe(Subscribe { pkid, topics });
                    Ok(Reaction { deliver: None, reply: Some(again), notice })
                },
                None => Ok(Reaction { deliver: None, reply: None, notice }),
            }
        },
        Packet::Publish(publish) => {
            let message = match Message::from_pub(&publish) {
                Ok(message) => message,
                Err(_) => {
                    return Err(NetworkError::Protocol);
                },
            };
            match publish.qos {
                QoSWithPacketIdentifier::Level0 => Ok(
                    Reaction { deliver: Some(message), reply: None, notice: Notice::Nothing },
                ),
                QoSWithPacketIdentifier::Level1(id) => {
                    if id == 0 {
                        return Err(NetworkError::Protocol);
                    }
                    state.note_outgoing(now);
                    Ok(
                        Reaction {
                            deliver: Some(message),
                            reply: Some(Packet::Puback(id)),
                            notice: Notice::Nothing,
                        },
                    )
                },
                QoSWithPacketIdentifier::Level2(id) => {
                    if id == 0 {
                        return Err(NetworkError::Protocol);
                    }
                    let fresh = state.take_in(id);
                    state.note_outgoing(now);
                    Ok(
                        Reaction {
                            deliver: if fresh {
                                Some(message)
                            } else {
                                None
                            },
                            reply: Some(Packet::Pubrec(id)),
                            notice: Notice::Nothing,
                        },
                    )
                },
            }
        },
        Packet::Puback(id) => {
            match state.on_puback(id) {
                Ok(_) => Ok(quiet),
                Err(e) => Err(e),
            }
        },
        Packet::Pubrec(id) => {
            match state.on_pubrec(id) {
                Ok(pubrel) => {
                    state.note_outgoing(now);
                    Ok(Reaction { deliver: None, reply: Some(pubrel), notice: Notice::Nothing })
                },
                Err(e) => Err(e),
            }
        },
        Packet::Pubrel(id) => {
            state.let_go(id);
            state.note_outgoing(now);
            Ok(Reaction { deliver: None, reply: Some(Packet::Pubcomp(id)), notice: Notice::Nothing })
        },
        Packet::Pubcomp(id) => {
            state.on_pubcomp(id);
            Ok(quiet)
        },
        Packet::Suback(suback) => {
            match state.on_suback(suback.pkid) {
                Ok(_) => Ok(Reaction { deliver: None, reply: None, notice: Notice::Suback(suback) }),
                Err(e) => Err(e),
            }
        },
        Packet::Unsuback(id) => {
            match state.on_unsuback(id) {
                Ok(_) => Ok(Reaction { deliver: None, reply: None, notice: Notice::Unsuback(id) }),
                Err(e) => Err(e),
            }
        },
        Packet::Pingresp => Ok(quiet),
        _ => Err(NetworkError::Protocol),
    }
}

/// What a request leads to at `now`: the session afterwards, and the packet
/// that goes out, or the request itself where it has to wait. A publication
/// above QoS 0 waits while no further one can go in flight; a subscription
/// or its end waits only while every identifier is in use, and once it is
/// out its answer is awaited.
pub open spec fn requested(s: Session, request: Request, now: u64) -> (
    Session,
    Result<Packet, Request>,
) {
    match request {
        Request::Publish(message) => match message.qos.level() {
            QoS::Level0 => (
                s.spoke(now),
                Ok(Packet::Publish(message.as_publish(QoSWithPacketIdentifier::Level0, false))),
            ),
            level => if s.full() {
                (s, Err(request))
            } else {
                (s.sends(message, level).0.spoke(now), Ok(Packet::Publish(s.sends(message, level).1)))
            },
        },
        Request::Subscribe(topics) => if s.in_flight() >= MAX_PKID {
            (s, Err(request))
        } else {
            (
                s.numbered().subscribed(topics@).awaiting_suback(s.free_id()).spoke(now),
                Ok(Packet::Subscribe(Subscribe { pkid: s.free_id(), topics })),
            )
        },
        Request::Unsubscribe(filters) => if s.in_flight() >= MAX_PKID {
            (s, Err(request))
        } else {
            (
                s.numbered().unsubscribed(filters@).awaiting_unsuback(s.free_id()).spoke(now),
                Ok(Packet::Unsubscribe(Unsubscribe { pkid: s.free_id(), topics: filters })),
            )
        },
        Request::Ping => (s.pinged(now), Ok(Packet::Pingreq)),
    }
}

/// Turns a request into the packet that goes out at `now`, or hands the
/// request back where it has to wait.
pub fn handle_request(state: &mut SessionState, request: Request, now: u64) -> (r: Result<
    Packet,
    Request,
>)
    requires
        old(state).wf(),
    ensures
        final(state).wf(),
        (final(state)@, r) == requested(old(state)@, request, now),
{
    match request {
        Request::Publish(message) => {
            let sent = match message.qos {
                QoSWithPacketIdentifier::Level0 => {
                    let packet = message.to_pub(Some(QoSWithPacketIdentifier::Level0), false);
                    state.note_outgoing(now);
                    return Ok(Packet::Publish(*packet));
                },
                QoSWithPacketIdentifier::Level1(_) => state.enqueue_qos1(&message),
                QoSWithPacketIdentifier::Level2(_) => state.enqueue_qos2(&message),
            };
            match sent {
                Ok(packet) => {
                    state.note_outgoing(now);
                    Ok(Packet::Publish(*packet))
                },
                Err(_) => Err(Request::Publish(message)),
            }
        },
        Request::Subscribe(topics) => {
            match state.control_id() {
                Some(pkid) => {
                    state.remember(&topics);
                    state.expect_suback(pkid);
                    state.note_outgoing(now);
                    Ok(Packet::Subscribe(Subscribe { pkid, topics }))
                },
                None => Err(Request::Subscribe(topics)),
            }
        },
        Request::Unsubscribe(filters) => {
            match state.control_id() {
                Some(pkid) => {
                    state.forget(&filters);
                    state.expect_unsuback(pkid);
                    state.note_outgoing(now);
                    Ok(Packet::Unsubscribe(Unsubscribe { pkid, topics: filters }))
                },
                None => Err(Request::Unsubscribe(filters)),
            }
        },
        Request::Ping => {
            state.note_ping(now);
            Ok(Packet::Pingreq)
        },
    }
}

/// `packet` is an acceptable QoS 2 publication under `id`.
pub open spec fn publishes(packet: Packet, id: u16) -> bool {
    packet matches Packet::Publish(publish) && acceptable(publish) && publish.qos
        == QoSWithPacketIdentifier::Level2(id)
}

/// `packet` belongs to the QoS 2 flows from the broker: it is an acceptable
/// QoS 2 publication or PUBREL.
pub open spec fn of_inbound_flow(packet: Packet) -> bool {
    ||| packet is Pubrel
    ||| (packet matches Packet::Publish(publish) && acceptable(publish) && publish.qos is Level2)
}

/// The session after a packet of the QoS 2 flows from the broker.
pub open spec fn inbound(s: Session, packet: Packet, now: u64) -> Session {
    match packet {
        Packet::Publish(publish) => published(s.heard(now), publish, now).0,
        Packet::Pubrel(id) => s.heard(now).let_go(id).spoke(now),
        _ => s,
    }
}

/// How often the user's callback fires for the QoS 2 publication `id`
/// while `packets` come in one after the other.
pub open spec fn deliveries(s: Session, packets: Seq<Packet>, now: u64, id: u16) -> nat
    decreases packets.len(),
{
    if packets.len() == 0 {
        0
    } else {
        let fired: nat = if publishes(packets[0], id) && published(
            s.heard(now),
            packets[0]->Publish_0,
            now,
        ).1.deliver.is_some() {
            1
        } else {
            0
        };
        fired + deliveries(inbound(s, packets[0], now), packets.drop_first(), now, id)
    }
}

/// How many flows under `id` begin in `packets`: a flow begins with a
/// publication under `id` while none is open, and PUBREL for `id` ends it.
pub open spec fn flows(packets: Seq<Packet>, id: u16, open: bool) -> nat
    decreases packets.len(),
{
    if packets.len() == 0 {
        0
    } else if publishes(packets[0], id) {
        (if open {
            0nat
        } else {
            1nat
        }) + flows(packets.drop_first(), id, true)
    } else if packets[0] == Packet::Pubrel(id) {
        flows(packets.drop_first(), id, false)
    } else {
        flows(packets.drop_first(), id, open)
    }
}

/// What `handle_packet` makes of a packet of the QoS 2 flows from the
/// broker is what `inbound` says.
pub proof fn lemma_inbound_is_handled(
    before: Session,
    packet: Packet,
    now: u64,
    clean_session: bool,
    after: Session,
    r: Result<Reaction, NetworkError>,
)
    requires
        of_inbound_flow(packet),
        reacts(before, packet, now, clean_session, after, r),
    ensures
        after == inbound(before, packet, now),
        r.is_ok(),
        packet is Publish ==> r->Ok_0 == published(before.heard(now), packet->Publish_0, now).1,
{
}

/// Exactly once: however publications under `id` and the PUBRELs that
/// answer them follow each other, replays included, the callback fires once
/// for each flow under `id`, and packets under other identifiers change
/// nothing about it.
pub proof fn lemma_delivered_once_per_flow(s: Session, packets: Seq<Packet>, now: u64, id: u16)
    requires
        s.wf(),
        forall|i: int| 0 <= i < packets.len() ==> of_inbound_flow(#[trigger] packets[i]),
    ensures
        deliveries(s, packets, now, id) == flows(packets, id, s.incoming_pub.contains(id)),
    decreases packets.len(),
{
    if packets.len() > 0 {
        let first = packets[0];
        let rest = packets.drop_first();
        let t = inbound(s, first, now);
        assert(of_inbound_flow(first));
        assert forall|i: int| 0 <= i < rest.len() implies of_inbound_flow(#[trigger] rest[i]) by {
            assert(rest[i] == packets[i + 1]);
        }
        let heard = s.heard(now);
        assert(heard.wf());
        match first {
            Packet::Publish(publish) => {
                let k = publish.qos->Level2_0;
                crate::session::lemma_taken_in(heard, k);
                assert(t == heard.taken_in(k).spoke(now));
                assert(t.wf());
            },
            Packet::Pubrel(k) => {
                crate::session::lemma_let_go(heard, k);
                assert(t.wf());
            },
            _ => {},
        }
        lemma_delivered_once_per_flow(t, rest, now, id);
    }
}

/// The packet that stands for a request on its way through the
/// multiplexer: it carries what the request carries, and no identifier yet.
pub open spec fn as_packet(request: Request) -> Packet {
    match request {
        Request::Publish(message) => Packet::Publish(message.as_publish(message.qos, false)),
        Request::Subscribe(topics) => Packet::Subscribe(Subscribe { pkid: 0, topics }),
        Request::Unsubscribe(filters) => Packet::Unsubscribe(
            Unsubscribe { pkid: 0, topics: filters },
        ),
        Request::Ping => Packet::Pingreq,
    }
}

/// The request that a packet from the request stream stands for; none
/// where it is no packet that a user sends, or a publication to a topic
/// that is no topic name.
pub open spec fn as_request(packet: Packet) -> Option<Request> {
    match packet {
        Packet::Publish(publish) => if valid_topic_name(publish.topic_name@) {
            Some(Request::Publish(Message::of_publish(publish)))
        } else {
            None
        },
        Packet::Subscribe(subscribe) => Some(Request::Subscribe(subscribe.topics)),
        Packet::Unsubscribe(unsubscribe) => Some(Request::Unsubscribe(unsubscribe.topics)),
        Packet::Pingreq => Some(Request::Ping),
        _ => None,
    }
}

/// Turns a request into the packet that stands for it.
pub fn request_packet(request: Request) -> (r: Packet)
    ensures
        r == as_packet(request),
{
    match request {
        Request::Publish(message) => Packet::Publish(*message.to_pub(None, false)),
        Request::Subscribe(topics) => Packet::Subscribe(Subscribe { pkid: 0, topics }),
        Request::Unsubscribe(filters) => Packet::Unsubscribe(
            Unsubscribe { pkid: 0, topics: filters },
        ),
        Request::Ping => Packet::Pingreq,
    }
}

/// Reads the request out of a packet from the request stream.
pub fn packet_request(packet: Packet) -> (r: Option<Request>)
    ensures
        r == as_request(packet),
{
    match packet {
        Packet::Publish(publish) => match Message::from_pub(&publish) {
            Ok(message) => Some(Request::Publish(*message)),
            Err(_) => None,
        },
        Packet::Subscribe(subscribe) => Some(Request::Subscribe(subscribe.topics)),
        Packet::Unsubscribe(unsubscribe) => Some(Request::Unsubscribe(unsubscribe.topics)),
        Packet::Pingreq => Some(Request::Ping),
        _ => None,
    }
}

/// A request with a valid topic comes back unchanged from the packet that
/// stands for it.
pub proof fn lemma_request_survives_the_stream(request: Request)
    requires
        request matches Request::Publish(message) ==> valid_topic_name(message.topic@),
    ensures
        as_request(as_packet(request)) == Some(request),
{
}

/// What one packet from the multiplexer comes to.
#[derive(Debug, PartialEq)]
pub enum Turn {
    /// A packet from the broker was taken; this is owed for it.
    Inbound(Reaction),
    /// A request went out as this packet.
    Outbound(Packet),
    /// A request has to wait: this packet goes back in front of the
    /// request stream, to be yielded again.
    Deferred(Packet),
}

/// The packet `tagged`, taken at `now` in the session `before`, led to the
/// session `after` and to `r`. A packet from the broker is reacted to. A
/// packet from the request stream that stands for no request is a protocol
/// error; any other goes out, or waits.
pub open spec fn turned(
    before: Session,
    tagged: Tagged,
    now: u64,
    clean_session: bool,
    after: Session,
    r: Result<Turn, NetworkError>,
) -> bool {
    match tagged.origin {
        Side::Network => match r {
            Ok(Turn::Inbound(reaction)) => reacts(
                before,
                tagged.packet,
                now,
                clean_session,
                after,
                Ok(reaction),
            ),
            Ok(_) => false,
            Err(e) => reacts(before, tagged.packet, now, clean_session, after, Err(e)),
        },
        Side::Requests => match as_request(tagged.packet) {
            None => r == Err::<Turn, NetworkError>(NetworkError::Protocol) && after == before,
            Some(request) => after == requested(before, request, now).0 && r == Ok::<
                Turn,
                NetworkError,
            >(
                match requested(before, request, now).1 {
                    Ok(packet) => Turn::Outbound(packet),
                    Err(back) => Turn::Deferred(as_packet(back)),
                },
            ),
        },
    }
}

/// Takes one packet from the multiplexer at `now`, whichever side it came
/// from.
pub fn handle_tagged(state: &mut SessionState, tagged: Tagged, now: u64, clean_session: bool) -> (r:
    Result<Turn, NetworkError>)
    requires
        old(state).wf(),
    ensures
        final(state).wf(),
        turned(old(state)@, tagged, now, clean_session, final(state)@, r),
{
    match tagged.origin {
        Side::Network => match handle_packet(state, tagged.packet, now, clean_session) {
            Ok(reaction) => Ok(Turn::Inbound(reaction)),
            Err(e) => Err(e),
        },
        Side::Requests => match packet_request(tagged.packet) {
            None => Err(NetworkError::Protocol),
            Some(request) => match handle_request(state, request, now) {
                Ok(packet) => Ok(Turn::Outbound(packet)),
                Err(back) => Ok(Turn::Deferred(request_packet(back))),
            },
        },
    }
}

/// Whatever comes in, the session stays well formed: no identifier gets
/// into both tables, and the publications in flight stay within the bound.
pub proof fn lemma_reaction_keeps_wf(
    before: Session,
    packet: Packet,
    now: u64,
    clean_session: bool,
    after: Session,
    r: Result<Reaction, NetworkError>,
)
    requires
        before.wf(),
        reacts(before, packet, now, clean_session, after, r),
    ensures
        after.wf(),
        after.pub_q_len == before.pub_q_len,
{
    let heard = before.heard(now);
    assert(heard.wf());
    match packet {
        Packet::Publish(publish) => {
            if acceptable(publish) && publish.qos is Level2 {
                crate::session::lemma_taken_in(heard, publish.qos->Level2_0);
            }
        },
        Packet::Puback(id) => {
            crate::session::lemma_released(heard, id);
        },
        Packet::Pubrec(id) => {
            if heard.awaits(id, QoS::Level2) {
                crate::session::lemma_received(heard, id);
            }
        },
        Packet::Pubrel(id) => {
            crate::session::lemma_let_go(heard, id);
        },
        Packet::Pubcomp(id) => {
            crate::session::lemma_released(heard, id);
        },
        _ => {},
    }
}

} // verus!
