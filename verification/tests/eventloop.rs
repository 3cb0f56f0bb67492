use rumqtt::client::{subscribe, unsubscribe, Publisher};
use rumqtt::error::{Error, NetworkError};
use rumqtt::eventloop::{
    handle_packet, handle_request, handle_tagged, packet_request, request_packet, Notice, Reaction,
    Request, Turn,
};
use rumqtt::mqttasync::{AsyncSink, Side, Tagged};
use rumqtt::outbox::Outbox;
use rumqtt::message::Message;
use rumqtt::packet::{
    Connack, Connect, ConnectReturnCode, LastWill, Packet, PublishPacket, QoS,
    QoSWithPacketIdentifier, Suback, Subscribe, SubscribeReturnCodes, SubscribeTopic, Unsubscribe,
};
use rumqtt::queue::RequestQueue;
use rumqtt::session::SessionState;
use rumqtt::supervisor::{
    after_failure, connect_packet, farewell, open_session, prepare, strategy_from_secs, timed_out,
    ReconnectOptions, ReconnectStrategy, Verdict,
};
use std::sync::Arc;

fn message(topic: &str, qos: QoS, payload: &str) -> Message {
    Message {
        topic: topic.to_owned(),
        retain: false,
        qos: QoSWithPacketIdentifier::new(qos, 0),
        payload: Arc::new(payload.as_bytes().to_vec()),
    }
}

fn inbound(topic: &str, qos: QoSWithPacketIdentifier, dup: bool) -> Packet {
    Packet::Publish(PublishPacket {
        dup,
        qos,
        retain: false,
        topic_name: topic.to_owned(),
        payload: Arc::new(b"hello rust".to_vec()),
    })
}

fn quiet() -> Reaction {
    Reaction { deliver: None, reply: None, notice: Notice::Nothing }
}

fn accepted(session_present: bool) -> Packet {
    Packet::Connack(Connack { session_present, code: ConnectReturnCode::Accepted })
}

fn topic(path: &str, qos: QoS) -> SubscribeTopic {
    SubscribeTopic { topic_path: path.to_owned(), qos }
}

#[test]
fn inbound_qos0_is_delivered() {
    let mut s = SessionState::new(5);
    let r = handle_packet(&mut s, inbound("test/basic", QoSWithPacketIdentifier::Level0, false), 7, true)
        .unwrap();
    let delivered = r.deliver.unwrap();
    assert_eq!(delivered.topic, "test/basic");
    assert_eq!(delivered.qos, QoSWithPacketIdentifier::Level0);
    assert_eq!(*delivered.payload, b"hello rust".to_vec());
    assert_eq!(r.reply, None);
    assert_eq!(r.notice, Notice::Nothing);
    assert_eq!(s.last_pkt_in(), 7);
    assert_eq!(s.last_pkt_out(), 0);
}

#[test]
fn inbound_qos1_is_delivered_and_acknowledged() {
    let mut s = SessionState::new(5);
    let r = handle_packet(&mut s, inbound("t", QoSWithPacketIdentifier::Level1(9), false), 7, true)
        .unwrap();
    assert_eq!(r.deliver.unwrap().qos, QoSWithPacketIdentifier::Level1(9));
    assert_eq!(r.reply, Some(Packet::Puback(9)));
    assert_eq!(s.last_pkt_out(), 7);
    // at least once: a duplicate is delivered again
    let r = handle_packet(&mut s, inbound("t", QoSWithPacketIdentifier::Level1(9), true), 8, true)
        .unwrap();
    assert!(r.deliver.is_some());
    assert_eq!(r.reply, Some(Packet::Puback(9)));
}

#[test]
fn inbound_qos2_is_delivered_exactly_once() {
    let mut s = SessionState::new(5);
    let mut delivered = 0;
    for replay in 0..4 {
        let r = handle_packet(
            &mut s,
            inbound("t", QoSWithPacketIdentifier::Level2(3), replay > 0),
            1,
            true,
        )
        .unwrap();
        assert_eq!(r.reply, Some(Packet::Pubrec(3)));
        if r.deliver.is_some() {
            delivered += 1;
        }
    }
    assert_eq!(delivered, 1);
    assert_eq!(s.incoming_pub_ids(), vec![3]);
    let r = handle_packet(&mut s, Packet::Pubrel(3), 2, true).unwrap();
    assert_eq!(r, Reaction { deliver: None, reply: Some(Packet::Pubcomp(3)), notice: Notice::Nothing });
    assert!(s.incoming_pub_ids().is_empty());
    // PUBREL again: PUBCOMP again
    let r = handle_packet(&mut s, Packet::Pubrel(3), 2, true).unwrap();
    assert_eq!(r.reply, Some(Packet::Pubcomp(3)));
    // the identifier is used anew: this is another publication
    let r = handle_packet(&mut s, inbound("t", QoSWithPacketIdentifier::Level2(3), false), 3, true)
        .unwrap();
    assert!(r.deliver.is_some());
}

#[test]
fn inbound_qos2_flows_do_not_disturb_each_other() {
    let mut s = SessionState::new(5);
    let script: Vec<(bool, u16)> = vec![
        (true, 1),
        (true, 2),
        (true, 1),
        (false, 2),
        (true, 1),
        (true, 2),
        (false, 1),
        (true, 1),
        (true, 2),
    ];
    let mut fired = [0, 0, 0];
    for (is_publish, id) in script {
        let packet = if is_publish {
            inbound("t", QoSWithPacketIdentifier::Level2(id), false)
        } else {
            Packet::Pubrel(id)
        };
        if handle_packet(&mut s, packet, 1, true).unwrap().deliver.is_some() {
            fired[id as usize] += 1;
        }
    }
    // flows under 1: two; flows under 2: two
    assert_eq!(fired, [0, 2, 2]);
}

#[test]
fn malformed_inbound_publish_is_a_protocol_error() {
    let mut s = SessionState::new(5);
    for packet in [
        inbound("a/+", QoSWithPacketIdentifier::Level0, false),
        inbound("", QoSWithPacketIdentifier::Level1(1), false),
        inbound("t", QoSWithPacketIdentifier::Level1(0), false),
        inbound("t", QoSWithPacketIdentifier::Level2(0), false),
    ] {
        assert!(matches!(handle_packet(&mut s, packet, 4, true), Err(NetworkError::Protocol)));
    }
    assert!(s.incoming_pub_ids().is_empty());
    assert_eq!(s.last_pkt_in(), 4);
    assert_eq!(s.last_pkt_out(), 0);
}

#[test]
fn acknowledgements_move_the_tables() {
    let mut s = SessionState::new(5);
    let mut q = RequestQueue::new(5);
    let publisher = Publisher::new();
    publisher.publish(&mut q, "t", QoS::Level1, vec![1]).unwrap();
    publisher.publish(&mut q, "t", QoS::Level2, vec![2]).unwrap();
    assert_eq!(q.drain(&mut s, 0).len(), 2);
    assert_eq!(handle_packet(&mut s, Packet::Puback(1), 1, true).unwrap(), quiet());
    assert_eq!(
        handle_packet(&mut s, Packet::Pubrec(2), 1, true).unwrap(),
        Reaction { deliver: None, reply: Some(Packet::Pubrel(2)), notice: Notice::Nothing }
    );
    assert_eq!(s.outgoing_rel_ids(), vec![2]);
    assert_eq!(handle_packet(&mut s, Packet::Pubcomp(2), 1, true).unwrap(), quiet());
    assert_eq!(s.in_flight(), 0);
    // unknown identifiers
    assert!(matches!(handle_packet(&mut s, Packet::Puback(1), 1, true), Err(NetworkError::Protocol)));
    assert!(matches!(handle_packet(&mut s, Packet::Pubrec(2), 1, true), Err(NetworkError::Protocol)));
    assert_eq!(handle_packet(&mut s, Packet::Pubcomp(2), 1, true).unwrap(), quiet());
}

#[test]
fn connack_refused_fails_with_the_code() {
    for code in [
        ConnectReturnCode::RefusedProtocolVersion,
        ConnectReturnCode::RefusedIdentifierRejected,
        ConnectReturnCode::ServerUnavailable,
        ConnectReturnCode::BadUsernamePassword,
        ConnectReturnCode::NotAuthorized,
    ] {
        let mut s = SessionState::new(5);
        match handle_packet(&mut s, Packet::Connack(Connack { session_present: false, code }), 1, false) {
            Err(NetworkError::ConnectionRefused(c)) => assert_eq!(c, code),
            other => panic!("expected a refusal, got {:?}", other),
        }
    }
}

#[test]
fn connack_sets_subscriptions_up_again_when_the_broker_forgot() {
    let mut s = SessionState::new(5);
    s.remember(&vec![topic("test/reconnect", QoS::Level2), topic("a/#", QoS::Level0)]);
    let r = handle_packet(&mut s, accepted(false), 3, false).unwrap();
    assert_eq!(r.notice, Notice::Connected { session_present: false });
    assert_eq!(r.deliver, None);
    assert_eq!(
        r.reply,
        Some(Packet::Subscribe(Subscribe {
            pkid: 1,
            topics: vec![topic("test/reconnect", QoS::Level2), topic("a/#", QoS::Level0)],
        }))
    );
    assert_eq!(s.next_pkid(), 2);
    assert_eq!(s.last_pkt_out(), 3);
    // the list is kept for the next time
    assert_eq!(s.subscriptions().len(), 2);
}

#[test]
fn connack_needs_no_subscriptions_otherwise() {
    // the broker kept the session
    let mut s = SessionState::new(5);
    s.remember(&vec![topic("a", QoS::Level0)]);
    let r = handle_packet(&mut s, accepted(true), 3, false).unwrap();
    assert_eq!(
        r,
        Reaction { deliver: None, reply: None, notice: Notice::Connected { session_present: true } }
    );
    // a clean session was asked for
    let r = handle_packet(&mut s, accepted(false), 3, true).unwrap();
    assert_eq!(r.reply, None);
    // nothing is subscribed to
    let mut s = SessionState::new(5);
    let r = handle_packet(&mut s, accepted(false), 3, false).unwrap();
    assert_eq!(r.reply, None);
    assert_eq!(s.next_pkid(), 1);
}

#[test]
fn suback_unsuback_pingresp() {
    let mut s = SessionState::new(5);
    handle_request(&mut s, Request::Ping, 0).unwrap();
    handle_request(&mut s, Request::Subscribe(vec![topic("a", QoS::Level1)]), 0).unwrap();
    handle_request(&mut s, Request::Unsubscribe(vec!["b".to_owned()]), 0).unwrap();
    assert_eq!(s.pending_subscribe_ids(), vec![1]);
    assert_eq!(s.pending_unsubscribe_ids(), vec![2]);
    s.note_ping(1);
    let suback = Suback {
        pkid: 1,
        return_codes: vec![SubscribeReturnCodes::Success(QoS::Level1), SubscribeReturnCodes::Failure],
    };
    let r = handle_packet(&mut s, Packet::Suback(suback.clone()), 2, true).unwrap();
    assert_eq!(r, Reaction { deliver: None, reply: None, notice: Notice::Suback(suback) });
    assert!(s.pending_subscribe_ids().is_empty());
    // any packet shows that the broker is there
    assert!(!s.awaits_pingresp());
    s.note_ping(3);
    let r = handle_packet(&mut s, Packet::Unsuback(2), 4, true).unwrap();
    assert_eq!(r.notice, Notice::Unsuback(2));
    assert!(s.pending_unsubscribe_ids().is_empty());
    s.note_ping(5);
    assert_eq!(handle_packet(&mut s, Packet::Pingresp, 6, true).unwrap(), quiet());
    assert!(!s.awaits_pingresp());
    assert_eq!(s.last_pkt_in(), 6);
}

#[test]
fn answers_to_nothing_are_protocol_errors() {
    let mut s = SessionState::new(5);
    handle_request(&mut s, Request::Subscribe(vec![topic("a", QoS::Level1)]), 0).unwrap();
    handle_request(&mut s, Request::Unsubscribe(vec!["b".to_owned()]), 0).unwrap();
    let stray = Suback { pkid: 2, return_codes: vec![] };
    assert!(matches!(
        handle_packet(&mut s, Packet::Suback(stray), 1, true),
        Err(NetworkError::Protocol)
    ));
    assert!(matches!(handle_packet(&mut s, Packet::Unsuback(1), 1, true), Err(NetworkError::Protocol)));
    assert_eq!(s.pending_subscribe_ids(), vec![1]);
    assert_eq!(s.pending_unsubscribe_ids(), vec![2]);
    // each is answered once
    assert!(handle_packet(&mut s, Packet::Unsuback(2), 1, true).is_ok());
    assert!(matches!(handle_packet(&mut s, Packet::Unsuback(2), 1, true), Err(NetworkError::Protocol)));
}

#[test]
fn a_session_opens_with_connack() {
    let mut s = SessionState::new(5);
    assert!(matches!(open_session(&mut s, Packet::Pingresp, 3, true), Err(NetworkError::Protocol)));
    assert!(matches!(open_session(&mut s, Packet::Puback(1), 3, true), Err(NetworkError::Protocol)));
    assert_eq!(s.last_pkt_in(), 3);
    let r = open_session(&mut s, accepted(true), 4, false).unwrap();
    assert_eq!(r.notice, Notice::Connected { session_present: true });
    assert!(matches!(
        open_session(
            &mut s,
            Packet::Connack(Connack { session_present: false, code: ConnectReturnCode::NotAuthorized }),
            5,
            false
        ),
        Err(NetworkError::ConnectionRefused(ConnectReturnCode::NotAuthorized))
    ));
}

#[test]
fn waits_time_out() {
    assert!(!timed_out(10, 14, 5));
    assert!(timed_out(10, 15, 5));
    assert!(timed_out(10, 16, 5));
    assert!(timed_out(10, 10, 0));
    // a clock that went back
    assert!(!timed_out(10, 9, 0));
    assert!(!timed_out(10, 3, 5));
}

#[test]
fn refused_packets_are_offered_again_first() {
    let mut outbox = Outbox::new();
    assert!(outbox.is_empty());
    assert_eq!(outbox.next(), None);
    outbox.queue(Packet::Puback(1));
    outbox.queue_all(vec![Packet::Puback(2), Packet::Puback(3)]);
    assert!(!outbox.is_empty());
    let first = outbox.next().unwrap();
    assert_eq!(first, Packet::Puback(1));
    // the sink is full
    outbox.offered(AsyncSink::NotReady(first));
    assert_eq!(outbox.next(), Some(Packet::Puback(1)));
    outbox.offered(AsyncSink::Ready);
    assert_eq!(outbox.next(), Some(Packet::Puback(2)));
    outbox.offered(AsyncSink::Ready);
    outbox.queue(Packet::Puback(4));
    assert_eq!(outbox.next(), Some(Packet::Puback(3)));
    assert_eq!(outbox.next(), Some(Packet::Puback(4)));
    assert!(outbox.is_empty());
}

#[test]
fn requests_travel_as_packets() {
    let m = message("t", QoS::Level1, "x");
    let packet = request_packet(Request::Publish(m.clone()));
    match &packet {
        Packet::Publish(p) => {
            assert!(!p.dup);
            assert_eq!(p.qos, QoSWithPacketIdentifier::Level1(0));
        }
        other => panic!("expected PUBLISH, got {:?}", other),
    }
    assert_eq!(packet_request(packet), Some(Request::Publish(m)));
    let topics = vec![topic("a/#", QoS::Level2)];
    assert_eq!(
        packet_request(request_packet(Request::Subscribe(topics.clone()))),
        Some(Request::Subscribe(topics))
    );
    assert_eq!(
        packet_request(request_packet(Request::Unsubscribe(vec!["a".to_owned()]))),
        Some(Request::Unsubscribe(vec!["a".to_owned()]))
    );
    assert_eq!(packet_request(request_packet(Request::Ping)), Some(Request::Ping));
    assert_eq!(packet_request(Packet::Pingresp), None);
    assert_eq!(packet_request(Packet::Puback(1)), None);
    assert_eq!(packet_request(inbound("a/+", QoSWithPacketIdentifier::Level0, false)), None);
}

#[test]
fn tagged_packets_go_to_their_side() {
    let mut s = SessionState::new(1);
    let from_user = Tagged { origin: Side::Requests, packet: request_packet(Request::Publish(message("t", QoS::Level1, "x"))) };
    match handle_tagged(&mut s, from_user, 1, true).unwrap() {
        Turn::Outbound(Packet::Publish(p)) => assert_eq!(p.qos, QoSWithPacketIdentifier::Level1(1)),
        other => panic!("expected a packet to send, got {:?}", other),
    }
    // the window is full: the next one comes back as it went in
    let waiting = request_packet(Request::Publish(message("t", QoS::Level2, "y")));
    let from_user = Tagged { origin: Side::Requests, packet: waiting.clone() };
    assert_eq!(handle_tagged(&mut s, from_user, 2, true).unwrap(), Turn::Deferred(waiting));
    // the same packet from the broker is an acknowledgement awaited
    let from_broker = Tagged { origin: Side::Network, packet: Packet::Puback(1) };
    assert_eq!(handle_tagged(&mut s, from_broker, 3, true).unwrap(), Turn::Inbound(quiet()));
    // what no user sends
    let stray = Tagged { origin: Side::Requests, packet: Packet::Puback(1) };
    assert!(matches!(handle_tagged(&mut s, stray, 4, true), Err(NetworkError::Protocol)));
    assert_eq!(s.last_pkt_in(), 3);
}

#[test]
fn packets_for_a_broker_are_protocol_errors() {
    let connect = Connect {
        keep_alive: 5,
        client_id: "c".to_owned(),
        clean_session: true,
        last_will: None,
        username: None,
        password: None,
    };
    for packet in [
        Packet::Connect(connect),
        Packet::Subscribe(Subscribe { pkid: 1, topics: vec![] }),
        Packet::Unsubscribe(Unsubscribe { pkid: 1, topics: vec![] }),
        Packet::Pingreq,
        Packet::Disconnect,
    ] {
        let mut s = SessionState::new(5);
        assert!(matches!(handle_packet(&mut s, packet, 1, true), Err(NetworkError::Protocol)));
    }
}

#[test]
fn requests_become_packets() {
    let mut s = SessionState::new(5);
    let m = message("test/basic", QoS::Level0, "hello rust");
    match handle_request(&mut s, Request::Publish(m.clone()), 10).unwrap() {
        Packet::Publish(p) => {
            assert_eq!(p.qos, QoSWithPacketIdentifier::Level0);
            assert!(!p.dup);
            assert_eq!(p.topic_name, "test/basic");
            assert!(Arc::ptr_eq(&p.payload, &m.payload));
        }
        other => panic!("expected PUBLISH, got {:?}", other),
    }
    assert_eq!(s.in_flight(), 0);
    assert_eq!(s.last_pkt_out(), 10);

    let m = message("test/basic", QoS::Level1, "hello rust");
    match handle_request(&mut s, Request::Publish(m), 11).unwrap() {
        Packet::Publish(p) => assert_eq!(p.qos, QoSWithPacketIdentifier::Level1(1)),
        other => panic!("expected PUBLISH, got {:?}", other),
    }
    let m = message("test/basic", QoS::Level2, "hello rust");
    match handle_request(&mut s, Request::Publish(m), 12).unwrap() {
        Packet::Publish(p) => assert_eq!(p.qos, QoSWithPacketIdentifier::Level2(2)),
        other => panic!("expected PUBLISH, got {:?}", other),
    }
    assert_eq!(s.outgoing_pub_ids(), vec![1, 2]);

    let topics = vec![topic("test/basic", QoS::Level0)];
    assert_eq!(
        handle_request(&mut s, Request::Subscribe(topics.clone()), 13).unwrap(),
        Packet::Subscribe(Subscribe { pkid: 3, topics: topics.clone() })
    );
    assert_eq!(s.subscriptions(), topics);
    assert_eq!(
        handle_request(&mut s, Request::Unsubscribe(vec!["test/basic".to_owned()]), 14).unwrap(),
        Packet::Unsubscribe(Unsubscribe { pkid: 4, topics: vec!["test/basic".to_owned()] })
    );
    assert!(s.subscriptions().is_empty());
    assert_eq!(handle_request(&mut s, Request::Ping, 15).unwrap(), Packet::Pingreq);
    assert!(s.awaits_pingresp());
    assert_eq!(s.last_pkt_out(), 15);
}

#[test]
fn a_publish_waits_while_the_window_is_full() {
    let mut s = SessionState::new(1);
    handle_request(&mut s, Request::Publish(message("t", QoS::Level1, "a")), 1).unwrap();
    let waiting = message("t", QoS::Level2, "b");
    match handle_request(&mut s, Request::Publish(waiting.clone()), 2) {
        Err(Request::Publish(back)) => assert_eq!(back, waiting),
        other => panic!("expected the request back, got {:?}", other),
    }
    assert_eq!(s.last_pkt_out(), 1);
    // QoS 0 and control packets go on
    assert!(handle_request(&mut s, Request::Publish(message("t", QoS::Level0, "c")), 3).is_ok());
    assert!(handle_request(&mut s, Request::Subscribe(vec![topic("t", QoS::Level0)]), 3).is_ok());
}

#[test]
fn queue_is_bounded_and_first_in_first_out() {
    let mut q = RequestQueue::new(2);
    assert_eq!(q.len(), 0);
    assert_eq!(q.pop(), None);
    assert_eq!(q.push(Request::Ping), Ok(()));
    assert_eq!(q.push(Request::Subscribe(vec![])), Ok(()));
    assert_eq!(q.push(Request::Ping), Err(Error::QueueFull));
    assert_eq!(q.len(), 2);
    assert_eq!(q.pop(), Some(Request::Ping));
    assert_eq!(q.pop(), Some(Request::Subscribe(vec![])));
    assert_eq!(q.pop(), None);
    let mut none = RequestQueue::new(0);
    assert_eq!(none.push(Request::Ping), Err(Error::QueueFull));
}

#[test]
fn a_closed_queue_takes_nothing() {
    let mut q = RequestQueue::new(2);
    let publisher = Publisher::new();
    publisher.publish(&mut q, "a", QoS::Level0, vec![]).unwrap();
    assert!(!q.closed());
    q.close();
    assert!(q.closed());
    assert_eq!(q.push(Request::Ping), Err(Error::Closed));
    assert_eq!(publisher.publish(&mut q, "a", QoS::Level0, vec![]), Err(Error::Closed));
    assert_eq!(subscribe(&mut q, vec![topic("a", QoS::Level0)]), Err(Error::Closed));
    assert_eq!(unsubscribe(&mut q, vec!["a".to_owned()]), Err(Error::Closed));
    // a bad topic is a bad topic all the same
    assert_eq!(publisher.publish(&mut q, "a/#", QoS::Level0, vec![]), Err(Error::InvalidTopic));
    // closed goes before full
    let mut full = RequestQueue::new(0);
    full.close();
    assert_eq!(full.push(Request::Ping), Err(Error::Closed));
    // what waited is still there
    assert_eq!(q.len(), 1);
    assert!(matches!(q.pop(), Some(Request::Publish(_))));
}

#[test]
fn publisher_queues_messages_with_sticky_retain() {
    let mut q = RequestQueue::new(10);
    let mut publisher = Publisher::new();
    publisher.publish(&mut q, "test/0/retain", QoS::Level0, b"hello rust".to_vec()).unwrap();
    publisher.set_retain(true);
    publisher.publish(&mut q, "test/1/retain", QoS::Level1, b"hello rust".to_vec()).unwrap();
    publisher.publish(&mut q, "test/2/retain", QoS::Level2, b"hello rust".to_vec()).unwrap();
    publisher.set_retain(false);
    publisher.publish(&mut q, "test/3/retain", QoS::Level1, vec![]).unwrap();
    let expected = [
        ("test/0/retain", false, QoSWithPacketIdentifier::Level0),
        ("test/1/retain", true, QoSWithPacketIdentifier::Level1(0)),
        ("test/2/retain", true, QoSWithPacketIdentifier::Level2(0)),
        ("test/3/retain", false, QoSWithPacketIdentifier::Level1(0)),
    ];
    for (topic, retain, qos) in expected {
        match q.pop() {
            Some(Request::Publish(m)) => {
                assert_eq!(m.topic, topic);
                assert_eq!(m.retain, retain);
                assert_eq!(m.qos, qos);
            }
            other => panic!("expected a publication, got {:?}", other),
        }
    }
}

#[test]
fn publisher_refuses_bad_topics_and_full_queues() {
    let mut q = RequestQueue::new(1);
    let publisher = Publisher::new();
    assert_eq!(publisher.publish(&mut q, "a/#", QoS::Level0, vec![]), Err(Error::InvalidTopic));
    assert_eq!(publisher.publish(&mut q, "", QoS::Level0, vec![]), Err(Error::InvalidTopic));
    assert_eq!(q.len(), 0);
    assert_eq!(publisher.publish(&mut q, "a", QoS::Level0, vec![]), Ok(()));
    assert_eq!(publisher.publish(&mut q, "a", QoS::Level0, vec![]), Err(Error::QueueFull));
    assert_eq!(subscribe(&mut q, vec![topic("a", QoS::Level0)]), Err(Error::QueueFull));
    assert_eq!(unsubscribe(&mut q, vec!["a".to_owned()]), Err(Error::QueueFull));
    assert_eq!(q.len(), 1);
}

#[test]
fn drain_sends_in_the_order_of_the_requests() {
    let mut s = SessionState::new(10);
    let mut q = RequestQueue::new(10);
    let publisher = Publisher::new();
    publisher.publish(&mut q, "t", QoS::Level1, b"r1".to_vec()).unwrap();
    subscribe(&mut q, vec![topic("t", QoS::Level1)]).unwrap();
    publisher.publish(&mut q, "t", QoS::Level0, b"r2".to_vec()).unwrap();
    publisher.publish(&mut q, "t", QoS::Level2, b"r3".to_vec()).unwrap();
    unsubscribe(&mut q, vec!["t".to_owned()]).unwrap();
    let out = q.drain(&mut s, 5);
    assert_eq!(q.len(), 0);
    assert_eq!(out.len(), 5);
    let payloads: Vec<Vec<u8>> = out
        .iter()
        .filter_map(|p| match p {
            Packet::Publish(p) => {
                assert!(!p.dup);
                Some((*p.payload).clone())
            }
            _ => None,
        })
        .collect();
    assert_eq!(payloads, vec![b"r1".to_vec(), b"r2".to_vec(), b"r3".to_vec()]);
    assert!(matches!(&out[1], Packet::Subscribe(sub) if sub.pkid == 2));
    assert!(matches!(&out[4], Packet::Unsubscribe(u) if u.pkid == 4));
    assert_eq!(s.outgoing_pub_ids(), vec![1, 3]);
}

#[test]
fn drain_stops_at_the_first_request_that_waits() {
    let n = 5usize;
    let mut s = SessionState::new(n);
    let mut q = RequestQueue::new(n + 3);
    let publisher = Publisher::new();
    for i in 0..n + 1 {
        publisher.publish(&mut q, "t", QoS::Level1, vec![i as u8]).unwrap();
    }
    // behind the one that waits: these stay too, though they need no room
    publisher.publish(&mut q, "t", QoS::Level0, vec![99]).unwrap();
    q.push(Request::Ping).unwrap();
    let out = q.drain(&mut s, 1);
    assert_eq!(out.len(), n);
    assert_eq!(s.in_flight(), n);
    assert!(s.is_full());
    assert_eq!(q.len(), 3);
    // nothing more until an acknowledgement comes
    assert!(q.drain(&mut s, 2).is_empty());
    assert_eq!(q.len(), 3);
    handle_packet(&mut s, Packet::Puback(3), 3, true).unwrap();
    let out = q.drain(&mut s, 4);
    assert_eq!(out.len(), 3);
    match &out[0] {
        Packet::Publish(p) => {
            assert_eq!(*p.payload, vec![n as u8]);
            // 6 is the next after 5; 3 is free again but lies behind
            assert_eq!(p.qos, QoSWithPacketIdentifier::Level1(6));
        }
        other => panic!("expected PUBLISH, got {:?}", other),
    }
    assert_eq!(out[2], Packet::Pingreq);
    assert_eq!(q.len(), 0);
}

#[test]
fn resume_replays_before_new_requests() {
    let mut s = SessionState::new(10);
    let mut q = RequestQueue::new(10);
    let publisher = Publisher::new();
    publisher.publish(&mut q, "t", QoS::Level1, b"old 1".to_vec()).unwrap();
    publisher.publish(&mut q, "t", QoS::Level2, b"old 2".to_vec()).unwrap();
    publisher.publish(&mut q, "t", QoS::Level2, b"old 3".to_vec()).unwrap();
    q.drain(&mut s, 1);
    handle_packet(&mut s, Packet::Pubrec(2), 2, false).unwrap();
    // the connection is lost; the user goes on publishing
    publisher.publish(&mut q, "t", QoS::Level1, b"new".to_vec()).unwrap();
    prepare(&mut s, false);
    let out = q.resume(&mut s, 20);
    assert_eq!(out.len(), 4);
    match (&out[0], &out[1], &out[2], &out[3]) {
        (Packet::Publish(a), Packet::Publish(b), Packet::Pubrel(2), Packet::Publish(c)) => {
            assert!(a.dup && b.dup && !c.dup);
            assert_eq!(a.qos, QoSWithPacketIdentifier::Level1(1));
            assert_eq!(b.qos, QoSWithPacketIdentifier::Level2(3));
            assert_eq!(c.qos, QoSWithPacketIdentifier::Level1(4));
            assert_eq!(*a.payload, b"old 1".to_vec());
            assert_eq!(*b.payload, b"old 3".to_vec());
            assert_eq!(*c.payload, b"new".to_vec());
        }
        other => panic!("unexpected replay {:?}", other),
    }
    assert_eq!(s.last_pkt_out(), 20);
    assert_eq!(s.in_flight(), 4);
}

#[test]
fn clean_session_replays_nothing() {
    let mut s = SessionState::new(10);
    let mut q = RequestQueue::new(10);
    let publisher = Publisher::new();
    publisher.publish(&mut q, "t", QoS::Level1, b"lost".to_vec()).unwrap();
    q.drain(&mut s, 1);
    publisher.publish(&mut q, "t", QoS::Level1, b"new".to_vec()).unwrap();
    prepare(&mut s, true);
    assert_eq!(s.in_flight(), 0);
    assert_eq!(s.pub_q_len(), 10);
    let out = q.resume(&mut s, 2);
    assert_eq!(out.len(), 1);
    match &out[0] {
        Packet::Publish(p) => {
            assert!(!p.dup);
            assert_eq!(p.qos, QoSWithPacketIdentifier::Level1(1));
            assert_eq!(*p.payload, b"new".to_vec());
        }
        other => panic!("expected PUBLISH, got {:?}", other),
    }
}

#[test]
fn resume_with_nothing_in_flight_does_not_count_as_sending() {
    let mut s = SessionState::new(10);
    let mut q = RequestQueue::new(10);
    assert!(q.resume(&mut s, 9).is_empty());
    assert_eq!(s.last_pkt_out(), 0);
}

#[test]
fn reconnect_strategies() {
    assert_eq!(strategy_from_secs(0), ReconnectStrategy::Never);
    assert_eq!(strategy_from_secs(5), ReconnectStrategy::AfterFirstSuccess(5));
    let closed = NetworkError::NetworkClosed;
    let refused = NetworkError::ConnectionRefused(ConnectReturnCode::NotAuthorized);
    for connected in [true, false] {
        for first in [true, false] {
            assert_eq!(after_failure(ReconnectStrategy::Never, &closed, connected, first), Verdict::GiveUp);
            assert_eq!(
                after_failure(ReconnectStrategy::Always(3), &NetworkError::Shutdown, connected, first),
                Verdict::Done
            );
            assert_eq!(
                after_failure(ReconnectStrategy::Never, &NetworkError::Shutdown, connected, first),
                Verdict::Done
            );
            assert_eq!(
                after_failure(ReconnectStrategy::Always(3), &closed, connected, first),
                Verdict::Retry { delay: 3 }
            );
            assert_eq!(
                after_failure(ReconnectStrategy::AfterFirstSuccess(4), &closed, connected, first),
                if connected { Verdict::Retry { delay: 4 } } else { Verdict::GiveUp }
            );
            assert_eq!(
                after_failure(ReconnectStrategy::Always(3), &refused, connected, first),
                if first { Verdict::GiveUp } else { Verdict::Retry { delay: 3 } }
            );
        }
    }
    assert_eq!(
        after_failure(ReconnectStrategy::AfterFirstSuccess(5), &NetworkError::UserDisconnect, true, false),
        Verdict::Retry { delay: 5 }
    );
    assert_eq!(
        after_failure(ReconnectStrategy::AfterFirstSuccess(5), &NetworkError::KeepAliveTimeout, true, false),
        Verdict::Retry { delay: 5 }
    );
}

#[test]
fn farewell_on_user_request_only() {
    assert_eq!(farewell(&NetworkError::UserDisconnect), Some(Packet::Disconnect));
    assert_eq!(farewell(&NetworkError::Shutdown), Some(Packet::Disconnect));
    assert_eq!(farewell(&NetworkError::NetworkClosed), None);
    assert_eq!(farewell(&NetworkError::Protocol), None);
    assert_eq!(farewell(&NetworkError::KeepAliveTimeout), None);
}

#[test]
fn connect_carries_the_options() {
    let options = ReconnectOptions {
        strategy: ReconnectStrategy::AfterFirstSuccess(15),
        keep_alive_secs: 5,
        clean_session: false,
        last_will: Some(LastWill {
            topic: "test/will".to_owned(),
            message: "I'm dead".to_owned(),
            qos: QoS::Level0,
            retain: false,
        }),
    };
    let connect = connect_packet(&options, &"test-will-c1".to_owned(), Some("u".to_owned()), None);
    assert_eq!(
        connect,
        Connect {
            keep_alive: 5,
            client_id: "test-will-c1".to_owned(),
            clean_session: false,
            last_will: options.last_will.clone(),
            username: Some("u".to_owned()),
            password: None,
        }
    );
}
