use rumqtt::error::NetworkError;
use rumqtt::mqttasync::{
    new, Async, AsyncSink, MqttStream, Poll, PollError, Round, Side, Tagged,
};
use rumqtt::packet::{Command, Packet};
use rumqtt::prepend::Prepend;
use std::io;

type Stream = MqttStream<&'static str, &'static str, &'static str, &'static str>;

fn stream() -> Stream {
    new("network in", "network out", Prepend::new("requests"), "commands")
}

fn in_place(s: &Stream) -> bool {
    s.request_stream.is_some() && s.command_stream.is_some()
}

fn item(id: u16) -> Poll<Option<Packet>, NetworkError> {
    Ok(Async::Ready(Some(Packet::Puback(id))))
}

fn end() -> Poll<Option<Packet>, NetworkError> {
    Ok(Async::Ready(None))
}

fn not_ready() -> Poll<Option<Packet>, NetworkError> {
    Ok(Async::NotReady)
}

fn no_command() -> Poll<Option<Command>, NetworkError> {
    Ok(Async::NotReady)
}

fn command(c: Command) -> Poll<Option<Command>, NetworkError> {
    Ok(Async::Ready(Some(c)))
}

fn yielded(r: Poll<Option<Tagged>, PollError<&'static str, &'static str>>) -> Option<u16> {
    match r {
        Ok(Async::Ready(Some(Tagged { packet: Packet::Puback(id), .. }))) => Some(id),
        _ => None,
    }
}

fn from(origin: Side, id: u16) -> Poll<Option<Tagged>, NetworkError> {
    Ok(Async::Ready(Some(Tagged { origin, packet: Packet::Puback(id) })))
}

#[test]
fn yielded_packets_are_tagged_with_their_origin() {
    let mut s = stream();
    assert_eq!(s.interleave(item(1), item(2)).unwrap(), from(Side::Requests, 1).unwrap());
    assert_eq!(s.interleave(item(1), item(2)).unwrap(), from(Side::Network, 2).unwrap());
    // passed over, not out of turn
    assert_eq!(s.interleave(item(1), not_ready()).unwrap(), from(Side::Requests, 1).unwrap());
    assert_eq!(s.interleave(not_ready(), item(2)).unwrap(), from(Side::Network, 2).unwrap());
}

#[test]
fn new_stream_is_running_with_requests_first() {
    let s = stream();
    assert!(!s.is_paused);
    assert!(s.flag);
    assert_eq!(s.first(), Side::Requests);
    assert_eq!(s.network_stream, "network in");
    assert_eq!(s.network_sink, "network out");
    assert_eq!(s.request_stream.as_ref().map(|p| p.stream), Some("requests"));
    assert_eq!(s.command_stream, Some("commands"));
}

#[test]
fn two_ready_streams_take_turns() {
    let mut s = stream();
    let mut from_requests = 0;
    let mut from_network = 0;
    let mut order = Vec::new();
    for _ in 0..7 {
        // requests yield 1, the network yields 2
        match yielded(s.poll(no_command(), item(1), item(2))) {
            Some(1) => {
                from_requests += 1;
                order.push(Side::Requests);
            }
            Some(2) => {
                from_network += 1;
                order.push(Side::Network);
            }
            _ => panic!("a ready stream yielded nothing"),
        }
    }
    assert_eq!(from_requests, 4);
    assert_eq!(from_network, 3);
    assert!(from_requests >= 7 / 2 && from_network >= 7 / 2);
    assert_eq!(
        order,
        vec![
            Side::Requests,
            Side::Network,
            Side::Requests,
            Side::Network,
            Side::Requests,
            Side::Network,
            Side::Requests
        ]
    );
}

#[test]
fn fairness_holds_in_every_window() {
    for start in [true, false] {
        for k in 0..20usize {
            let mut s = stream();
            s.flag = start;
            let mut counts = [0usize, 0usize];
            for _ in 0..k {
                match yielded(s.poll(no_command(), item(1), item(2))) {
                    Some(1) => counts[0] += 1,
                    Some(2) => counts[1] += 1,
                    _ => panic!("a ready stream yielded nothing"),
                }
            }
            assert!(counts[0] >= k / 2);
            assert!(counts[1] >= k / 2);
            assert_eq!(counts[0] + counts[1], k);
        }
    }
}

#[test]
fn second_side_yields_when_first_is_not_ready_and_first_keeps_its_turn() {
    let mut s = stream();
    // requests first, not ready: the network's item comes, requests stay first
    assert_eq!(yielded(s.poll(no_command(), not_ready(), item(2))), Some(2));
    assert!(s.flag);
    assert_eq!(yielded(s.poll(no_command(), item(1), item(2))), Some(1));
    assert!(!s.flag);
    // network first, not ready: the request comes, network stays first
    assert_eq!(yielded(s.poll(no_command(), item(1), not_ready())), Some(1));
    assert!(!s.flag);
}

#[test]
fn nothing_ready_is_not_ready() {
    let mut s = stream();
    assert_eq!(s.poll(no_command(), not_ready(), not_ready()).unwrap(), Async::NotReady);
    assert!(!s.flag);
    assert_eq!(s.poll(no_command(), not_ready(), not_ready()).unwrap(), Async::NotReady);
    assert!(s.flag);
    assert!(in_place(&s));
}

#[test]
fn ended_requests_leave_the_network_running() {
    let mut s = stream();
    assert_eq!(yielded(s.poll(no_command(), end(), item(2))), Some(2));
    assert_eq!(s.poll(no_command(), end(), not_ready()).unwrap(), Async::NotReady);
    assert_eq!(yielded(s.poll(no_command(), end(), item(3))), Some(3));
    assert!(in_place(&s));
}

#[test]
fn network_end_is_network_closed_at_once_when_network_is_first() {
    let mut s = stream();
    s.flag = false;
    match s.poll(no_command(), item(1), end()) {
        Err(PollError::Network((NetworkError::NetworkClosed, requests, commands))) => {
            assert_eq!(requests.stream, "requests");
            assert_eq!(commands, "commands");
        }
        other => panic!("expected NetworkClosed, got {:?}", other),
    }
    assert!(s.request_stream.is_none());
    assert!(s.command_stream.is_none());
}

#[test]
fn network_end_is_network_closed_within_one_more_poll() {
    let mut s = stream();
    // requests have the turn and are ready: their item comes first
    assert_eq!(yielded(s.poll(no_command(), item(1), end())), Some(1));
    assert!(matches!(
        s.poll(no_command(), item(1), end()),
        Err(PollError::Network((NetworkError::NetworkClosed, _, _)))
    ));
}

#[test]
fn network_end_is_network_closed_when_requests_have_nothing() {
    for requests in [not_ready(), end()] {
        let mut s = stream();
        assert!(matches!(
            s.poll(no_command(), requests, end()),
            Err(PollError::Network((NetworkError::NetworkClosed, _, _)))
        ));
    }
}

#[test]
fn source_errors_pass_through_with_the_streams() {
    let mut s = stream();
    let mut requests = s.request_stream.take().unwrap();
    requests.push_front(Packet::Pingreq);
    s.request_stream = Some(requests);
    match s.poll(no_command(), Err(NetworkError::Protocol), item(2)) {
        Err(PollError::Network((NetworkError::Protocol, requests, commands))) => {
            assert_eq!(requests.buffer, vec![Packet::Pingreq]);
            assert_eq!(commands, "commands");
        }
        other => panic!("expected Protocol, got {:?}", other),
    }
    let mut s = stream();
    assert!(matches!(
        s.poll(no_command(), not_ready(), Err(NetworkError::Transport)),
        Err(PollError::Network((NetworkError::Transport, _, _)))
    ));
    let mut s = stream();
    assert!(matches!(
        s.poll(Err(NetworkError::KeepAliveTimeout), item(1), item(2)),
        Err(PollError::Network((NetworkError::KeepAliveTimeout, _, _)))
    ));
    // the data plane was not heard
    assert!(s.flag);
}

#[test]
fn pause_freezes_until_resume() {
    let mut s = stream();
    assert_eq!(s.poll(command(Command::Pause), item(1), item(2)).unwrap(), Async::NotReady);
    assert!(s.is_paused);
    // a request is ready, and stays where it is
    for _ in 0..5 {
        assert_eq!(s.poll(no_command(), item(1), item(2)).unwrap(), Async::NotReady);
        assert_eq!(s.poll(Ok(Async::Ready(None)), item(1), item(2)).unwrap(), Async::NotReady);
    }
    assert!(s.flag);
    assert!(s.is_paused);
    // after Resume the request is sent
    assert_eq!(yielded(s.poll(command(Command::Resume), item(1), item(2))), Some(1));
    assert!(!s.is_paused);
    assert_eq!(yielded(s.poll(no_command(), item(1), item(2))), Some(2));
}

#[test]
fn disconnect_and_shutdown_fail_the_stream() {
    let mut s = stream();
    assert!(matches!(
        s.poll(command(Command::Disconnect), item(1), item(2)),
        Err(PollError::Network((NetworkError::UserDisconnect, _, _)))
    ));
    let mut s = stream();
    assert!(matches!(
        s.poll(command(Command::Shutdown), item(1), item(2)),
        Err(PollError::Network((NetworkError::Shutdown, _, _)))
    ));
}

#[test]
fn playpause_answers() {
    let mut s = stream();
    assert!(matches!(s.playpause(no_command()), Err(NetworkError::Interleave)));
    assert!(matches!(s.playpause(Ok(Async::Ready(None))), Err(NetworkError::Interleave)));
    assert!(matches!(s.playpause(command(Command::Resume)), Err(NetworkError::Interleave)));
    assert!(!s.is_paused);
    assert!(matches!(s.playpause(command(Command::Pause)), Ok(Async::NotReady)));
    assert!(s.is_paused);
    assert!(matches!(s.playpause(no_command()), Ok(Async::NotReady)));
    assert!(matches!(s.playpause(Ok(Async::Ready(None))), Ok(Async::NotReady)));
    assert!(matches!(s.playpause(command(Command::Pause)), Ok(Async::NotReady)));
    assert!(s.is_paused);
    assert!(matches!(s.playpause(Err(NetworkError::Protocol)), Err(NetworkError::Protocol)));
    assert!(s.is_paused);
    assert!(matches!(s.playpause(command(Command::Disconnect)), Err(NetworkError::UserDisconnect)));
    assert!(matches!(s.playpause(command(Command::Shutdown)), Err(NetworkError::Shutdown)));
    assert!(matches!(s.playpause(command(Command::Resume)), Err(NetworkError::Interleave)));
    assert!(!s.is_paused);
}

#[test]
fn rounds_step_by_step() {
    let mut s = stream();
    assert_eq!(s.first(), Side::Requests);
    match s.interleave_first(not_ready()) {
        Round::Other { first_done } => assert!(!first_done),
        other => panic!("expected the other side to be asked, got {:?}", other),
    }
    assert!(!s.flag);
    assert_eq!(s.interleave_second(false, item(9)).unwrap(), from(Side::Network, 9).unwrap());
    assert!(s.flag);

    match s.interleave_first(end()) {
        Round::Other { first_done } => assert!(first_done),
        other => panic!("expected the other side to be asked, got {:?}", other),
    }
    assert!(matches!(s.interleave_second(true, not_ready()), Ok(Async::NotReady)));
    assert!(!s.flag);

    assert_eq!(s.first(), Side::Network);
    assert!(matches!(s.interleave_first(end()), Round::Over(Err(NetworkError::NetworkClosed))));
    assert!(s.flag);
    match s.interleave_first(item(4)) {
        Round::Over(answer) => assert_eq!(answer.unwrap(), from(Side::Requests, 4).unwrap()),
        other => panic!("expected the round to be over, got {:?}", other),
    }
    assert!(!s.flag);
    // the network answers second and has ended
    assert!(matches!(s.interleave_second(true, end()), Err(NetworkError::NetworkClosed)));
    assert!(!s.flag);
    // the requests answer second and have ended, the network is only not ready
    s.flag = true;
    assert!(matches!(s.interleave_second(false, end()), Ok(Async::NotReady)));
    // both have ended, the network not among them
    assert!(matches!(s.interleave_second(true, end()), Ok(Async::Ready(None))));
    assert!(s.flag);
}

#[test]
fn interleave_whole_round() {
    let mut s = stream();
    assert_eq!(s.interleave(item(1), item(2)).unwrap(), from(Side::Requests, 1).unwrap());
    assert_eq!(s.interleave(item(1), item(2)).unwrap(), from(Side::Network, 2).unwrap());
    assert!(matches!(s.interleave(not_ready(), not_ready()), Ok(Async::NotReady)));
    assert!(matches!(s.interleave(item(1), Err(NetworkError::Protocol)), Err(NetworkError::Protocol)));
}

#[test]
fn sink_errors_hand_the_streams_back() {
    let mut s = stream();
    assert_eq!(s.start_send(Ok(AsyncSink::Ready)).unwrap(), AsyncSink::Ready);
    assert_eq!(
        s.start_send(Ok(AsyncSink::NotReady(Packet::Pingreq))).unwrap(),
        AsyncSink::NotReady(Packet::Pingreq)
    );
    assert_eq!(s.poll_complete(Ok(Async::Ready(()))).unwrap(), Async::Ready(()));
    assert_eq!(s.poll_complete(Ok(Async::NotReady)).unwrap(), Async::NotReady);
    assert!(in_place(&s));
    match s.start_send(Err(io::Error::new(io::ErrorKind::BrokenPipe, "gone"))) {
        Err(PollError::Network((NetworkError::Io(e), requests, commands))) => {
            assert_eq!(e.kind(), io::ErrorKind::BrokenPipe);
            assert_eq!(requests.stream, "requests");
            assert_eq!(commands, "commands");
        }
        other => panic!("expected Io, got {:?}", other),
    }
    assert!(!in_place(&s));

    let mut s = stream();
    match s.poll_complete(Err(io::Error::new(io::ErrorKind::TimedOut, "late"))) {
        Err(PollError::Network((NetworkError::Io(e), _, _))) => {
            assert_eq!(e.kind(), io::ErrorKind::TimedOut)
        }
        other => panic!("expected Io, got {:?}", other),
    }
    assert!(!in_place(&s));
}

#[test]
fn prepend_yields_in_the_order_of_pushing() {
    let mut p = Prepend::new(());
    assert_eq!(p.buffered(), 0);
    assert_eq!(p.poll_buffered(), None);
    p.push_front(Packet::Puback(1));
    p.push_front(Packet::Puback(2));
    p.push_front(Packet::Puback(3));
    assert_eq!(p.buffered(), 3);
    assert_eq!(p.poll_buffered(), Some(Packet::Puback(1)));
    assert_eq!(p.poll_buffered(), Some(Packet::Puback(2)));
    p.push_front(Packet::Puback(4));
    assert_eq!(p.poll_buffered(), Some(Packet::Puback(3)));
    assert_eq!(p.poll_buffered(), Some(Packet::Puback(4)));
    assert_eq!(p.poll_buffered(), None);
    assert_eq!(p.buffered(), 0);
}
