//! The multiplexer in front of the event loop.
//!
//! Three inputs meet here: packets from the broker, packets that the user's
//! requests became, and the user's commands. The transport polls its sources
//! and hands each answer in; the functions of this module decide what the
//! combined stream yields and how its state moves.

use crate::error::NetworkError;
use crate::packet::{Command, Packet};
use crate::prepend::Prepend;
use vstd::prelude::*;

verus! {

/// What a source says when it is polled and does not fail.
#[derive(Debug, PartialEq)]
pub enum Async<T> {
    Ready(T),
    NotReady,
}

/// What a sink says to an item that it is offered.
#[derive(Debug, PartialEq)]
pub enum AsyncSink<T> {
    /// The item was taken.
    Ready,
    /// The sink is full; the item comes back and must be offered again.
    NotReady(T),
}

/// Answer of a source to one poll.
pub type Poll<T, E> = Result<Async<T>, E>;

/// Answer of a sink to one offer.
pub type StartSend<T, E> = Result<AsyncSink<T>, E>;

/// The two sources of the data plane.
#[derive(Clone, Copy, Debug, PartialEq, Eq, Structural)]
pub enum Side {
    /// Packets made from the user's requests.
    Requests,
    /// Packets from the broker.
    Network,
}

/// How the multiplexer fails: with the error, and with the request and
/// command streams, so that the next session can go on with them.
#[derive(Debug)]
pub enum PollError<S3, S4> {
    Network((NetworkError, Prepend<S3>, S4)),
}

/// State of one data-plane round after the first source has answered.
#[derive(Debug)]
pub enum Round {
    /// The round is over with this answer; the second source is not polled.
    Over(Poll<Option<Tagged>, NetworkError>),
    /// The first source had no item. The other source is polled next;
    /// `first_done` says whether the first has ended.
    Other { first_done: bool },
}

/// The multiplexer. It holds the four ends of a session without looking into
/// them, and the two flags that its decisions go by.
#[must_use]
pub struct MqttStream<S1, S2, S3, S4> {
    pub network_stream: S1,
    pub network_sink: S2,
    /// Emptied only when the stream fails.
    pub request_stream: Option<Prepend<S3>>,
    /// Emptied only when the stream fails.
    pub command_stream: Option<S4>,
    /// While set, the data plane is frozen.
    pub is_paused: bool,
    /// Set: the requests are polled first in the next round. Clear: the network is.
    pub flag: bool,
}

/// A fresh multiplexer over the four ends of a session: not paused, and with
/// the requests first in line.
pub fn new<S1, S2, S3, S4>(
    network_stream: S1,
    network_sink: S2,
    request_stream: Prepend<S3>,
    command_stream: S4,
) -> (r: MqttStream<S1, S2, S3, S4>)
    ensures
        r.network_stream == network_stream,
        r.network_sink == network_sink,
        r.request_stream == Some(request_stream),
        r.command_stream == Some(command_stream),
        !r.is_paused,
        r.flag,
        r.wf(),
{
    MqttStream {
        network_stream,
        network_sink,
        request_stream: Some(request_stream),
        command_stream: Some(command_stream),
        is_paused: false,
        flag: true,
    }
}

/// A packet with the side that it came from.
#[derive(Debug, PartialEq)]
pub struct Tagged {
    pub origin: Side,
    pub packet: Packet,
}

/// The answer of the combined stream that yields `packet` from `side`.
pub open spec fn tagged(side: Side, packet: Packet) -> Poll<Option<Tagged>, NetworkError> {
    Ok(Async::Ready(Some(Tagged { origin: side, packet })))
}

/// The side that is polled first while the flag has this value.
pub open spec fn first_side(flag: bool) -> Side {
    if flag {
        Side::Requests
    } else {
        Side::Network
    }
}

/// What the control plane makes of the answer of the command stream: the
/// pause flag afterwards, and either an answer for the caller or the error
/// `Interleave`, which sends the poll on to the data plane.
pub open spec fn gate(is_paused: bool, commands: Poll<Option<Command>, NetworkError>) -> (
    bool,
    Poll<Option<Tagged>, NetworkError>,
) {
    match commands {
        Err(e) => (is_paused, Err(e)),
        Ok(Async::Ready(Some(Command::Pause))) => (true, Ok(Async::NotReady)),
        Ok(Async::Ready(Some(Command::Resume))) => (false, Err(NetworkError::Interleave)),
        Ok(Async::Ready(Some(Command::Disconnect))) => (
            is_paused,
            Err(NetworkError::UserDisconnect),
        ),
        Ok(Async::Ready(Some(Command::Shutdown))) => (is_paused, Err(NetworkError::Shutdown)),
        Ok(Async::Ready(None)) | Ok(Async::NotReady) => if is_paused {
            (is_paused, Ok(Async::NotReady))
        } else {
            (is_paused, Err(NetworkError::Interleave))
        },
    }
}

/// What the answer of the first source settles: `None` where the other
/// source has to be asked. `side` is the side that answered.
pub open spec fn first_outcome(side: Side, a: Poll<Option<Packet>, NetworkError>) -> Option<
    Poll<Option<Tagged>, NetworkError>,
> {
    match a {
        Err(e) => Some(Err(e)),
        Ok(Async::Ready(Some(item))) => Some(tagged(side, item)),
        Ok(Async::Ready(None)) => if side == Side::Network {
            Some(Err(NetworkError::NetworkClosed))
        } else {
            None
        },
        Ok(Async::NotReady) => None,
    }
}

/// The answer of the round once the second source has answered. `side` is
/// the side that answered second.
pub open spec fn second_outcome(
    side: Side,
    first_done: bool,
    b: Poll<Option<Packet>, NetworkError>,
) -> Poll<Option<Tagged>, NetworkError> {
    match b {
        Err(e) => Err(e),
        Ok(Async::Ready(Some(item))) => tagged(side, item),
        Ok(Async::Ready(None)) => if side == Side::Network {
            Err(NetworkError::NetworkClosed)
        } else if first_done {
            Ok(Async::Ready(None))
        } else {
            Ok(Async::NotReady)
        },
        Ok(Async::NotReady) => Ok(Async::NotReady),
    }
}

/// One round of the data plane: the flag afterwards and the answer. `a` is
/// the answer of the side that the flag puts first, `b` the answer that the
/// other side gives if it is asked.
pub open spec fn round(
    flag: bool,
    a: Poll<Option<Packet>, NetworkError>,
    b: Poll<Option<Packet>, NetworkError>,
) -> (bool, Poll<Option<Tagged>, NetworkError>) {
    match first_outcome(first_side(flag), a) {
        Some(answer) => (!flag, answer),
        None => (
            if b matches Ok(Async::Ready(Some(_))) {
                flag
            } else {
                !flag
            },
            second_outcome(first_side(!flag), a == Ok::<Async<Option<Packet>>, NetworkError>(Async::Ready(None)), b),
        ),
    }
}

/// One round of the data plane, told by side: `requests` and `network` are
/// what each side answers if it is asked.
pub open spec fn interleaved(
    flag: bool,
    requests: Poll<Option<Packet>, NetworkError>,
    network: Poll<Option<Packet>, NetworkError>,
) -> (bool, Poll<Option<Tagged>, NetworkError>) {
    if flag {
        round(flag, requests, network)
    } else {
        round(flag, network, requests)
    }
}

impl<S1, S2, S3, S4> MqttStream<S1, S2, S3, S4> {
    /// Both streams that a failure hands back are still in place.
    pub open spec fn wf(&self) -> bool {
        self.request_stream.is_some() && self.command_stream.is_some()
    }

    /// The four ends are the same values in `self` and `other`.
    pub open spec fn same_ends(&self, other: &Self) -> bool {
        &&& self.network_stream == other.network_stream
        &&& self.network_sink == other.network_sink
        &&& self.request_stream == other.request_stream
        &&& self.command_stream == other.command_stream
    }

    /// The control plane. `commands` is what the command stream answered.
    /// `Pause` freezes the data plane and `Resume` thaws it; `Disconnect` and
    /// `Shutdown` fail the stream with an error of their own. With no
    /// command the poll is held back while paused and goes on to the data
    /// plane otherwise, which the error `Interleave` stands for.
    pub fn playpause(&mut self, commands: Poll<Option<Command>, NetworkError>) -> (r: Poll<
        Option<Tagged>,
        NetworkError,
    >)
        ensures
            (final(self).is_paused, r) == gate(old(self).is_paused, commands),
            final(self).flag == old(self).flag,
            final(self).same_ends(old(self)),
    {
        match commands {
            Err(e) => Err(e),
            Ok(Async::Ready(Some(command))) => {
                match command {
                    Command::Pause => {
                        self.is_paused = true;
                        Ok(Async::NotReady)
                    },
                    Command::Resume => {
                        self.is_paused = false;
                        Err(NetworkError::Interleave)
                    },
                    Command::Disconnect => Err(NetworkError::UserDisconnect),
                    Command::Shutdown => Err(NetworkError::Shutdown),
                }
            },
            Ok(Async::Ready(None)) | Ok(Async::NotReady) => {
                if self.is_paused {
                    // the data plane stays frozen
                    Ok(Async::NotReady)
                } else {
                    Err(NetworkError::Interleave)
                }
            },
        }
    }

    /// The side to poll first in the round that begins now.
    pub fn first(&self) -> (side: Side)
        ensures
            side == first_side(self.flag),
    {
        if self.flag {
            Side::Requests
        } else {
            Side::Network
        }
    }

    /// First half of a round. `a` is the answer of the side that `first`
    /// named. The turn passes to the other side; an item or an error ends the
    /// round, and so does the end of the network, as `NetworkClosed`.
    pub fn interleave_first(&mut self, a: Poll<Option<Packet>, NetworkError>) -> (r: Round)
        ensures
            final(self).flag == !old(self).flag,
            final(self).is_paused == old(self).is_paused,
            final(self).same_ends(old(self)),
            r == (match first_outcome(first_side(old(self).flag), a) {
                Some(answer) => Round::Over(answer),
                None => Round::Other {
                    first_done: a == Ok::<Async<Option<Packet>>, NetworkError>(Async::Ready(None)),
                },
            }),
    {
        let network_first: bool = !self.flag;
        let origin = self.first();
        self.flag = !self.flag;
        match a {
            Err(e) => Round::Over(Err(e)),
            Ok(Async::Ready(Some(packet))) => Round::Over(
                Ok(Async::Ready(Some(Tagged { origin, packet }))),
            ),
            Ok(Async::Ready(None)) => {
                if network_first {
                    Round::Over(Err(NetworkError::NetworkClosed))
                } else {
                    Round::Other { first_done: true }
                }
            },
            Ok(Async::NotReady) => Round::Other { first_done: false },
        }
    }

    /// Second half of a round. `b` is the answer of the other side, asked
    /// because the first had no item. An item from it gives the turn back to
    /// the side that was passed over.
    pub fn interleave_second(&mut self, first_done: bool, b: Poll<Option<Packet>, NetworkError>) -> (r:
        Poll<Option<Tagged>, NetworkError>)
        ensures
            final(self).flag == (if b matches Ok(Async::Ready(Some(_))) {
                !old(self).flag
            } else {
                old(self).flag
            }),
            final(self).is_paused == old(self).is_paused,
            final(self).same_ends(old(self)),
            r == second_outcome(first_side(old(self).flag), first_done, b),
    {
        let network_second: bool = !self.flag;
        let origin = self.first();
        match b {
            Err(e) => Err(e),
            Ok(Async::Ready(Some(packet))) => {
                self.flag = !self.flag;
                Ok(Async::Ready(Some(Tagged { origin, packet })))
            },
            Ok(Async::Ready(None)) => {
                if network_second {
                    Err(NetworkError::NetworkClosed)
                } else if first_done {
                    Ok(Async::Ready(None))
                } else {
                    Ok(Async::NotReady)
                }
            },
            Ok(Async::NotReady) => Ok(Async::NotReady),
        }
    }

    /// One whole round of the data plane, for a caller that holds the answer
    /// of either side: `requests` and `network` are what each answers if it
    /// is asked. The side whose turn it is goes first; the other is heard
    /// only if the first had no item.
    pub fn interleave(
        &mut self,
        requests: Poll<Option<Packet>, NetworkError>,
        network: Poll<Option<Packet>, NetworkError>,
    ) -> (r: Poll<Option<Tagged>, NetworkError>)
        ensures
            (final(self).flag, r) == interleaved(old(self).flag, requests, network),
            final(self).is_paused == old(self).is_paused,
            final(self).same_ends(old(self)),
    {
        let (a, b) = if self.flag {
            (requests, network)
        } else {
            (network, requests)
        };
        match self.interleave_first(a) {
            Round::Over(answer) => answer,
            Round::Other { first_done } => self.interleave_second(first_done, b),
        }
    }

    /// Gives up the request and command streams together with `e`. This is
    /// how the stream fails: the caller gets back what the next session needs.
    pub fn fail(&mut self, e: NetworkError) -> (r: PollError<S3, S4>)
        requires
            old(self).wf(),
        ensures
            r == PollError::Network::<S3, S4>(
                (e, old(self).request_stream->0, old(self).command_stream->0),
            ),
            final(self).request_stream.is_none(),
            final(self).command_stream.is_none(),
            final(self).network_stream == old(self).network_stream,
            final(self).network_sink == old(self).network_sink,
            final(self).is_paused == old(self).is_paused,
            final(self).flag == old(self).flag,
    {
        let request_stream = self.request_stream.take().unwrap();
        let command_stream = self.command_stream.take().unwrap();
        PollError::Network((e, request_stream, command_stream))
    }

    /// Turns an answer of the control or data plane into the answer of the
    /// stream: an error takes the request and command streams with it.
    pub fn settle(&mut self, answer: Poll<Option<Tagged>, NetworkError>) -> (r: Poll<
        Option<Tagged>,
        PollError<S3, S4>,
    >)
        requires
            old(self).wf(),
        ensures
            Self::settled(*old(self), *final(self), answer, r),
            final(self).is_paused == old(self).is_paused,
            final(self).flag == old(self).flag,
    {
        match answer {
            Ok(v) => Ok(v),
            Err(e) => Err(self.fail(e)),
        }
    }

    /// How an answer `answer` leaves the stream: unchanged and with the same
    /// answer, or failed with the error and both streams handed out.
    pub open spec fn settled(
        before: Self,
        after: Self,
        answer: Poll<Option<Tagged>, NetworkError>,
        r: Poll<Option<Tagged>, PollError<S3, S4>>,
    ) -> bool {
        &&& after.network_stream == before.network_stream
        &&& after.network_sink == before.network_sink
        &&& match answer {
            Ok(v) => r == Ok::<Async<Option<Tagged>>, PollError<S3, S4>>(v) && after.same_ends(&before),
            Err(e) => {
                &&& r == Err::<Async<Option<Tagged>>, PollError<S3, S4>>(
                    PollError::Network((e, before.request_stream->0, before.command_stream->0)),
                )
                &&& after.request_stream.is_none()
                &&& after.command_stream.is_none()
            },
        }
    }

    /// One poll of the combined stream, for a caller that holds the answer
    /// of each source: `commands`, `requests` and `network` are what each
    /// answers if it is asked. The control plane is heard first. Unless it
    /// holds the poll back or fails, one round of the data plane follows.
    pub fn poll(
        &mut self,
        commands: Poll<Option<Command>, NetworkError>,
        requests: Poll<Option<Packet>, NetworkError>,
        network: Poll<Option<Packet>, NetworkError>,
    ) -> (r: Poll<Option<Tagged>, PollError<S3, S4>>)
        requires
            old(self).wf(),
        ensures
            final(self).is_paused == polled(
                old(self).is_paused,
                old(self).flag,
                commands,
                requests,
                network,
            ).0,
            final(self).flag == polled(
                old(self).is_paused,
                old(self).flag,
                commands,
                requests,
                network,
            ).1,
            Self::settled(
                *old(self),
                *final(self),
                polled(old(self).is_paused, old(self).flag, commands, requests, network).2,
                r,
            ),
    {
        match self.playpause(commands) {
            Err(NetworkError::Interleave) => {
                let answer = self.interleave(requests, network);
                self.settle(answer)
            },
            answer => self.settle(answer),
        }
    }

    /// The answer of the stream to an item offered to the sink. `sent` is
    /// what the sink of the transport said. Its error fails the stream as
    /// `Io` and takes the request and command streams with it.
    pub fn start_send(&mut self, sent: StartSend<Packet, std::io::Error>) -> (r: StartSend<
        Packet,
        PollError<S3, S4>,
    >)
        requires
            old(self).wf(),
        ensures
            final(self).is_paused == old(self).is_paused,
            final(self).flag == old(self).flag,
            final(self).network_stream == old(self).network_stream,
            final(self).network_sink == old(self).network_sink,
            match sent {
                Ok(v) => r == Ok::<AsyncSink<Packet>, PollError<S3, S4>>(v) && final(self).same_ends(old(self)),
                Err(e) => {
                    &&& r == Err::<AsyncSink<Packet>, PollError<S3, S4>>(
                        PollError::Network(
                            (
                                NetworkError::Io(e),
                                old(self).request_stream->0,
                                old(self).command_stream->0,
                            ),
                        ),
                    )
                    &&& final(self).request_stream.is_none()
                    &&& final(self).command_stream.is_none()
                },
            },
    {
        match sent {
            Ok(v) => Ok(v),
            Err(e) => Err(self.fail(NetworkError::Io(e))),
        }
    }

    /// The answer of the stream to a flush of the sink. `flushed` is what
    /// the sink of the transport said. Its error fails the stream as `Io`
    /// and takes the request and command streams with it.
    pub fn poll_complete(&mut self, flushed: Poll<(), std::io::Error>) -> (r: Poll<
        (),
        PollError<S3, S4>,
    >)
        requires
            old(self).wf(),
        ensures
            final(self).is_paused == old(self).is_paused,
            final(self).flag == old(self).flag,
            final(self).network_stream == old(self).network_stream,
            final(self).network_sink == old(self).network_sink,
            match flushed {
                Ok(v) => r == Ok::<Async<()>, PollError<S3, S4>>(v) && final(self).same_ends(
                    old(self),
                ),
                Err(e) => {
                    &&& r == Err::<Async<()>, PollError<S3, S4>>(
                        PollError::Network(
                            (
                                NetworkError::Io(e),
                                old(self).request_stream->0,
                                old(self).command_stream->0,
                            ),
                        ),
                    )
                    &&& final(self).request_stream.is_none()
                    &&& final(self).command_stream.is_none()
                },
            },
    {
        match flushed {
            Ok(v) => Ok(v),
            Err(e) => Err(self.fail(NetworkError::Io(e))),
        }
    }
}

/// One poll of the combined stream: the pause flag and the turn flag
/// afterwards, and the answer. The data plane is heard only where the control
/// plane says `Interleave`.
pub open spec fn polled(
    is_paused: bool,
    flag: bool,
    commands: Poll<Option<Command>, NetworkError>,
    requests: Poll<Option<Packet>, NetworkError>,
    network: Poll<Option<Packet>, NetworkError>,
) -> (bool, bool, Poll<Option<Tagged>, NetworkError>) {
    let (paused, answer) = gate(is_paused, commands);
    if answer == Err::<Async<Option<Tagged>>, NetworkError>(NetworkError::Interleave) {
        let (turn, data) = interleaved(flag, requests, network);
        (paused, turn, data)
    } else {
        (paused, flag, answer)
    }
}

/// The answer of a source that has `item` at hand.
pub open spec fn ready(item: Packet) -> Poll<Option<Packet>, NetworkError> {
    Ok(Async::Ready(Some(item)))
}

/// The answer holds an item.
pub open spec fn has_item(answer: Poll<Option<Packet>, NetworkError>) -> bool {
    answer matches Ok(Async::Ready(Some(_)))
}

/// The answer of a source that has ended.
pub open spec fn ended() -> Poll<Option<Packet>, NetworkError> {
    Ok(Async::Ready(None))
}

/// The side whose packet an answer of the combined stream holds, if it
/// holds one.
pub open spec fn origin(answer: Poll<Option<Tagged>, NetworkError>) -> Option<Side> {
    match answer {
        Ok(Async::Ready(Some(tagged))) => Some(tagged.origin),
        _ => None,
    }
}

/// The combined stream has ended.
pub open spec fn quiet_end() -> Poll<Option<Tagged>, NetworkError> {
    Ok(Async::Ready(None))
}

/// Where a run of rounds over two streams of packets stands: whose turn it
/// is, and how many packets each side has yielded.
pub struct Run {
    pub flag: bool,
    pub from_requests: nat,
    pub from_network: nat,
}

/// `k` rounds over two streams that always have their next packet at hand,
/// begun with the turn flag at `flag`. Each side yields its packets in order.
pub open spec fn run(flag: bool, requests: Seq<Packet>, network: Seq<Packet>, k: nat) -> Run
    decreases k,
{
    if k == 0 {
        Run { flag, from_requests: 0, from_network: 0 }
    } else {
        let before = run(flag, requests, network, (k - 1) as nat);
        let r = ready(requests[before.from_requests as int]);
        let n = ready(network[before.from_network as int]);
        let turn = interleaved(before.flag, r, n).0;
        match origin(interleaved(before.flag, r, n).1) {
            Some(Side::Requests) => Run {
                flag: turn,
                from_requests: before.from_requests + 1,
                from_network: before.from_network,
            },
            Some(Side::Network) => Run {
                flag: turn,
                from_requests: before.from_requests,
                from_network: before.from_network + 1,
            },
            None => Run { flag: turn, ..before },
        }
    }
}

/// Fairness: in `k` rounds over two streams that are always ready, every
/// round yields a packet, the two sides take turns, and so each side yields
/// at least half of `k`, rounded down. It holds whichever side begins.
pub proof fn lemma_interleave_is_fair(
    flag: bool,
    requests: Seq<Packet>,
    network: Seq<Packet>,
    k: nat,
)
    ensures
        run(flag, requests, network, k).from_requests + run(
            flag,
            requests,
            network,
            k,
        ).from_network == k,
        run(flag, requests, network, k).from_requests >= k / 2,
        run(flag, requests, network, k).from_network >= k / 2,
        run(flag, requests, network, k).flag == (if k % 2 == 0 {
            flag
        } else {
            !flag
        }),
        run(flag, requests, network, k).from_requests == (if flag {
            (k + 1) / 2
        } else {
            k / 2
        }),
    decreases k,
{
    if k > 0 {
        lemma_interleave_is_fair(flag, requests, network, (k - 1) as nat);
    }
}

/// The end of the network is never passed over: when the network has ended
/// and the requests are ready, the round fails with `NetworkClosed` at once
/// if it is the network's turn, and otherwise yields the request and fails
/// so in the round after it.
pub proof fn lemma_network_end_closes(flag: bool, first: Packet, second: Packet)
    ensures
        !flag ==> interleaved(flag, ready(first), ended()) == (
            true,
            Err::<Async<Option<Tagged>>, NetworkError>(NetworkError::NetworkClosed),
        ),
        flag ==> interleaved(flag, ready(first), ended()) == (
            false,
            tagged(Side::Requests, first),
        ),
        flag ==> interleaved(
            interleaved(flag, ready(first), ended()).0,
            ready(second),
            ended(),
        ).1 == Err::<Async<Option<Tagged>>, NetworkError>(NetworkError::NetworkClosed),
{
}

/// The end of the network always shows: whatever the requests answer short
/// of an error, a round that hears the ended network fails with
/// `NetworkClosed`, and a round does not hear it only if the requests had
/// the turn and an item.
pub proof fn lemma_network_end_is_an_error(
    flag: bool,
    requests: Poll<Option<Packet>, NetworkError>,
)
    requires
        requests.is_ok(),
    ensures
        interleaved(flag, requests, ended()).1 == Err::<Async<Option<Tagged>>, NetworkError>(
            NetworkError::NetworkClosed,
        ) || (flag && has_item(requests) && interleaved(flag, requests, ended()) == (
            false,
            tagged(Side::Requests, requests->Ok_0->Ready_0->0),
        )),
{
}

/// The combined stream never ends quietly: a round yields an item, is not
/// ready, or fails.
pub proof fn lemma_interleave_never_ends(
    flag: bool,
    requests: Poll<Option<Packet>, NetworkError>,
    network: Poll<Option<Packet>, NetworkError>,
)
    ensures
        interleaved(flag, requests, network).1 != quiet_end(),
{
}

/// While the stream is paused and no command arrives, a poll is held back
/// whatever the data plane has at hand, and neither flag moves. `Resume`
/// lets the same poll through to the data plane.
pub proof fn lemma_pause_freezes_data_plane(
    flag: bool,
    requests: Poll<Option<Packet>, NetworkError>,
    network: Poll<Option<Packet>, NetworkError>,
)
    ensures
        polled(false, flag, Ok(Async::Ready(Some(Command::Pause))), requests, network) == (
            true,
            flag,
            Ok::<Async<Option<Tagged>>, NetworkError>(Async::NotReady),
        ),
        polled(true, flag, Ok(Async::NotReady), requests, network) == (
            true,
            flag,
            Ok::<Async<Option<Tagged>>, NetworkError>(Async::NotReady),
        ),
        polled(true, flag, Ok(Async::Ready(None)), requests, network) == (
            true,
            flag,
            Ok::<Async<Option<Tagged>>, NetworkError>(Async::NotReady),
        ),
        polled(true, flag, Ok(Async::Ready(Some(Command::Resume))), requests, network) == (
            false,
            interleaved(flag, requests, network).0,
            interleaved(flag, requests, network).1,
        ),
{
}

/// `Interleave` stays inside: unless one of the sources itself answers with
/// it, no poll of the combined stream does.
pub proof fn lemma_interleave_error_stays_inside(
    is_paused: bool,
    flag: bool,
    commands: Poll<Option<Command>, NetworkError>,
    requests: Poll<Option<Packet>, NetworkError>,
    network: Poll<Option<Packet>, NetworkError>,
)
    requires
        requests != Err::<Async<Option<Packet>>, NetworkError>(NetworkError::Interleave),
        network != Err::<Async<Option<Packet>>, NetworkError>(NetworkError::Interleave),
    ensures
        polled(is_paused, flag, commands, requests, network).2 != Err::<
            Async<Option<Tagged>>,
            NetworkError,
        >(NetworkError::Interleave),
{
}

} // verus!
