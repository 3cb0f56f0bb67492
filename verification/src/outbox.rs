//! The packets between the event loop and the sink of the transport.

use crate::mqttasync::AsyncSink;
use crate::packet::Packet;
use vstd::prelude::*;

verus! {

/// The packets that wait for the sink, the next one first. A sink may
/// refuse a packet; it then goes back to the head, so that it is offered
/// again before any other, and the loop takes nothing new from its sources
/// while a packet waits here.
#[derive(Debug)]
pub struct Outbox {
    pending: Vec<Packet>,
}

impl View for Outbox {
    type V = Seq<Packet>;

    closed spec fn view(&self) -> Seq<Packet> {
        self.pending@
    }
}

impl Outbox {
    /// An outbox with nothing in it.
    pub fn new() -> (r: Outbox)
        ensures
            r@ == Seq::<Packet>::empty(),
    {
        Outbox { pending: Vec::new() }
    }

    /// Whether nothing waits for the sink, so that the loop may take the
    /// next packet from its sources.
    pub fn is_empty(&self) -> (r: bool)
        ensures
            r == (self@.len() == 0),
    {
        self.pending.len() == 0
    }

    /// Puts `packet` behind the packets that wait.
    pub fn queue(&mut self, packet: Packet)
        ensures
            final(self)@ == old(self)@.push(packet),
    {
        self.pending.push(packet);
    }

    /// Puts `packets` behind the packets that wait, in their order.
    pub fn queue_all(&mut self, packets: Vec<Packet>)
        ensures
            final(self)@ == old(self)@ + packets@,
    {
        let mut packets = packets;
        self.pending.append(&mut packets);
    }

    /// Takes the next packet, to offer it to the sink.
    pub fn next(&mut self) -> (r: Option<Packet>)
        ensures
            old(self)@.len() == 0 ==> r.is_none() && final(self)@ == old(self)@,
            old(self)@.len() > 0 ==> r == Some(old(self)@[0]) && final(self)@ == old(
                self,
            )@.drop_first(),
    {
        if self.pending.len() == 0 {
            None
        } else {
            let packet = self.pending.remove(0);
            assert(self.pending@ =~= old(self)@.drop_first());
            Some(packet)
        }
    }

    /// Takes note of what the sink said to the packet that was offered:
    /// a packet that it refused goes back to the head.
    pub fn offered(&mut self, answer: AsyncSink<Packet>)
        ensures
            final(self)@ == (match answer {
                AsyncSink::Ready => old(self)@,
                AsyncSink::NotReady(packet) => seq![packet] + old(self)@,
            }),
    {
        match answer {
            AsyncSink::Ready => {},
            AsyncSink::NotReady(packet) => {
                self.pending.insert(0, packet);
                assert(self.pending@ =~= seq![packet] + old(self)@);
            },
        }
    }
}

/// A packet that the sink refuses is the next one again, and the packets
/// behind it keep their order.
pub proof fn lemma_refused_packet_is_next_again(waiting: Seq<Packet>)
    requires
        waiting.len() > 0,
    ensures
        seq![waiting[0]] + waiting.drop_first() == waiting,
{
    assert(seq![waiting[0]] + waiting.drop_first() =~= waiting);
}

} // verus!
