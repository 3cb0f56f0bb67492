//! A packet stream with a buffer in front of it.

use crate::packet::Packet;
use vstd::prelude::*;

verus! {

/// Wraps a packet stream so that packets can be put back in front of it.
/// The buffered packets are yielded first, in the order in which they were
/// pushed; only when none is left is the inner stream consulted again.
#[derive(Debug)]
pub struct Prepend<S> {
    /// The inner stream. The library never looks into it.
    pub stream: S,
    /// The packets waiting in front of the stream; the first is next.
    pub buffer: Vec<Packet>,
}

impl<S> Prepend<S> {
    /// The packets waiting in front of the inner stream, the next one first.
    pub open spec fn view(&self) -> Seq<Packet> {
        self.buffer@
    }

    /// Wraps `stream` with nothing buffered.
    pub fn new(stream: S) -> (r: Prepend<S>)
        ensures
            r.stream == stream,
            r@ == Seq::<Packet>::empty(),
    {
        Prepend { stream, buffer: Vec::new() }
    }

    /// Records `packet` to be yielded before the inner stream is consulted
    /// again, behind the packets that wait already. Never fails.
    pub fn push_front(&mut self, packet: Packet)
        ensures
            final(self)@ == old(self)@.push(packet),
            final(self).stream == old(self).stream,
    {
        self.buffer.push(packet);
    }

    /// The number of packets that wait in front of the inner stream.
    pub fn buffered(&self) -> (n: usize)
        ensures
            n == self@.len(),
    {
        self.buffer.len()
    }

    /// Takes the next buffered packet. `None` says that the buffer is empty
    /// and the inner stream answers this poll, with whatever it has: an item,
    /// its end, or its error.
    pub fn poll_buffered(&mut self) -> (r: Option<Packet>)
        ensures
            final(self).stream == old(self).stream,
            old(self)@.len() == 0 ==> r.is_none() && final(self)@ == old(self)@,
            old(self)@.len() > 0 ==> r == Some(old(self)@[0]) && final(self)@ == old(self)@.subrange(
                1,
                old(self)@.len() as int,
            ),
    {
        if self.buffer.len() == 0 {
            None
        } else {
            Some(self.buffer.remove(0))
        }
    }
}

} // verus!
