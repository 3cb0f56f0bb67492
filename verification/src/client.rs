//! The user's side of the request queue: what a call on the client puts
//! into it.

use crate::error::Error;
use crate::eventloop::Request;
use crate::message::{topic_name_accepted, valid_topic_name, Message};
use crate::packet::{QoS, QoSWithPacketIdentifier, SubscribeTopic};
use crate::queue::RequestQueue;
use std::sync::Arc;
use vstd::prelude::*;

verus! {

/// The handle that publishes. Its retain flag sticks: once set, it marks
/// every publication until it is cleared.
#[derive(Clone, Copy, Debug, PartialEq, Eq, Structural)]
pub struct Publisher {
    pub retain: bool,
}

/// The message that a call of `publish` makes: at QoS 1 and 2 it carries
/// no identifier yet, which stands as 0.
pub open spec fn authored(topic: Seq<char>, qos: QoS, retain: bool, payload: Seq<u8>, m: Message) -> bool {
    &&& m.topic@ == topic
    &&& m.retain == retain
    &&& m.qos.level() == qos
    &&& m.qos.pkid() == (if qos == QoS::Level0 {
        None
    } else {
        Some(0u16)
    })
    &&& m.payload@ == payload
}

impl Publisher {
    /// A publisher whose publications are not retained.
    pub fn new() -> (r: Publisher)
        ensures
            !r.retain,
    {
        Publisher { retain: false }
    }

    /// Sets or clears the retain flag for the publications that follow.
    pub fn set_retain(&mut self, retain: bool)
        ensures
            final(self).retain == retain,
    {
        self.retain = retain;
    }

    /// Queues a publication of `payload` to `topic` at `qos`. Fails with
    /// `InvalidTopic` when `topic` is no topic name, with `Closed` when the
    /// queue is closed, and with `QueueFull` when the queue holds as many
    /// requests as it admits; the queue is then unchanged.
    pub fn publish(&self, queue: &mut RequestQueue, topic: &str, qos: QoS, payload: Vec<u8>) -> (r:
        Result<(), Error>)
        ensures
            final(queue).same_terms(old(queue)),
            r == (if valid_topic_name(topic@) {
                old(queue).admits()
            } else {
                Err(Error::InvalidTopic)
            }),
            r.is_err() ==> final(queue)@ == old(queue)@,
            r.is_ok() ==> {
                &&& final(queue)@.len() == old(queue)@.len() + 1
                &&& final(queue)@.drop_last() == old(queue)@
                &&& final(queue)@.last() matches Request::Publish(m)
                &&& authored(topic@, qos, self.retain, payload@, m)
            },
    {
        if !topic_name_accepted(topic) {
            return Err(Error::InvalidTopic);
        }
        let message = Message {
            topic: topic.to_owned(),
            retain: self.retain,
            qos: QoSWithPacketIdentifier::new(qos, 0),
            payload: Arc::new(payload),
        };
        let r = queue.push(Request::Publish(message));
        proof {
            if r.is_ok() {
                assert(queue@.drop_last() =~= old(queue)@);
            }
        }
        r
    }
}

/// Queues a subscription to `topics`. Fails with `Closed` when the queue is
/// closed and with `QueueFull` when it holds as many requests as it admits;
/// the queue is then unchanged.
pub fn subscribe(queue: &mut RequestQueue, topics: Vec<SubscribeTopic>) -> (r: Result<(), Error>)
    ensures
        final(queue).same_terms(old(queue)),
        r == old(queue).admits(),
        r.is_err() ==> final(queue)@ == old(queue)@,
        r.is_ok() ==> final(queue)@ == old(queue)@.push(Request::Subscribe(topics)),
{
    queue.push(Request::Subscribe(topics))
}

/// Queues the end of the subscriptions to `filters`. Fails with `Closed`
/// when the queue is closed and with `QueueFull` when it holds as many
/// requests as it admits; the queue is then unchanged.
pub fn unsubscribe(queue: &mut RequestQueue, filters: Vec<String>) -> (r: Result<(), Error>)
    ensures
        final(queue).same_terms(old(queue)),
        r == old(queue).admits(),
        r.is_err() ==> final(queue)@ == old(queue)@,
        r.is_ok() ==> final(queue)@ == old(queue)@.push(Request::Unsubscribe(filters)),
{
    queue.push(Request::Unsubscribe(filters))
}

} // verus!
