//! The publication as the user of the client sees it.

use crate::error::{Error, Result};
use crate::packet::{PublishPacket, QoSWithPacketIdentifier};
use std::sync::Arc;
use vstd::prelude::*;
use vstd::utf8::encode_utf8;

verus! {

/// A topic name is not empty, takes at most 65535 bytes in UTF-8, and holds
/// neither of the wildcard characters `#` and `+`.
pub open spec fn valid_topic_name(topic: Seq<char>) -> bool {
    &&& topic.len() > 0
    &&& encode_utf8(topic).len() <= 65535
    &&& forall|i: int| 0 <= i < topic.len() ==> topic[i] != '#' && topic[i] != '+'
}

/// Asks `mqtt::TopicName::new` whether it takes `topic`. Trusted: it refuses
/// exactly the empty string, a string of more than 65535 bytes, and a string
/// that holds `#` or `+`.
#[verifier::external_body]
pub(crate) fn topic_name_accepted(topic: &str) -> (ok: bool)
    ensures
        ok == valid_topic_name(topic@),
{
    mqtt::TopicName::new(topic).is_ok()
}

/// `Arc::clone`. Trusted: the new handle points to the same bytes.
#[verifier::external_body]
fn share(payload: &Arc<Vec<u8>>) -> (r: Arc<Vec<u8>>)
    ensures
        r == *payload,
{
    Arc::clone(payload)
}

/// A publication: where it goes, how reliably, and what it carries.
#[derive(Debug, Clone, PartialEq)]
pub struct Message {
    pub topic: String,
    pub retain: bool,
    /// The identifier is there for QoS 1 and 2 only.
    pub qos: QoSWithPacketIdentifier,
    pub payload: Arc<Vec<u8>>,
}

/// The level that a message or packet goes out with: `qos` where one is
/// given, else the one it has.
pub open spec fn chosen_qos(
    qos: Option<QoSWithPacketIdentifier>,
    own: QoSWithPacketIdentifier,
) -> QoSWithPacketIdentifier {
    match qos {
        Some(q) => q,
        None => own,
    }
}

impl Message {
    /// The message that a PUBLISH packet carries.
    pub open spec fn of_publish(publish: PublishPacket) -> Message {
        Message {
            topic: publish.topic_name,
            retain: publish.retain,
            qos: publish.qos,
            payload: publish.payload,
        }
    }

    /// The PUBLISH packet that carries this message at level `qos`.
    pub open spec fn as_publish(self, qos: QoSWithPacketIdentifier, dup: bool) -> PublishPacket {
        PublishPacket {
            dup,
            qos,
            retain: self.retain,
            topic_name: self.topic,
            payload: self.payload,
        }
    }

    /// This message at another level.
    pub open spec fn with_qos(self, qos: QoSWithPacketIdentifier) -> Message {
        Message { topic: self.topic, retain: self.retain, qos, payload: self.payload }
    }

    /// Reads the message out of a PUBLISH packet. The topic must be a valid
    /// topic name; the payload is shared with the packet.
    pub fn from_pub(publish: &PublishPacket) -> (r: Result<Box<Message>>)
        ensures
            valid_topic_name(publish.topic_name@) ==> r == Ok::<Box<Message>, Error>(
                Box::new(Message::of_publish(*publish)),
            ),
            !valid_topic_name(publish.topic_name@) ==> r == Err::<Box<Message>, Error>(
                Error::InvalidTopic,
            ),
    {
        if !topic_name_accepted(publish.topic_name.as_str()) {
            return Err(Error::InvalidTopic);
        }
        Ok(
            Box::new(
                Message {
                    topic: publish.topic_name.clone(),
                    retain: publish.retain,
                    qos: publish.qos,
                    payload: share(&publish.payload),
                },
            ),
        )
    }

    /// The PUBLISH packet for this message, at level `qos` where one is given
    /// and at the message's own otherwise.
    pub fn to_pub(&self, qos: Option<QoSWithPacketIdentifier>, dup: bool) -> (r: Box<PublishPacket>)
        ensures
            *r == self.as_publish(chosen_qos(qos, self.qos), dup),
    {
        let qos: QoSWithPacketIdentifier = match qos {
            Some(q) => q,
            None => self.qos,
        };
        Box::new(
            PublishPacket {
                dup,
                qos,
                retain: self.retain,
                topic_name: self.topic.clone(),
                payload: share(&self.payload),
            },
        )
    }

    /// A copy of this message at level `qos` where one is given. Topic, retain
    /// flag and payload stay.
    pub fn transform(&self, qos: Option<QoSWithPacketIdentifier>) -> (r: Box<Message>)
        ensures
            *r == self.with_qos(chosen_qos(qos, self.qos)),
    {
        let qos: QoSWithPacketIdentifier = match qos {
            Some(q) => q,
            None => self.qos,
        };
        Box::new(
            Message {
                topic: self.topic.clone(),
                retain: self.retain,
                qos,
                payload: share(&self.payload),
            },
        )
    }
}

} // verus!
