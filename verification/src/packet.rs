//! The MQTT 3.1.1 control packets as plain values.

use std::sync::Arc;
use vstd::prelude::*;

verus! {

/// 16-bit identifier of a QoS 1 or QoS 2 flow. Zero names no flow.
pub type PacketIdentifier = u16;

/// Quality of service of a publication or a subscription.
#[derive(Clone, Copy, Debug, PartialEq, Eq, Structural)]
pub enum QoS {
    /// At most once.
    Level0,
    /// At least once.
    Level1,
    /// Exactly once.
    Level2,
}

/// Quality of service together with the identifier that levels 1 and 2 carry.
#[derive(Clone, Copy, Debug, PartialEq, Eq, Structural)]
pub enum QoSWithPacketIdentifier {
    Level0,
    Level1(u16),
    Level2(u16),
}

impl QoSWithPacketIdentifier {
    /// The level without its identifier.
    pub open spec fn level(self) -> QoS {
        match self {
            QoSWithPacketIdentifier::Level0 => QoS::Level0,
            QoSWithPacketIdentifier::Level1(_) => QoS::Level1,
            QoSWithPacketIdentifier::Level2(_) => QoS::Level2,
        }
    }

    /// The identifier, where the level carries one.
    pub open spec fn pkid(self) -> Option<u16> {
        match self {
            QoSWithPacketIdentifier::Level0 => None,
            QoSWithPacketIdentifier::Level1(id) => Some(id),
            QoSWithPacketIdentifier::Level2(id) => Some(id),
        }
    }

    /// A level above 0 carries an identifier other than zero.
    pub open spec fn well_formed(self) -> bool {
        self.pkid() != Some(0u16)
    }

    /// Pairs a level with an identifier; level 0 drops the identifier.
    pub fn new(qos: QoS, id: u16) -> (r: QoSWithPacketIdentifier)
        ensures
            r.level() == qos,
            r.pkid() == (if qos == QoS::Level0 { None } else { Some(id) }),
    {
        match qos {
            QoS::Level0 => QoSWithPacketIdentifier::Level0,
            QoS::Level1 => QoSWithPacketIdentifier::Level1(id),
            QoS::Level2 => QoSWithPacketIdentifier::Level2(id),
        }
    }

    /// Splits into level and identifier.
    pub fn split(self) -> (r: (QoS, Option<u16>))
        ensures
            r.0 == self.level(),
            r.1 == self.pkid(),
    {
        match self {
            QoSWithPacketIdentifier::Level0 => (QoS::Level0, None),
            QoSWithPacketIdentifier::Level1(id) => (QoS::Level1, Some(id)),
            QoSWithPacketIdentifier::Level2(id) => (QoS::Level2, Some(id)),
        }
    }
}

/// Answer of the broker to CONNECT.
#[derive(Clone, Copy, Debug, PartialEq, Eq, Structural)]
pub enum ConnectReturnCode {
    Accepted,
    RefusedProtocolVersion,
    RefusedIdentifierRejected,
    ServerUnavailable,
    BadUsernamePassword,
    NotAuthorized,
}

/// Message that the broker publishes when the client goes away without DISCONNECT.
#[derive(Clone, Debug, PartialEq)]
pub struct LastWill {
    pub topic: String,
    pub message: String,
    pub qos: QoS,
    pub retain: bool,
}

#[derive(Clone, Debug, PartialEq)]
pub struct Connect {
    pub keep_alive: u16,
    pub client_id: String,
    pub clean_session: bool,
    pub last_will: Option<LastWill>,
    pub username: Option<String>,
    pub password: Option<String>,
}

#[derive(Clone, Copy, Debug, PartialEq, Eq, Structural)]
pub struct Connack {
    pub session_present: bool,
    pub code: ConnectReturnCode,
}

/// PUBLISH. The payload is shared, never changed.
#[derive(Clone, Debug, PartialEq)]
pub struct PublishPacket {
    pub dup: bool,
    pub qos: QoSWithPacketIdentifier,
    pub retain: bool,
    pub topic_name: String,
    pub payload: Arc<Vec<u8>>,
}

/// One topic filter of a subscription, with the level asked for.
#[derive(Clone, Debug, PartialEq)]
pub struct SubscribeTopic {
    pub topic_path: String,
    pub qos: QoS,
}

#[derive(Clone, Debug, PartialEq)]
pub struct Subscribe {
    pub pkid: u16,
    pub topics: Vec<SubscribeTopic>,
}

#[derive(Clone, Copy, Debug, PartialEq, Eq, Structural)]
pub enum SubscribeReturnCodes {
    Success(QoS),
    Failure,
}

#[derive(Clone, Debug, PartialEq)]
pub struct Suback {
    pub pkid: u16,
    pub return_codes: Vec<SubscribeReturnCodes>,
}

#[derive(Clone, Debug, PartialEq)]
pub struct Unsubscribe {
    pub pkid: u16,
    pub topics: Vec<String>,
}

/// An MQTT 3.1.1 control packet.
#[derive(Clone, Debug, PartialEq)]
pub enum Packet {
    Connect(Connect),
    Connack(Connack),
    Publish(PublishPacket),
    Puback(u16),
    Pubrec(u16),
    Pubrel(u16),
    Pubcomp(u16),
    Subscribe(Subscribe),
    Suback(Suback),
    Unsubscribe(Unsubscribe),
    Unsuback(u16),
    Pingreq,
    Pingresp,
    Disconnect,
}

/// Out-of-band directive of the user to the event loop.
#[derive(Clone, Copy, Debug, PartialEq, Eq, Structural)]
pub enum Command {
    Pause,
    Resume,
    Disconnect,
    Shutdown,
}

} // verus!
