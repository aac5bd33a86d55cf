//! The MQTT packets that the client state produces and consumes.
use std::sync::Arc;

use vstd::prelude::*;

verus! {

/// Identifier that ties a packet to its acknowledgement.
#[derive(Debug, Clone, Copy, PartialEq, Eq, PartialOrd, Ord, Structural)]
pub struct PacketIdentifier(pub u16);

/// Quality of service of a publish or of a subscription.
#[derive(Debug, Clone, Copy, PartialEq, Eq, Structural)]
pub enum QoS {
    AtMostOnce,
    AtLeastOnce,
    ExactlyOnce,
}

/// Protocol name, with its level.
#[derive(Debug, Clone, Copy, PartialEq, Eq, Structural)]
pub enum Protocol {
    MQIsdp(u8),
    MQTT(u8),
}

/// Message that the broker publishes when it loses the client.
#[derive(Debug, PartialEq)]
pub struct LastWill {
    pub topic: String,
    pub message: String,
    pub qos: QoS,
    pub retain: bool,
}

impl Clone for LastWill {
    fn clone(&self) -> (res: Self)
        ensures
            res == *self,
    {
        LastWill {
            topic: self.topic.clone(),
            message: self.message.clone(),
            qos: self.qos,
            retain: self.retain,
        }
    }
}

/// First packet of a connection, sent by the client.
#[derive(Debug, Clone, PartialEq)]
pub struct Connect {
    pub protocol: Protocol,
    pub keep_alive: u16,
    pub client_id: String,
    pub clean_session: bool,
    pub last_will: Option<LastWill>,
    pub username: Option<String>,
    pub password: Option<String>,
}

/// Answer of the broker to a [`Connect`].
#[derive(Debug, Clone, Copy, PartialEq, Eq, Structural)]
pub enum ConnectReturnCode {
    Accepted,
    RefusedProtocolVersion,
    RefusedIdentifierRejected,
    ServerUnavailable,
    BadUsernamePassword,
    NotAuthorized,
}

/// Packet that carries the broker's answer to a [`Connect`].
#[derive(Debug, Clone, Copy, PartialEq)]
pub struct Connack {
    pub session_present: bool,
    pub code: ConnectReturnCode,
}

/// An application message on its way to the broker or from it.
#[derive(Debug, PartialEq)]
pub struct Publish {
    pub dup: bool,
    pub qos: QoS,
    pub retain: bool,
    pub topic_name: String,
    pub pid: Option<PacketIdentifier>,
    pub payload: Arc<Vec<u8>>,
}

impl Clone for Publish {
    fn clone(&self) -> (res: Self)
        ensures
            res == *self,
    {
        Publish {
            dup: self.dup,
            qos: self.qos,
            retain: self.retain,
            topic_name: self.topic_name.clone(),
            pid: self.pid,
            payload: share(&self.payload),
        }
    }
}

/// Calls [`Arc::clone`], which makes another pointer to the same allocation:
/// the contents behind the result are those behind the argument.
#[verifier::external_body]
fn share(payload: &Arc<Vec<u8>>) -> (res: Arc<Vec<u8>>)
    ensures
        res == *payload,
{
    Arc::clone(payload)
}

/// A topic to subscribe to, with the quality of service that is asked for.
#[derive(Debug, Clone, PartialEq)]
pub struct SubscribeTopic {
    pub topic_path: String,
    pub qos: QoS,
}

/// Request of the client to be sent what is published on some topics.
#[derive(Debug, Clone, PartialEq)]
pub struct Subscribe {
    pub pid: PacketIdentifier,
    pub topics: Vec<SubscribeTopic>,
}

/// Any of the packets that the client state deals with.
#[derive(Debug, Clone, PartialEq)]
pub enum Packet {
    Connect(Box<Connect>),
    Connack(Connack),
    Publish(Box<Publish>),
    Puback(PacketIdentifier),
    Subscribe(Box<Subscribe>),
    Pingreq,
    Pingresp,
    Disconnect,
}

/// A connect packet for MQTT 3.1.1, which is level 4 of the protocol `MQTT`.
pub fn gen_connect_packet(
    client_id: String,
    keep_alive: u16,
    clean_session: bool,
    last_will: Option<LastWill>,
    username: Option<String>,
    password: Option<String>,
) -> (res: Connect)
    ensures
        res == (Connect {
            protocol: Protocol::MQTT(4),
            keep_alive,
            client_id,
            clean_session,
            last_will,
            username,
            password,
        }),
{
    Connect {
        protocol: Protocol::MQTT(4),
        keep_alive,
        client_id,
        clean_session,
        last_will,
        username,
        password,
    }
}

} // verus!
