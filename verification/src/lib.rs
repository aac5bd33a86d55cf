//! Protocol state of an MQTT 3.1.1 client.
//!
//! [`MqttState`] holds what a client has to remember about its connection: the
//! publishes that the broker has not acknowledged yet, the last packet
//! identifier, the time of the last control packet and whether a ping is still
//! unanswered. Its methods only change that state and say what to send next;
//! sockets, files and event loops belong to the caller.
//!
//! What the methods do is stated over [`client::session::Session`]. What that
//! means for the arguments, the results and the fields is proved in
//! [`client::calls`], [`client::effects`] and [`promises`], and what follows over
//! many calls in [`client::laws`].
pub mod client;
pub mod clock;
pub mod error;
pub mod options;
pub mod packet;
pub mod promises;
pub mod token;

pub use crate::client::state::{MqttConnectionStatus, MqttState};
pub use crate::clock::Duration;
pub use crate::error::{Error, ErrorKind};
pub use crate::options::{MqttOptions, ReconnectOptions, SecurityOptions};
pub use crate::packet::{
    gen_connect_packet, Connack, Connect, ConnectReturnCode, LastWill, Packet, PacketIdentifier,
    Protocol, Publish, QoS, Subscribe, SubscribeTopic,
};
pub use crate::token::{gen_iotcore_password, gen_iotcore_password_at, Claims};
