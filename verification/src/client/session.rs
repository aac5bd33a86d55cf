//! What the state of a client is, and what each event makes of it.
use vstd::prelude::*;

use crate::client::state::MqttConnectionStatus;
use crate::clock::Duration;
use crate::error::{Error, ErrorKind};
use crate::options::MqttOptions;
use crate::packet::{ConnectReturnCode, PacketIdentifier, Publish, QoS};

verus! {

/// Keep alive time in seconds of a client that was configured without one.
pub const DEFAULT_KEEP_ALIVE: u16 = 180;

/// Largest packet identifier.
pub const MAX_PKID: u16 = 65_535;

/// The identifier that is handed out after `last`: they count from 1 to
/// [`MAX_PKID`] and start again.
pub open spec fn following_pkid(last: PacketIdentifier) -> PacketIdentifier {
    if last.0 == MAX_PKID {
        PacketIdentifier(1)
    } else {
        PacketIdentifier((last.0 + 1) as u16)
    }
}

/// Nanoseconds in `secs` seconds.
pub open spec fn nanoseconds(secs: int) -> int {
    secs * 1_000_000_000
}

/// Seconds without a control packet after which a client with the given keep
/// alive time pings: nine tenths of that time, rounded up.
pub open spec fn ping_after(keep_alive: u16) -> int {
    (9 * keep_alive + 9) / 10
}

/// The state of a client.
#[verifier::ext_equal]
pub struct Session {
    pub opts: MqttOptions,
    pub connection_status: MqttConnectionStatus,
    /// Whether the broker has accepted no connection yet.
    pub initial_connect: bool,
    /// Whether an answer to a ping is still due.
    pub await_pingresp: bool,
    /// What the times below are counted from.
    pub started: std::time::Instant,
    /// When the last control packet was sent.
    pub last_flush: Duration,
    pub last_pkid: PacketIdentifier,
    /// The publishes that the broker has not acknowledged, oldest first.
    pub outgoing_pub: Seq<Publish>,
}

impl Session {
    /// Whether only publishes that the broker can acknowledge wait for it: those
    /// sent at least once, under an identifier.
    pub open spec fn wf(self) -> bool {
        forall|i: int|
            0 <= i < self.outgoing_pub.len() ==> (#[trigger] self.outgoing_pub[i]).qos
                == QoS::AtLeastOnce && self.outgoing_pub[i].pid is Some
    }

    pub open spec fn connected(self) -> bool {
        self.connection_status == MqttConnectionStatus::Connected
    }

    /// Nanoseconds from the last control packet to `now`.
    pub open spec fn idle(self, now: Duration) -> int {
        if self.last_flush@ <= now@ {
            now@ - self.last_flush@
        } else {
            0
        }
    }

    /// Whether the publish at index `i` is the oldest one under `pkid`.
    pub open spec fn is_slot(self, pkid: PacketIdentifier, i: int) -> bool {
        &&& 0 <= i < self.outgoing_pub.len()
        &&& self.outgoing_pub[i].pid == Some(pkid)
        &&& forall|j: int| 0 <= j < i ==> (#[trigger] self.outgoing_pub[j]).pid != Some(pkid)
    }

    /// Whether a publish under `pkid` waits for its acknowledgement.
    pub open spec fn pending(self, pkid: PacketIdentifier) -> bool {
        exists|i: int|
            0 <= i < self.outgoing_pub.len() && (#[trigger] self.outgoing_pub[i]).pid == Some(pkid)
    }

    /// The index of the oldest publish under `pkid`, if one is pending.
    pub open spec fn slot(self, pkid: PacketIdentifier) -> int {
        choose|i: int| self.is_slot(pkid, i)
    }

    /// A client that has not connected yet.
    pub open spec fn fresh(opts: MqttOptions, started: std::time::Instant) -> Session {
        Session {
            opts,
            connection_status: MqttConnectionStatus::Disconnected,
            initial_connect: true,
            await_pingresp: false,
            started,
            last_flush: Duration { secs: 0, nanos: 0 },
            last_pkid: PacketIdentifier(0),
            outgoing_pub: Seq::empty(),
        }
    }

    /// The keep alive time that a connection is opened with.
    pub open spec fn effective_keep_alive(self) -> u16 {
        match self.opts.keep_alive {
            Some(keep_alive) => keep_alive,
            None => DEFAULT_KEEP_ALIVE,
        }
    }

    /// The client opens a connection.
    pub open spec fn connecting(self) -> Session {
        Session {
            opts: MqttOptions { keep_alive: Some(self.effective_keep_alive()), ..self.opts },
            connection_status: MqttConnectionStatus::Handshake,
            ..self
        }
    }

    /// A client with a clean session forgets its queue.
    pub open spec fn forgetting(self) -> Session {
        if self.opts.clean_session {
            Session { outgoing_pub: Seq::empty(), ..self }
        } else {
            self
        }
    }

    /// The broker answers the request for a connection.
    pub open spec fn answered(self, code: ConnectReturnCode) -> Session {
        if code == ConnectReturnCode::Accepted {
            Session {
                connection_status: MqttConnectionStatus::Connected,
                initial_connect: false,
                ..self
            }.forgetting()
        } else {
            Session { connection_status: MqttConnectionStatus::Disconnected, ..self }
        }
    }

    /// The publishes to send again over a new connection.
    pub open spec fn retransmission(self) -> Option<Seq<Publish>> {
        if self.opts.clean_session {
            None
        } else {
            Some(self.outgoing_pub)
        }
    }

    /// Whether the payload of `publish` is within the packet size limit.
    pub open spec fn fits(self, publish: Publish) -> bool {
        publish.payload@.len() <= self.opts.max_packet_size
    }

    /// Whether the client keeps `publish` until it is acknowledged.
    pub open spec fn queues(self, publish: Publish) -> bool {
        publish.qos == QoS::AtLeastOnce && self.fits(publish)
    }

    /// Whether `publish` has yet to get its identifier.
    pub open spec fn needs_pkid(publish: Publish) -> bool {
        publish.qos == QoS::AtLeastOnce && publish.pid is None
    }

    /// `publish` as it is sent: under an identifier, if it is to be acknowledged.
    pub open spec fn outgoing(self, publish: Publish) -> Publish {
        if Self::needs_pkid(publish) {
            Publish { pid: Some(following_pkid(self.last_pkid)), ..publish }
        } else {
            publish
        }
    }

    /// The client publishes at the time `now`. What is to be acknowledged is
    /// queued whether or not there is a connection to send it over; what exceeds
    /// the packet size limit changes nothing.
    pub open spec fn published(self, publish: Publish, now: Duration) -> Session {
        if self.fits(publish) {
            Session {
                last_pkid: if Self::needs_pkid(publish) {
                    following_pkid(self.last_pkid)
                } else {
                    self.last_pkid
                },
                outgoing_pub: if self.queues(publish) {
                    self.outgoing_pub.push(self.outgoing(publish))
                } else {
                    self.outgoing_pub
                },
                last_flush: if self.connected() {
                    now
                } else {
                    self.last_flush
                },
                ..self
            }
        } else {
            self
        }
    }

    /// What a client that publishes is told: the publish to send, or why there is
    /// none.
    pub open spec fn publish_result(self, publish: Publish) -> Result<Publish, Error> {
        if !self.fits(publish) {
            Err(Error(ErrorKind::PacketSizeLimitExceeded))
        } else if self.connected() {
            Ok(self.outgoing(publish))
        } else {
            Err(Error(ErrorKind::InvalidState))
        }
    }

    /// The broker acknowledges `pkid`. An identifier that is not pending changes
    /// nothing.
    pub open spec fn acknowledged(self, pkid: PacketIdentifier) -> Session {
        if self.pending(pkid) {
            Session { outgoing_pub: self.outgoing_pub.remove(self.slot(pkid)), ..self }
        } else {
            self
        }
    }

    /// A control packet is sent at the time `now`.
    pub open spec fn flushed(self, now: Duration) -> Session {
        Session { last_flush: now, ..self }
    }

    /// Whether the client has been idle so long at the time `now` that it is to
    /// ping.
    pub open spec fn ping_due(self, now: Duration) -> bool {
        self.opts.keep_alive matches Some(keep_alive) && self.idle(now) > nanoseconds(
            ping_after(keep_alive),
        )
    }

    /// Whether a ping may be sent at the time `now`: over a connection, with the
    /// keep alive time not exceeded by a second and the previous ping answered.
    pub open spec fn may_ping(self, now: Duration) -> bool {
        &&& self.opts.keep_alive matches Some(keep_alive) && self.idle(now) < nanoseconds(
            keep_alive + 1,
        )
        &&& !self.await_pingresp
        &&& self.connected()
    }

    /// The client asks to ping at the time `now`.
    pub open spec fn pinged(self, now: Duration) -> Session {
        if self.may_ping(now) {
            Session { last_flush: now, await_pingresp: true, ..self }
        } else {
            self
        }
    }

    /// The broker answers a ping.
    pub open spec fn ping_answered(self) -> Session {
        Session { await_pingresp: false, ..self }
    }

    /// The client asks to subscribe at the time `now`. It takes an identifier
    /// whether or not there is a connection.
    pub open spec fn subscribed(self, now: Duration) -> Session {
        let numbered = Session { last_pkid: following_pkid(self.last_pkid), ..self };
        if self.connected() {
            Session { last_flush: now, await_pingresp: true, ..numbered }
        } else {
            numbered
        }
    }

    /// The connection is over.
    pub open spec fn disconnected(self) -> Session {
        Session {
            await_pingresp: false,
            connection_status: MqttConnectionStatus::Disconnected,
            ..self
        }.forgetting()
    }
}

} // verus!
