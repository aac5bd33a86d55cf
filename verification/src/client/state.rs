//! The state of a client.
use std::collections::VecDeque;
use std::time::Instant;

use vstd::prelude::*;

use crate::client::session::{Session, DEFAULT_KEEP_ALIVE, MAX_PKID};
use crate::clock::{elapsed, start, unix_time, Duration};
use crate::error::{Error, ErrorKind};
use crate::options::{MqttOptions, SecurityOptions};
use crate::packet::{
    gen_connect_packet, Connack, Connect, ConnectReturnCode, Packet, PacketIdentifier, Publish, QoS,
    Subscribe, SubscribeTopic,
};
use crate::token::gen_iotcore_password_at;

verus! {

/// How far a client is with its connection.
#[derive(Debug, Clone, Copy, PartialEq, Eq, Structural)]
pub enum MqttConnectionStatus {
    Handshake,
    Connected,
    Disconnected,
}

/// The state of a client.
///
/// Design: `MqttState` methods will just modify the state of the object
///         but doesn't do any network operations. Methods will do
///         appropriate returns so that n/w methods or n/w eventloop can
///         operate directly. This abstracts the functionality better
///         so that it's easy to switch between synchronous code, tokio (or)
///         async/await
///
/// Times are counted from `started`. A method that reads the clock has a
/// counterpart that is told the time instead.
pub struct MqttState {
    pub opts: MqttOptions,
    pub connection_status: MqttConnectionStatus,
    pub initial_connect: bool,
    pub await_pingresp: bool,
    pub started: Instant,
    pub last_flush: Duration,
    pub last_pkid: PacketIdentifier,
    /// For QoS 1. Stores outgoing publishes
    pub outgoing_pub: VecDeque<Publish>,
}

impl View for MqttState {
    type V = Session;

    open spec fn view(&self) -> Session {
        Session {
            opts: self.opts,
            connection_status: self.connection_status,
            initial_connect: self.initial_connect,
            await_pingresp: self.await_pingresp,
            started: self.started,
            last_flush: self.last_flush,
            last_pkid: self.last_pkid,
            outgoing_pub: self.outgoing_pub@,
        }
    }
}

/// Whether asking for a connection at the second `iat` leads from `session` to
/// `res`, where `key` is the private key that passwords are signed with.
pub open spec fn is_connect(
    session: Session,
    res: Result<Connect, Error>,
    key: Seq<u8>,
    iat: i64,
) -> bool {
    let opts = session.opts;
    match res {
        Ok(connect) => {
            &&& connect.protocol == crate::packet::Protocol::MQTT(4)
            &&& connect.keep_alive == session.effective_keep_alive()
            &&& connect.client_id == opts.client_id
            &&& connect.clean_session == opts.clean_session
            &&& connect.last_will == opts.last_will
            &&& opts.security.are_credentials(
                connect.password,
                connect.username,
                connect.password,
            )
            &&& opts.security matches SecurityOptions::GcloudIotCore((_, _, expiry)) ==> (
            connect.password matches Some(password) && crate::token::is_password(
                Ok(password),
                key,
                iat,
                expiry,
            ))
        },
        Err(e) => opts.security matches SecurityOptions::GcloudIotCore((_, _, expiry))
            && crate::token::is_password(Err(e), key, iat, expiry),
    }
}

impl MqttState {
    /// The state of a client that has not connected yet.
    pub fn new(opts: MqttOptions) -> (res: Self)
        ensures
            call_ensures(start, (), res.started),
            res@ == Session::fresh(opts, res.started),
            res@.wf(),
    {
        MqttState {
            opts,
            connection_status: MqttConnectionStatus::Disconnected,
            initial_connect: true,
            await_pingresp: false,
            started: start(),
            last_flush: Duration::from_secs(0),
            last_pkid: PacketIdentifier(0),
            outgoing_pub: VecDeque::new(),
        }
    }

    /// Whether the broker has accepted no connection yet.
    pub fn initial_connect(&self) -> (res: bool)
        ensures
            res == self@.initial_connect,
    {
        self.initial_connect
    }

    /// The packet that opens a connection. `key` is the content of the private key
    /// file that the security options name; neither it nor the time of day is read
    /// if they name none.
    pub fn handle_outgoing_connect(&mut self, key: &[u8]) -> (res: Result<Connect, Error>)
        ensures
            final(self)@ == old(self)@.connecting(),
            exists|iat: i64|
                {
                    &&& old(self)@.opts.security is GcloudIotCore ==> call_ensures(
                        unix_time,
                        (),
                        iat,
                    )
                    &&& #[trigger] is_connect(old(self)@, res, key@, iat)
                },
            res matches Ok(connect) ==> {
                &&& connect.client_id == old(self).opts.client_id
                &&& connect.clean_session == old(self).opts.clean_session
                &&& connect.last_will == old(self).opts.last_will
                &&& final(self).opts.keep_alive == Some(connect.keep_alive)
            },
            old(self)@.wf() ==> final(self)@.wf(),
    {
        let iat = match &self.opts.security {
            SecurityOptions::GcloudIotCore(_) => unix_time(),
            _ => 0,
        };
        self.handle_outgoing_connect_at(key, iat)
    }

    /// The packet that opens a connection at the second `iat` since January 1, 1970.
    pub fn handle_outgoing_connect_at(&mut self, key: &[u8], iat: i64) -> (res: Result<
        Connect,
        Error,
    >)
        ensures
            final(self)@ == old(self)@.connecting(),
            is_connect(old(self)@, res, key@, iat),
            res matches Ok(connect) ==> {
                &&& connect.client_id == old(self).opts.client_id
                &&& connect.clean_session == old(self).opts.clean_session
                &&& connect.last_will == old(self).opts.last_will
                &&& final(self).opts.keep_alive == Some(connect.keep_alive)
            },
            old(self)@.wf() ==> final(self)@.wf(),
    {
        let keep_alive = match self.opts.keep_alive {
            Some(keep_alive) => keep_alive,
            None => DEFAULT_KEEP_ALIVE,
        };
        self.opts.keep_alive = Some(keep_alive);
        self.connection_status = MqttConnectionStatus::Handshake;

        let token = match &self.opts.security {
            SecurityOptions::GcloudIotCore((_, _, expiry)) => {
                Some(gen_iotcore_password_at(key, iat, *expiry)?)
            },
            _ => None,
        };
        let (username, password) = self.opts.security.credentials(token);
        Ok(
            gen_connect_packet(
                self.opts.client_id.clone(),
                keep_alive,
                self.opts.clean_session,
                self.opts.last_will.clone(),
                username,
                password,
            ),
        )
    }

    /// The broker answers the request for a connection.
    pub fn handle_incoming_connack(&mut self, connack: Connack) -> (res: Result<(), Error>)
        ensures
            final(self)@ == old(self)@.answered(connack.code),
            res is Ok <==> connack.code == ConnectReturnCode::Accepted,
            final(self).connection_status == if res is Ok {
                MqttConnectionStatus::Connected
            } else {
                MqttConnectionStatus::Disconnected
            },
            res matches Err(e) ==> (e.0 matches ErrorKind::Msg(text) && text@
                == crate::error::connack_text(connack.code)),
            old(self)@.wf() ==> final(self)@.wf(),
    {
        let response = connack.code;
        if response != ConnectReturnCode::Accepted {
            self.connection_status = MqttConnectionStatus::Disconnected;
            Err(Error::connack(response))
        } else {
            self.connection_status = MqttConnectionStatus::Connected;
            self.initial_connect = false;
            if self.opts.clean_session {
                self.clear_session_info();
            }
            Ok(())
        }
    }

    /// The publishes to send again over a new connection, oldest first.
    pub fn handle_reconnection(&mut self) -> (res: Option<VecDeque<Publish>>)
        ensures
            final(self)@ == old(self)@,
            match old(self)@.retransmission() {
                Some(publishes) => res matches Some(queue) && queue@ == publishes,
                None => res is None,
            },
            res is None <==> old(self).opts.clean_session,
            res matches Some(queue) ==> queue@ == old(self).outgoing_pub@,
    {
        if self.opts.clean_session {
            None
        } else {
            Some(self.outgoing_pub.clone())
        }
    }

    /// Sets next packet id if pkid is None (fresh publish) and adds it to the
    /// outgoing publish queue. A publish whose payload exceeds the packet size limit
    /// is refused.
    pub fn handle_outgoing_publish(&mut self, publish: Publish) -> (res: Result<Publish, Error>)
        requires
            publish.qos != QoS::ExactlyOnce,
        ensures
            exists|now: Duration|
                call_ensures(elapsed, (&old(self).started,), now) && final(self)@
                    == #[trigger] old(self)@.published(publish, now),
            res == old(self)@.publish_result(publish),
            res matches Ok(sent) ==> {
                &&& sent.topic_name == publish.topic_name
                &&& sent.payload == publish.payload
                &&& sent.qos == publish.qos
                &&& sent.retain == publish.retain
                &&& sent.dup == publish.dup
                &&& publish.qos != QoS::AtLeastOnce || publish.pid is Some ==> sent.pid
                    == publish.pid
                &&& publish.qos == QoS::AtLeastOnce ==> final(self).outgoing_pub@
                    == old(self).outgoing_pub@.push(sent)
            },
            publish.qos == QoS::AtLeastOnce && publish.payload@.len()
                <= old(self).opts.max_packet_size ==> final(self).outgoing_pub@.len() == old(
                self,
            ).outgoing_pub@.len() + 1 && final(self).outgoing_pub@.drop_last() == old(
                self,
            ).outgoing_pub@,
            old(self)@.wf() ==> final(self)@.wf(),
    {
        let now = elapsed(&self.started);
        self.handle_outgoing_publish_at(publish, now)
    }

    /// As [`MqttState::handle_outgoing_publish`], at the time `now`.
    pub fn handle_outgoing_publish_at(&mut self, publish: Publish, now: Duration) -> (res: Result<
        Publish,
        Error,
    >)
        requires
            publish.qos != QoS::ExactlyOnce,
        ensures
            final(self)@ == old(self)@.published(publish, now),
            res == old(self)@.publish_result(publish),
            res matches Ok(sent) ==> {
                &&& sent.topic_name == publish.topic_name
                &&& sent.payload == publish.payload
                &&& sent.qos == publish.qos
                &&& sent.retain == publish.retain
                &&& sent.dup == publish.dup
                &&& publish.qos != QoS::AtLeastOnce || publish.pid is Some ==> sent.pid
                    == publish.pid
                &&& publish.qos == QoS::AtLeastOnce ==> final(self).outgoing_pub@
                    == old(self).outgoing_pub@.push(sent)
            },
            publish.qos == QoS::AtLeastOnce && publish.payload@.len()
                <= old(self).opts.max_packet_size ==> final(self).outgoing_pub@.len() == old(
                self,
            ).outgoing_pub@.len() + 1 && final(self).outgoing_pub@.drop_last() == old(
                self,
            ).outgoing_pub@,
            old(self)@.wf() ==> final(self)@.wf(),
    {
        if publish.payload.len() > self.opts.max_packet_size {
            return Err(Error(ErrorKind::PacketSizeLimitExceeded));
        }
        let publish = match publish.qos {
            QoS::AtLeastOnce => {
                let publish = if publish.pid.is_none() {
                    let pkid = self.next_pkid();
                    Publish { pid: Some(pkid), ..publish }
                } else {
                    publish
                };
                self.outgoing_pub.push_back(publish.clone());
                publish
            },
            _ => publish,
        };

        if self.connection_status == MqttConnectionStatus::Connected {
            self.reset_last_control_to(now);
            Ok(publish)
        } else {
            Err(Error(ErrorKind::InvalidState))
        }
    }

    /// The broker acknowledges a publish, which leaves the queue.
    pub fn handle_incoming_puback(&mut self, pkid: PacketIdentifier) -> (res: Result<
        Publish,
        Error,
    >)
        ensures
            final(self)@ == old(self)@.acknowledged(pkid),
            old(self)@.pending(pkid) ==> old(self)@.is_slot(pkid, old(self)@.slot(pkid)),
            match res {
                Ok(publish) => exists|i: int|
                    {
                        &&& 0 <= i < old(self).outgoing_pub@.len()
                        &&& publish == #[trigger] old(self).outgoing_pub@[i]
                        &&& publish.pid == Some(pkid)
                        &&& forall|j: int|
                            0 <= j < i ==> (#[trigger] old(self).outgoing_pub@[j]).pid != Some(pkid)
                        &&& final(self).outgoing_pub@ == old(self).outgoing_pub@.remove(i)
                    },
                Err(_) => final(self).outgoing_pub@ == old(self).outgoing_pub@ && forall|j: int|
                    0 <= j < old(self).outgoing_pub@.len() ==> (#[trigger] old(
                        self,
                    ).outgoing_pub@[j]).pid != Some(pkid),
            },
            res == if old(self)@.pending(pkid) {
                Ok(old(self)@.outgoing_pub[old(self)@.slot(pkid)])
            } else {
                Err(Error(ErrorKind::InvalidState))
            },
            old(self)@.wf() ==> final(self)@.wf(),
    {
        let mut index: usize = 0;
        while index < self.outgoing_pub.len()
            invariant
                self@ == old(self)@,
                index <= self.outgoing_pub@.len(),
                forall|j: int|
                    0 <= j < index ==> (#[trigger] old(self)@.outgoing_pub[j]).pid != Some(pkid),
            decreases self.outgoing_pub@.len() - index,
        {
            if self.outgoing_pub[index].pid == Some(pkid) {
                assert(old(self)@.is_slot(pkid, index as int));
                assert(old(self)@.slot(pkid) == index);
                let publish = self.outgoing_pub.remove(index);
                return Ok(publish.unwrap());
            }
            index += 1;
        }
        Err(Error(ErrorKind::InvalidState))
    }

    /// return a tuple. tuple.0 is supposed to be send to user through 'notify_tx' while tuple.1
    /// should be sent back on network as ack
    pub fn handle_incoming_publish(&mut self, publish: Publish) -> (res: (
        Option<Publish>,
        Option<Packet>,
    ))
        requires
            publish.qos != QoS::ExactlyOnce,
            publish.qos == QoS::AtLeastOnce ==> publish.pid is Some,
        ensures
            final(self)@ == old(self)@,
            res.0 == Some(publish),
            res.1 == if publish.qos == QoS::AtLeastOnce {
                Some(Packet::Puback(publish.pid->0))
            } else {
                None
            },
    {
        let pkid = publish.pid;
        match publish.qos {
            QoS::AtLeastOnce => (Some(publish), Some(Packet::Puback(pkid.unwrap()))),
            _ => (Some(publish), None),
        }
    }

    /// reset the last control packet received time
    pub fn reset_last_control_at(&mut self)
        ensures
            exists|now: Duration|
                call_ensures(elapsed, (&old(self).started,), now) && final(self)@
                    == #[trigger] old(self)@.flushed(now),
            old(self)@.wf() ==> final(self)@.wf(),
    {
        let now = elapsed(&self.started);
        self.reset_last_control_to(now);
    }

    /// As [`MqttState::reset_last_control_at`], at the time `now`.
    pub fn reset_last_control_to(&mut self, now: Duration)
        ensures
            final(self)@ == old(self)@.flushed(now),
            final(self).last_flush == now,
            old(self)@.wf() ==> final(self)@.wf(),
    {
        self.last_flush = now;
    }

    /// Time from the last control packet to `now`, in nanoseconds.
    fn idle(&self, now: Duration) -> (res: u128)
        ensures
            res == self@.idle(now),
    {
        let flushed = self.last_flush.as_nanos();
        let now = now.as_nanos();
        if flushed <= now {
            now - flushed
        } else {
            0
        }
    }

    /// check if pinging is required based on last flush time
    pub fn is_ping_required(&self) -> (res: bool)
        ensures
            exists|now: Duration|
                call_ensures(elapsed, (&self.started,), now) && res == #[trigger] self@.ping_due(
                    now,
                ),
    {
        let now = elapsed(&self.started);
        self.is_ping_required_at(now)
    }

    /// As [`MqttState::is_ping_required`], at the time `now`.
    pub fn is_ping_required_at(&self, now: Duration) -> (res: bool)
        ensures
            res == self@.ping_due(now),
            res == (self.opts.keep_alive matches Some(keep_alive) && now.secs * 1_000_000_000
                + now.nanos > self.last_flush.secs * 1_000_000_000 + self.last_flush.nanos + (9
                * keep_alive + 9) / 10 * 1_000_000_000),
    {
        match self.opts.keep_alive {
            Some(keep_alive) => {
                let limit = Duration::from_secs((9 * keep_alive as u64 + 9) / 10);
                self.idle(now) > limit.as_nanos()
            },
            None => false,
        }
    }

    /// check when the last control packet/pingreq packet
    /// is received and return the status which tells if
    /// keep alive time has exceeded
    /// NOTE: status will be checked for zero keepalive times also
    pub fn handle_outgoing_ping(&mut self) -> (res: Result<(), Error>)
        requires
            old(self)@.opts.keep_alive is Some,
        ensures
            exists|now: Duration|
                {
                    &&& call_ensures(elapsed, (&old(self).started,), now)
                    &&& final(self)@ == #[trigger] old(self)@.pinged(now)
                    &&& res == if old(self)@.may_ping(now) {
                        Ok(())
                    } else {
                        Err(Error(ErrorKind::InvalidState))
                    }
                },
            old(self)@.wf() ==> final(self)@.wf(),
    {
        let now = elapsed(&self.started);
        self.handle_outgoing_ping_at(now)
    }

    /// As [`MqttState::handle_outgoing_ping`], at the time `now`.
    pub fn handle_outgoing_ping_at(&mut self, now: Duration) -> (res: Result<(), Error>)
        requires
            old(self)@.opts.keep_alive is Some,
        ensures
            final(self)@ == old(self)@.pinged(now),
            res is Ok <==> {
                &&& old(self).connection_status == MqttConnectionStatus::Connected
                &&& !old(self).await_pingresp
                &&& now.secs * 1_000_000_000 + now.nanos < old(self).last_flush.secs * 1_000_000_000
                    + old(self).last_flush.nanos + (old(self).opts.keep_alive->0 + 1)
                    * 1_000_000_000
            },
            res is Ok ==> final(self).await_pingresp && final(self).last_flush == now,
            res == if old(self)@.may_ping(now) {
                Ok(())
            } else {
                Err(Error(ErrorKind::InvalidState))
            },
            old(self)@.wf() ==> final(self)@.wf(),
    {
        let keep_alive = self.opts.keep_alive.unwrap();
        let limit = Duration::from_secs(keep_alive as u64 + 1);
        if self.idle(now) >= limit.as_nanos() {
            return Err(Error(ErrorKind::InvalidState));
        }
        // Prevents half open connections. Tcp writes will buffer up with out throwing
        // any error (till a timeout) when internet is down. Eventhough broker closes
        // the socket after timeout, EOF will be known only after reconnection.
        // We need to unbind the socket if there in no pingresp before next ping
        if self.await_pingresp {
            return Err(Error(ErrorKind::InvalidState));
        }
        if self.connection_status == MqttConnectionStatus::Connected {
            self.last_flush = now;
            self.await_pingresp = true;
            Ok(())
        } else {
            Err(Error(ErrorKind::InvalidState))
        }
    }

    /// The broker answers a ping.
    pub fn handle_incoming_pingresp(&mut self)
        ensures
            final(self)@ == old(self)@.ping_answered(),
            !final(self).await_pingresp,
            old(self)@.wf() ==> final(self)@.wf(),
    {
        self.await_pingresp = false;
    }

    /// The packet that subscribes to `topics`, under the next packet id.
    pub fn handle_outgoing_subscribe(&mut self, topics: Vec<SubscribeTopic>) -> (res: Result<
        Subscribe,
        Error,
    >)
        ensures
            exists|now: Duration|
                call_ensures(elapsed, (&old(self).started,), now) && final(self)@
                    == #[trigger] old(self)@.subscribed(now),
            res == if old(self)@.connected() {
                Ok(Subscribe { pid: crate::client::session::following_pkid(old(self)@.last_pkid), topics })
            } else {
                Err(Error(ErrorKind::InvalidState))
            },
            old(self)@.wf() ==> final(self)@.wf(),
    {
        let now = elapsed(&self.started);
        self.handle_outgoing_subscribe_at(topics, now)
    }

    /// As [`MqttState::handle_outgoing_subscribe`], at the time `now`.
    pub fn handle_outgoing_subscribe_at(
        &mut self,
        topics: Vec<SubscribeTopic>,
        now: Duration,
    ) -> (res: Result<Subscribe, Error>)
        ensures
            final(self)@ == old(self)@.subscribed(now),
            final(self).last_pkid.0 == old(self).last_pkid.0 % 65_535 + 1,
            res matches Ok(subscribe) ==> subscribe.pid == final(self).last_pkid
                && subscribe.topics == topics && final(self).last_flush == now,
            res == if old(self)@.connected() {
                Ok(Subscribe { pid: crate::client::session::following_pkid(old(self)@.last_pkid), topics })
            } else {
                Err(Error(ErrorKind::InvalidState))
            },
            old(self)@.wf() ==> final(self)@.wf(),
    {
        let pkid = self.next_pkid();
        if self.connection_status == MqttConnectionStatus::Connected {
            self.last_flush = now;
            self.await_pingresp = true;
            Ok(Subscribe { pid: pkid, topics })
        } else {
            Err(Error(ErrorKind::InvalidState))
        }
    }

    /// The connection is over.
    pub fn handle_disconnect(&mut self)
        ensures
            final(self)@ == old(self)@.disconnected(),
            final(self).connection_status == MqttConnectionStatus::Disconnected,
            !final(self).await_pingresp,
            final(self).outgoing_pub@ == if old(self).opts.clean_session {
                Seq::empty()
            } else {
                old(self).outgoing_pub@
            },
            old(self)@.wf() ==> final(self)@.wf(),
    {
        self.await_pingresp = false;
        self.connection_status = MqttConnectionStatus::Disconnected;

        // remove all the state
        if self.opts.clean_session {
            self.clear_session_info();
        }
    }

    fn clear_session_info(&mut self)
        ensures
            final(self)@ == (Session { outgoing_pub: Seq::empty(), ..old(self)@ }),
    {
        self.outgoing_pub.clear();
    }

    /// Takes the next packet id.
    pub fn next_pkid(&mut self) -> (res: PacketIdentifier)
        ensures
            res == crate::client::session::following_pkid(old(self)@.last_pkid),
            res.0 == old(self).last_pkid.0 % 65_535 + 1,
            final(self)@ == (Session { last_pkid: res, ..old(self)@ }),
            old(self)@.wf() ==> final(self)@.wf(),
    {
        let mut pkid: u16 = self.last_pkid.0;
        if pkid == MAX_PKID {
            pkid = 0;
        }
        self.last_pkid = PacketIdentifier(pkid + 1);
        self.last_pkid
    }
}

} // verus!
