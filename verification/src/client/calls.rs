//! What can be relied on of the calls of a client, told by their arguments, their
//! results and the fields of the state before and after.
use std::collections::VecDeque;

use vstd::prelude::*;

use crate::client::state::{MqttConnectionStatus, MqttState};
use crate::clock::Duration;
use crate::error::{Error, ErrorKind};
use crate::options::{MqttOptions, SecurityOptions};
use crate::packet::{
    Connack, Connect, ConnectReturnCode, Packet, PacketIdentifier, Protocol, Publish, QoS, Subscribe,
    SubscribeTopic,
};

verus! {

/// A new client has the options it was given and has done nothing yet.
pub proof fn law_call_new(opts: MqttOptions, res: MqttState)
    requires
        call_ensures(MqttState::new, (opts,), res),
    ensures
        res.opts == opts,
        res.connection_status == MqttConnectionStatus::Disconnected,
        res.initial_connect,
        !res.await_pingresp,
        res.last_flush.secs == 0 && res.last_flush.nanos == 0,
        res.last_pkid.0 == 0,
        res.outgoing_pub@.len() == 0,
{
}

/// A client tells whether it has had no connection yet.
pub proof fn law_call_initial_connect(state: MqttState, res: bool)
    requires
        call_ensures(MqttState::initial_connect, (&state,), res),
    ensures
        res == state.initial_connect,
{
}

/// The connect packet carries the options, for every kind of session, and the
/// credentials that the security options call for.
pub proof fn law_call_connect(
    state: &mut MqttState,
    key: &[u8],
    iat: i64,
    res: Result<Connect, Error>,
)
    requires
        call_ensures(MqttState::handle_outgoing_connect_at, (state, key, iat), res),
    ensures
        res matches Ok(connect) ==> {
            &&& connect.protocol == Protocol::MQTT(4)
            &&& connect.client_id == old(state).opts.client_id
            &&& connect.clean_session == old(state).opts.clean_session
            &&& connect.last_will == old(state).opts.last_will
            &&& Some(connect.keep_alive) == (if old(state).opts.keep_alive is Some {
                old(state).opts.keep_alive
            } else {
                Some(180u16)
            })
        },
        res matches Ok(connect) ==> match old(state).opts.security {
            SecurityOptions::UsernamePassword(pair) => connect.username == Some(pair.0)
                && connect.password == Some(pair.1),
            SecurityOptions::GcloudIotCore(core) => {
                &&& connect.username matches Some(username) && username@ == "unused"@
                &&& connect.password matches Some(password) && crate::token::rs256_token(
                    iat,
                    (iat + core.2) as i64,
                    "crested-return-122311"@,
                    key@,
                ) == Some(password@)
            },
            _ => connect.username is None && connect.password is None,
        },
        !(old(state).opts.security is GcloudIotCore) ==> res is Ok,
        old(state).opts.security matches SecurityOptions::GcloudIotCore(core) ==> (res is Ok <==> {
            &&& -8_334_601_228_800 <= iat <= 8_210_266_876_799
            &&& -8_334_601_228_800 <= iat + core.2 <= 8_210_266_876_799
            &&& crate::token::rs256_token(
                iat,
                (iat + core.2) as i64,
                "crested-return-122311"@,
                key@,
            ) is Some
        }),
        final(state).connection_status == MqttConnectionStatus::Handshake,
        final(state).outgoing_pub@ == old(state).outgoing_pub@,
        final(state).last_pkid == old(state).last_pkid,
        final(state).last_flush == old(state).last_flush,
        final(state).await_pingresp == old(state).await_pingresp,
        final(state).initial_connect == old(state).initial_connect,
        final(state).started == old(state).started,
        final(state).opts == (MqttOptions {
            keep_alive: if old(state).opts.keep_alive is Some {
                old(state).opts.keep_alive
            } else {
                Some(180u16)
            },
            ..old(state).opts
        }),
{
}

/// A connect packet that is asked for now carries the same options, and a password
/// that is issued at a reading of the clock.
pub proof fn law_call_connect_now(state: &mut MqttState, key: &[u8], res: Result<Connect, Error>)
    requires
        call_ensures(MqttState::handle_outgoing_connect, (state, key), res),
    ensures
        res matches Ok(connect) ==> {
            &&& connect.protocol == Protocol::MQTT(4)
            &&& connect.client_id == old(state).opts.client_id
            &&& connect.clean_session == old(state).opts.clean_session
            &&& connect.last_will == old(state).opts.last_will
            &&& Some(connect.keep_alive) == (if old(state).opts.keep_alive is Some {
                old(state).opts.keep_alive
            } else {
                Some(180u16)
            })
        },
        res matches Ok(connect) ==> match old(state).opts.security {
            SecurityOptions::UsernamePassword(pair) => connect.username == Some(pair.0)
                && connect.password == Some(pair.1),
            SecurityOptions::GcloudIotCore(core) => {
                &&& connect.username matches Some(username) && username@ == "unused"@
                &&& connect.password matches Some(password) && exists|iat: i64|
                    call_ensures(crate::clock::unix_time, (), iat)
                        && #[trigger] crate::token::rs256_token(
                        iat,
                        (iat + core.2) as i64,
                        "crested-return-122311"@,
                        key@,
                    ) == Some(password@)
            },
            _ => connect.username is None && connect.password is None,
        },
        !(old(state).opts.security is GcloudIotCore) ==> res is Ok,
        final(state).connection_status == MqttConnectionStatus::Handshake,
        final(state).outgoing_pub@ == old(state).outgoing_pub@,
        final(state).last_pkid == old(state).last_pkid,
        final(state).last_flush == old(state).last_flush,
        final(state).await_pingresp == old(state).await_pingresp,
        final(state).initial_connect == old(state).initial_connect,
        final(state).started == old(state).started,
        final(state).opts == (MqttOptions {
            keep_alive: if old(state).opts.keep_alive is Some {
                old(state).opts.keep_alive
            } else {
                Some(180u16)
            },
            ..old(state).opts
        }),
{
}

/// Only an accepted connection is one, and it is the first no longer. Only a clean
/// session loses its queue to it.
pub proof fn law_call_connack(state: &mut MqttState, connack: Connack, res: Result<(), Error>)
    requires
        call_ensures(MqttState::handle_incoming_connack, (state, connack), res),
    ensures
        res is Ok <==> connack.code == ConnectReturnCode::Accepted,
        res is Ok <==> final(state).connection_status == MqttConnectionStatus::Connected,
        res is Err <==> final(state).connection_status == MqttConnectionStatus::Disconnected,
        res matches Err(e) ==> (e.0 matches ErrorKind::Msg(text) && text@
            == crate::error::connack_text(connack.code)),
        final(state).initial_connect == (old(state).initial_connect && res is Err),
        final(state).outgoing_pub@ == (if res is Ok && old(state).opts.clean_session {
            Seq::<Publish>::empty()
        } else {
            old(state).outgoing_pub@
        }),
        final(state).opts == old(state).opts,
        final(state).last_pkid == old(state).last_pkid,
        final(state).last_flush == old(state).last_flush,
        final(state).await_pingresp == old(state).await_pingresp,
{
}

/// A persistent session hands back its whole queue, a clean one nothing, and the
/// state stays as it is.
pub proof fn law_call_reconnection(state: &mut MqttState, res: Option<VecDeque<Publish>>)
    requires
        call_ensures(MqttState::handle_reconnection, (state,), res),
    ensures
        old(state).opts.clean_session <==> res is None,
        res matches Some(queue) ==> queue@ == old(state).outgoing_pub@,
        final(state)@ == old(state)@,
{
}

/// What is published is sent and queued as it is, but for the identifier that a
/// publish without one is given if it is to arrive at least once.
pub proof fn law_call_publish(
    state: &mut MqttState,
    publish: Publish,
    now: Duration,
    res: Result<Publish, Error>,
)
    requires
        publish.qos != QoS::ExactlyOnce,
        call_ensures(MqttState::handle_outgoing_publish_at, (state, publish, now), res),
    ensures
        ({
            let fits = publish.payload@.len() <= old(state).opts.max_packet_size;
            let connected = old(state).connection_status == MqttConnectionStatus::Connected;
            let draws = fits && publish.qos == QoS::AtLeastOnce && publish.pid is None;
            &&& res is Ok <==> fits && connected
            &&& !fits ==> res == Err::<Publish, Error>(Error(ErrorKind::PacketSizeLimitExceeded))
            &&& fits && !connected ==> res == Err::<Publish, Error>(Error(ErrorKind::InvalidState))
            &&& final(state).last_pkid.0 == (if draws {
                old(state).last_pkid.0 % 65_535 + 1
            } else {
                old(state).last_pkid.0 as int
            })
            &&& final(state).last_flush == (if fits && connected {
                now
            } else {
                old(state).last_flush
            })
            &&& res matches Ok(sent) ==> {
                &&& sent.topic_name == publish.topic_name
                &&& sent.payload == publish.payload
                &&& sent.qos == publish.qos
                &&& sent.retain == publish.retain
                &&& sent.dup == publish.dup
                &&& sent.pid == (if draws {
                    Some(final(state).last_pkid)
                } else {
                    publish.pid
                })
            }
            &&& fits && publish.qos == QoS::AtLeastOnce ==> {
                let queued = final(state).outgoing_pub@.last();
                &&& final(state).outgoing_pub@.len() == old(state).outgoing_pub@.len() + 1
                &&& final(state).outgoing_pub@.drop_last() == old(state).outgoing_pub@
                &&& queued.topic_name == publish.topic_name
                &&& queued.payload == publish.payload
                &&& queued.qos == publish.qos
                &&& queued.retain == publish.retain
                &&& queued.dup == publish.dup
                &&& queued.pid == (if draws {
                    Some(final(state).last_pkid)
                } else {
                    publish.pid
                })
            }
            &&& !fits || publish.qos != QoS::AtLeastOnce ==> final(state).outgoing_pub@ == old(
                state,
            ).outgoing_pub@
            &&& final(state).opts == old(state).opts
            &&& final(state).connection_status == old(state).connection_status
            &&& final(state).initial_connect == old(state).initial_connect
            &&& final(state).await_pingresp == old(state).await_pingresp
        }),
{
}

/// The same holds of what is published now, at a reading of the clock.
pub proof fn law_call_publish_now(
    state: &mut MqttState,
    publish: Publish,
    res: Result<Publish, Error>,
)
    requires
        publish.qos != QoS::ExactlyOnce,
        call_ensures(MqttState::handle_outgoing_publish, (state, publish), res),
    ensures
        ({
            let fits = publish.payload@.len() <= old(state).opts.max_packet_size;
            let connected = old(state).connection_status == MqttConnectionStatus::Connected;
            let draws = fits && publish.qos == QoS::AtLeastOnce && publish.pid is None;
            &&& res is Ok <==> fits && connected
            &&& !fits ==> res == Err::<Publish, Error>(Error(ErrorKind::PacketSizeLimitExceeded))
            &&& fits && !connected ==> res == Err::<Publish, Error>(Error(ErrorKind::InvalidState))
            &&& final(state).last_pkid.0 == (if draws {
                old(state).last_pkid.0 % 65_535 + 1
            } else {
                old(state).last_pkid.0 as int
            })
            &&& res is Ok ==> call_ensures(
                crate::clock::elapsed,
                (&old(state).started,),
                final(state).last_flush,
            )
            &&& res is Err ==> final(state).last_flush == old(state).last_flush
            &&& res matches Ok(sent) ==> {
                &&& sent.topic_name == publish.topic_name
                &&& sent.payload == publish.payload
                &&& sent.qos == publish.qos
                &&& sent.retain == publish.retain
                &&& sent.dup == publish.dup
                &&& sent.pid == (if draws {
                    Some(final(state).last_pkid)
                } else {
                    publish.pid
                })
            }
            &&& fits && publish.qos == QoS::AtLeastOnce ==> {
                let queued = final(state).outgoing_pub@.last();
                &&& final(state).outgoing_pub@.len() == old(state).outgoing_pub@.len() + 1
                &&& final(state).outgoing_pub@.drop_last() == old(state).outgoing_pub@
                &&& queued.topic_name == publish.topic_name
                &&& queued.payload == publish.payload
                &&& queued.qos == publish.qos
                &&& queued.retain == publish.retain
                &&& queued.dup == publish.dup
                &&& queued.pid == (if draws {
                    Some(final(state).last_pkid)
                } else {
                    publish.pid
                })
            }
            &&& !fits || publish.qos != QoS::AtLeastOnce ==> final(state).outgoing_pub@ == old(
                state,
            ).outgoing_pub@
            &&& final(state).opts == old(state).opts
            &&& final(state).initial_connect == old(state).initial_connect
            &&& final(state).connection_status == old(state).connection_status
            &&& final(state).await_pingresp == old(state).await_pingresp
        }),
{
}

/// The acknowledgement of what was just published gives it back and leaves the
/// queue as it was before, if nothing else was pending under its identifier.
pub proof fn law_call_puback_after_publish(
    state: &mut MqttState,
    publish: Publish,
    now: Duration,
    sent: Publish,
    later: &mut MqttState,
    res: Result<Publish, Error>,
)
    requires
        publish.qos == QoS::AtLeastOnce,
        call_ensures(MqttState::handle_outgoing_publish_at, (state, publish, now), Ok(sent)),
        old(later)@ == final(state)@,
        call_ensures(MqttState::handle_incoming_puback, (later, sent.pid->0), res),
        forall|i: int|
            0 <= i < old(state).outgoing_pub@.len() ==> (#[trigger] old(
                state,
            ).outgoing_pub@[i]).pid != sent.pid,
    ensures
        res == Ok::<Publish, Error>(sent),
        final(later).outgoing_pub@ == old(state).outgoing_pub@,
{
    let queue = old(state).outgoing_pub@;
    let last = queue.len() as int;
    assert(old(later).outgoing_pub@ == queue.push(sent));
    crate::client::effects::law_ack_takes_first_under_pkid(old(later)@, sent.pid->0, last);
    assert(queue.push(sent).take(last) + queue.push(sent).skip(last + 1) =~= queue);
}

/// An acknowledgement gives back the oldest publish under its identifier and takes
/// it, and nothing else, out of the queue; if there is none it is refused.
pub proof fn law_call_puback(
    state: &mut MqttState,
    pkid: PacketIdentifier,
    res: Result<Publish, Error>,
)
    requires
        call_ensures(MqttState::handle_incoming_puback, (state, pkid), res),
    ensures
        match res {
            Ok(publish) => exists|i: int|
                {
                    &&& 0 <= i < old(state).outgoing_pub@.len()
                    &&& publish == #[trigger] old(state).outgoing_pub@[i]
                    &&& publish.pid == Some(pkid)
                    &&& forall|j: int|
                        0 <= j < i ==> (#[trigger] old(state).outgoing_pub@[j]).pid != Some(pkid)
                    &&& final(state).outgoing_pub@ == old(state).outgoing_pub@.remove(i)
                },
            Err(e) => {
                &&& e.0 is InvalidState
                &&& final(state).outgoing_pub@ == old(state).outgoing_pub@
                &&& forall|j: int|
                    0 <= j < old(state).outgoing_pub@.len() ==> (#[trigger] old(
                        state,
                    ).outgoing_pub@[j]).pid != Some(pkid)
            },
        },
        final(state).opts == old(state).opts,
        final(state).connection_status == old(state).connection_status,
        final(state).initial_connect == old(state).initial_connect,
        final(state).await_pingresp == old(state).await_pingresp,
        final(state).last_flush == old(state).last_flush,
        final(state).last_pkid == old(state).last_pkid,
{
}

/// An incoming publish goes to the user as it came, and is acknowledged under its
/// own identifier exactly if it is to arrive at least once. The state stays as it
/// is.
pub proof fn law_call_incoming_publish(
    state: &mut MqttState,
    publish: Publish,
    res: (Option<Publish>, Option<Packet>),
)
    requires
        publish.qos != QoS::ExactlyOnce,
        publish.qos == QoS::AtLeastOnce ==> publish.pid is Some,
        call_ensures(MqttState::handle_incoming_publish, (state, publish), res),
    ensures
        res.0 == Some(publish),
        publish.qos == QoS::AtMostOnce ==> res.1 is None,
        publish.qos == QoS::AtLeastOnce ==> (res.1 matches Some(Packet::Puback(pkid)) && Some(pkid)
            == publish.pid),
        final(state)@ == old(state)@,
{
}

/// The time of the last control packet is set to a reading of the clock, or to the
/// time that is told.
pub proof fn law_call_reset_last_control(
    state: &mut MqttState,
    told: &mut MqttState,
    now: Duration,
)
    requires
        call_ensures(MqttState::reset_last_control_at, (state,), ()),
        call_ensures(MqttState::reset_last_control_to, (told, now), ()),
    ensures
        call_ensures(crate::clock::elapsed, (&old(state).started,), final(state).last_flush),
        final(state).opts == old(state).opts,
        final(state).initial_connect == old(state).initial_connect,
        final(state).outgoing_pub@ == old(state).outgoing_pub@,
        final(state).last_pkid == old(state).last_pkid,
        final(state).await_pingresp == old(state).await_pingresp,
        final(state).connection_status == old(state).connection_status,
        final(told).last_flush == now,
        final(told).opts == old(told).opts,
        final(told).initial_connect == old(told).initial_connect,
        final(told).outgoing_pub@ == old(told).outgoing_pub@,
        final(told).last_pkid == old(told).last_pkid,
        final(told).await_pingresp == old(told).await_pingresp,
        final(told).connection_status == old(told).connection_status,
{
}

/// Connected or not, a ping is required exactly if more than `wait` seconds have
/// passed since the last control packet, the least number that is not under nine
/// tenths of the keep alive time.
pub proof fn law_call_is_ping_required(state: MqttState, now: Duration, wait: int, res: bool)
    requires
        call_ensures(MqttState::is_ping_required_at, (&state, now), res),
        state.opts.keep_alive matches Some(keep_alive) ==> 10 * (wait - 1) < 9 * keep_alive <= 10
            * wait,
    ensures
        res <==> state.opts.keep_alive is Some && now.secs * 1_000_000_000 + now.nanos
            > state.last_flush.secs * 1_000_000_000 + state.last_flush.nanos + wait * 1_000_000_000,
{
}

/// Whether a ping is required now is decided by a reading of the clock.
pub proof fn law_call_is_ping_required_now(state: MqttState, wait: int, res: bool)
    requires
        call_ensures(MqttState::is_ping_required, (&state,), res),
        state.opts.keep_alive matches Some(keep_alive) ==> 10 * (wait - 1) < 9 * keep_alive <= 10
            * wait,
    ensures
        exists|now: Duration|
            #![trigger call_ensures(crate::clock::elapsed, (&state.started,), now)]
            {
                &&& call_ensures(crate::clock::elapsed, (&state.started,), now)
                &&& res <==> state.opts.keep_alive is Some && now.secs * 1_000_000_000 + now.nanos
                    > state.last_flush.secs * 1_000_000_000 + state.last_flush.nanos + wait
                    * 1_000_000_000
            },
{
    let now = choose|now: Duration|
        call_ensures(crate::clock::elapsed, (&state.started,), now)
            && res == #[trigger] state@.ping_due(now);
    crate::client::effects::law_ping_is_required_after_wait(state@, now, wait);
    assert(call_ensures(crate::clock::elapsed, (&state.started,), now));
}

/// A ping is sent exactly if there is a connection, the previous one was answered
/// and the keep alive time is not exceeded by a second. It is then a control packet
/// whose answer is due; otherwise nothing changes.
pub proof fn law_call_ping(state: &mut MqttState, now: Duration, res: Result<(), Error>)
    requires
        old(state).opts.keep_alive is Some,
        call_ensures(MqttState::handle_outgoing_ping_at, (state, now), res),
    ensures
        res is Ok <==> {
            &&& old(state).connection_status == MqttConnectionStatus::Connected
            &&& !old(state).await_pingresp
            &&& now.secs * 1_000_000_000 + now.nanos < old(state).last_flush.secs * 1_000_000_000
                + old(state).last_flush.nanos + (old(state).opts.keep_alive->0 + 1) * 1_000_000_000
        },
        res matches Err(e) ==> e.0 is InvalidState && final(state)@ == old(state)@,
        res is Ok ==> final(state).await_pingresp && final(state).last_flush == now,
        final(state).opts == old(state).opts,
        final(state).connection_status == old(state).connection_status,
        final(state).initial_connect == old(state).initial_connect,
        final(state).last_pkid == old(state).last_pkid,
        final(state).outgoing_pub@ == old(state).outgoing_pub@,
{
}

/// Whether a ping is sent now is decided by a reading of the clock, which is
/// recorded if it is.
pub proof fn law_call_ping_now(state: &mut MqttState, res: Result<(), Error>)
    requires
        old(state).opts.keep_alive is Some,
        call_ensures(MqttState::handle_outgoing_ping, (state,), res),
    ensures
        exists|now: Duration|
            #![trigger call_ensures(crate::clock::elapsed, (&old(state).started,), now)]
            {
                &&& call_ensures(crate::clock::elapsed, (&old(state).started,), now)
                &&& res is Ok <==> {
                    &&& old(state).connection_status == MqttConnectionStatus::Connected
                    &&& !old(state).await_pingresp
                    &&& now.secs * 1_000_000_000 + now.nanos < old(state).last_flush.secs
                        * 1_000_000_000 + old(state).last_flush.nanos + (old(
                        state,
                    ).opts.keep_alive->0 + 1) * 1_000_000_000
                }
                &&& res is Ok ==> final(state).last_flush == now
            },
        res matches Err(e) ==> e.0 is InvalidState && final(state)@ == old(state)@,
        res is Ok ==> final(state).await_pingresp,
        final(state).opts == old(state).opts,
        final(state).connection_status == old(state).connection_status,
        final(state).initial_connect == old(state).initial_connect,
        final(state).outgoing_pub@ == old(state).outgoing_pub@,
        final(state).last_pkid == old(state).last_pkid,
{
    let now = choose|now: Duration|
        {
            &&& call_ensures(crate::clock::elapsed, (&old(state).started,), now)
            &&& final(state)@ == #[trigger] old(state)@.pinged(now)
            &&& res == if old(state)@.may_ping(now) {
                Ok(())
            } else {
                Err(Error(ErrorKind::InvalidState))
            }
        };
    assert(call_ensures(crate::clock::elapsed, (&old(state).started,), now));
}

/// After the answer to a ping none is due.
pub proof fn law_call_pingresp(state: &mut MqttState)
    requires
        call_ensures(MqttState::handle_incoming_pingresp, (state,), ()),
    ensures
        !final(state).await_pingresp,
        final(state).opts == old(state).opts,
        final(state).connection_status == old(state).connection_status,
        final(state).initial_connect == old(state).initial_connect,
        final(state).last_flush == old(state).last_flush,
        final(state).last_pkid == old(state).last_pkid,
        final(state).outgoing_pub@ == old(state).outgoing_pub@,
{
}

/// A subscription asks for the topics that are given, under an identifier that is
/// taken even if there is no connection to send it over.
pub proof fn law_call_subscribe(
    state: &mut MqttState,
    topics: Vec<SubscribeTopic>,
    now: Duration,
    res: Result<Subscribe, Error>,
)
    requires
        call_ensures(MqttState::handle_outgoing_subscribe_at, (state, topics, now), res),
    ensures
        ({
            let connected = old(state).connection_status == MqttConnectionStatus::Connected;
            &&& res is Ok <==> connected
            &&& res matches Ok(subscribe) ==> subscribe.topics == topics && subscribe.pid
                == final(state).last_pkid
            &&& res matches Err(e) ==> e.0 is InvalidState
            &&& final(state).last_pkid.0 == old(state).last_pkid.0 % 65_535 + 1
            &&& final(state).await_pingresp == (connected || old(state).await_pingresp)
            &&& final(state).last_flush == (if connected {
                now
            } else {
                old(state).last_flush
            })
            &&& final(state).opts == old(state).opts
            &&& final(state).connection_status == old(state).connection_status
            &&& final(state).initial_connect == old(state).initial_connect
            &&& final(state).outgoing_pub@ == old(state).outgoing_pub@
        }),
{
}

/// The same holds of a subscription that is asked for now, at a reading of the
/// clock.
pub proof fn law_call_subscribe_now(
    state: &mut MqttState,
    topics: Vec<SubscribeTopic>,
    res: Result<Subscribe, Error>,
)
    requires
        call_ensures(MqttState::handle_outgoing_subscribe, (state, topics), res),
    ensures
        ({
            let connected = old(state).connection_status == MqttConnectionStatus::Connected;
            &&& res is Ok <==> connected
            &&& res matches Ok(subscribe) ==> subscribe.topics == topics && subscribe.pid
                == final(state).last_pkid
            &&& res matches Err(e) ==> e.0 is InvalidState
            &&& final(state).last_pkid.0 == old(state).last_pkid.0 % 65_535 + 1
            &&& final(state).await_pingresp == (connected || old(state).await_pingresp)
            &&& connected ==> call_ensures(
                crate::clock::elapsed,
                (&old(state).started,),
                final(state).last_flush,
            )
            &&& !connected ==> final(state).last_flush == old(state).last_flush
            &&& final(state).opts == old(state).opts
            &&& final(state).connection_status == old(state).connection_status
            &&& final(state).initial_connect == old(state).initial_connect
            &&& final(state).outgoing_pub@ == old(state).outgoing_pub@
        }),
{
}

/// After a disconnect there is no connection and no answer is due, whatever was
/// before; the queue goes with a clean session and stays with a persistent one.
pub proof fn law_call_disconnect(state: &mut MqttState)
    requires
        call_ensures(MqttState::handle_disconnect, (state,), ()),
    ensures
        final(state).connection_status == MqttConnectionStatus::Disconnected,
        !final(state).await_pingresp,
        old(state).opts.clean_session ==> final(state).outgoing_pub@.len() == 0,
        !old(state).opts.clean_session ==> final(state).outgoing_pub@ == old(state).outgoing_pub@,
        final(state).opts == old(state).opts,
        final(state).initial_connect == old(state).initial_connect,
        final(state).last_flush == old(state).last_flush,
        final(state).last_pkid == old(state).last_pkid,
{
}

/// Identifiers count up, from 1 again after 65535, and nothing else changes.
pub proof fn law_call_next_pkid(state: &mut MqttState, res: PacketIdentifier)
    requires
        call_ensures(MqttState::next_pkid, (state,), res),
    ensures
        res.0 == old(state).last_pkid.0 % 65_535 + 1,
        final(state).last_pkid == res,
        final(state).opts == old(state).opts,
        final(state).connection_status == old(state).connection_status,
        final(state).initial_connect == old(state).initial_connect,
        final(state).await_pingresp == old(state).await_pingresp,
        final(state).last_flush == old(state).last_flush,
        final(state).outgoing_pub@ == old(state).outgoing_pub@,
{
}

} // verus!
