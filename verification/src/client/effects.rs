//! What each operation does to each part of the state, told by the fields alone.
use vstd::prelude::*;

use crate::client::session::Session;
use crate::client::state::MqttConnectionStatus;
use crate::clock::Duration;
use crate::error::{Error, ErrorKind};
use crate::options::{MqttOptions, SecurityOptions};
use crate::packet::{Connect, ConnectReturnCode, PacketIdentifier, Protocol, Publish, QoS};

verus! {

/// A new client keeps the options it is given, has no connection and has never
/// had one, awaits nothing, has handed out no identifier and has queued nothing.
pub proof fn law_new_client(opts: MqttOptions, started: std::time::Instant)
    ensures
        ({
            let new = Session::fresh(opts, started);
            &&& new.opts == opts
            &&& new.started == started
            &&& new.connection_status == MqttConnectionStatus::Disconnected
            &&& new.initial_connect
            &&& !new.await_pingresp
            &&& new.last_flush.secs == 0 && new.last_flush.nanos == 0
            &&& new.last_pkid.0 == 0
            &&& new.outgoing_pub.len() == 0
        }),
{
}

/// The identifier after `last` is one more, and 1 after 65535.
pub proof fn law_next_pkid(last: PacketIdentifier)
    ensures
        crate::client::session::following_pkid(last).0 == last.0 % 65_535 + 1,
{
}

/// Every publish that is to arrive at least once and whose payload is within the
/// limit is put behind those already queued: the same message, under its own
/// identifier or, if it has none, under the one that is handed out now. No other
/// publish touches the queue.
pub proof fn law_publish_is_queued(session: Session, publish: Publish, now: Duration)
    ensures
        publish.qos == QoS::AtLeastOnce && publish.payload@.len() <= session.opts.max_packet_size
            ==> ({
            let after = session.published(publish, now);
            let queued = after.outgoing_pub.last();
            &&& after.outgoing_pub.len() == session.outgoing_pub.len() + 1
            &&& after.outgoing_pub.drop_last() == session.outgoing_pub
            &&& queued.topic_name == publish.topic_name
            &&& queued.payload == publish.payload
            &&& queued.qos == publish.qos
            &&& queued.retain == publish.retain
            &&& queued.dup == publish.dup
            &&& queued.pid == (if publish.pid is Some {
                publish.pid
            } else {
                Some(after.last_pkid)
            })
        }),
        publish.qos != QoS::AtLeastOnce || publish.payload@.len() > session.opts.max_packet_size
            ==> session.published(publish, now).outgoing_pub == session.outgoing_pub,
{
    let after = session.published(publish, now);
    if publish.qos == QoS::AtLeastOnce && publish.payload@.len() <= session.opts.max_packet_size {
        assert(after.outgoing_pub.drop_last() =~= session.outgoing_pub);
    }
}

/// What is sent is what was given: it differs in the identifier at most, and only
/// if the publish is to arrive at least once and had none, which then is the next
/// one. What is queued is what is sent.
pub proof fn law_publish_sends_what_it_is_given(session: Session, publish: Publish, now: Duration)
    ensures
        session.publish_result(publish) matches Ok(sent) ==> {
            &&& sent.topic_name == publish.topic_name
            &&& sent.payload == publish.payload
            &&& sent.qos == publish.qos
            &&& sent.retain == publish.retain
            &&& sent.dup == publish.dup
            &&& publish.qos != QoS::AtLeastOnce || publish.pid is Some ==> sent.pid == publish.pid
            &&& publish.qos == QoS::AtLeastOnce && publish.pid is None ==> (sent.pid matches Some(
                pkid,
            ) && pkid.0 == session.last_pkid.0 % 65_535 + 1)
            &&& publish.qos == QoS::AtLeastOnce ==> session.published(
                publish,
                now,
            ).outgoing_pub.last() == sent
        },
{
}

/// A publish is sent exactly if its payload is within the limit and there is a
/// connection. Of two reasons to refuse it the payload is named.
pub proof fn law_publish_is_sent_when_connected(session: Session, publish: Publish)
    ensures
        session.publish_result(publish) is Ok <==> publish.payload@.len()
            <= session.opts.max_packet_size && session.connection_status
            == MqttConnectionStatus::Connected,
        publish.payload@.len() > session.opts.max_packet_size ==> session.publish_result(publish)
            == Err::<Publish, Error>(Error(ErrorKind::PacketSizeLimitExceeded)),
        publish.payload@.len() <= session.opts.max_packet_size && session.connection_status
            != MqttConnectionStatus::Connected ==> session.publish_result(publish) == Err::<
            Publish,
            Error,
        >(Error(ErrorKind::InvalidState)),
{
}

/// Besides the queue a publish changes the last identifier, if one was handed out
/// for it, and the time of the last control packet, if it is sent.
pub proof fn law_publish_changes_nothing_else(session: Session, publish: Publish, now: Duration)
    ensures
        ({
            let after = session.published(publish, now);
            let fits = publish.payload@.len() <= session.opts.max_packet_size;
            &&& after.opts == session.opts
            &&& after.started == session.started
            &&& after.connection_status == session.connection_status
            &&& after.initial_connect == session.initial_connect
            &&& after.await_pingresp == session.await_pingresp
            &&& after.last_pkid.0 == (if fits && publish.qos == QoS::AtLeastOnce
                && publish.pid is None {
                session.last_pkid.0 % 65_535 + 1
            } else {
                session.last_pkid.0 as int
            })
            &&& after.last_flush == (if fits && session.connection_status
                == MqttConnectionStatus::Connected {
                now
            } else {
                session.last_flush
            })
        }),
{
}

/// An acknowledgement takes the first publish under its identifier out of the
/// queue, and that one only.
pub proof fn law_ack_takes_first_under_pkid(session: Session, pkid: PacketIdentifier, i: int)
    requires
        0 <= i < session.outgoing_pub.len(),
        session.outgoing_pub[i].pid == Some(pkid),
        forall|j: int| 0 <= j < i ==> (#[trigger] session.outgoing_pub[j]).pid != Some(pkid),
    ensures
        session.pending(pkid),
        session.slot(pkid) == i,
        session.acknowledged(pkid).outgoing_pub == session.outgoing_pub.take(i)
            + session.outgoing_pub.skip(i + 1),
{
    assert(session.is_slot(pkid, i));
    assert(session.outgoing_pub.remove(i) =~= session.outgoing_pub.take(i)
        + session.outgoing_pub.skip(i + 1));
}

/// An acknowledgement under whose identifier nothing is queued changes nothing.
pub proof fn law_unknown_ack_changes_nothing(session: Session, pkid: PacketIdentifier)
    requires
        forall|i: int|
            0 <= i < session.outgoing_pub.len() ==> (#[trigger] session.outgoing_pub[i]).pid
                != Some(pkid),
    ensures
        !session.pending(pkid),
        session.acknowledged(pkid) == session,
{
}

/// An acknowledgement changes nothing but the queue.
pub proof fn law_ack_changes_nothing_else(session: Session, pkid: PacketIdentifier)
    ensures
        ({
            let after = session.acknowledged(pkid);
            &&& after.opts == session.opts
            &&& after.started == session.started
            &&& after.connection_status == session.connection_status
            &&& after.initial_connect == session.initial_connect
            &&& after.await_pingresp == session.await_pingresp
            &&& after.last_flush == session.last_flush
            &&& after.last_pkid == session.last_pkid
        }),
{
}

/// The publishes to send again are all that are queued, unless the session is
/// clean: then there are none.
pub proof fn law_retransmission_is_the_queue(session: Session)
    ensures
        session.opts.clean_session ==> session.retransmission() is None,
        !session.opts.clean_session ==> (session.retransmission() matches Some(publishes)
            && publishes == session.outgoing_pub),
{
}

/// To open a connection starts the handshake and sets a missing keep alive time to
/// three minutes; everything else stays.
pub proof fn law_connecting(session: Session)
    ensures
        ({
            let after = session.connecting();
            &&& after.connection_status == MqttConnectionStatus::Handshake
            &&& after.opts.keep_alive == (if session.opts.keep_alive is Some {
                session.opts.keep_alive
            } else {
                Some(180u16)
            })
            &&& after.opts.broker_addr == session.opts.broker_addr
            &&& after.opts.clean_session == session.opts.clean_session
            &&& after.opts.client_id == session.opts.client_id
            &&& after.opts.mqtt_connection_timeout == session.opts.mqtt_connection_timeout
            &&& after.opts.reconnect == session.opts.reconnect
            &&& after.opts.security == session.opts.security
            &&& after.opts.max_packet_size == session.opts.max_packet_size
            &&& after.opts.last_will == session.opts.last_will
            &&& after.started == session.started
            &&& after.initial_connect == session.initial_connect
            &&& after.await_pingresp == session.await_pingresp
            &&& after.last_flush == session.last_flush
            &&& after.last_pkid == session.last_pkid
            &&& after.outgoing_pub == session.outgoing_pub
        }),
{
}

/// The answer of the broker makes the connection or ends it. An accepted one is no
/// longer the first, and empties the queue of a clean session; everything else
/// stays.
pub proof fn law_answer_of_broker(session: Session, code: ConnectReturnCode)
    ensures
        ({
            let after = session.answered(code);
            let accepted = code == ConnectReturnCode::Accepted;
            &&& after.connection_status == (if accepted {
                MqttConnectionStatus::Connected
            } else {
                MqttConnectionStatus::Disconnected
            })
            &&& after.initial_connect == (session.initial_connect && !accepted)
            &&& accepted && session.opts.clean_session ==> after.outgoing_pub.len() == 0
            &&& !accepted || !session.opts.clean_session ==> after.outgoing_pub
                == session.outgoing_pub
            &&& after.opts == session.opts
            &&& after.started == session.started
            &&& after.await_pingresp == session.await_pingresp
            &&& after.last_flush == session.last_flush
            &&& after.last_pkid == session.last_pkid
        }),
{
}

/// Once the connection is over there is none and no answer to a ping is due,
/// whatever was before. A clean session loses its queue, a persistent one keeps
/// it; everything else stays.
pub proof fn law_disconnect(session: Session)
    ensures
        ({
            let after = session.disconnected();
            &&& after.connection_status == MqttConnectionStatus::Disconnected
            &&& !after.await_pingresp
            &&& session.opts.clean_session ==> after.outgoing_pub.len() == 0
            &&& !session.opts.clean_session ==> after.outgoing_pub == session.outgoing_pub
            &&& after.opts == session.opts
            &&& after.started == session.started
            &&& after.initial_connect == session.initial_connect
            &&& after.last_flush == session.last_flush
            &&& after.last_pkid == session.last_pkid
        }),
{
}

/// A client that lost its connection and was accepted again may ping until a
/// second after the keep alive time, even if its last ping on the old connection
/// was never answered.
pub proof fn law_reconnected_client_may_ping(session: Session, now: Duration)
    ensures
        ({
            let again = session.disconnected().connecting().answered(ConnectReturnCode::Accepted);
            let keep_alive: u16 = if session.opts.keep_alive is Some {
                session.opts.keep_alive->0
            } else {
                180
            };
            let idle = now.secs * 1_000_000_000 + now.nanos - (session.last_flush.secs
                * 1_000_000_000 + session.last_flush.nanos);
            again.may_ping(now) <==> idle < (keep_alive + 1) * 1_000_000_000
        }),
{
}

/// Connected or not, a ping is required exactly if more time than `wait` seconds
/// has passed since the last control packet, where `wait` is the least number of
/// seconds that is not under nine tenths of the keep alive time. Without a keep
/// alive time none ever is.
pub proof fn law_ping_is_required_after_wait(session: Session, now: Duration, wait: int)
    requires
        session.opts.keep_alive matches Some(keep_alive) ==> 10 * (wait - 1) < 9 * keep_alive <= 10
            * wait,
    ensures
        session.ping_due(now) <==> session.opts.keep_alive is Some && now.secs * 1_000_000_000
            + now.nanos > session.last_flush.secs * 1_000_000_000 + session.last_flush.nanos + wait
            * 1_000_000_000,
{
}

/// Connected or not, no ping is required while nine tenths of the keep alive time
/// have not passed, and one is once more than the keep alive time has.
pub proof fn law_ping_is_required_between_limits(session: Session, now: Duration, keep_alive: u16)
    requires
        session.opts.keep_alive == Some(keep_alive),
    ensures
        ({
            let idle = now.secs * 1_000_000_000 + now.nanos - (session.last_flush.secs
                * 1_000_000_000 + session.last_flush.nanos);
            &&& 10 * idle <= 9 * keep_alive * 1_000_000_000 ==> !session.ping_due(now)
            &&& idle > keep_alive * 1_000_000_000 ==> session.ping_due(now)
        }),
{
}

/// A ping may be sent exactly if there is a connection, the previous ping was
/// answered, and less than a second more than the keep alive time has passed since
/// the last control packet.
pub proof fn law_ping_is_sent_in_time(session: Session, now: Duration)
    ensures
        session.may_ping(now) <==> {
            &&& session.connection_status == MqttConnectionStatus::Connected
            &&& !session.await_pingresp
            &&& session.opts.keep_alive matches Some(keep_alive) && now.secs * 1_000_000_000
                + now.nanos < session.last_flush.secs * 1_000_000_000 + session.last_flush.nanos + (
            keep_alive + 1) * 1_000_000_000
        },
{
}

/// A ping that is sent is a control packet whose answer is due; one that may not
/// be sent changes nothing. Everything else stays either way.
pub proof fn law_ping_awaits_its_answer(session: Session, now: Duration)
    ensures
        ({
            let after = session.pinged(now);
            &&& session.may_ping(now) ==> after.await_pingresp && after.last_flush == now
            &&& !session.may_ping(now) ==> after.await_pingresp == session.await_pingresp
                && after.last_flush == session.last_flush
            &&& after.opts == session.opts
            &&& after.started == session.started
            &&& after.connection_status == session.connection_status
            &&& after.initial_connect == session.initial_connect
            &&& after.last_pkid == session.last_pkid
            &&& after.outgoing_pub == session.outgoing_pub
        }),
{
}

/// The answer to a ping ends the wait for it and changes nothing else.
pub proof fn law_ping_answer_ends_wait(session: Session)
    ensures
        ({
            let after = session.ping_answered();
            &&& !after.await_pingresp
            &&& after.opts == session.opts
            &&& after.started == session.started
            &&& after.connection_status == session.connection_status
            &&& after.initial_connect == session.initial_connect
            &&& after.last_flush == session.last_flush
            &&& after.last_pkid == session.last_pkid
            &&& after.outgoing_pub == session.outgoing_pub
        }),
{
}

/// A control packet leaves its time behind and nothing else.
pub proof fn law_control_packet_leaves_its_time(session: Session, now: Duration)
    ensures
        ({
            let after = session.flushed(now);
            &&& after.last_flush == now
            &&& after.opts == session.opts
            &&& after.started == session.started
            &&& after.connection_status == session.connection_status
            &&& after.initial_connect == session.initial_connect
            &&& after.await_pingresp == session.await_pingresp
            &&& after.last_pkid == session.last_pkid
            &&& after.outgoing_pub == session.outgoing_pub
        }),
{
}

/// A request to subscribe takes an identifier. With a connection it is a control
/// packet, and an answer is due as after a ping. Everything else stays.
pub proof fn law_subscribe_takes_pkid(session: Session, now: Duration)
    ensures
        ({
            let after = session.subscribed(now);
            let connected = session.connection_status == MqttConnectionStatus::Connected;
            &&& after.last_pkid.0 == session.last_pkid.0 % 65_535 + 1
            &&& after.await_pingresp == (session.await_pingresp || connected)
            &&& after.last_flush == (if connected {
                now
            } else {
                session.last_flush
            })
            &&& after.opts == session.opts
            &&& after.started == session.started
            &&& after.connection_status == session.connection_status
            &&& after.initial_connect == session.initial_connect
            &&& after.outgoing_pub == session.outgoing_pub
        }),
{
}

/// The username and the password of the options are the credentials, each in its
/// place; Google Cloud IoT Core gets the token for a password and a username that
/// it does not read; without either there are no credentials.
pub proof fn law_credentials(
    security: SecurityOptions,
    token: Option<String>,
    username: Option<String>,
    password: Option<String>,
)
    requires
        security.are_credentials(token, username, password),
    ensures
        security matches SecurityOptions::UsernamePassword(pair) ==> username == Some(pair.0)
            && password == Some(pair.1),
        security is GcloudIotCore ==> (username matches Some(text) && text@ == "unused"@)
            && password == token,
        security is NoSecurity || security is Tls ==> username is None && password is None,
{
}

/// A password is the token that was issued at `iat` and expires `expiry` seconds
/// later, signed with `key`. It is given exactly if dates stand for both times and
/// the key signs; which of these fails, the error says.
pub proof fn law_password(
    res: Result<String, Error>,
    key: Seq<u8>,
    iat: i64,
    expiry: i64,
)
    requires
        crate::token::is_password(res, key, iat, expiry),
    ensures
        ({
            let dates = -8_334_601_228_800 <= iat <= 8_210_266_876_799 && -8_334_601_228_800 <= iat
                + expiry <= 8_210_266_876_799;
            let token = crate::token::rs256_token(
                iat,
                (iat + expiry) as i64,
                "crested-return-122311"@,
                key,
            );
            &&& res is Ok <==> dates && token is Some
            &&& res matches Ok(password) ==> token == Some(password@)
            &&& !dates ==> res == Err::<String, Error>(Error(ErrorKind::InvalidExpiry))
            &&& dates && token is None ==> res == Err::<String, Error>(Error(ErrorKind::InvalidKey))
        }),
{
}

/// A connect packet carries the options: the client id, the kind of session, the
/// last will, and the keep alive time, which is three minutes if there is none.
pub proof fn law_connect_packet_carries_options(
    session: Session,
    connect: Connect,
    key: Seq<u8>,
    iat: i64,
)
    requires
        crate::client::state::is_connect(session, Ok(connect), key, iat),
    ensures
        connect.protocol == Protocol::MQTT(4),
        connect.client_id == session.opts.client_id,
        connect.clean_session == session.opts.clean_session,
        connect.last_will == session.opts.last_will,
        session.opts.keep_alive matches Some(keep_alive) ==> connect.keep_alive == keep_alive,
        session.opts.keep_alive is None ==> connect.keep_alive == 180,
        Some(connect.keep_alive) == session.connecting().opts.keep_alive,
{
}

/// A connect packet carries the credentials that the security options call for.
pub proof fn law_connect_packet_carries_credentials(
    session: Session,
    connect: Connect,
    key: Seq<u8>,
    iat: i64,
)
    requires
        crate::client::state::is_connect(session, Ok(connect), key, iat),
    ensures
        session.opts.security matches SecurityOptions::UsernamePassword(pair) ==> connect.username
            == Some(pair.0) && connect.password == Some(pair.1),
        session.opts.security is NoSecurity || session.opts.security is Tls ==> connect.username
            is None && connect.password is None,
        session.opts.security matches SecurityOptions::GcloudIotCore(core) ==> {
            &&& connect.username matches Some(username) && username@ == "unused"@
            &&& connect.password matches Some(password) && crate::token::rs256_token(
                iat,
                (iat + core.2) as i64,
                "crested-return-122311"@,
                key,
            ) == Some(password@)
        },
{
}

/// A connect packet is given unless a password for Google Cloud IoT Core is called
/// for and cannot be had.
pub proof fn law_connect_packet_is_given(
    session: Session,
    res: Result<Connect, Error>,
    key: Seq<u8>,
    iat: i64,
)
    requires
        crate::client::state::is_connect(session, res, key, iat),
    ensures
        !(session.opts.security is GcloudIotCore) ==> res is Ok,
        session.opts.security matches SecurityOptions::GcloudIotCore(core) ==> {
            let dates = -8_334_601_228_800 <= iat <= 8_210_266_876_799 && -8_334_601_228_800 <= iat
                + core.2 <= 8_210_266_876_799;
            let token = crate::token::rs256_token(
                iat,
                (iat + core.2) as i64,
                "crested-return-122311"@,
                key,
            );
            &&& res is Ok <==> dates && token is Some
            &&& !dates ==> res == Err::<Connect, Error>(Error(ErrorKind::InvalidExpiry))
            &&& dates && token is None ==> res == Err::<Connect, Error>(
                Error(ErrorKind::InvalidKey),
            )
        },
{
}

/// What is said of a refused connection names the answer of the broker.
pub proof fn law_connack_text_names_answer(code: ConnectReturnCode)
    ensures
        crate::error::connack_text(code) == "Connack error "@ + match code {
            ConnectReturnCode::Accepted => "Accepted"@,
            ConnectReturnCode::RefusedProtocolVersion => "RefusedProtocolVersion"@,
            ConnectReturnCode::RefusedIdentifierRejected => "RefusedIdentifierRejected"@,
            ConnectReturnCode::ServerUnavailable => "ServerUnavailable"@,
            ConnectReturnCode::BadUsernamePassword => "BadUsernamePassword"@,
            ConnectReturnCode::NotAuthorized => "NotAuthorized"@,
        },
{
    reveal_strlit("Connack error ");
    match code {
        ConnectReturnCode::Accepted => {
            reveal_strlit("Connack error Accepted");
            reveal_strlit("Accepted");
        },
        ConnectReturnCode::RefusedProtocolVersion => {
            reveal_strlit("Connack error RefusedProtocolVersion");
            reveal_strlit("RefusedProtocolVersion");
        },
        ConnectReturnCode::RefusedIdentifierRejected => {
            reveal_strlit("Connack error RefusedIdentifierRejected");
            reveal_strlit("RefusedIdentifierRejected");
        },
        ConnectReturnCode::ServerUnavailable => {
            reveal_strlit("Connack error ServerUnavailable");
            reveal_strlit("ServerUnavailable");
        },
        ConnectReturnCode::BadUsernamePassword => {
            reveal_strlit("Connack error BadUsernamePassword");
            reveal_strlit("BadUsernamePassword");
        },
        ConnectReturnCode::NotAuthorized => {
            reveal_strlit("Connack error NotAuthorized");
            reveal_strlit("NotAuthorized");
        },
    }
}

} // verus!
