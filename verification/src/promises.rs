//! What can be relied on of the functions that build options, packets and
//! passwords, told by their arguments and results.
use vstd::prelude::*;

use crate::clock::Duration;
use crate::error::{Error, ErrorKind};
use crate::options::{MqttOptions, ReconnectOptions, SecurityOptions};
use crate::packet::{gen_connect_packet, Connect, ConnectReturnCode, LastWill, Protocol};
use crate::token::{gen_iotcore_password, gen_iotcore_password_at, Claims};

verus! {

/// New options name the client and the broker and ask for a clean session, a keep
/// alive time of ten seconds, five seconds for the broker to answer and payloads
/// of up to 100 kilobytes; nothing else is switched on.
pub proof fn law_new_options(id: &str, addr: &str, res: MqttOptions)
    requires
        call_ensures(MqttOptions::new::<&str, &str>, (id, addr), res),
    ensures
        res.client_id@ == id@,
        res.broker_addr@ == addr@,
        res.keep_alive == Some(10u16),
        res.clean_session,
        res.mqtt_connection_timeout.secs == 5 && res.mqtt_connection_timeout.nanos == 0,
        res.reconnect is Never,
        res.security is NoSecurity,
        res.max_packet_size == 102_400,
        res.last_will is None,
{
}

/// Names that are strings already are kept as they are.
pub proof fn law_new_options_keep_strings(id: String, addr: String, res: MqttOptions)
    requires
        call_ensures(MqttOptions::new::<String, String>, (id, addr), res),
    ensures
        res.client_id == id,
        res.broker_addr == addr,
{
}

/// The keep alive time is the one that is set, and no other option changes.
pub proof fn law_set_keep_alive(opts: MqttOptions, secs: u16, res: MqttOptions)
    requires
        call_ensures(MqttOptions::set_keep_alive, (opts, secs), res),
    ensures
        res.keep_alive == Some(secs),
        res.broker_addr == opts.broker_addr,
        res.clean_session == opts.clean_session,
        res.client_id == opts.client_id,
        res.mqtt_connection_timeout == opts.mqtt_connection_timeout,
        res.reconnect == opts.reconnect,
        res.security == opts.security,
        res.max_packet_size == opts.max_packet_size,
        res.last_will == opts.last_will,
{
}

/// The packet size limit is the one that is set, in kilobytes, and no other option
/// changes.
pub proof fn law_set_max_packet_size(opts: MqttOptions, sz: usize, res: MqttOptions)
    requires
        sz * 1024 <= usize::MAX,
        call_ensures(MqttOptions::set_max_packet_size, (opts, sz), res),
    ensures
        res.max_packet_size == sz * 1024,
        res.broker_addr == opts.broker_addr,
        res.keep_alive == opts.keep_alive,
        res.clean_session == opts.clean_session,
        res.client_id == opts.client_id,
        res.mqtt_connection_timeout == opts.mqtt_connection_timeout,
        res.reconnect == opts.reconnect,
        res.security == opts.security,
        res.last_will == opts.last_will,
{
}

/// The kind of session is the one that is set, and no other option changes.
pub proof fn law_set_clean_session(opts: MqttOptions, clean_session: bool, res: MqttOptions)
    requires
        call_ensures(MqttOptions::set_clean_session, (opts, clean_session), res),
    ensures
        res.clean_session == clean_session,
        res.broker_addr == opts.broker_addr,
        res.keep_alive == opts.keep_alive,
        res.client_id == opts.client_id,
        res.mqtt_connection_timeout == opts.mqtt_connection_timeout,
        res.reconnect == opts.reconnect,
        res.security == opts.security,
        res.max_packet_size == opts.max_packet_size,
        res.last_will == opts.last_will,
{
}

/// The reconnection options are those that are set, and no other option changes.
pub proof fn law_set_reconnect_opts(
    opts: MqttOptions,
    reconnect: ReconnectOptions,
    res: MqttOptions,
)
    requires
        call_ensures(MqttOptions::set_reconnect_opts, (opts, reconnect), res),
    ensures
        res.reconnect == reconnect,
        res.broker_addr == opts.broker_addr,
        res.keep_alive == opts.keep_alive,
        res.clean_session == opts.clean_session,
        res.client_id == opts.client_id,
        res.mqtt_connection_timeout == opts.mqtt_connection_timeout,
        res.security == opts.security,
        res.max_packet_size == opts.max_packet_size,
        res.last_will == opts.last_will,
{
}

/// The security options are those that are set, and no other option changes.
pub proof fn law_set_security_opts(
    opts: MqttOptions,
    security: SecurityOptions,
    res: MqttOptions,
)
    requires
        call_ensures(MqttOptions::set_security_opts, (opts, security), res),
    ensures
        res.security == security,
        res.broker_addr == opts.broker_addr,
        res.keep_alive == opts.keep_alive,
        res.clean_session == opts.clean_session,
        res.client_id == opts.client_id,
        res.mqtt_connection_timeout == opts.mqtt_connection_timeout,
        res.reconnect == opts.reconnect,
        res.max_packet_size == opts.max_packet_size,
        res.last_will == opts.last_will,
{
}

/// The last will is the one that is set, and no other option changes.
pub proof fn law_set_last_will(opts: MqttOptions, will: Option<LastWill>, res: MqttOptions)
    requires
        call_ensures(MqttOptions::set_last_will, (opts, will), res),
    ensures
        res.last_will == will,
        res.broker_addr == opts.broker_addr,
        res.keep_alive == opts.keep_alive,
        res.clean_session == opts.clean_session,
        res.client_id == opts.client_id,
        res.mqtt_connection_timeout == opts.mqtt_connection_timeout,
        res.reconnect == opts.reconnect,
        res.security == opts.security,
        res.max_packet_size == opts.max_packet_size,
{
}

/// The credentials are the username and the password of the options, or the token
/// for Google Cloud IoT Core, or none.
pub proof fn law_credentials_follow_options(
    security: SecurityOptions,
    token: Option<String>,
    res: (Option<String>, Option<String>),
)
    requires
        call_ensures(SecurityOptions::credentials, (&security, token), res),
    ensures
        security matches SecurityOptions::UsernamePassword(pair) ==> res.0 == Some(pair.0) && res.1
            == Some(pair.1),
        security is GcloudIotCore ==> (res.0 matches Some(username) && username@ == "unused"@)
            && res.1 == token,
        security is NoSecurity || security is Tls ==> res.0 is None && res.1 is None,
{
}

/// A connect packet holds what it is made of, each part in its place.
pub proof fn law_connect_packet_holds_its_parts(
    client_id: String,
    keep_alive: u16,
    clean_session: bool,
    last_will: Option<LastWill>,
    username: Option<String>,
    password: Option<String>,
    res: Connect,
)
    requires
        call_ensures(
            gen_connect_packet,
            (client_id, keep_alive, clean_session, last_will, username, password),
            res,
        ),
    ensures
        res.protocol == Protocol::MQTT(4),
        res.client_id == client_id,
        res.keep_alive == keep_alive,
        res.clean_session == clean_session,
        res.last_will == last_will,
        res.username == username,
        res.password == password,
{
}

/// Claims are made out to the project, from `iat` until `expiry` seconds later,
/// exactly if dates stand for both.
pub proof fn law_claims_last_for_expiry(iat: i64, expiry: i64, res: Result<Claims, Error>)
    requires
        call_ensures(Claims::new, (iat, expiry), res),
    ensures
        res is Ok <==> -8_334_601_228_800 <= iat <= 8_210_266_876_799 && -8_334_601_228_800 <= iat
            + expiry <= 8_210_266_876_799,
        res matches Ok(claims) ==> claims.iat == iat && claims.exp - claims.iat == expiry
            && claims.aud@ == "crested-return-122311"@,
        res matches Err(e) ==> e.0 is InvalidExpiry,
{
}

/// A password is the token that is good for `expiry` seconds from `iat`
/// on, signed with `key`; it is given exactly if there is such a token.
pub proof fn law_password_is_signed_token(
    key: &[u8],
    iat: i64,
    expiry: i64,
    res: Result<String, Error>,
)
    requires
        call_ensures(gen_iotcore_password_at, (key, iat, expiry), res),
    ensures
        ({
            let dates = -8_334_601_228_800 <= iat <= 8_210_266_876_799 && -8_334_601_228_800 <= iat
                + expiry <= 8_210_266_876_799;
            let token = crate::token::rs256_token(
                iat,
                (iat + expiry) as i64,
                "crested-return-122311"@,
                key@,
            );
            &&& res is Ok <==> dates && token is Some
            &&& res matches Ok(password) ==> token == Some(password@)
            &&& res matches Err(e) ==> (e.0 is InvalidExpiry <==> !dates) && (e.0 is InvalidKey
                <==> dates)
        }),
{
}

/// A password that is asked for now is issued at a reading of the clock.
pub proof fn law_password_is_issued_now(key: &[u8], expiry: i64, res: Result<String, Error>)
    requires
        call_ensures(gen_iotcore_password, (key, expiry), res),
    ensures
        exists|iat: i64|
            #![trigger call_ensures(crate::clock::unix_time, (), iat)]
            {
                let dates = iat <= 8_210_266_876_799 && -8_334_601_228_800 <= iat + expiry
                    <= 8_210_266_876_799;
                let token = crate::token::rs256_token(
                    iat,
                    (iat + expiry) as i64,
                    "crested-return-122311"@,
                    key@,
                );
                &&& call_ensures(crate::clock::unix_time, (), iat)
                &&& res is Ok <==> dates && token is Some
                &&& res matches Ok(password) ==> token == Some(password@)
                &&& res matches Err(e) ==> (e.0 is InvalidExpiry <==> !dates) && (e.0 is InvalidKey
                    <==> dates)
            },
{
    let iat = choose|iat: i64|
        call_ensures(crate::clock::unix_time, (), iat) && #[trigger] crate::token::is_password(
            res,
            key@,
            iat,
            expiry,
        );
    assert(call_ensures(crate::clock::unix_time, (), iat));
}

/// The error for a refused connection says in words what the broker answered.
pub proof fn law_connack_error_names_answer(code: ConnectReturnCode, res: Error)
    requires
        call_ensures(Error::connack, (code,), res),
    ensures
        res.0 matches ErrorKind::Msg(text) && text@ == "Connack error "@ + match code {
            ConnectReturnCode::Accepted => "Accepted"@,
            ConnectReturnCode::RefusedProtocolVersion => "RefusedProtocolVersion"@,
            ConnectReturnCode::RefusedIdentifierRejected => "RefusedIdentifierRejected"@,
            ConnectReturnCode::ServerUnavailable => "ServerUnavailable"@,
            ConnectReturnCode::BadUsernamePassword => "BadUsernamePassword"@,
            ConnectReturnCode::NotAuthorized => "NotAuthorized"@,
        },
{
    crate::client::effects::law_connack_text_names_answer(code);
}

/// A length of whole seconds has no nanoseconds on top of them.
pub proof fn law_whole_seconds(secs: u64, res: Duration)
    requires
        call_ensures(Duration::from_secs, (secs,), res),
    ensures
        res.secs == secs,
        res.nanos == 0,
{
}

/// A second has a thousand million nanoseconds.
pub proof fn law_nanoseconds_of_duration(duration: Duration, res: u128)
    requires
        call_ensures(Duration::as_nanos, (&duration,), res),
    ensures
        res == duration.secs * 1_000_000_000 + duration.nanos,
{
}

} // verus!
