//! What a client can be configured with.
use vstd::prelude::*;

use crate::clock::Duration;
use crate::packet::LastWill;

verus! {

/// Calls [`String::from`] for a string slice: the text is kept.
pub assume_specification<'a>[ <String as From<&'a str>>::from ](s: &str) -> (res: String)
    ensures
        res@ == s@,
;

/// Calls [`From::from`] for a value that already has the type, which hands the
/// value back.
pub assume_specification<T>[ <T as From<T>>::from ](t: T) -> (res: T)
    ensures
        res == t,
;

/// When to connect again after a connection is lost, and how long to wait.
#[derive(Copy, Clone, Debug, PartialEq, Structural)]
pub enum ReconnectOptions {
    Never,
    AfterFirstSuccess(Duration),
    Always(Duration),
}

/// How the client shows who it is.
pub enum SecurityOptions {
    /// neither a password nor a certificate
    NoSecurity,
    /// username, password
    UsernamePassword((String, String)),
    /// ca, client cert, client key
    Tls((String, String, String)),
    /// roots.pem, private_key.der to sign jwt, expiry in seconds
    GcloudIotCore((String, String, i64)),
}

impl Clone for SecurityOptions {
    fn clone(&self) -> (res: Self)
        ensures
            res == *self,
    {
        match self {
            SecurityOptions::NoSecurity => SecurityOptions::NoSecurity,
            SecurityOptions::UsernamePassword((username, password)) => {
                SecurityOptions::UsernamePassword((username.clone(), password.clone()))
            },
            SecurityOptions::Tls((ca, cert, key)) => {
                SecurityOptions::Tls((ca.clone(), cert.clone(), key.clone()))
            },
            SecurityOptions::GcloudIotCore((roots, key, expiry)) => {
                SecurityOptions::GcloudIotCore((roots.clone(), key.clone(), *expiry))
            },
        }
    }
}

impl SecurityOptions {
    /// Whether a connect packet carries these credentials, where `token` is the
    /// password that was generated for it, if any.
    pub open spec fn are_credentials(
        self,
        token: Option<String>,
        username: Option<String>,
        password: Option<String>,
    ) -> bool {
        match self {
            SecurityOptions::UsernamePassword((user, word)) => username == Some(user) && password
                == Some(word),
            SecurityOptions::GcloudIotCore(_) => (username matches Some(user) && user@
                == "unused"@) && password == token,
            _ => username is None && password is None,
        }
    }

    /// Username and password for a connect packet. `token` is the password that
    /// was generated for Google Cloud IoT Core, which does not read the username.
    pub fn credentials(&self, token: Option<String>) -> (res: (Option<String>, Option<String>))
        ensures
            self.are_credentials(token, res.0, res.1),
    {
        match self {
            SecurityOptions::UsernamePassword((username, password)) => {
                (Some(username.clone()), Some(password.clone()))
            },
            SecurityOptions::GcloudIotCore(_) => (Some(String::from("unused")), token),
            _ => (None, None),
        }
    }
}

/// Configuration of a client.
pub struct MqttOptions {
    /// broker address that you want to connect to
    pub broker_addr: String,
    /// keep alive time to send pingreq to broker when the connection is idle
    pub keep_alive: Option<u16>,
    /// clean (or) persistent session
    pub clean_session: bool,
    /// client identifier
    pub client_id: String,
    /// time left for server to send a connection acknowlegment
    pub mqtt_connection_timeout: Duration,
    /// reconnection options
    pub reconnect: ReconnectOptions,
    /// security options
    pub security: SecurityOptions,
    /// maximum packet size, which the payload of a publish may not exceed
    pub max_packet_size: usize,
    /// mqtt will
    pub last_will: Option<LastWill>,
}

impl Clone for MqttOptions {
    fn clone(&self) -> (res: Self)
        ensures
            res == *self,
    {
        MqttOptions {
            broker_addr: self.broker_addr.clone(),
            keep_alive: self.keep_alive,
            clean_session: self.clean_session,
            client_id: self.client_id.clone(),
            mqtt_connection_timeout: self.mqtt_connection_timeout,
            reconnect: self.reconnect,
            security: self.security.clone(),
            max_packet_size: self.max_packet_size,
            last_will: self.last_will.clone(),
        }
    }
}

impl MqttOptions {
    /// Options for the client `id` of the broker at `addr`: a clean session, a
    /// ping after ten seconds, five seconds for the broker to answer, payloads of
    /// up to 100 kilobytes, no authentication, no last will and no retry.
    pub fn new<S1: Into<String>, S2: Into<String>>(id: S1, addr: S2) -> (res: MqttOptions)
        ensures
            call_ensures(<S1 as Into<String>>::into, (id,), res.client_id),
            call_ensures(<S2 as Into<String>>::into, (addr,), res.broker_addr),
            res.keep_alive == Some(10u16),
            res.clean_session,
            res.mqtt_connection_timeout == (Duration { secs: 5, nanos: 0 }),
            res.reconnect == ReconnectOptions::Never,
            res.security == SecurityOptions::NoSecurity,
            res.max_packet_size == 100 * 1024,
            res.last_will is None,
    {
        MqttOptions {
            broker_addr: addr.into(),
            keep_alive: Some(10),
            clean_session: true,
            client_id: id.into(),
            mqtt_connection_timeout: Duration::from_secs(5),
            reconnect: ReconnectOptions::Never,
            security: SecurityOptions::NoSecurity,
            max_packet_size: 100 * 1024,
            last_will: None,
        }
    }

    /// Set number of seconds after which client should ping the broker
    /// if there is no other data exchange
    pub fn set_keep_alive(self, secs: u16) -> (res: Self)
        requires
            secs >= 5,
        ensures
            res == (MqttOptions { keep_alive: Some(secs), ..self }),
    {
        MqttOptions { keep_alive: Some(secs), ..self }
    }

    /// Set packet size limit (in Kilo Bytes)
    pub fn set_max_packet_size(self, sz: usize) -> (res: Self)
        requires
            sz * 1024 <= usize::MAX,
        ensures
            res == (MqttOptions { max_packet_size: (sz * 1024) as usize, ..self }),
    {
        MqttOptions { max_packet_size: sz * 1024, ..self }
    }

    /// `clean_session = true` removes all the state from queues & instructs the broker
    /// to clean all the client state when client disconnects.
    ///
    /// When set `false`, broker will hold the client state and performs pending
    /// operations on the client when reconnection with same `client_id`
    /// happens. Local queue state is also held to retransmit packets after reconnection.
    ///
    /// So **make sure that you manually set `client_id` when `clean_session` is false**
    pub fn set_clean_session(self, clean_session: bool) -> (res: Self)
        ensures
            res == (MqttOptions { clean_session, ..self }),
    {
        MqttOptions { clean_session, ..self }
    }

    /// Time interval after which client should retry for new
    /// connection if there are any disconnections. By default, no retry will happen
    pub fn set_reconnect_opts(self, opts: ReconnectOptions) -> (res: Self)
        ensures
            res == (MqttOptions { reconnect: opts, ..self }),
    {
        MqttOptions { reconnect: opts, ..self }
    }

    /// Set security option
    /// Supports username-password auth, tls client cert auth, gcloud iotcore jwt auth
    pub fn set_security_opts(self, opts: SecurityOptions) -> (res: Self)
        ensures
            res == (MqttOptions { security: opts, ..self }),
    {
        MqttOptions { security: opts, ..self }
    }

    /// Set MQTT last will
    /// This message will be emit by the broker on disconnect.
    pub fn set_last_will(self, will: Option<LastWill>) -> (res: Self)
        ensures
            res == (MqttOptions { last_will: will, ..self }),
    {
        MqttOptions { last_will: will, ..self }
    }
}

} // verus!
