//! Why the client state refuses a request.
use vstd::prelude::*;

use crate::packet::ConnectReturnCode;

verus! {

/// The reason of an [`Error`].
#[derive(Debug, Clone, PartialEq)]
pub enum ErrorKind {
    /// The request does not fit the state of the connection.
    InvalidState,
    /// The payload of a publish is longer than the limit that the options set.
    PacketSizeLimitExceeded,
    /// A password would expire at a time that no date stands for.
    InvalidExpiry,
    /// A password could not be signed with the given key.
    InvalidKey,
    /// Any other reason, in words.
    Msg(String),
}

/// A refused request.
#[derive(Debug, Clone, PartialEq)]
pub struct Error(pub ErrorKind);

/// What is said of a connection that the broker answered with `code`.
pub open spec fn connack_text(code: ConnectReturnCode) -> Seq<char> {
    match code {
        ConnectReturnCode::Accepted => "Connack error Accepted"@,
        ConnectReturnCode::RefusedProtocolVersion => "Connack error RefusedProtocolVersion"@,
        ConnectReturnCode::RefusedIdentifierRejected => "Connack error RefusedIdentifierRejected"@,
        ConnectReturnCode::ServerUnavailable => "Connack error ServerUnavailable"@,
        ConnectReturnCode::BadUsernamePassword => "Connack error BadUsernamePassword"@,
        ConnectReturnCode::NotAuthorized => "Connack error NotAuthorized"@,
    }
}

impl Error {
    /// The error for a connection that the broker answered with `code`.
    pub fn connack(code: ConnectReturnCode) -> (res: Error)
        ensures
            res.0 matches ErrorKind::Msg(text) && text@ == connack_text(code),
    {
        let text = match code {
            ConnectReturnCode::Accepted => "Connack error Accepted",
            ConnectReturnCode::RefusedProtocolVersion => "Connack error RefusedProtocolVersion",
            ConnectReturnCode::RefusedIdentifierRejected => "Connack error RefusedIdentifierRejected",
            ConnectReturnCode::ServerUnavailable => "Connack error ServerUnavailable",
            ConnectReturnCode::BadUsernamePassword => "Connack error BadUsernamePassword",
            ConnectReturnCode::NotAuthorized => "Connack error NotAuthorized",
        };
        Error(ErrorKind::Msg(text.to_owned()))
    }
}

} // verus!
