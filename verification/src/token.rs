//! Passwords for Google Cloud IoT Core: JSON web tokens signed with the
//! private key of the device.
use jsonwebtoken::errors::Error as JwtError;
use vstd::prelude::*;

use crate::clock::{add_seconds, unix_time};
use crate::error::{Error, ErrorKind};

verus! {

/// Project that the tokens are made out to.
pub const AUDIENCE: &'static str = "crested-return-122311";

/// What a token says: when it was issued, when it expires, and for whom it is.
#[derive(Debug)]
pub struct Claims {
    pub iat: i64,
    pub exp: i64,
    pub aud: String,
}

impl Claims {
    /// The claims of a token issued at the second `iat` that is good for `expiry`
    /// seconds.
    pub fn new(iat: i64, expiry: i64) -> (res: Result<Claims, Error>)
        ensures
            match crate::clock::shifted(iat, expiry) {
                Some(exp) => res matches Ok(claims) && claims.iat == iat && claims.exp == exp
                    && claims.aud@ == AUDIENCE@,
                None => res == Err::<Claims, Error>(Error(ErrorKind::InvalidExpiry)),
            },
            res matches Ok(claims) ==> claims.iat == iat && claims.exp == iat + expiry
                && claims.aud@ == "crested-return-122311"@,
    {
        match add_seconds(iat, expiry) {
            Some(exp) => Ok(Claims { iat, exp, aud: String::from(AUDIENCE) }),
            None => Err(Error(ErrorKind::InvalidExpiry)),
        }
    }
}

/// [`jsonwebtoken::errors::Error`]: why a token was not made, of which nothing is
/// known.
#[verifier::external_type_specification]
#[verifier::external_body]
pub struct ExJwtError(JwtError);

/// The token that [`jsonwebtoken::encode`] makes under the header
/// `Header::new(Algorithm::RS256)` of the claims `iat`, `exp` and `aud`, in this
/// order, with the RSA private key whose DER encoding is `key`; `None` if it
/// refuses to, as it does where `key` is no such encoding.
pub uninterp spec fn rs256_token(
    iat: i64,
    exp: i64,
    aud: Seq<char>,
    key: Seq<u8>,
) -> Option<Seq<char>>;

/// Calls [`jsonwebtoken::encode`] under a header for RS256. Both the token and
/// the refusal to make one are determined by the claims and the key: the padding
/// of these signatures is fixed, and no random number goes into them.
#[verifier::external_body]
fn encode_rs256(claims: &Claims, key: &[u8]) -> (res: Result<String, JwtError>)
    ensures
        match res {
            Ok(token) => rs256_token(claims.iat, claims.exp, claims.aud@, key@) == Some(token@),
            Err(_) => rs256_token(claims.iat, claims.exp, claims.aud@, key@) is None,
        },
{
    let header = jsonwebtoken::Header::new(jsonwebtoken::Algorithm::RS256);
    let mut object = serde_json::Map::new();
    object.insert("iat".to_owned(), serde_json::Value::from(claims.iat));
    object.insert("exp".to_owned(), serde_json::Value::from(claims.exp));
    object.insert("aud".to_owned(), serde_json::Value::from(claims.aud.as_str()));
    jsonwebtoken::encode(&header, &object, &jsonwebtoken::EncodingKey::from_rsa_der(key))
}

/// Whether `res` is what asking for a password at the second `iat` leads to: an
/// error if the password would expire at no date, else the signed token, or an
/// error if `key` cannot sign it.
pub open spec fn is_password(
    res: Result<String, Error>,
    key: Seq<u8>,
    iat: i64,
    expiry: i64,
) -> bool {
    match crate::clock::shifted(iat, expiry) {
        Some(exp) => match rs256_token(iat, exp, AUDIENCE@, key) {
            Some(token) => res matches Ok(password) && password@ == token,
            None => res == Err::<String, Error>(Error(ErrorKind::InvalidKey)),
        },
        None => res == Err::<String, Error>(Error(ErrorKind::InvalidExpiry)),
    }
}

/// A password that is issued at the second `iat` since January 1, 1970, is good
/// for `expiry` seconds and is signed with the DER encoded RSA key `key`.
pub fn gen_iotcore_password_at(key: &[u8], iat: i64, expiry: i64) -> (res: Result<String, Error>)
    ensures
        is_password(res, key@, iat, expiry),
{
    let claims = Claims::new(iat, expiry)?;
    match encode_rs256(&claims, key) {
        Ok(token) => Ok(token),
        Err(_) => Err(Error(ErrorKind::InvalidKey)),
    }
}

/// Generates a new password for mqtt client authentication, issued now.
pub fn gen_iotcore_password(key: &[u8], expiry: i64) -> (res: Result<String, Error>)
    ensures
        exists|iat: i64|
            call_ensures(unix_time, (), iat) && #[trigger] is_password(res, key@, iat, expiry),
{
    let iat = unix_time();
    gen_iotcore_password_at(key, iat, expiry)
}

} // verus!
