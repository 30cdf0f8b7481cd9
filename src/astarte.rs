//! Connection parameters of the outer tunnel, as delivered by the device-management platform,
//! and the address of the outer connection derived from them.

use vstd::prelude::*;
use vstd::string::StringExecFns;
use crate::text::{append_decimal, decimal};

verus! {

/// The outside error of the URL parser, carried only through the wrappers below.
#[verifier::external_type_specification]
#[verifier::external_body]
pub struct ExParseError(url::ParseError);

/// What `url::Host::parse` gives for a host text: the serialization of the parsed host,
/// or `None` where the text is no valid host.
pub uninterp spec fn parsed_host(s: Seq<char>) -> Option<Seq<char>>;

/// What `url::Url::parse_with_params` gives for a base address and one query pair: the
/// serialization of the resulting URL, or `None` where the base does not parse.
pub uninterp spec fn url_with_param(base: Seq<char>, key: Seq<char>, value: Seq<char>) -> Option<
    Seq<char>,
>;

/// Relies on `url::Host::parse`, serialized through its `Display`: the result depends on the
/// input text alone.
#[verifier::external_body]
fn parse_host(s: &str) -> (r: Result<String, url::ParseError>)
    ensures
        r is Ok <==> parsed_host(s@) is Some,
        r matches Ok(h) ==> parsed_host(s@) == Some(h@),
{
    url::Host::parse(s).map(|h| h.to_string())
}

/// Relies on `url::Url::parse_with_params` with a single pair, serialized through `Url::as_str`:
/// the result depends on the three texts alone.
#[verifier::external_body]
fn parse_with_param(base: &str, key: &str, value: &str) -> (r: Result<String, url::ParseError>)
    ensures
        r is Ok <==> url_with_param(base@, key@, value@) is Some,
        r matches Ok(u) ==> url_with_param(base@, key@, value@) == Some(u@),
{
    url::Url::parse_with_params(base, &[(key, value)]).map(|u| u.as_str().to_string())
}

/// A value of the aggregate that the platform sends to the device.
#[derive(Debug, Clone, PartialEq)]
pub enum AstarteValue {
    String(String),
    Integer(i32),
    LongInteger(i64),
    Boolean(bool),
    BinaryBlob(Vec<u8>),
}

/// The three fields of the connection parameters.
#[derive(Debug, Clone, Copy, PartialEq, Eq, Structural)]
pub enum ConnectionField {
    Host,
    Port,
    SessionToken,
}

/// Failures while reading the connection parameters or deriving the outer address.
#[derive(Debug, Clone, Copy, PartialEq, Eq, Structural)]
pub enum AstarteError {
    /// The value under a field's key has another type than the field needs.
    WrongType(ConnectionField),
    /// A field is missing or empty.
    MissingUrlInfo(ConnectionField),
    /// The host, or the assembled address, is not a valid URL part.
    ParseUrl,
    /// The port value does not fit a port number.
    ParsePort(i32),
}

/// Host, port and session token of the outer connection.
#[derive(Debug, Clone)]
pub struct ConnectionInfo {
    /// Hostname or IP address, as serialized by the URL parser.
    pub host: String,
    /// Port number.
    pub port: u16,
    /// Token that authenticates the device to the bridge.
    pub session_token: String,
}

pub open spec fn host_key() -> Seq<char> {
    seq!['h', 'o', 's', 't']
}

pub open spec fn port_key() -> Seq<char> {
    seq!['p', 'o', 'r', 't']
}

pub open spec fn token_key() -> Seq<char> {
    seq!['s', 'e', 's', 's', 'i', 'o', 'n', '_', 't', 'o', 'k', 'e', 'n']
}

/// The value stored under `key` at or after position `i`: the first entry with that key.
pub open spec fn entry_from(map: Seq<(String, AstarteValue)>, key: Seq<char>, i: int) -> Option<
    AstarteValue,
>
    decreases map.len() - i,
{
    if i < 0 || i >= map.len() {
        None
    } else if map[i].0@ == key {
        Some(map[i].1)
    } else {
        entry_from(map, key, i + 1)
    }
}

pub open spec fn entry_of(map: Seq<(String, AstarteValue)>, key: Seq<char>) -> Option<AstarteValue> {
    entry_from(map, key, 0)
}

pub open spec fn host_spec(map: Seq<(String, AstarteValue)>) -> Result<Seq<char>, AstarteError> {
    match entry_of(map, host_key()) {
        None => Err(AstarteError::MissingUrlInfo(ConnectionField::Host)),
        Some(AstarteValue::String(s)) => match parsed_host(s@) {
            Some(h) => Ok(h),
            None => Err(AstarteError::ParseUrl),
        },
        Some(_) => Err(AstarteError::WrongType(ConnectionField::Host)),
    }
}

pub open spec fn port_spec(map: Seq<(String, AstarteValue)>) -> Result<u16, AstarteError> {
    match entry_of(map, port_key()) {
        None => Err(AstarteError::MissingUrlInfo(ConnectionField::Port)),
        Some(AstarteValue::Integer(p)) => if 0 <= p <= u16::MAX {
            Ok(p as u16)
        } else {
            Err(AstarteError::ParsePort(p))
        },
        Some(_) => Err(AstarteError::WrongType(ConnectionField::Port)),
    }
}

pub open spec fn token_spec(map: Seq<(String, AstarteValue)>) -> Result<Seq<char>, AstarteError> {
    match entry_of(map, token_key()) {
        None => Err(AstarteError::MissingUrlInfo(ConnectionField::SessionToken)),
        Some(AstarteValue::String(s)) => Ok(s@),
        Some(_) => Err(AstarteError::WrongType(ConnectionField::SessionToken)),
    }
}

/// Host, port and token read from an aggregate, or the first failure, fields taken in the
/// order host, port, session token.
pub open spec fn retrieve_spec(map: Seq<(String, AstarteValue)>) -> Result<
    (Seq<char>, u16, Seq<char>),
    AstarteError,
> {
    match host_spec(map) {
        Err(e) => Err(e),
        Ok(h) => match port_spec(map) {
            Err(e) => Err(e),
            Ok(p) => match token_spec(map) {
                Err(e) => Err(e),
                Ok(t) => Ok((h, p, t)),
            },
        },
    }
}

/// Position of the first entry with the given key.
fn find_entry(map: &Vec<(String, AstarteValue)>, key: &String) -> (r: Option<usize>)
    ensures
        r is None ==> entry_of(map@, key@) is None,
        r matches Some(i) ==> i < map@.len() && entry_of(map@, key@) == Some(map@[i as int].1),
{
    let mut i: usize = 0;
    while i < map.len()
        invariant
            i <= map@.len(),
            entry_of(map@, key@) == entry_from(map@, key@, i as int),
        decreases map@.len() - i,
    {
        if map[i].0 == *key {
            return Some(i);
        }
        i = i + 1;
    }
    None
}

/// Reads host, port and session token from the aggregate that the platform sends.
pub fn retrieve_connection_info(map: Vec<(String, AstarteValue)>) -> (r: Result<
    ConnectionInfo,
    AstarteError,
>)
    ensures
        r is Ok <==> retrieve_spec(map@) is Ok,
        r matches Ok(ci) ==> retrieve_spec(map@) == Ok::<(Seq<char>, u16, Seq<char>), AstarteError>((ci.host@, ci.port, ci.session_token@)),
        r matches Err(e) ==> retrieve_spec(map@) == Err::<(Seq<char>, u16, Seq<char>), _>(e),
{
    proof {
        reveal_strlit("host");
        reveal_strlit("port");
        reveal_strlit("session_token");
    }
    let host_name = String::from_str("host");
    assert(host_name@ =~= host_key());
    let host = match find_entry(&map, &host_name) {
        None => return Err(AstarteError::MissingUrlInfo(ConnectionField::Host)),
        Some(i) => match &map[i].1 {
            AstarteValue::String(s) => match parse_host(s.as_str()) {
                Ok(h) => h,
                Err(_) => return Err(AstarteError::ParseUrl),
            },
            _ => return Err(AstarteError::WrongType(ConnectionField::Host)),
        },
    };
    let port_name = String::from_str("port");
    assert(port_name@ =~= port_key());
    let port: u16 = match find_entry(&map, &port_name) {
        None => return Err(AstarteError::MissingUrlInfo(ConnectionField::Port)),
        Some(i) => match &map[i].1 {
            AstarteValue::Integer(p) => if 0 <= *p && *p <= 65535 {
                *p as u16
            } else {
                return Err(AstarteError::ParsePort(*p));
            },
            _ => return Err(AstarteError::WrongType(ConnectionField::Port)),
        },
    };
    let token_name = String::from_str("session_token");
    assert(token_name@ =~= token_key());
    let session_token = match find_entry(&map, &token_name) {
        None => return Err(AstarteError::MissingUrlInfo(ConnectionField::SessionToken)),
        Some(i) => match &map[i].1 {
            AstarteValue::String(s) => s.clone(),
            _ => return Err(AstarteError::WrongType(ConnectionField::SessionToken)),
        },
    };
    Ok(ConnectionInfo { host, port, session_token })
}

/// The address of the bridge before the session token is added as query parameter.
pub open spec fn base_address(host: Seq<char>, port: u16) -> Seq<char> {
    "ws://"@ + host + ":"@ + decimal(port as nat) + "/device/websocket"@
}

impl ConnectionInfo {
    pub fn new(host: String, port: u16, session_token: String) -> (r: ConnectionInfo)
        ensures
            r.host == host,
            r.port == port,
            r.session_token == session_token,
    {
        ConnectionInfo { host, port, session_token }
    }

    /// The address of the outer connection: the bridge's WebSocket endpoint with the session
    /// token as query parameter.
    pub fn to_url(&self) -> (r: Result<String, AstarteError>)
        ensures
            self.session_token@.len() == 0 ==> r == Err::<String, AstarteError>(
                AstarteError::MissingUrlInfo(ConnectionField::SessionToken),
            ),
            self.session_token@.len() > 0 ==> match url_with_param(
                base_address(self.host@, self.port),
                token_key(),
                self.session_token@,
            ) {
                Some(u) => r matches Ok(s) && s@ == u,
                None => r == Err::<String, AstarteError>(AstarteError::ParseUrl),
            },
    {
        if self.session_token.as_str().is_empty() {
            return Err(AstarteError::MissingUrlInfo(ConnectionField::SessionToken));
        }
        let mut base = String::from_str("ws://");
        base.append(self.host.as_str());
        base.append(":");
        append_decimal(&mut base, self.port as u64);
        base.append("/device/websocket");
        proof {
            reveal_strlit("session_token");
        }
        let key = "session_token";
        assert(key@ =~= token_key());
        match parse_with_param(base.as_str(), key, self.session_token.as_str()) {
            Ok(u) => Ok(u),
            Err(_) => Err(AstarteError::ParseUrl),
        }
    }

    /// The aggregate that carries these parameters: the host text, the port as an integer
    /// and the session token, under their keys.
    pub fn astarte_aggregate(self) -> (r: Vec<(String, AstarteValue)>)
        ensures
            r@.len() == 3,
            r@[0].0@ == host_key() && r@[0].1 == AstarteValue::String(self.host),
            r@[1].0@ == port_key() && r@[1].1 == AstarteValue::Integer(self.port as i32),
            r@[2].0@ == token_key() && r@[2].1 == AstarteValue::String(self.session_token),
    {
        proof {
            reveal_strlit("host");
            reveal_strlit("port");
            reveal_strlit("session_token");
        }
        let host_name = String::from_str("host");
        let port_name = String::from_str("port");
        let token_name = String::from_str("session_token");
        assert(host_name@ =~= host_key());
        assert(port_name@ =~= port_key());
        assert(token_name@ =~= token_key());
        let mut r: Vec<(String, AstarteValue)> = Vec::new();
        r.push((host_name, AstarteValue::String(self.host)));
        r.push((port_name, AstarteValue::Integer(self.port as i32)));
        r.push((token_name, AstarteValue::String(self.session_token)));
        r
    }
}

} // verus!
