//! Messages exchanged over the outer connection: each names a logical connection and carries
//! one HTTP or one WebSocket payload.

use vstd::prelude::*;
use vstd::string::StrSliceExecFns;

verus! {

/// An HTTP request forwarded to a local service.
#[derive(Debug, Clone, PartialEq)]
pub struct HttpRequest {
    pub path: String,
    pub method: String,
    pub query_string: String,
    pub headers: Vec<(String, String)>,
    pub body: Vec<u8>,
    /// Port of the local service on the device.
    pub port: u16,
}

/// An HTTP response of a local service.
#[derive(Debug, Clone, PartialEq)]
pub struct HttpResponse {
    pub status_code: u16,
    pub headers: Vec<(String, String)>,
    pub body: Vec<u8>,
}

/// The payload of an HTTP message.
#[derive(Debug, Clone, PartialEq)]
pub enum HttpMessage {
    Request(HttpRequest),
    Response(HttpResponse),
}

/// A WebSocket frame forwarded between the bridge and a local service.
#[derive(Debug, Clone, PartialEq)]
pub enum WebSocketMessage {
    Text(String),
    Binary(Vec<u8>),
    Ping(Vec<u8>),
    Pong(Vec<u8>),
    Close { code: u16, reason: String },
}

/// A message of the outer connection, tagged with the identifier of its logical connection.
#[derive(Debug, Clone, PartialEq)]
pub enum ProtoMessage {
    Http { request_id: Vec<u8>, message: HttpMessage },
    WebSocket { socket_id: Vec<u8>, message: WebSocketMessage },
}

impl ProtoMessage {
    pub open spec fn spec_id(&self) -> Seq<u8> {
        match self {
            ProtoMessage::Http { request_id, .. } => request_id@,
            ProtoMessage::WebSocket { socket_id, .. } => socket_id@,
        }
    }

    /// The identifier of the logical connection the message belongs to.
    pub fn id(&self) -> (r: &Vec<u8>)
        ensures
            r@ == self.spec_id(),
    {
        match self {
            ProtoMessage::Http { request_id, .. } => request_id,
            ProtoMessage::WebSocket { socket_id, .. } => socket_id,
        }
    }

    pub open spec fn http_response_spec(id: Vec<u8>, res: HttpResponse) -> ProtoMessage {
        ProtoMessage::Http { request_id: id, message: HttpMessage::Response(res) }
    }

    /// Wraps an HTTP response of a local service for the logical connection `id`.
    pub fn http_response(id: Vec<u8>, res: HttpResponse) -> (r: ProtoMessage)
        ensures
            r == ProtoMessage::http_response_spec(id, res),
    {
        ProtoMessage::Http { request_id: id, message: HttpMessage::Response(res) }
    }

    /// Wraps a frame of a local WebSocket for the logical connection `id`.
    pub fn web_socket(id: Vec<u8>, frame: WebSocketMessage) -> (r: ProtoMessage)
        ensures
            r == (ProtoMessage::WebSocket { socket_id: id, message: frame }),
    {
        ProtoMessage::WebSocket { socket_id: id, message: frame }
    }
}

/// A character code with ASCII capitals folded to lower case.
pub open spec fn fold_char(c: char) -> u32 {
    let x = c as u32;
    if 65 <= x && x <= 90 {
        (x + 32) as u32
    } else {
        x
    }
}

/// Equality of two texts, ignoring the case of ASCII letters.
pub open spec fn eq_ignore_ascii_case(a: Seq<char>, b: Seq<char>) -> bool {
    a.len() == b.len() && forall|i: int| 0 <= i < a.len() ==> fold_char(a[i]) == fold_char(b[i])
}

pub open spec fn upgrade_name() -> Seq<char> {
    seq!['u', 'p', 'g', 'r', 'a', 'd', 'e']
}

pub open spec fn websocket_name() -> Seq<char> {
    seq!['w', 'e', 'b', 's', 'o', 'c', 'k', 'e', 't']
}

/// A request asks for a WebSocket upgrade when one of its headers is `Upgrade: websocket`,
/// both compared without regard to ASCII case.
pub open spec fn is_upgrade_spec(headers: Seq<(String, String)>) -> bool {
    exists|i: int|
        0 <= i < headers.len() && eq_ignore_ascii_case(headers[i].0@, upgrade_name())
            && eq_ignore_ascii_case(headers[i].1@, websocket_name())
}

fn fold(c: char) -> (r: u32)
    ensures
        r == fold_char(c),
{
    let x = c as u32;
    if 65 <= x && x <= 90 {
        x + 32
    } else {
        x
    }
}

/// Whether two texts are equal without regard to ASCII case.
pub fn eq_ignore_case(a: &str, b: &str) -> (r: bool)
    ensures
        r == eq_ignore_ascii_case(a@, b@),
{
    let n = a.unicode_len();
    if n != b.unicode_len() {
        return false;
    }
    let mut i: usize = 0;
    while i < n
        invariant
            n == a@.len(),
            a@.len() == b@.len(),
            i <= n,
            forall|j: int| 0 <= j < i ==> fold_char(a@[j]) == fold_char(b@[j]),
        decreases n - i,
    {
        if fold(a.get_char(i)) != fold(b.get_char(i)) {
            return false;
        }
        i = i + 1;
    }
    true
}

impl HttpRequest {
    /// Whether the request asks the local service for a WebSocket upgrade.
    pub fn is_ws_upgrade(&self) -> (r: bool)
        ensures
            r == is_upgrade_spec(self.headers@),
    {
        proof {
            reveal_strlit("upgrade");
            reveal_strlit("websocket");
        }
        let upgrade = "upgrade";
        let websocket = "websocket";
        assert(upgrade@ =~= upgrade_name());
        assert(websocket@ =~= websocket_name());
        let mut i: usize = 0;
        while i < self.headers.len()
            invariant
                i <= self.headers@.len(),
                upgrade@ == upgrade_name(),
                websocket@ == websocket_name(),
                forall|j: int|
                    0 <= j < i ==> !(eq_ignore_ascii_case(self.headers@[j].0@, upgrade_name())
                        && eq_ignore_ascii_case(self.headers@[j].1@, websocket_name())),
            decreases self.headers@.len() - i,
        {
            let entry = &self.headers[i];
            let matched = eq_ignore_case(entry.0.as_str(), upgrade) && eq_ignore_case(
                entry.1.as_str(),
                websocket,
            );
            if matched {
                assert(0 <= i < self.headers@.len() && eq_ignore_ascii_case(
                    self.headers@[i as int].0@,
                    upgrade_name(),
                ) && eq_ignore_ascii_case(self.headers@[i as int].1@, websocket_name()));
                return true;
            }
            i = i + 1;
        }
        false
    }
}

/// Whether `w` occurs in `v` as a contiguous part.
pub open spec fn contains_text(v: Seq<char>, w: Seq<char>) -> bool {
    exists|k: int| 0 <= k && k + w.len() <= v.len() && #[trigger] v.subrange(k, k + w.len()) == w
}

/// Whether two texts are equal.
pub fn text_eq(a: &str, b: &str) -> (r: bool)
    ensures
        r == (a@ == b@),
{
    let n = a.unicode_len();
    if n != b.unicode_len() {
        return false;
    }
    let mut i: usize = 0;
    while i < n
        invariant
            n == a@.len(),
            a@.len() == b@.len(),
            i <= n,
            forall|j: int| 0 <= j < i ==> a@[j] == b@[j],
        decreases n - i,
    {
        if a.get_char(i) != b.get_char(i) {
            return false;
        }
        i = i + 1;
    }
    assert(a@ =~= b@);
    true
}

fn contains_str(v: &str, w: &str) -> (r: bool)
    ensures
        r == contains_text(v@, w@),
{
    let n = v.unicode_len();
    let m = w.unicode_len();
    if m > n {
        return false;
    }
    if m == 0 {
        assert(v@.subrange(0, 0 + w@.len() as int) =~= w@);
        return true;
    }
    let mut k: usize = 0;
    while k <= n - m
        invariant
            n == v@.len(),
            m == w@.len(),
            1 <= m <= n,
            k <= n - m + 1,
            forall|k2: int| 0 <= k2 < k ==> #[trigger] v@.subrange(k2, k2 + m) != w@,
        decreases n - m + 1 - k,
    {
        let mut j: usize = 0;
        let mut same = true;
        while j < m
            invariant
                n == v@.len(),
                m == w@.len(),
                k + m <= n,
                j <= m,
                same ==> forall|j2: int| 0 <= j2 < j ==> v@[k + j2] == w@[j2],
                !same ==> v@.subrange(k as int, k + m) != w@,
            decreases m - j,
        {
            if same && v.get_char(k + j) != w.get_char(j) {
                assert(v@.subrange(k as int, k + m)[j as int] != w@[j as int]);
                same = false;
            }
            j = j + 1;
        }
        if same {
            assert(v@.subrange(k as int, k + m) =~= w@);
            return true;
        }
        k = k + 1;
    }
    false
}

/// A response accepts a WebSocket upgrade when its status is 101 and its `upgrade` header
/// names `websocket`.
pub open spec fn upgrade_response_spec(m: HttpMessage) -> bool {
    match m {
        HttpMessage::Request(_) => false,
        HttpMessage::Response(res) => res.status_code == 101 && exists|i: int|
            0 <= i < res.headers@.len() && res.headers@[i].0@ == upgrade_name() && contains_text(
                res.headers@[i].1@,
                websocket_name(),
            ),
    }
}

/// Whether the message is a response that accepts a WebSocket upgrade.
pub fn is_ws_upgrade_response(http_msg: &HttpMessage) -> (r: bool)
    ensures
        r == upgrade_response_spec(*http_msg),
{
    match http_msg {
        HttpMessage::Request(_) => false,
        HttpMessage::Response(res) => {
            if res.status_code != 101 {
                return false;
            }
            proof {
                reveal_strlit("upgrade");
                reveal_strlit("websocket");
            }
            let upgrade = "upgrade";
            let websocket = "websocket";
            assert(upgrade@ =~= upgrade_name());
            assert(websocket@ =~= websocket_name());
            let mut i: usize = 0;
            while i < res.headers.len()
                invariant
                    *http_msg == HttpMessage::Response(*res),
                    res.status_code == 101,
                    i <= res.headers@.len(),
                    upgrade@ == upgrade_name(),
                    websocket@ == websocket_name(),
                    forall|j: int|
                        0 <= j < i ==> !(res.headers@[j].0@ == upgrade_name() && contains_text(
                            res.headers@[j].1@,
                            websocket_name(),
                        )),
                decreases res.headers@.len() - i,
            {
                let entry = &res.headers[i];
                let named = text_eq(entry.0.as_str(), upgrade);
                if named && contains_str(entry.1.as_str(), websocket) {
                    assert(res.headers@[i as int].0@ == upgrade_name() && contains_text(
                        res.headers@[i as int].1@,
                        websocket_name(),
                    ));
                    return true;
                }
                i = i + 1;
            }
            false
        },
    }
}

} // verus!
