//! HTTP/1.1 framing of the exchanges with local HTTP services: the request head that the device
//! writes, and the response it reads back.

use vstd::prelude::*;
use vstd::string::StringExecFns;
use crate::messages::{eq_ignore_ascii_case, eq_ignore_case, HttpRequest, HttpResponse};
use crate::text::{append_decimal, decimal};

verus! {

/// What `httparse::Response::parse` finds in a complete response head: the status code, the
/// headers (values read as UTF-8, invalid sequences replaced), and the length of the head.
pub uninterp spec fn parsed_head(bytes: Seq<u8>) -> Option<(u16, Seq<(Seq<char>, Seq<char>)>, nat)>;

pub open spec fn header_views(hs: Seq<(String, String)>) -> Seq<(Seq<char>, Seq<char>)> {
    hs.map_values(|h: (String, String)| (h.0@, h.1@))
}

/// Relies on `httparse::Response::parse`: a complete head gives its status code, its headers
/// and the number of bytes it takes, at most the length of the input.
#[verifier::external_body]
fn parse_head(bytes: &[u8]) -> (r: Option<(u16, Vec<(String, String)>, usize)>)
    ensures
        r is Some <==> parsed_head(bytes@) is Some,
        r matches Some(h) ==> h.2 <= bytes@.len() && parsed_head(bytes@) == Some(
            (h.0, header_views(h.1@), h.2 as nat),
        ),
{
    let mut headers = [httparse::EMPTY_HEADER; 64];
    let mut res = httparse::Response::new(&mut headers);
    match res.parse(bytes) {
        Ok(httparse::Status::Complete(n)) => res.code.map(|code| {
            let hs = res.headers.iter().map(|h| {
                (h.name.to_string(), String::from_utf8_lossy(h.value).into_owned())
            });
            (code, hs.collect(), n)
        }),
        _ => None,
    }
}

/// A local HTTP response read whole, up to the end of the stream: the parsed head, and the rest
/// as body.
pub fn parse_http_response(bytes: &Vec<u8>) -> (r: Option<HttpResponse>)
    ensures
        r is Some <==> parsed_head(bytes@) is Some,
        r matches Some(res) ==> ({
            let head = parsed_head(bytes@)->Some_0;
            &&& res.status_code == head.0
            &&& header_views(res.headers@) == head.1
            &&& res.body@ == bytes@.subrange(head.2 as int, bytes@.len() as int)
        }),
{
    match parse_head(bytes.as_slice()) {
        None => None,
        Some((status_code, headers, n)) => {
            let mut body: Vec<u8> = Vec::new();
            let mut i: usize = n;
            while i < bytes.len()
                invariant
                    n <= i <= bytes@.len(),
                    body@ == bytes@.subrange(n as int, i as int),
                decreases bytes@.len() - i,
            {
                body.push(bytes[i]);
                i = i + 1;
                assert(body@ =~= bytes@.subrange(n as int, i as int));
            }
            Some(HttpResponse { status_code, headers, body })
        },
    }
}

pub open spec fn connection_name() -> Seq<char> {
    seq!['c', 'o', 'n', 'n', 'e', 'c', 't', 'i', 'o', 'n']
}

pub open spec fn content_length_name() -> Seq<char> {
    seq!['c', 'o', 'n', 't', 'e', 'n', 't', '-', 'l', 'e', 'n', 'g', 't', 'h']
}

/// Headers that the device sets itself, since it frames the exchange.
pub open spec fn is_framing_header(name: Seq<char>) -> bool {
    eq_ignore_ascii_case(name, connection_name()) || eq_ignore_ascii_case(name, content_length_name())
}

/// The forwarded header lines, without the framing headers, in their order.
pub open spec fn header_lines(hs: Seq<(String, String)>) -> Seq<char>
    decreases hs.len(),
{
    if hs.len() == 0 {
        Seq::empty()
    } else {
        let h = hs.last();
        let rest = header_lines(hs.drop_last());
        if is_framing_header(h.0@) {
            rest
        } else {
            rest + h.0@ + ": "@ + h.1@ + "\r\n"@
        }
    }
}

pub open spec fn query_part(query: Seq<char>) -> Seq<char> {
    if query.len() == 0 {
        Seq::empty()
    } else {
        "?"@ + query
    }
}

/// The head of the request written to the local service: request line, forwarded headers, and
/// the framing headers for a body of the request's length on a connection used once.
pub open spec fn request_head_spec(req: HttpRequest) -> Seq<char> {
    req.method@ + " /"@ + req.path@ + query_part(req.query_string@) + " HTTP/1.1\r\n"@
        + header_lines(req.headers@) + "content-length: "@ + decimal(req.body@.len())
        + "\r\nconnection: close\r\n\r\n"@
}

/// The head of the request to write to the local service before the body.
pub fn request_head(req: &HttpRequest) -> (r: String)
    requires
        req.body@.len() <= u64::MAX,
    ensures
        r@ == request_head_spec(*req),
{
    proof {
        reveal_strlit("connection");
        reveal_strlit("content-length");
    }
    let connection = "connection";
    let content_length = "content-length";
    assert(connection@ =~= connection_name());
    assert(content_length@ =~= content_length_name());
    let mut head = req.method.clone();
    head.append(" /");
    head.append(req.path.as_str());
    if !req.query_string.as_str().is_empty() {
        head.append("?");
        head.append(req.query_string.as_str());
    }
    head.append(" HTTP/1.1\r\n");
    let ghost start = head@;
    let mut i: usize = 0;
    while i < req.headers.len()
        invariant
            i <= req.headers@.len(),
            connection@ == connection_name(),
            content_length@ == content_length_name(),
            head@ == start + header_lines(req.headers@.subrange(0, i as int)),
        decreases req.headers@.len() - i,
    {
        let name = &req.headers[i].0;
        let value = &req.headers[i].1;
        let ghost before = head@;
        let framing = eq_ignore_case(name.as_str(), connection) || eq_ignore_case(
            name.as_str(),
            content_length,
        );
        if !framing {
            head.append(name.as_str());
            head.append(": ");
            head.append(value.as_str());
            head.append("\r\n");
        }
        proof {
            let sub = req.headers@.subrange(0, i + 1);
            assert(sub.drop_last() =~= req.headers@.subrange(0, i as int));
            assert(sub.last() == req.headers@[i as int]);
            if !framing {
                assert(head@ =~= before + name@ + ": "@ + value@ + "\r\n"@);
            }
            assert(head@ =~= start + header_lines(sub));
        }
        i = i + 1;
    }
    assert(req.headers@.subrange(0, req.headers@.len() as int) =~= req.headers@);
    head.append("content-length: ");
    append_decimal(&mut head, req.body.len() as u64);
    head.append("\r\nconnection: close\r\n\r\n");
    proof {
        let q = if req.query_string@.len() == 0 {
            Seq::<char>::empty()
        } else {
            "?"@ + req.query_string@
        };
        assert(q == query_part(req.query_string@));
    }
    assert(head@ =~= request_head_spec(*req));
    head
}

} // verus!
