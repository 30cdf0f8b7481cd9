use edgehog_forwarder::http::{parse_http_response, request_head};
use edgehog_forwarder::messages::HttpRequest;

fn request(path: &str, query: &str, headers: Vec<(&str, &str)>, body: &[u8]) -> HttpRequest {
    HttpRequest {
        path: path.to_string(),
        method: "GET".to_string(),
        query_string: query.to_string(),
        headers: headers
            .into_iter()
            .map(|(k, v)| (k.to_string(), v.to_string()))
            .collect(),
        body: body.to_vec(),
        port: 8080,
    }
}

#[test]
fn request_head_of_a_plain_get() {
    let req = request("", "", vec![], b"");
    assert_eq!(
        request_head(&req),
        "GET / HTTP/1.1\r\ncontent-length: 0\r\nconnection: close\r\n\r\n"
    );
}

#[test]
fn request_head_keeps_query_and_headers_in_order() {
    let req = request(
        "remote-terminal",
        "session_token=abcd",
        vec![("Host", "localhost:8080"), ("Accept", "*/*")],
        b"hello world!",
    );
    assert_eq!(
        request_head(&req),
        "GET /remote-terminal?session_token=abcd HTTP/1.1\r\nHost: localhost:8080\r\nAccept: */*\r\ncontent-length: 12\r\nconnection: close\r\n\r\n"
    );
}

#[test]
fn request_head_replaces_framing_headers() {
    let req = request(
        "x",
        "",
        vec![("Connection", "keep-alive"), ("Content-Length", "99"), ("A", "b")],
        b"",
    );
    assert_eq!(
        request_head(&req),
        "GET /x HTTP/1.1\r\nA: b\r\ncontent-length: 0\r\nconnection: close\r\n\r\n"
    );
}

#[test]
fn response_is_parsed_with_body() {
    let bytes = b"HTTP/1.1 200 OK\r\ncontent-type: text/html\r\n\r\nok".to_vec();
    let res = parse_http_response(&bytes).unwrap();
    assert_eq!(res.status_code, 200);
    assert_eq!(
        res.headers,
        vec![("content-type".to_string(), "text/html".to_string())]
    );
    assert_eq!(res.body, b"ok".to_vec());
}

#[test]
fn response_with_empty_body() {
    let bytes = b"HTTP/1.1 404 Not Found\r\n\r\n".to_vec();
    let res = parse_http_response(&bytes).unwrap();
    assert_eq!(res.status_code, 404);
    assert!(res.headers.is_empty());
    assert!(res.body.is_empty());
}

#[test]
fn incomplete_or_malformed_response_is_rejected() {
    assert!(parse_http_response(&b"HTTP/1.1 200 OK\r\ncontent-type: text".to_vec()).is_none());
    assert!(parse_http_response(&b"not http at all\r\n\r\n".to_vec()).is_none());
    assert!(parse_http_response(&Vec::new()).is_none());
}
