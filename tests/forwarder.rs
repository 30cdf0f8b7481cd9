use edgehog_forwarder::connection::{
    handle_ws_read, handle_ws_write, http_build, next_step, ConnectionError, NextStep, WriteStep,
    WsEither,
};
use edgehog_forwarder::connections_manager::{Action, ConnectionsManager};
use edgehog_forwarder::messages::{
    is_ws_upgrade_response, HttpMessage, HttpRequest, HttpResponse, ProtoMessage,
    WebSocketMessage,
};
use edgehog_forwarder::registry::TransportKind;

fn get_request(headers: Vec<(String, String)>) -> HttpRequest {
    HttpRequest {
        path: String::new(),
        method: "GET".to_string(),
        query_string: String::new(),
        headers,
        body: Vec::new(),
        port: 8080,
    }
}

fn upgrade_headers() -> Vec<(String, String)> {
    vec![
        ("Host".to_string(), "localhost:8080".to_string()),
        ("Connection".to_string(), "keep-alive, Upgrade".to_string()),
        ("Upgrade".to_string(), "websocket".to_string()),
        ("Sec-WebSocket-Version".to_string(), "13".to_string()),
    ]
}

fn http_frame(id: &[u8], request: HttpRequest) -> ProtoMessage {
    ProtoMessage::Http {
        request_id: id.to_vec(),
        message: HttpMessage::Request(request),
    }
}

fn ws_frame(id: &[u8], frame: WebSocketMessage) -> ProtoMessage {
    ProtoMessage::WebSocket {
        socket_id: id.to_vec(),
        message: frame,
    }
}

#[test]
fn http_request_scenario() {
    let mut manager = ConnectionsManager::new();
    let action = manager.handle_frame(http_frame(b"A", get_request(Vec::new())));
    let request = match action {
        Action::StartHttp { id, request } => {
            assert_eq!(id, b"A".to_vec());
            request
        }
        other => panic!("unexpected action {other:?}"),
    };
    assert_eq!(request.method, "GET");
    assert_eq!(request.port, 8080);

    let response = HttpResponse {
        status_code: 200,
        headers: Vec::new(),
        body: b"ok".to_vec(),
    };
    let (out, mut con) = http_build(b"A".to_vec(), response.clone());
    assert_eq!(
        out,
        ProtoMessage::Http {
            request_id: b"A".to_vec(),
            message: HttpMessage::Response(response),
        }
    );
    assert_eq!(con.next(), Ok(None));
    assert_eq!(con.next(), Ok(None));
    assert_eq!(manager.connection_ended(&b"A".to_vec()), Some(TransportKind::Http));
    assert_eq!(manager.transport_of(&b"A".to_vec()), None);
}

#[test]
fn websocket_upgrade_scenario() {
    let mut manager = ConnectionsManager::new();
    let action = manager.handle_frame(http_frame(b"B", get_request(upgrade_headers())));
    assert!(matches!(action, Action::StartWebSocket { ref id, .. } if id == b"B"));
    assert_eq!(
        manager.transport_of(&b"B".to_vec()),
        Some(TransportKind::WebSocket)
    );

    let upgrade = HttpResponse {
        status_code: 101,
        headers: vec![("upgrade".to_string(), "websocket".to_string())],
        body: Vec::new(),
    };
    let (out, _) = http_build(b"B".to_vec(), upgrade);
    assert!(matches!(
        out,
        ProtoMessage::Http { message: HttpMessage::Response(HttpResponse { status_code: 101, .. }), .. }
    ));

    let frame = WebSocketMessage::Binary(vec![1, 2, 3]);
    let action = manager.handle_frame(ws_frame(b"B", frame.clone()));
    assert_eq!(
        action,
        Action::Forward {
            id: b"B".to_vec(),
            frame: frame.clone()
        }
    );

    let step = next_step(b"B".to_vec(), WsEither::Read(Some(Ok(frame.clone()))));
    assert_eq!(
        step,
        NextStep::Return(Ok(Some(ProtoMessage::WebSocket {
            socket_id: b"B".to_vec(),
            message: frame
        })))
    );

    let close = WebSocketMessage::Close {
        code: 1000,
        reason: String::new(),
    };
    assert_eq!(
        next_step(b"B".to_vec(), WsEither::Write(Some(close.clone()))),
        NextStep::WriteLocal(close)
    );
    assert_eq!(
        next_step(b"B".to_vec(), WsEither::Write(None)),
        NextStep::Return(Ok(None))
    );
}

#[test]
fn first_frame_must_be_a_request() {
    let mut manager = ConnectionsManager::new();
    let action = manager.handle_frame(ws_frame(b"C", WebSocketMessage::Text("hi".to_string())));
    assert_eq!(action, Action::Discard);
    assert_eq!(manager.transport_of(&b"C".to_vec()), None);

    let response = ProtoMessage::http_response(
        b"C".to_vec(),
        HttpResponse {
            status_code: 200,
            headers: Vec::new(),
            body: Vec::new(),
        },
    );
    assert_eq!(manager.handle_frame(response), Action::Discard);
    assert_eq!(manager.transport_of(&b"C".to_vec()), None);
}

#[test]
fn frames_of_a_stream_are_forwarded_in_order() {
    let mut manager = ConnectionsManager::new();
    manager.handle_frame(http_frame(b"S", get_request(upgrade_headers())));
    let frames = vec![
        WebSocketMessage::Text("one".to_string()),
        WebSocketMessage::Binary(vec![2]),
        WebSocketMessage::Ping(vec![3]),
        WebSocketMessage::Pong(vec![4]),
    ];
    let mut written = Vec::new();
    for f in &frames {
        if let Action::Forward { frame, .. } = manager.handle_frame(ws_frame(b"S", f.clone())) {
            if let WriteStep::Send(w) = handle_ws_write(Some(frame)) {
                written.push(w);
            }
        }
    }
    assert_eq!(written, frames);
}

#[test]
fn request_for_an_active_id_is_discarded() {
    let mut manager = ConnectionsManager::new();
    assert!(matches!(
        manager.handle_frame(http_frame(b"D", get_request(Vec::new()))),
        Action::StartHttp { .. }
    ));
    assert_eq!(
        manager.handle_frame(http_frame(b"D", get_request(Vec::new()))),
        Action::Discard
    );
    // frames for an HTTP exchange are no WebSocket traffic
    assert_eq!(
        manager.handle_frame(ws_frame(b"D", WebSocketMessage::Binary(vec![]))),
        Action::Discard
    );
}

#[test]
fn closed_id_is_fresh_again() {
    let mut manager = ConnectionsManager::new();
    manager.handle_frame(http_frame(b"E", get_request(upgrade_headers())));
    manager.connection_ended(&b"E".to_vec());
    assert_eq!(
        manager.handle_frame(ws_frame(b"E", WebSocketMessage::Binary(vec![]))),
        Action::Discard
    );
    assert!(matches!(
        manager.handle_frame(http_frame(b"E", get_request(Vec::new()))),
        Action::StartHttp { .. }
    ));
}

#[test]
fn closing_the_outer_connection_removes_every_stream() {
    let mut manager = ConnectionsManager::new();
    for id in [b"1", b"2", b"3"] {
        manager.handle_frame(http_frame(id, get_request(upgrade_headers())));
    }
    let mut ids = manager.close_all();
    ids.sort();
    assert_eq!(ids, vec![b"1".to_vec(), b"2".to_vec(), b"3".to_vec()]);
    for id in [b"1", b"2", b"3"] {
        assert_eq!(manager.transport_of(&id.to_vec()), None);
    }
    assert!(manager.close_all().is_empty());
}

#[test]
fn upgrade_header_ignores_ascii_case() {
    let req = get_request(vec![("UPGRADE".to_string(), "WebSocket".to_string())]);
    assert!(req.is_ws_upgrade());
    let req = get_request(vec![("Upgrade".to_string(), "h2c".to_string())]);
    assert!(!req.is_ws_upgrade());
    assert!(!get_request(Vec::new()).is_ws_upgrade());
}

#[test]
fn local_read_outcomes() {
    assert_eq!(handle_ws_read(b"F".to_vec(), None), Ok(None));
    assert_eq!(
        handle_ws_read(b"F".to_vec(), Some(Err(ConnectionError::Transport))),
        Err(ConnectionError::Transport)
    );
    assert_eq!(
        handle_ws_read(b"F".to_vec(), Some(Ok(WebSocketMessage::Pong(vec![9])))),
        Ok(Some(ProtoMessage::WebSocket {
            socket_id: b"F".to_vec(),
            message: WebSocketMessage::Pong(vec![9])
        }))
    );
    assert_eq!(handle_ws_write(None), WriteStep::Break);
}

#[test]
fn upgrade_response_is_recognized() {
    let response = |status: u16, headers: Vec<(&str, &str)>| {
        HttpMessage::Response(HttpResponse {
            status_code: status,
            headers: headers
                .into_iter()
                .map(|(k, v)| (k.to_string(), v.to_string()))
                .collect(),
            body: Vec::new(),
        })
    };
    assert!(is_ws_upgrade_response(&response(101, vec![("upgrade", "websocket")])));
    assert!(is_ws_upgrade_response(&response(
        101,
        vec![("connection", "Upgrade"), ("upgrade", "h2, websocket")]
    )));
    assert!(!is_ws_upgrade_response(&response(200, vec![("upgrade", "websocket")])));
    assert!(!is_ws_upgrade_response(&response(101, vec![("upgrade", "h2c")])));
    assert!(!is_ws_upgrade_response(&response(101, vec![])));
    assert!(!is_ws_upgrade_response(&HttpMessage::Request(get_request(
        upgrade_headers()
    ))));
}
