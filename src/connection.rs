//! Per-connection transports: the decisions of one WebSocket stream and of one HTTP exchange
//! between the outer connection and a local service.

use vstd::prelude::*;
use crate::messages::{HttpResponse, ProtoMessage, WebSocketMessage};

verus! {

/// Why a logical connection ended with an error.
#[derive(Debug, Clone, Copy, PartialEq, Eq, Structural)]
pub enum ConnectionError {
    /// Reading from or writing to the local socket failed.
    Transport,
    /// The local service sent something that is no valid message.
    Protocol,
    /// The channel towards the connections manager is closed.
    Channel,
}

/// What the local WebSocket yielded: a frame, the end of the stream (`None`), or a failure.
pub type LocalRead = Option<Result<WebSocketMessage, ConnectionError>>;

/// The first of the two events that a WebSocket connection waits for.
pub enum WsEither {
    /// The local socket yielded something.
    Read(LocalRead),
    /// The manager's channel yielded a frame to forward, or `None` once it is closed.
    Write(Option<WebSocketMessage>),
}

/// What to do with a value of the manager's channel.
#[derive(Debug, Clone, PartialEq)]
pub enum WriteStep {
    /// The channel is closed: close the local socket and end the connection.
    Break,
    /// Write the frame on the local socket, then wait for the next event.
    Send(WebSocketMessage),
}

/// What the connection's `next` does after one event.
#[derive(Debug, PartialEq)]
pub enum NextStep {
    /// `next` returns this result to its task.
    Return(Result<Option<ProtoMessage>, ConnectionError>),
    /// `next` writes the frame on the local socket and waits again, without returning.
    WriteLocal(WebSocketMessage),
}

pub open spec fn read_spec(id: Vec<u8>, read: LocalRead) -> Result<Option<ProtoMessage>, ConnectionError> {
    match read {
        None => Ok(None),
        Some(Ok(frame)) => Ok(Some(ProtoMessage::WebSocket { socket_id: id, message: frame })),
        Some(Err(e)) => Err(e),
    }
}

pub open spec fn write_spec(chan_data: Option<WebSocketMessage>) -> WriteStep {
    match chan_data {
        None => WriteStep::Break,
        Some(frame) => WriteStep::Send(frame),
    }
}

pub open spec fn next_spec(id: Vec<u8>, event: WsEither) -> NextStep {
    match event {
        WsEither::Read(read) => NextStep::Return(read_spec(id, read)),
        WsEither::Write(chan_data) => match write_spec(chan_data) {
            WriteStep::Break => NextStep::Return(Ok(None)),
            WriteStep::Send(frame) => NextStep::WriteLocal(frame),
        },
    }
}

/// Turns what the local socket yielded into the result of `next`: a frame becomes an outbound
/// message of the connection `id`, the end of the stream ends the connection, a failure is
/// passed on.
pub fn handle_ws_read(id: Vec<u8>, read: LocalRead) -> (r: Result<Option<ProtoMessage>, ConnectionError>)
    ensures
        r == read_spec(id, read),
{
    match read {
        None => Ok(None),
        Some(Ok(frame)) => Ok(Some(ProtoMessage::web_socket(id, frame))),
        Some(Err(e)) => Err(e),
    }
}

/// Decides what to do with a value of the manager's channel.
pub fn handle_ws_write(chan_data: Option<WebSocketMessage>) -> (r: WriteStep)
    ensures
        r == write_spec(chan_data),
{
    match chan_data {
        None => WriteStep::Break,
        Some(frame) => WriteStep::Send(frame),
    }
}

/// One round of a WebSocket connection's `next`: only what the local service sent is handed
/// back; a forwarded frame is written locally and `next` goes on waiting.
pub fn next_step(id: Vec<u8>, event: WsEither) -> (r: NextStep)
    ensures
        r == next_spec(id, event),
{
    match event {
        WsEither::Read(read) => NextStep::Return(handle_ws_read(id, read)),
        WsEither::Write(chan_data) => match handle_ws_write(chan_data) {
            WriteStep::Break => NextStep::Return(Ok(None)),
            WriteStep::Send(frame) => NextStep::WriteLocal(frame),
        },
    }
}

/// An HTTP exchange whose response has been handed to the manager.
pub struct HttpConnection {
    pub id: Vec<u8>,
}

/// Builds the HTTP connection `id` from the local service's response: the response is the one
/// outbound message of the exchange.
pub fn http_build(id: Vec<u8>, res: HttpResponse) -> (r: (ProtoMessage, HttpConnection))
    ensures
        r.0 == ProtoMessage::http_response_spec(id, res),
        r.1.id@ == id@,
{
    let own = id.clone();
    (ProtoMessage::http_response(id, res), HttpConnection { id: own })
}

impl HttpConnection {
    /// An HTTP exchange is one-shot: after its response it only reports completion.
    pub fn next(&mut self) -> (r: Result<Option<ProtoMessage>, ConnectionError>)
        ensures
            r == Ok::<Option<ProtoMessage>, ConnectionError>(None),
            final(self).id == old(self).id,
    {
        Ok(None)
    }
}

} // verus!
