//! Decisions of the connections manager: how each inbound frame of the outer connection is
//! routed, and how logical connections enter and leave the registry. The caller performs the
//! actions (opening local connections, forwarding into write handles) and reports back.

use vstd::prelude::*;
use crate::connection::{next_spec, write_spec, NextStep, WriteStep, WsEither};
use crate::messages::{is_upgrade_spec, HttpMessage, HttpRequest, ProtoMessage, WebSocketMessage};
use crate::registry::{Registry, TransportKind};

verus! {

/// What the caller does with an inbound frame.
#[derive(Debug, Clone, PartialEq)]
pub enum Action {
    /// The frame violates the protocol for its identifier and is dropped.
    Discard,
    /// Forward the request to the local HTTP service as a new exchange `id`.
    StartHttp { id: Vec<u8>, request: HttpRequest },
    /// Upgrade the request with the local service into a new WebSocket stream `id`.
    StartWebSocket { id: Vec<u8>, request: HttpRequest },
    /// Put the frame into the write handle of the active stream `id`.
    Forward { id: Vec<u8>, frame: WebSocketMessage },
}

/// The action for an inbound frame and the registry after it, given the registry before it.
pub open spec fn frame_spec(reg: Map<Seq<u8>, TransportKind>, msg: ProtoMessage) -> (
    Action,
    Map<Seq<u8>, TransportKind>,
) {
    match msg {
        ProtoMessage::Http { request_id, message } => match message {
            HttpMessage::Request(request) => if reg.contains_key(request_id@) {
                (Action::Discard, reg)
            } else if is_upgrade_spec(request.headers@) {
                (
                    Action::StartWebSocket { id: request_id, request },
                    reg.insert(request_id@, TransportKind::WebSocket),
                )
            } else {
                (
                    Action::StartHttp { id: request_id, request },
                    reg.insert(request_id@, TransportKind::Http),
                )
            },
            HttpMessage::Response(_) => (Action::Discard, reg),
        },
        ProtoMessage::WebSocket { socket_id, message } => if reg.contains_key(socket_id@)
            && reg[socket_id@] == TransportKind::WebSocket {
            (Action::Forward { id: socket_id, frame: message }, reg)
        } else {
            (Action::Discard, reg)
        },
    }
}

/// Routes the frames of the outer connection to logical connections.
pub struct ConnectionsManager {
    registry: Registry,
}

impl View for ConnectionsManager {
    type V = Map<Seq<u8>, TransportKind>;

    closed spec fn view(&self) -> Map<Seq<u8>, TransportKind> {
        self.registry@
    }
}

impl ConnectionsManager {
    pub closed spec fn wf(&self) -> bool {
        self.registry.wf()
    }

    /// A manager with no logical connection.
    pub fn new() -> (r: ConnectionsManager)
        ensures
            r.wf(),
            r@ == Map::<Seq<u8>, TransportKind>::empty(),
    {
        ConnectionsManager { registry: Registry::new() }
    }

    /// The transport of the logical connection `id`, if it is active.
    pub fn transport_of(&self, id: &Vec<u8>) -> (r: Option<TransportKind>)
        requires
            self.wf(),
        ensures
            r == (if self@.contains_key(id@) {
                Some(self@[id@])
            } else {
                None
            }),
    {
        self.registry.kind_of(id)
    }

    /// Decides what to do with an inbound frame. The first frame of an identifier must be an
    /// HTTP request, which registers the identifier before any later frame of it is routed;
    /// WebSocket frames go to the active stream of their identifier; everything else is
    /// discarded and leaves the registry as it was.
    pub fn handle_frame(&mut self, msg: ProtoMessage) -> (r: Action)
        requires
            old(self).wf(),
        ensures
            final(self).wf(),
            (r, final(self)@) == frame_spec(old(self)@, msg),
    {
        match msg {
            ProtoMessage::Http { request_id, message } => match message {
                HttpMessage::Request(request) => {
                    if self.registry.kind_of(&request_id).is_some() {
                        Action::Discard
                    } else if request.is_ws_upgrade() {
                        let key = request_id.clone();
                        self.registry.insert(key, TransportKind::WebSocket);
                        Action::StartWebSocket { id: request_id, request }
                    } else {
                        let key = request_id.clone();
                        self.registry.insert(key, TransportKind::Http);
                        Action::StartHttp { id: request_id, request }
                    }
                },
                HttpMessage::Response(_) => Action::Discard,
            },
            ProtoMessage::WebSocket { socket_id, message } => {
                match self.registry.kind_of(&socket_id) {
                    Some(TransportKind::WebSocket) => Action::Forward {
                        id: socket_id,
                        frame: message,
                    },
                    _ => Action::Discard,
                }
            },
        }
    }

    /// Removes the logical connection `id`: its task ended, normally or with an error, or its
    /// local connection could not be built. A later frame for `id` is treated as a fresh one.
    pub fn connection_ended(&mut self, id: &Vec<u8>) -> (r: Option<TransportKind>)
        requires
            old(self).wf(),
        ensures
            final(self).wf(),
            final(self)@ == old(self)@.remove(id@),
            r == (if old(self)@.contains_key(id@) {
                Some(old(self)@[id@])
            } else {
                None
            }),
    {
        self.registry.remove(id)
    }

    /// The outer connection closed: every logical connection is removed, and the identifiers
    /// whose tasks the caller must cancel are given back, each once.
    pub fn close_all(&mut self) -> (r: Vec<Vec<u8>>)
        requires
            old(self).wf(),
        ensures
            final(self).wf(),
            final(self)@ == Map::<Seq<u8>, TransportKind>::empty(),
            forall|k: Seq<u8>|
                old(self)@.contains_key(k) <==> exists|i: int| 0 <= i < r@.len() && r@[i]@ == k,
            forall|i: int, j: int| 0 <= i < r@.len() && 0 <= j < r@.len() && i != j ==> r@[i]@ != r@[j]@,
    {
        self.registry.drain()
    }
}

/// Whether a frame is an HTTP request, the only legal first frame of an identifier.
pub open spec fn is_request(msg: ProtoMessage) -> bool {
    msg matches ProtoMessage::Http { message: HttpMessage::Request(_), .. }
}

/// A frame for an identifier that is not registered, and that is no HTTP request, is
/// discarded: no registry entry is made and no local connection is opened.
pub proof fn lemma_first_frame_must_be_request(reg: Map<Seq<u8>, TransportKind>, msg: ProtoMessage)
    requires
        !reg.contains_key(msg.spec_id()),
        !is_request(msg),
    ensures
        frame_spec(reg, msg) == (Action::Discard, reg),
{
}

/// The frames that reach the local socket when `frames` arrive in turn on the outer connection
/// for the stream `id`: each goes through the manager's routing, then through the
/// connection's `next`.
pub open spec fn delivered(reg: Map<Seq<u8>, TransportKind>, id: Vec<u8>, frames: Seq<WebSocketMessage>) -> Seq<
    WebSocketMessage,
>
    decreases frames.len(),
{
    if frames.len() == 0 {
        Seq::empty()
    } else {
        let (action, next_reg) = frame_spec(
            reg,
            ProtoMessage::WebSocket { socket_id: id, message: frames[0] },
        );
        let head = match action {
            Action::Forward { id: target, frame } => match next_spec(
                target,
                WsEither::Write(Some(frame)),
            ) {
                NextStep::WriteLocal(written) => seq![written],
                NextStep::Return(_) => Seq::empty(),
            },
            _ => Seq::empty(),
        };
        head + delivered(next_reg, id, frames.drop_first())
    }
}

/// Frames that arrive for an active WebSocket stream reach its local socket all, and in the
/// order of arrival.
pub proof fn lemma_forwarded_in_order(
    reg: Map<Seq<u8>, TransportKind>,
    id: Vec<u8>,
    frames: Seq<WebSocketMessage>,
)
    requires
        reg.contains_key(id@),
        reg[id@] == TransportKind::WebSocket,
    ensures
        delivered(reg, id, frames) == frames,
    decreases frames.len(),
{
    if frames.len() > 0 {
        lemma_forwarded_in_order(reg, id, frames.drop_first());
        assert(write_spec(Some(frames[0])) == WriteStep::Send(frames[0]));
        assert(frames =~= seq![frames[0]] + frames.drop_first());
    }
}

/// An HTTP exchange is one-shot: once its request is accepted, a WebSocket frame for its
/// identifier reaches no local socket and changes nothing.
pub proof fn lemma_http_exchange_takes_no_frames(
    reg: Map<Seq<u8>, TransportKind>,
    id: Vec<u8>,
    frame: WebSocketMessage,
)
    requires
        reg.contains_key(id@),
        reg[id@] == TransportKind::Http,
    ensures
        frame_spec(reg, ProtoMessage::WebSocket { socket_id: id, message: frame }) == (
            Action::Discard,
            reg,
        ),
{
}

} // verus!
