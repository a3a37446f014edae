//! Liveness and readiness probes over HTTP.
//!
//! `GET /livez` is always answered with `200 OK`. `GET /readyz` is answered with
//! `200 OK` if the node has drained its replication bootstrap, has a populated
//! routing table and has storage open, and with `503` otherwise. What follows the
//! target of such a request, its headers for one, does not matter. A target with
//! `..` or a NUL in it is refused, and so is any other request that holds one of
//! them. The server listens on the loopback address, takes `GET` only, and closes
//! each connection after one response.

use vstd::prelude::*;
use vstd::utf8::{decode_utf8, encode_utf8, valid_utf8};

use crate::text::{
    before_first, begins_with, chars_of, contains, contains_char, contains_text, decimal,
    decimal_text, decode_lossy, nth_word, same_text, starts_with, up_to, utf8_lossy, words,
};

verus! {

/// Connections that are handled at the same time at most.
pub const MAX_HEALTH_CONNECTIONS: usize = 16;

/// Seconds that a connection may take to send its request.
pub const READ_TIMEOUT_SECS: u64 = 5;

/// Bytes of a request that are read at most.
pub const READ_BUFFER_SIZE: usize = 1024;

// ---------------------------------------------------------------------------
// Readiness
// ---------------------------------------------------------------------------
/// Whether a node is ready: it has drained its bootstrap, has at least
/// `min_routing_peers` peers in its routing table, and has storage open.
pub open spec fn ready(
    bootstrap_drained: bool,
    routing_peers: nat,
    min_routing_peers: nat,
    storage_open: bool,
) -> bool {
    bootstrap_drained && routing_peers >= min_routing_peers && storage_open
}

/// Decides whether a node is ready.
#[must_use]
pub fn readyz_ready(
    bootstrap_drained: bool,
    routing_peers: usize,
    min_routing_peers: usize,
    storage_open: bool,
) -> (is_ready: bool)
    ensures
        is_ready == ready(
            bootstrap_drained,
            routing_peers as nat,
            min_routing_peers as nat,
            storage_open,
        ),
        is_ready <==> bootstrap_drained && routing_peers >= min_routing_peers && storage_open,
{
    bootstrap_drained && routing_peers >= min_routing_peers && storage_open
}

/// What a node must have to be ready, apart from what changes while it runs.
#[derive(Debug, Clone, Copy)]
pub struct ReadinessProbe {
    /// Peers that the routing table must hold: the size of a close group.
    pub min_routing_peers: usize,
    /// Whether the node has chunk storage open.
    pub storage_open: bool,
}

impl ReadinessProbe {
    /// A probe of a node that needs `min_routing_peers` peers.
    #[must_use]
    pub fn new(min_routing_peers: usize, storage_open: bool) -> (probe: ReadinessProbe)
        ensures
            probe == (ReadinessProbe { min_routing_peers, storage_open }),
    {
        ReadinessProbe { min_routing_peers, storage_open }
    }

    /// Whether the probe finds a node ready whose bootstrap flag and routing
    /// table are as given. A node without replication has no bootstrap flag, and
    /// nothing to drain.
    pub open spec fn finds_ready(
        self,
        is_bootstrapping: Option<bool>,
        routing_peers: nat,
    ) -> bool {
        ready(
            is_bootstrapping != Some(true),
            routing_peers,
            self.min_routing_peers as nat,
            self.storage_open,
        )
    }

    /// Decides whether the node is ready now, where `is_bootstrapping` is its
    /// bootstrap flag, if it has one, and `routing_peers` the number of peers in
    /// its routing table.
    pub fn is_ready(&self, is_bootstrapping: Option<bool>, routing_peers: usize) -> (is_ready: bool)
        ensures
            is_ready == self.finds_ready(is_bootstrapping, routing_peers as nat),
            is_ready <==> is_bootstrapping != Some(true) && routing_peers >= self.min_routing_peers
                && self.storage_open,
    {
        let bootstrap_drained = match is_bootstrapping {
            Some(bootstrapping) => !bootstrapping,
            None => true,
        };
        readyz_ready(
            bootstrap_drained,
            routing_peers,
            self.min_routing_peers,
            self.storage_open,
        )
    }
}

// ---------------------------------------------------------------------------
// Requests
// ---------------------------------------------------------------------------
/// What a connection is to be answered.
#[derive(Debug, Clone, Copy, PartialEq, Eq, Structural)]
pub enum ProbeRoute {
    /// Nothing: the connection is closed.
    Close,
    /// The method is not `GET`.
    MethodNotAllowed,
    /// The target of the request holds `..` or a NUL, or the request does and is
    /// not for a probe.
    BadRequest,
    /// The liveness probe.
    Livez,
    /// The readiness probe.
    Readyz,
    /// Some other target.
    NotFound,
}

/// The target of a request as it was sent: its second word, and `/` if it has
/// none.
pub open spec fn raw_target(request: Seq<char>) -> Seq<char> {
    if words(request).len() > 1 {
        words(request)[1]
    } else {
        "/"@
    }
}

/// The path that a request asks for: its target without a query string.
pub open spec fn request_target(request: Seq<char>) -> Seq<char> {
    before_first(raw_target(request), '?')
}

/// Whether a text holds `..`, as a path that leaves its tree does, or a NUL.
pub open spec fn is_suspect(text: Seq<char>) -> bool {
    contains_text(text, ".."@) || text.contains('\0')
}

/// What a request is to be answered.
pub open spec fn route_of(request: Seq<char>) -> ProbeRoute {
    if !begins_with(request, "GET "@) {
        ProbeRoute::MethodNotAllowed
    } else if is_suspect(raw_target(request)) {
        ProbeRoute::BadRequest
    } else if request_target(request) == "/livez"@ {
        ProbeRoute::Livez
    } else if request_target(request) == "/readyz"@ {
        ProbeRoute::Readyz
    } else if is_suspect(request) {
        ProbeRoute::BadRequest
    } else {
        ProbeRoute::NotFound
    }
}

/// Decides whether a text holds `..` or a NUL.
fn find_suspect(text: &Vec<char>) -> (found: bool)
    ensures
        found == is_suspect(text@),
{
    contains(text, &chars_of("..")) || contains_char(text, '\0')
}

/// Decides what a request is to be answered.
pub fn route_request(request: &str) -> (route: ProbeRoute)
    ensures
        route == route_of(request@),
{
    let request = chars_of(request);
    if !starts_with(&request, &chars_of("GET ")) {
        return ProbeRoute::MethodNotAllowed;
    }
    let word = match nth_word(&request, 1) {
        Some(word) => word,
        None => chars_of("/"),
    };
    if find_suspect(&word) {
        return ProbeRoute::BadRequest;
    }
    let target = up_to(&word, '?');
    if same_text(&target, &chars_of("/livez")) {
        ProbeRoute::Livez
    } else if same_text(&target, &chars_of("/readyz")) {
        ProbeRoute::Readyz
    } else if find_suspect(&request) {
        ProbeRoute::BadRequest
    } else {
        ProbeRoute::NotFound
    }
}

/// Decides what a connection is to be answered. `read` holds the bytes that it
/// sent, and is `None` if reading failed or took too long. A connection that
/// sent nothing is closed. Malformed bytes change nothing of the text before them.
pub fn handle_connection(read: Option<&[u8]>) -> (route: ProbeRoute)
    ensures
        match read {
            None => route == ProbeRoute::Close,
            Some(bytes) => if bytes@.len() == 0 {
                route == ProbeRoute::Close
            } else {
                &&& route == route_of(utf8_lossy(bytes@))
                &&& valid_utf8(bytes@) ==> route == route_of(decode_utf8(bytes@))
                &&& forall|a: Seq<u8>, b: Seq<u8>|
                    #![trigger decode_utf8(a), utf8_lossy(b)]
                    valid_utf8(a) && bytes@ == a + b ==> route == route_of(
                        decode_utf8(a) + utf8_lossy(b),
                    )
            },
        },
{
    match read {
        None => ProbeRoute::Close,
        Some(bytes) => {
            if bytes.len() == 0 {
                return ProbeRoute::Close;
            }
            let request = decode_lossy(bytes);
            route_request(request.as_str())
        },
    }
}

// ---------------------------------------------------------------------------
// Responses
// ---------------------------------------------------------------------------
/// What stands before the body of a response.
pub open spec fn response_head(status: Seq<char>, content_length: Seq<char>) -> Seq<char> {
    "HTTP/1.1 "@ + status + "\r\nContent-Type: text/plain\r\nContent-Length: "@ + content_length
        + "\r\nConnection: close\r\n\r\n"@
}

/// A response with `status` and `body`.
pub open spec fn response_text(status: Seq<char>, body: Seq<char>) -> Seq<char> {
    response_head(status, decimal(encode_utf8(body).len())) + body
}

/// Writes a response with `status` and `body`, which closes the connection and
/// gives the length of the body in bytes.
pub fn write_response(status: &str, body: &str) -> (response: String)
    ensures
        response@ == response_text(status@, body@),
{
    let mut response = String::new();
    response.append("HTTP/1.1 ");
    response.append(status);
    response.append("\r\nContent-Type: text/plain\r\nContent-Length: ");
    let content_length = decimal_text(body.as_bytes().len());
    response.append(content_length.as_str());
    response.append("\r\nConnection: close\r\n\r\n");
    response.append(body);
    assert(response@ =~= response_text(status@, body@));
    response
}

/// The status and the body that answer a route, where `is_ready` tells whether
/// the node is ready; `None` for a connection that is closed without a response.
pub open spec fn answer(route: ProbeRoute, is_ready: bool) -> Option<(Seq<char>, Seq<char>)> {
    match route {
        ProbeRoute::Close => None,
        ProbeRoute::MethodNotAllowed => Some(("405 Method Not Allowed"@, "method not allowed\n"@)),
        ProbeRoute::BadRequest => Some(("400 Bad Request"@, "bad request\n"@)),
        ProbeRoute::Livez => Some(("200 OK"@, "ok\n"@)),
        ProbeRoute::Readyz => if is_ready {
            Some(("200 OK"@, "ready\n"@))
        } else {
            Some(("503 Service Unavailable"@, "not ready\n"@))
        },
        ProbeRoute::NotFound => Some(("404 Not Found"@, "not found; try /livez or /readyz\n"@)),
    }
}

/// Writes the response to a route, if it gets one.
pub fn respond(route: ProbeRoute, is_ready: bool) -> (response: Option<String>)
    ensures
        match answer(route, is_ready) {
            Some((status, body)) => response is Some && response->0@ == response_text(status, body),
            None => response is None,
        },
{
    match route {
        ProbeRoute::Close => None,
        ProbeRoute::MethodNotAllowed => Some(
            write_response("405 Method Not Allowed", "method not allowed\n"),
        ),
        ProbeRoute::BadRequest => Some(write_response("400 Bad Request", "bad request\n")),
        ProbeRoute::Livez => Some(write_response("200 OK", "ok\n")),
        ProbeRoute::Readyz => {
            if is_ready {
                Some(write_response("200 OK", "ready\n"))
            } else {
                Some(write_response("503 Service Unavailable", "not ready\n"))
            }
        },
        ProbeRoute::NotFound => Some(
            write_response("404 Not Found", "not found; try /livez or /readyz\n"),
        ),
    }
}

// ---------------------------------------------------------------------------
// Server
// ---------------------------------------------------------------------------
/// The address that the server listens on; `None` where port 0 disables it.
pub fn serve_address(port: u16) -> (address: Option<String>)
    ensures
        match address {
            Some(address) => port != 0 && address@ == "127.0.0.1:"@ + decimal(port as nat),
            None => port == 0,
        },
{
    if port == 0 {
        return None;
    }
    let mut address = String::new();
    address.append("127.0.0.1:");
    let digits = decimal_text(port as usize);
    address.append(digits.as_str());
    assert(address@ =~= "127.0.0.1:"@ + decimal(port as nat));
    Some(address)
}

/// What can happen to the server.
#[derive(Debug, Clone, Copy, PartialEq, Eq, Structural)]
pub enum ServeEvent {
    /// The listener is bound.
    Bound,
    /// The listener could not be bound.
    BindFailed,
    /// A connection was accepted.
    Accepted,
    /// A connection could not be accepted.
    AcceptFailed,
    /// Shutdown was requested.
    ShutdownRequested,
}

/// What the server does next.
#[derive(Debug, Clone, Copy, PartialEq, Eq, Structural)]
pub enum ServeAction {
    /// Wait for the next connection.
    Listen,
    /// Hand the connection to a task of its own and wait for the next one.
    HandleAndListen,
    /// Stop for good.
    Stop,
}

/// Decides what the server does after an event. It stops if its listener cannot
/// be bound and when shutdown is requested; a connection that cannot be accepted
/// does not stop it.
pub fn serve_step(event: ServeEvent) -> (action: ServeAction)
    ensures
        action == ServeAction::Stop <==> event == ServeEvent::BindFailed || event
            == ServeEvent::ShutdownRequested,
        action == ServeAction::HandleAndListen <==> event == ServeEvent::Accepted,
        action == ServeAction::Listen <==> event == ServeEvent::Bound || event
            == ServeEvent::AcceptFailed,
{
    match event {
        ServeEvent::Bound => ServeAction::Listen,
        ServeEvent::BindFailed => ServeAction::Stop,
        ServeEvent::Accepted => ServeAction::HandleAndListen,
        ServeEvent::AcceptFailed => ServeAction::Listen,
        ServeEvent::ShutdownRequested => ServeAction::Stop,
    }
}

} // verus!
