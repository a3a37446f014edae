use ant_node::health::{
    handle_connection, readyz_ready, respond, route_request, serve_address, serve_step,
    write_response, ProbeRoute, ReadinessProbe, ServeAction, ServeEvent,
};

/// Representative close-group size for the predicate tests.
const K: usize = 8;

#[test]
fn readyz_requires_bootstrap_peers_and_storage() {
    // Not bootstrap-drained -> never ready, regardless of peers / storage.
    assert!(!readyz_ready(false, K, K, true));
    assert!(!readyz_ready(false, K + 100, K, true));

    // Drained but below the peer threshold -> not ready.
    assert!(!readyz_ready(true, 0, K, true));
    assert!(!readyz_ready(true, K - 1, K, true));

    // Drained + enough peers but storage closed -> not ready.
    assert!(!readyz_ready(true, K, K, false));

    // Drained + >= threshold peers + storage open -> ready.
    assert!(readyz_ready(true, K, K, true));
    assert!(readyz_ready(true, K + 1, K, true));
}

#[test]
fn probe_follows_the_live_state_of_the_node() {
    let probe = ReadinessProbe::new(K, true);
    assert!(!probe.is_ready(Some(true), K));
    assert!(probe.is_ready(Some(false), K));
    // A node that loses its peers is not ready until it has them again.
    assert!(!probe.is_ready(Some(false), K - 1));
    assert!(probe.is_ready(Some(false), K + 3));
    // Without replication there is nothing to drain.
    assert!(probe.is_ready(None, K));
    assert!(!ReadinessProbe::new(K, false).is_ready(None, K));
}

#[test]
fn probes_are_routed_by_their_exact_path() {
    assert_eq!(
        route_request("GET /livez HTTP/1.1\r\nHost: localhost\r\n\r\n"),
        ProbeRoute::Livez
    );
    assert_eq!(route_request("GET /readyz HTTP/1.1\r\n\r\n"), ProbeRoute::Readyz);
    assert_eq!(route_request("GET /livez"), ProbeRoute::Livez);
    assert_eq!(route_request("GET /livezfoo HTTP/1.1"), ProbeRoute::NotFound);
    assert_eq!(route_request("GET /livez/ HTTP/1.1"), ProbeRoute::NotFound);
    assert_eq!(route_request("GET /LIVEZ HTTP/1.1"), ProbeRoute::NotFound);
    assert_eq!(route_request("GET / HTTP/1.1"), ProbeRoute::NotFound);
    assert_eq!(route_request("GET "), ProbeRoute::NotFound);
}

#[test]
fn query_strings_are_dropped() {
    assert_eq!(route_request("GET /livez?verbose=1 HTTP/1.1"), ProbeRoute::Livez);
    assert_eq!(route_request("GET /readyz? HTTP/1.1"), ProbeRoute::Readyz);
    assert_eq!(route_request("GET /readyz?a?b HTTP/1.1"), ProbeRoute::Readyz);
    assert_eq!(route_request("GET ?/livez HTTP/1.1"), ProbeRoute::NotFound);
}

#[test]
fn words_are_split_at_any_white_space() {
    assert_eq!(route_request("GET    /livez\tHTTP/1.1"), ProbeRoute::Livez);
    assert_eq!(route_request("GET \r\n /readyz\n"), ProbeRoute::Readyz);
    assert_eq!(route_request("GET /livez\u{b}x"), ProbeRoute::Livez);
    assert_eq!(route_request("GET /livez\u{a0}x"), ProbeRoute::Livez);
    assert_eq!(route_request("GET \u{3000}/livez\u{2003}x"), ProbeRoute::Livez);
    // A zero-width space is no white space.
    assert_eq!(route_request("GET /livez\u{200b}x"), ProbeRoute::NotFound);
    assert_eq!(route_request("GET \u{2028}\u{85}\u{1680}"), ProbeRoute::NotFound);
}

#[test]
fn other_methods_and_bad_requests_are_refused() {
    assert_eq!(route_request("POST /livez HTTP/1.1"), ProbeRoute::MethodNotAllowed);
    assert_eq!(route_request("get /livez HTTP/1.1"), ProbeRoute::MethodNotAllowed);
    assert_eq!(route_request(" GET /livez"), ProbeRoute::MethodNotAllowed);
    assert_eq!(route_request("GET"), ProbeRoute::MethodNotAllowed);
    assert_eq!(route_request("GET\t/livez"), ProbeRoute::MethodNotAllowed);
    assert_eq!(route_request("GET /../livez HTTP/1.1"), ProbeRoute::BadRequest);
    assert_eq!(route_request("GET /livez?a..b HTTP/1.1"), ProbeRoute::BadRequest);
    assert_eq!(route_request("GET /livez\0"), ProbeRoute::BadRequest);
    assert_eq!(route_request("GET /livez.. "), ProbeRoute::BadRequest);
    assert_eq!(route_request("GET /livez."), ProbeRoute::NotFound);
    assert_eq!(route_request("PUT /.."), ProbeRoute::MethodNotAllowed);
}

#[test]
fn what_follows_the_target_does_not_matter() {
    let request = b"GET /livez HTTP/1.1\r\nReferer: a..b\r\n\r\n";
    let route = handle_connection(Some(request));
    assert_eq!(route, ProbeRoute::Livez);
    assert_eq!(
        respond(route, false).unwrap().as_bytes(),
        b"HTTP/1.1 200 OK\r\nContent-Type: text/plain\r\nContent-Length: 3\r\n\
          Connection: close\r\n\r\nok\n"
    );
    assert_eq!(route_request("GET /readyz HTTP/1.1\r\nX: a..b"), ProbeRoute::Readyz);
    assert_eq!(route_request("GET /readyz HTTP/1.1\r\nX: \0"), ProbeRoute::Readyz);
    // Where no probe is asked for, it does.
    assert_eq!(route_request("GET /x HTTP/1.1\r\nX: a..b"), ProbeRoute::BadRequest);
    assert_eq!(route_request("GET /x HTTP/1.1\r\nX: \0"), ProbeRoute::BadRequest);
    assert_eq!(route_request("GET /x HTTP/1.1\r\nX: a.b"), ProbeRoute::NotFound);
}

#[test]
fn connections_are_routed_by_the_bytes_they_sent() {
    assert_eq!(handle_connection(None), ProbeRoute::Close);
    assert_eq!(handle_connection(Some(&[])), ProbeRoute::Close);
    assert_eq!(handle_connection(Some(b"GET /livez HTTP/1.1\r\n")), ProbeRoute::Livez);
    assert_eq!(handle_connection(Some(b"HEAD /livez HTTP/1.1\r\n")), ProbeRoute::MethodNotAllowed);
    // Text outside ASCII, as its UTF-8 bytes.
    assert_eq!(handle_connection(Some("GET /livez\u{2003}\u{e9}".as_bytes())), ProbeRoute::Livez);
    // Malformed bytes are replaced and match nothing.
    assert_eq!(handle_connection(Some(b"GET /livez\xff HTTP/1.1")), ProbeRoute::NotFound);
    assert_eq!(handle_connection(Some(b"\xffGET /livez")), ProbeRoute::MethodNotAllowed);
    // After the target of a probe they do not matter.
    assert_eq!(handle_connection(Some(b"GET /livez \xff\xfe")), ProbeRoute::Livez);
    assert_eq!(handle_connection(Some(b"GET /readyz \xe2\x82")), ProbeRoute::Readyz);
}

#[test]
fn responses_have_their_text() {
    assert_eq!(
        respond(ProbeRoute::Livez, false).unwrap(),
        "HTTP/1.1 200 OK\r\nContent-Type: text/plain\r\nContent-Length: 3\r\n\
         Connection: close\r\n\r\nok\n"
    );
    assert_eq!(
        respond(ProbeRoute::Readyz, true).unwrap(),
        "HTTP/1.1 200 OK\r\nContent-Type: text/plain\r\nContent-Length: 6\r\n\
         Connection: close\r\n\r\nready\n"
    );
    assert_eq!(
        respond(ProbeRoute::Readyz, false).unwrap(),
        "HTTP/1.1 503 Service Unavailable\r\nContent-Type: text/plain\r\nContent-Length: 10\r\n\
         Connection: close\r\n\r\nnot ready\n"
    );
    assert_eq!(
        respond(ProbeRoute::MethodNotAllowed, true).unwrap(),
        "HTTP/1.1 405 Method Not Allowed\r\nContent-Type: text/plain\r\nContent-Length: 19\r\n\
         Connection: close\r\n\r\nmethod not allowed\n"
    );
    assert_eq!(
        respond(ProbeRoute::BadRequest, true).unwrap(),
        "HTTP/1.1 400 Bad Request\r\nContent-Type: text/plain\r\nContent-Length: 12\r\n\
         Connection: close\r\n\r\nbad request\n"
    );
    assert_eq!(
        respond(ProbeRoute::NotFound, true).unwrap(),
        "HTTP/1.1 404 Not Found\r\nContent-Type: text/plain\r\nContent-Length: 33\r\n\
         Connection: close\r\n\r\nnot found; try /livez or /readyz\n"
    );
    assert!(respond(ProbeRoute::Close, true).is_none());
}

#[test]
fn only_readyz_depends_on_readiness() {
    for route in [
        ProbeRoute::Close,
        ProbeRoute::MethodNotAllowed,
        ProbeRoute::BadRequest,
        ProbeRoute::Livez,
        ProbeRoute::NotFound,
    ] {
        assert_eq!(respond(route, true), respond(route, false));
    }
    assert_ne!(
        respond(ProbeRoute::Readyz, true),
        respond(ProbeRoute::Readyz, false)
    );
}

#[test]
fn content_length_counts_bytes() {
    // Three characters of one, two and three bytes.
    let response = write_response("200 OK", "a\u{e9}\u{20ac}");
    assert!(response.contains("\r\nContent-Length: 6\r\n"));
    let head = response.find("\r\n\r\n").unwrap() + 4;
    assert_eq!(response.as_bytes().len() - head, 6);
    assert!(write_response("x", "").contains("Content-Length: 0\r\n"));
    let long = vec!["z"; 1205].concat();
    assert!(write_response("x", &long).contains("Content-Length: 1205\r\n"));
}

#[test]
fn server_listens_on_loopback_or_not_at_all() {
    assert!(serve_address(0).is_none());
    assert_eq!(serve_address(7).unwrap(), "127.0.0.1:7");
    assert_eq!(serve_address(10).unwrap(), "127.0.0.1:10");
    assert_eq!(serve_address(65535).unwrap(), "127.0.0.1:65535");
}

#[test]
fn server_stops_only_at_shutdown_or_without_a_listener() {
    assert_eq!(serve_step(ServeEvent::Bound), ServeAction::Listen);
    assert_eq!(serve_step(ServeEvent::BindFailed), ServeAction::Stop);
    assert_eq!(serve_step(ServeEvent::Accepted), ServeAction::HandleAndListen);
    assert_eq!(serve_step(ServeEvent::AcceptFailed), ServeAction::Listen);
    assert_eq!(serve_step(ServeEvent::ShutdownRequested), ServeAction::Stop);
}
