//! What holds of the health probes as a whole.

use vstd::prelude::*;
use vstd::utf8::{
    decode_utf8, encode_scalar, encode_utf8, encode_utf8_decode_utf8, encode_utf8_valid_utf8,
    valid_utf8,
};

use crate::health::{
    answer, is_suspect, raw_target, ready, request_target, response_head, response_text,
    route_of, ProbeRoute, ReadinessProbe, MAX_HEALTH_CONNECTIONS, READ_BUFFER_SIZE,
    READ_TIMEOUT_SECS,
};
use crate::text::{
    before_first, begins_with, contains_text, decimal, decimal_value, is_white_space,
    law_decimal_reads_back, lemma_word_len, occurs_at, utf8_lossy, word_len, words,
};

verus! {

// ---------------------------------------------------------------------------
// Readiness
// ---------------------------------------------------------------------------
/// Law: a node that has not drained its bootstrap is not ready, whatever its
/// peers and its storage; neither is one without storage or one that is short of
/// peers.
pub proof fn law_each_condition_is_needed(
    probe: ReadinessProbe,
    is_bootstrapping: Option<bool>,
    routing_peers: nat,
)
    ensures
        is_bootstrapping == Some(true) ==> !probe.finds_ready(is_bootstrapping, routing_peers),
        !probe.storage_open ==> !probe.finds_ready(is_bootstrapping, routing_peers),
        routing_peers < probe.min_routing_peers ==> !probe.finds_ready(
            is_bootstrapping,
            routing_peers,
        ),
{
}

/// Law: a ready node stays ready as long as it gains peers. Once it has fewer
/// than it needs it is not ready, and it is ready again when it has regained
/// them.
pub proof fn law_readiness_follows_peers(
    probe: ReadinessProbe,
    is_bootstrapping: Option<bool>,
    routing_peers: nat,
    other_peers: nat,
)
    requires
        probe.finds_ready(is_bootstrapping, routing_peers),
    ensures
        probe.finds_ready(is_bootstrapping, other_peers) <==> other_peers
            >= probe.min_routing_peers,
        other_peers >= routing_peers ==> probe.finds_ready(is_bootstrapping, other_peers),
{
}

/// Law: a node without replication has no bootstrap to drain: it is ready where
/// a node that has drained its bootstrap is.
pub proof fn law_no_replication_counts_as_drained(probe: ReadinessProbe, routing_peers: nat)
    ensures
        probe.finds_ready(None, routing_peers) == probe.finds_ready(Some(false), routing_peers),
        probe.finds_ready(None, routing_peers) == ready(
            true,
            routing_peers,
            probe.min_routing_peers as nat,
            probe.storage_open,
        ),
{
}

// ---------------------------------------------------------------------------
// Requests
// ---------------------------------------------------------------------------
/// A word ends at the first white space.
proof fn lemma_word_ends(text: Seq<char>, n: nat)
    requires
        n <= text.len(),
        forall|i: int| 0 <= i < n ==> !is_white_space(#[trigger] text[i]),
        n < text.len() ==> is_white_space(text[n as int]),
    ensures
        word_len(text) == n,
{
    lemma_word_len(text);
}

/// Law: the target of a request is what stands between `GET ` and the next white
/// space, without a query string.
pub proof fn law_target_of_request_line(target: Seq<char>, rest: Seq<char>)
    requires
        target.len() > 0,
        forall|i: int| 0 <= i < target.len() ==> !is_white_space(#[trigger] target[i]),
        rest.len() > 0 ==> is_white_space(rest[0]),
    ensures
        raw_target("GET "@ + target + rest) == target,
        request_target("GET "@ + target + rest) == before_first(target, '?'),
{
    reveal_strlit("GET ");
    let request = "GET "@ + target + rest;
    assert("GET "@ =~= seq!['G', 'E', 'T', ' ']);
    assert(request[0] == 'G' && request[1] == 'E' && request[2] == 'T' && request[3] == ' ');
    lemma_word_ends(request, 3);
    let after_method = request.skip(3);
    assert(words(request) == seq![request.take(3)] + words(after_method));
    assert(after_method[0] == ' ');
    let line = target + rest;
    assert(after_method.drop_first() =~= line);
    assert(words(after_method) == words(line));
    assert forall|i: int| 0 <= i < target.len() implies !is_white_space(#[trigger] line[i]) by {
        assert(line[i] == target[i]);
    }
    if rest.len() > 0 {
        assert(line[target.len() as int] == rest[0]);
    }
    lemma_word_ends(line, target.len());
    assert(line[0] == target[0]);
    assert(line.take(target.len() as int) =~= target);
    assert(words(line) == seq![target] + words(line.skip(target.len() as int)));
    assert(words(line)[0] == target);
    assert(words(request)[1] == words(line)[0]);
}

/// Law: a query string is dropped: what stands before the first `?` is all that
/// counts.
pub proof fn law_query_is_dropped(path: Seq<char>, query: Seq<char>)
    requires
        !path.contains('?'),
    ensures
        before_first(path, '?') == path,
        before_first(path + seq!['?'] + query, '?') == path,
{
    path.index_of_first_ensures('?');
    let target = path + seq!['?'] + query;
    target.index_of_first_ensures('?');
    assert(target[path.len() as int] == '?');
    assert(target.contains('?'));
    let at = target.index_of_first('?')->0;
    if at < path.len() {
        assert(path[at] == target[at]);
        assert(path.contains('?'));
    }
    assert(at == path.len());
    assert(target.take(at) =~= path);
}

/// Law: a well-formed request is routed by its path alone, and the path has to
/// be a probe's path exactly. The request is `GET `, the path, a query string or
/// none, and what follows the target; path and query hold neither `..` nor a NUL.
/// For a path that is no probe's, what follows is searched for them too.
pub proof fn law_route_of_request_line(path: Seq<char>, query: Seq<char>, rest: Seq<char>)
    requires
        path.len() > 0,
        !path.contains('?'),
        query.len() > 0 ==> query[0] == '?',
        forall|i: int| 0 <= i < path.len() ==> !is_white_space(#[trigger] path[i]),
        forall|i: int| 0 <= i < query.len() ==> !is_white_space(#[trigger] query[i]),
        rest.len() > 0 ==> is_white_space(rest[0]),
        !is_suspect(path + query),
    ensures
        route_of("GET "@ + (path + query) + rest) == (if path == "/livez"@ {
            ProbeRoute::Livez
        } else if path == "/readyz"@ {
            ProbeRoute::Readyz
        } else if is_suspect("GET "@ + (path + query) + rest) {
            ProbeRoute::BadRequest
        } else {
            ProbeRoute::NotFound
        }),
{
    let target = path + query;
    let request = "GET "@ + target + rest;
    assert forall|i: int| 0 <= i < target.len() implies !is_white_space(#[trigger] target[i]) by {
        if i < path.len() {
            assert(target[i] == path[i]);
        } else {
            assert(target[i] == query[i - path.len()]);
        }
    }
    law_target_of_request_line(target, rest);
    if query.len() == 0 {
        assert(target =~= path);
        law_query_is_dropped(path, query);
    } else {
        assert(target =~= path + seq!['?'] + query.drop_first());
        law_query_is_dropped(path, query.drop_first());
    }
    assert(request.subrange(0, "GET "@.len() as int) =~= "GET "@);
    assert(begins_with(request, "GET "@));
    reveal_strlit("/livez");
    reveal_strlit("/readyz");
}

/// Law: the two probes are always reached: a request for `/livez` or `/readyz`
/// is routed to its probe whatever follows the target, headers with `..` or a NUL
/// among it.
pub proof fn law_probe_is_reached_whatever_follows(rest: Seq<char>)
    requires
        rest.len() > 0 ==> is_white_space(rest[0]),
    ensures
        route_of("GET "@ + "/livez"@ + rest) == ProbeRoute::Livez,
        route_of("GET "@ + "/readyz"@ + rest) == ProbeRoute::Readyz,
{
    reveal_strlit("/livez");
    reveal_strlit("/readyz");
    lemma_probe_path("/livez"@, rest);
    lemma_probe_path("/readyz"@, rest);
}

/// Law: the same holds of the bytes of a request. Where they are a request for a
/// probe, up to some white space after its target, and then any bytes at all, the
/// request is routed to the probe.
pub proof fn law_probe_is_reached_whatever_bytes_follow(rest: Seq<char>, tail: Seq<u8>)
    requires
        rest.len() > 0,
        is_white_space(rest[0]),
    ensures
        valid_utf8(encode_utf8("GET "@ + "/livez"@ + rest)),
        valid_utf8(encode_utf8("GET "@ + "/readyz"@ + rest)),
        route_of(decode_utf8(encode_utf8("GET "@ + "/livez"@ + rest)) + utf8_lossy(tail))
            == ProbeRoute::Livez,
        route_of(decode_utf8(encode_utf8("GET "@ + "/readyz"@ + rest)) + utf8_lossy(tail))
            == ProbeRoute::Readyz,
{
    law_text_survives_the_wire("GET "@ + "/livez"@ + rest);
    law_text_survives_the_wire("GET "@ + "/readyz"@ + rest);
    let all = rest + utf8_lossy(tail);
    assert("GET "@ + "/livez"@ + rest + utf8_lossy(tail) =~= "GET "@ + "/livez"@ + all);
    assert("GET "@ + "/readyz"@ + rest + utf8_lossy(tail) =~= "GET "@ + "/readyz"@ + all);
    law_probe_is_reached_whatever_follows(all);
}

/// A probe's path holds no white space, dots, NULs or question marks, and is routed
/// to its probe.
proof fn lemma_probe_path(path: Seq<char>, rest: Seq<char>)
    requires
        path.len() > 0,
        forall|i: int|
            0 <= i < path.len() ==> {
                &&& !is_white_space(#[trigger] path[i])
                &&& path[i] != '.'
                &&& path[i] != '\0'
                &&& path[i] != '?'
            },
        rest.len() > 0 ==> is_white_space(rest[0]),
    ensures
        path == "/livez"@ ==> route_of("GET "@ + path + rest) == ProbeRoute::Livez,
        path == "/readyz"@ ==> route_of("GET "@ + path + rest) == ProbeRoute::Readyz,
{
    assert("/livez"@.len() != "/readyz"@.len()) by {
        reveal_strlit("/livez");
        reveal_strlit("/readyz");
    }
    let none = Seq::<char>::empty();
    assert(path + none =~= path);
    assert(!contains_text(path, ".."@)) by {
        reveal_strlit("..");
        assert forall|at: int| !occurs_at(path, ".."@, at) by {
            if occurs_at(path, ".."@, at) {
                assert(path.subrange(at, at + 2)[0] == path[at]);
                assert(".."@[0] == '.');
            }
        }
    }
    law_route_of_request_line(path, none, rest);
}

/// Law: a request is refused for its method if and only if the method is not
/// `GET`. A `GET` is refused as bad if and only if its target holds `..` or a NUL,
/// or it asks for no probe and holds one of them anywhere. A refused request
/// reaches no probe.
pub proof fn law_refused_requests_reach_no_probe(request: Seq<char>)
    ensures
        !begins_with(request, "GET "@) <==> route_of(request) == ProbeRoute::MethodNotAllowed,
        route_of(request) == ProbeRoute::BadRequest <==> {
            &&& begins_with(request, "GET "@)
            &&& is_suspect(raw_target(request)) || (is_suspect(request) && request_target(request)
                != "/livez"@ && request_target(request) != "/readyz"@)
        },
{
}

/// Law: the bytes of a text are valid UTF-8 and decode to the text, so a request
/// that is sent as text is routed as that text.
pub proof fn law_text_survives_the_wire(text: Seq<char>)
    ensures
        valid_utf8(encode_utf8(text)),
        decode_utf8(encode_utf8(text)) == text,
{
    encode_utf8_valid_utf8(text);
    encode_utf8_decode_utf8(text);
}

// ---------------------------------------------------------------------------
// Responses
// ---------------------------------------------------------------------------
/// Law: every request gets a response, whether the node is ready or not.
pub proof fn law_every_request_is_answered(request: Seq<char>, is_ready: bool)
    ensures
        answer(route_of(request), is_ready) is Some,
{
}

/// Law: only the readiness probe depends on whether the node is ready.
pub proof fn law_only_readyz_depends_on_readiness(route: ProbeRoute)
    requires
        route != ProbeRoute::Readyz,
    ensures
        answer(route, true) == answer(route, false),
{
}

/// Law: a response has the status `200 OK` if and only if it answers the
/// liveness probe, or the readiness probe of a node that is ready.
pub proof fn law_ok_status(route: ProbeRoute, is_ready: bool)
    requires
        route != ProbeRoute::Close,
    ensures
        ({
            let (status, _body) = answer(route, is_ready).unwrap();
            status == "200 OK"@ <==> (route == ProbeRoute::Livez || (route == ProbeRoute::Readyz
                && is_ready))
        }),
{
    reveal_strlit("200 OK");
    reveal_strlit("400 Bad Request");
    reveal_strlit("404 Not Found");
    reveal_strlit("405 Method Not Allowed");
    reveal_strlit("503 Service Unavailable");
    assert("200 OK"@.len() == 6);
    assert("400 Bad Request"@.len() == 15);
    assert("404 Not Found"@.len() == 13);
    assert("405 Method Not Allowed"@.len() == 22);
    assert("503 Service Unavailable"@.len() == 23);
}

/// Law: the probes tell the truth about the node. A request for `/livez` is
/// answered with `200 OK` whatever the node's state; one for `/readyz` is answered
/// with `200 OK` if the node has drained its bootstrap, has enough peers and has
/// storage open, and with `503 Service Unavailable` otherwise.
pub proof fn law_probes_report_the_node(
    request: Seq<char>,
    probe: ReadinessProbe,
    is_bootstrapping: Option<bool>,
    routing_peers: nat,
)
    ensures
        ({
            let is_ready = probe.finds_ready(is_bootstrapping, routing_peers);
            let answered = answer(route_of(request), is_ready);
            &&& route_of(request) == ProbeRoute::Livez ==> answered == Some(("200 OK"@, "ok\n"@))
            &&& route_of(request) == ProbeRoute::Readyz ==> answered == (if is_bootstrapping
                != Some(true) && routing_peers >= probe.min_routing_peers && probe.storage_open {
                Some(("200 OK"@, "ready\n"@))
            } else {
                Some(("503 Service Unavailable"@, "not ready\n"@))
            })
        }),
{
}

/// The bytes of two texts one after the other are the bytes of the one and then
/// those of the other.
proof fn lemma_encode_concat(a: Seq<char>, b: Seq<char>)
    ensures
        encode_utf8(a + b) == encode_utf8(a) + encode_utf8(b),
    decreases a.len(),
{
    if a.len() == 0 {
        assert(a + b =~= b);
        assert(encode_utf8(a) =~= Seq::<u8>::empty());
        assert(encode_utf8(a) + encode_utf8(b) =~= encode_utf8(b));
    } else {
        let first = encode_scalar(a[0] as u32);
        assert((a + b)[0] == a[0]);
        assert((a + b).drop_first() =~= a.drop_first() + b);
        lemma_encode_concat(a.drop_first(), b);
        assert(encode_utf8(a + b) =~= first + (encode_utf8(a.drop_first()) + encode_utf8(b)));
        assert(encode_utf8(a) =~= first + encode_utf8(a.drop_first()));
    }
}

/// Law: a response tells its reader where it ends: on the wire the head is
/// followed by exactly as many bytes as its content length says.
pub proof fn law_content_length(status: Seq<char>, body: Seq<char>)
    ensures
        ({
            let content_length = decimal(encode_utf8(body).len());
            let head = encode_utf8(response_head(status, content_length));
            let response = encode_utf8(response_text(status, body));
            &&& head.len() <= response.len()
            &&& response.skip(head.len() as int) == encode_utf8(body)
            &&& decimal_value(content_length) == response.len() - head.len()
        }),
{
    let content_length = decimal(encode_utf8(body).len());
    let head = response_head(status, content_length);
    lemma_encode_concat(head, body);
    law_decimal_reads_back(encode_utf8(body).len());
    assert((encode_utf8(head) + encode_utf8(body)).skip(encode_utf8(head).len() as int)
        =~= encode_utf8(body));
}

// ---------------------------------------------------------------------------
// The same in plain characters and numbers
// ---------------------------------------------------------------------------
/// Law: the server handles sixteen connections at a time, waits five seconds for
/// a request and reads 1024 bytes of it.
pub proof fn law_server_limits()
    ensures
        MAX_HEALTH_CONNECTIONS == 16,
        READ_TIMEOUT_SECS == 5,
        READ_BUFFER_SIZE == 1024,
{
}

/// Law: a node is ready if and only if it does not bootstrap, has at least as many
/// peers as it needs, and has storage open.
pub proof fn law_ready_means_all_three(
    probe: ReadinessProbe,
    is_bootstrapping: Option<bool>,
    routing_peers: nat,
)
    ensures
        probe.finds_ready(is_bootstrapping, routing_peers) <==> {
            &&& is_bootstrapping is None || !is_bootstrapping->0
            &&& routing_peers >= probe.min_routing_peers
            &&& probe.storage_open
        },
        forall|drained: bool, peers: nat, needed: nat, storage: bool| #[trigger]
            ready(drained, peers, needed, storage) <==> drained && peers >= needed && storage,
{
}

/// A text is suspect if and only if two neighbouring characters of it are dots or
/// one is a NUL.
proof fn lemma_suspect_characters(text: Seq<char>)
    ensures
        is_suspect(text) <==> {
            ||| exists|i: int| 0 <= i < text.len() - 1 && #[trigger] text[i] == '.' && text[i + 1]
                == '.'
            ||| exists|i: int| 0 <= i < text.len() && #[trigger] text[i] == '\0'
        },
{
    reveal_strlit("..");
    assert(".."@ =~= seq!['.', '.']);
    if contains_text(text, ".."@) {
        let at = choose|at: int| occurs_at(text, ".."@, at);
        let part = text.subrange(at, at + 2);
        assert(part[0] == '.' && part[1] == '.');
        assert(text[at] == part[0] && text[at + 1] == part[1]);
    }
    if exists|i: int| 0 <= i < text.len() - 1 && #[trigger] text[i] == '.' && text[i + 1] == '.' {
        let i = choose|i: int|
            0 <= i < text.len() - 1 && #[trigger] text[i] == '.' && text[i + 1] == '.';
        assert(text.subrange(i, i + 2) =~= ".."@);
        assert(occurs_at(text, ".."@, i));
    }
}

/// White space before the first word changes none of the words.
proof fn lemma_words_after_gap(gap: Seq<char>, text: Seq<char>)
    requires
        forall|i: int| 0 <= i < gap.len() ==> is_white_space(#[trigger] gap[i]),
    ensures
        words(gap + text) == words(text),
    decreases gap.len(),
{
    if gap.len() == 0 {
        assert(gap + text =~= text);
    } else {
        assert((gap + text)[0] == gap[0]);
        assert((gap + text).drop_first() =~= gap.drop_first() + text);
        lemma_words_after_gap(gap.drop_first(), text);
    }
}

/// A text that begins with a word has it as its first word.
proof fn lemma_first_word(word: Seq<char>, rest: Seq<char>)
    requires
        word.len() > 0,
        forall|i: int| 0 <= i < word.len() ==> !is_white_space(#[trigger] word[i]),
        rest.len() > 0 ==> is_white_space(rest[0]),
    ensures
        words(word + rest) == seq![word] + words(rest),
{
    let text = word + rest;
    assert forall|i: int| 0 <= i < word.len() implies !is_white_space(#[trigger] text[i]) by {
        assert(text[i] == word[i]);
    }
    if rest.len() > 0 {
        assert(text[word.len() as int] == rest[0]);
    }
    lemma_word_ends(text, word.len());
    assert(text[0] == word[0]);
    assert(text.take(word.len() as int) =~= word);
    assert(text.skip(word.len() as int) =~= rest);
}

/// The words of what follows the method are those after the first one.
proof fn lemma_words_after_method(rest: Seq<char>)
    ensures
        words("GET "@ + rest) == seq![seq!['G', 'E', 'T']] + words(rest),
{
    reveal_strlit("GET ");
    let method = seq!['G', 'E', 'T'];
    let gap = seq![' '];
    assert("GET "@ + rest =~= method + (gap + rest));
    lemma_first_word(method, gap + rest);
    lemma_words_after_gap(gap, rest);
}

/// Law: a request is refused for its method if and only if its first four
/// characters are not `G`, `E`, `T` and a space.
pub proof fn law_method_is_the_first_four_characters(request: Seq<char>)
    ensures
        route_of(request) != ProbeRoute::MethodNotAllowed <==> {
            &&& request.len() >= 4
            &&& request[0] == 'G'
            &&& request[1] == 'E'
            &&& request[2] == 'T'
            &&& request[3] == ' '
        },
{
    reveal_strlit("GET ");
    assert("GET "@ =~= seq!['G', 'E', 'T', ' ']);
    if request.len() >= 4 {
        let start = request.subrange(0, 4);
        assert(start[0] == request[0] && start[1] == request[1] && start[2] == request[2]
            && start[3] == request[3]);
        if start[0] == 'G' && start[1] == 'E' && start[2] == 'T' && start[3] == ' ' {
            assert(start =~= "GET "@);
        }
    }
}

/// Law: how any `GET` with a target is routed. The request is `GET `, more white
/// space or none, a path, a query string or none, and nothing or what follows
/// after white space. It is refused if two neighbouring characters of path and
/// query are dots or one is a NUL. Otherwise the path decides, which has to be
/// `/livez` or `/readyz` exactly; the query plays no part. Of a request with
/// another path the rest is searched for dots and NULs too.
pub proof fn law_get_is_routed_by_its_target(
    gap: Seq<char>,
    path: Seq<char>,
    query: Seq<char>,
    rest: Seq<char>,
)
    requires
        forall|i: int| 0 <= i < gap.len() ==> is_white_space(#[trigger] gap[i]),
        (path + query).len() > 0,
        forall|i: int|
            0 <= i < path.len() ==> !is_white_space(#[trigger] path[i]) && path[i] != '?',
        forall|i: int| 0 <= i < query.len() ==> !is_white_space(#[trigger] query[i]),
        query.len() > 0 ==> query[0] == '?',
        rest.len() > 0 ==> is_white_space(rest[0]),
    ensures
        ({
            let target = path + query;
            let request = "GET "@ + (gap + (target + rest));
            route_of(request) == (if (exists|i: int|
                0 <= i < target.len() - 1 && #[trigger] target[i] == '.' && target[i + 1] == '.')
                || (exists|i: int| 0 <= i < target.len() && #[trigger] target[i] == '\0') {
                ProbeRoute::BadRequest
            } else if path == "/livez"@ {
                ProbeRoute::Livez
            } else if path == "/readyz"@ {
                ProbeRoute::Readyz
            } else if (exists|i: int|
                0 <= i < request.len() - 1 && #[trigger] request[i] == '.' && request[i + 1] == '.')
                || (exists|i: int| 0 <= i < request.len() && #[trigger] request[i] == '\0') {
                ProbeRoute::BadRequest
            } else {
                ProbeRoute::NotFound
            })
        }),
{
    let target = path + query;
    let line = target + rest;
    let request = "GET "@ + (gap + line);
    assert forall|i: int| 0 <= i < target.len() implies !is_white_space(#[trigger] target[i]) by {
        if i < path.len() {
            assert(target[i] == path[i]);
        } else {
            assert(target[i] == query[i - path.len()]);
        }
    }
    lemma_words_after_method(gap + line);
    lemma_words_after_gap(gap, line);
    lemma_first_word(target, rest);
    assert(words(request)[1] == words(line)[0]);
    assert(words(line)[0] == target);
    assert(raw_target(request) == target);
    if query.len() == 0 {
        assert(target =~= path);
        law_query_is_dropped(path, query);
    } else {
        assert(target =~= path + seq!['?'] + query.drop_first());
        law_query_is_dropped(path, query.drop_first());
    }
    assert(request_target(request) == path);
    assert(request.subrange(0, "GET "@.len() as int) =~= "GET "@);
    assert(begins_with(request, "GET "@));
    lemma_suspect_characters(target);
    lemma_suspect_characters(request);
    assert("/livez"@.len() != "/readyz"@.len()) by {
        reveal_strlit("/livez");
        reveal_strlit("/readyz");
    }
}

/// Law: a `GET` without a target, `GET ` and then white space or nothing, asks for
/// nothing that there is.
pub proof fn law_get_without_target_is_not_found(gap: Seq<char>)
    requires
        forall|i: int| 0 <= i < gap.len() ==> is_white_space(#[trigger] gap[i]),
    ensures
        route_of("GET "@ + gap) == ProbeRoute::NotFound,
{
    let none = Seq::<char>::empty();
    let request = "GET "@ + gap;
    assert(gap + none =~= gap);
    lemma_words_after_method(gap);
    lemma_words_after_gap(gap, none);
    assert(words(request).len() == 1);
    reveal_strlit("GET ");
    reveal_strlit("/");
    reveal_strlit("/livez");
    reveal_strlit("/readyz");
    let target = "/"@;
    assert(target =~= seq!['/']);
    assert(raw_target(request) == target);
    assert(!target.contains('?'));
    law_query_is_dropped(target, none);
    assert("/livez"@.len() != target.len() && "/readyz"@.len() != target.len());
    lemma_suspect_characters(target);
    lemma_suspect_characters(request);
    assert forall|i: int| 0 <= i < request.len() implies #[trigger] request[i] != '.' && request[i]
        != '\0' by {
        if i >= 4 {
            assert(request[i] == gap[i - 4]);
        }
    }
    assert(request.subrange(0, "GET "@.len() as int) =~= "GET "@);
    assert(begins_with(request, "GET "@));
}

/// Law: a query string does not keep a request from its probe. A `GET` whose
/// target has the path `/livez` or `/readyz` is routed to that probe with any query
/// in which no two neighbouring characters are both dots and none is a NUL,
/// whatever follows the target.
pub proof fn law_query_does_not_keep_from_the_probe(query: Seq<char>, rest: Seq<char>)
    requires
        query.len() > 0 ==> query[0] == '?',
        forall|i: int|
            0 <= i < query.len() ==> !is_white_space(#[trigger] query[i]) && query[i] != '\0',
        forall|i: int|
            0 <= i < query.len() - 1 ==> !(#[trigger] query[i] == '.' && query[i + 1] == '.'),
        rest.len() > 0 ==> is_white_space(rest[0]),
    ensures
        route_of("GET "@ + "/livez"@ + query + rest) == ProbeRoute::Livez,
        route_of("GET "@ + "/readyz"@ + query + rest) == ProbeRoute::Readyz,
{
    reveal_strlit("/livez");
    reveal_strlit("/readyz");
    assert("/livez"@.len() != "/readyz"@.len());
    lemma_query_after_probe_path("/livez"@, query, rest);
    lemma_query_after_probe_path("/readyz"@, query, rest);
}

/// A query without neighbouring dots and NULs leaves a path without them in order.
proof fn lemma_query_after_probe_path(path: Seq<char>, query: Seq<char>, rest: Seq<char>)
    requires
        path == "/livez"@ || path == "/readyz"@,
        path.len() > 0,
        forall|i: int|
            0 <= i < path.len() ==> {
                &&& !is_white_space(#[trigger] path[i])
                &&& path[i] != '.'
                &&& path[i] != '\0'
                &&& path[i] != '?'
            },
        query.len() > 0 ==> query[0] == '?',
        forall|i: int|
            0 <= i < query.len() ==> !is_white_space(#[trigger] query[i]) && query[i] != '\0',
        forall|i: int|
            0 <= i < query.len() - 1 ==> !(#[trigger] query[i] == '.' && query[i + 1] == '.'),
        rest.len() > 0 ==> is_white_space(rest[0]),
    ensures
        route_of("GET "@ + path + query + rest) == (if path == "/livez"@ {
            ProbeRoute::Livez
        } else {
            ProbeRoute::Readyz
        }),
{
    let none = Seq::<char>::empty();
    let target = path + query;
    assert("GET "@ + path + query + rest =~= "GET "@ + (none + (target + rest)));
    assert forall|i: int| 0 <= i < target.len() implies #[trigger] target[i] != '\0' && !(i
        < target.len() - 1 && target[i] == '.' && target[i + 1] == '.') by {
        if i < path.len() {
            assert(target[i] == path[i]);
        } else {
            assert(target[i] == query[i - path.len()]);
            if i < target.len() - 1 {
                assert(target[i + 1] == query[i - path.len() + 1]);
            }
        }
    }
    law_get_is_routed_by_its_target(none, path, query, rest);
}

/// Law: what each route is answered. A closed connection gets nothing; every other
/// route has its status and its body.
pub proof fn law_status_and_body_of_each_route()
    ensures
        answer(ProbeRoute::Close, true) is None,
        answer(ProbeRoute::Close, false) is None,
        forall|is_ready: bool| #[trigger]
            answer(ProbeRoute::MethodNotAllowed, is_ready) == Some(
                ("405 Method Not Allowed"@, "method not allowed\n"@),
            ),
        forall|is_ready: bool| #[trigger]
            answer(ProbeRoute::BadRequest, is_ready) == Some(
                ("400 Bad Request"@, "bad request\n"@),
            ),
        forall|is_ready: bool| #[trigger]
            answer(ProbeRoute::Livez, is_ready) == Some(("200 OK"@, "ok\n"@)),
        answer(ProbeRoute::Readyz, true) == Some(("200 OK"@, "ready\n"@)),
        answer(ProbeRoute::Readyz, false) == Some(
            ("503 Service Unavailable"@, "not ready\n"@),
        ),
        forall|is_ready: bool| #[trigger]
            answer(ProbeRoute::NotFound, is_ready) == Some(
                ("404 Not Found"@, "not found; try /livez or /readyz\n"@),
            ),
{
}

/// Law: a response is its status line, the three headers, an empty line and the
/// body; the length that it gives is the number of bytes of the body, in decimal.
pub proof fn law_lines_of_a_response(status: Seq<char>, body: Seq<char>)
    ensures
        exists|length: Seq<char>|
            {
                &&& #[trigger] decimal_value(length) == encode_utf8(body).len()
                &&& length == decimal(encode_utf8(body).len())
                &&& response_text(status, body) == "HTTP/1.1 "@ + status
                    + "\r\nContent-Type: text/plain\r\nContent-Length: "@ + length
                    + "\r\nConnection: close\r\n\r\n"@ + body
            },
{
    let length = decimal(encode_utf8(body).len());
    law_decimal_reads_back(encode_utf8(body).len());
    assert(decimal_value(length) == encode_utf8(body).len());
}

} // verus!
