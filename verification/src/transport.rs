//! Addressing and framing of the HTTP and WebSocket transports: endpoint
//! addresses, request headers, and whether a response status is a success.

use vstd::prelude::*;
use crate::error::BrowserError;
use crate::text::{concat3, decimal, decimal_text};

verus! {

/// The parts of a URI as the `http` crate's parser reads them — host, port,
/// path and query — or the text of its error.
pub uninterp spec fn uri_parse(text: Seq<char>) -> Result<(Option<Seq<char>>, Option<u16>, Option<Seq<char>>), Seq<char>>;

/// The canonical reason phrase of an HTTP status code, as the `http` crate
/// knows it.
pub uninterp spec fn reason_phrase(code: u16) -> Option<Seq<char>>;

pub open spec fn opt_text(s: Option<String>) -> Option<Seq<char>> {
    match s {
        Some(t) => Some(t@),
        None => None,
    }
}

/// The view of parsed URI parts.
pub open spec fn parts_view(r: Result<(Option<String>, Option<u16>, Option<String>), String>) -> Result<
    (Option<Seq<char>>, Option<u16>, Option<Seq<char>>),
    Seq<char>,
> {
    match r {
        Ok((h, p, pq)) => Ok((opt_text(h), p, opt_text(pq))),
        Err(e) => Err(e@),
    }
}

/// Parses `text` with `hyper::Uri`'s `FromStr` and takes its host, port and
/// path-and-query, or the text of the parse error. The contract names the
/// result (`uri_parse`) and claims nothing about its content.
#[verifier::external_body]
fn parse_uri(text: &str) -> (r: Result<(Option<String>, Option<u16>, Option<String>), String>)
    ensures
        parts_view(r) == uri_parse(text@),
{
    match text.parse::<hyper::Uri>() {
        Ok(u) => Ok((u.host().map(String::from), u.port_u16(), u.path_and_query().map(|p| String::from(p.as_str())))),
        Err(e) => Err(e.to_string()),
    }
}

/// The reason phrase of `code`, from `hyper::StatusCode::canonical_reason`
/// (none for a code that `StatusCode::from_u16` refuses). The contract names
/// the result (`reason_phrase`) and claims nothing about its content.
#[verifier::external_body]
fn canonical_reason(code: u16) -> (r: Option<String>)
    ensures
        opt_text(r) == reason_phrase(code),
{
    match hyper::StatusCode::from_u16(code) {
        Ok(s) => s.canonical_reason().map(String::from),
        Err(_) => None,
    }
}

/// The endpoint of a WebSocket URL, given its parsed parts: its host
/// (`127.0.0.1` where it has none), port (9222 where it has none) and path
/// with query (`/` where it has none); a parse error is a connection failure.
pub open spec fn endpoint_is(
    r: Result<(String, u16, String), BrowserError>,
    parts: Result<(Option<Seq<char>>, Option<u16>, Option<Seq<char>>), Seq<char>>,
) -> bool {
    match parts {
        Ok((h, p, pq)) => r matches Ok((host, port, path)) && host@ == (match h {
            Some(x) => x,
            None => "127.0.0.1"@,
        }) && port == (match p {
            Some(x) => x,
            None => 9222u16,
        }) && path@ == (match pq {
            Some(x) => x,
            None => "/"@,
        }),
        Err(m) => r matches Err(BrowserError::ConnectionFailed(e)) && e@ == m,
    }
}

/// The endpoint of a WebSocket URL from its parsed parts.
pub fn endpoint_from_parts(parts: Result<(Option<String>, Option<u16>, Option<String>), String>) -> (r: Result<
    (String, u16, String),
    BrowserError,
>)
    ensures
        endpoint_is(r, parts_view(parts)),
{
    match parts {
        Ok((h, p, pq)) => {
            let host = match h {
                Some(x) => x,
                None => String::from_str("127.0.0.1"),
            };
            let port = match p {
                Some(x) => x,
                None => 9222,
            };
            let path = match pq {
                Some(x) => x,
                None => String::from_str("/"),
            };
            Ok((host, port, path))
        },
        Err(m) => Err(BrowserError::ConnectionFailed(m)),
    }
}

/// The host, port and path that a WebSocket connection to `ws_url` uses.
pub fn ws_endpoint(ws_url: &str) -> (r: Result<(String, u16, String), BrowserError>)
    ensures
        endpoint_is(r, uri_parse(ws_url@)),
{
    endpoint_from_parts(parse_uri(ws_url))
}

/// `host:port`, the address to connect to and the `Host` header.
pub fn host_port(host: &str, port: u16) -> (r: String)
    ensures
        r@ == host@ + ":"@ + decimal(port as nat),
{
    let p = decimal_text(port as u64);
    concat3(host, ":", p.as_str())
}

/// The views of header name/value pairs.
pub open spec fn headers_view(h: Seq<(String, String)>) -> Seq<(Seq<char>, Seq<char>)> {
    h.map_values(|p: (String, String)| (p.0@, p.1@))
}

/// The headers of a REST request to `host:port`, announcing a JSON body
/// where there is one.
pub fn request_headers(host: &str, port: u16, has_body: bool) -> (r: Vec<(String, String)>)
    ensures
        headers_view(r@) == if has_body {
            seq![("Host"@, host@ + ":"@ + decimal(port as nat)), ("Content-Type"@, "application/json"@)]
        } else {
            seq![("Host"@, host@ + ":"@ + decimal(port as nat))]
        },
{
    let mut h: Vec<(String, String)> = Vec::new();
    h.push((String::from_str("Host"), host_port(host, port)));
    if has_body {
        h.push((String::from_str("Content-Type"), String::from_str("application/json")));
    }
    assert(headers_view(h@) =~= if has_body {
        seq![("Host"@, host@ + ":"@ + decimal(port as nat)), ("Content-Type"@, "application/json"@)]
    } else {
        seq![("Host"@, host@ + ":"@ + decimal(port as nat))]
    });
    h
}

/// The headers of the WebSocket upgrade request to `host:port` with the
/// handshake `key`.
pub open spec fn upgrade_header_list(host: Seq<char>, port: u16, key: Seq<char>) -> Seq<(Seq<char>, Seq<char>)> {
    seq![
        ("Host"@, host + ":"@ + decimal(port as nat)),
        ("upgrade"@, "websocket"@),
        ("connection"@, "upgrade"@),
        ("Sec-WebSocket-Key"@, key),
        ("Sec-WebSocket-Version"@, "13"@),
    ]
}

/// A fresh handshake key from `fastwebsockets::handshake::generate_key`,
/// which encodes 16 random bytes in padded base64: 24 characters, the last
/// two `=`. Which characters come before them is left open (they are random).
#[verifier::external_body]
fn handshake_key() -> (r: String)
    ensures
        r@.len() == 24,
        r@[22] == '=',
        r@[23] == '=',
{
    fastwebsockets::handshake::generate_key()
}

/// The headers of a WebSocket upgrade request to `host:port`, with a fresh
/// handshake key.
pub fn handshake_headers(host: &str, port: u16) -> (r: Vec<(String, String)>)
    ensures
        r@.len() == 5,
        headers_view(r@) == upgrade_header_list(host@, port, r@[3].1@),
        r@[3].1@.len() == 24,
        r@[3].1@[22] == '=' && r@[3].1@[23] == '=',
{
    let key = handshake_key();
    let r = upgrade_headers(host, port, key.as_str());
    proof {
        assert(headers_view(r@).len() == r@.len());
        assert(r@.len() == 5);
        assert(headers_view(r@)[3] == (r@[3].0@, r@[3].1@));
        assert(r@[3].1@ == key@);
    }
    r
}

/// The headers of the WebSocket upgrade request to `host:port` with the
/// handshake `key`.
pub fn upgrade_headers(host: &str, port: u16, key: &str) -> (r: Vec<(String, String)>)
    ensures
        headers_view(r@) == upgrade_header_list(host@, port, key@),
{
    let mut h: Vec<(String, String)> = Vec::new();
    h.push((String::from_str("Host"), host_port(host, port)));
    h.push((String::from_str("upgrade"), String::from_str("websocket")));
    h.push((String::from_str("connection"), String::from_str("upgrade")));
    h.push((String::from_str("Sec-WebSocket-Key"), String::from_str(key)));
    h.push((String::from_str("Sec-WebSocket-Version"), String::from_str("13")));
    assert(headers_view(h@) =~= upgrade_header_list(host@, port, key@));
    h
}

/// A success status: 200 to 299.
pub fn is_success(code: u16) -> (r: bool)
    ensures
        r == (200 <= code <= 299),
{
    200 <= code && code <= 299
}

/// A status as it is displayed: the code, a space, and its reason phrase
/// (`<unknown status code>` where it has none).
pub open spec fn status_display(code: u16, reason: Option<Seq<char>>) -> Seq<char> {
    decimal(code as nat) + " "@ + match reason {
        Some(r) => r,
        None => "<unknown status code>"@,
    }
}

/// The outcome of a `GET` whose response has status `code` with the given
/// reason phrase: fine for a success, else an HTTP error naming the path and
/// the status.
pub fn get_status_result(path: &str, code: u16, reason: Option<String>) -> (r: Result<(), BrowserError>)
    ensures
        if 200 <= code <= 299 {
            r is Ok
        } else {
            r matches Err(BrowserError::Http(m)) && m@ == "GET "@ + path@ + " returned "@ + status_display(
                code,
                opt_text(reason),
            )
        },
{
    if is_success(code) {
        Ok(())
    } else {
        let mut m = concat3("GET ", path, " returned ");
        let c = decimal_text(code as u64);
        m.append(c.as_str());
        m.append(" ");
        match reason {
            Some(r) => m.append(r.as_str()),
            None => m.append("<unknown status code>"),
        }
        Err(BrowserError::Http(m))
    }
}

/// Checks the status of a `GET` response.
pub fn check_get_status(path: &str, code: u16) -> (r: Result<(), BrowserError>)
    ensures
        if 200 <= code <= 299 {
            r is Ok
        } else {
            r matches Err(BrowserError::Http(m)) && m@ == "GET "@ + path@ + " returned "@ + status_display(
                code,
                reason_phrase(code),
            )
        },
{
    get_status_result(path, code, canonical_reason(code))
}

/// The upgrade request is a WebSocket handshake (RFC 6455): it carries
/// `Connection: upgrade` and `Upgrade: websocket` and no other value for
/// either header, the handshake `key` and version 13, and names the host.
pub proof fn law_upgrade_handshake(host: Seq<char>, port: u16, key: Seq<char>)
    ensures
        upgrade_header_list(host, port, key).contains(("connection"@, "upgrade"@)),
        upgrade_header_list(host, port, key).contains(("upgrade"@, "websocket"@)),
        upgrade_header_list(host, port, key).contains(("Sec-WebSocket-Key"@, key)),
        upgrade_header_list(host, port, key).contains(("Sec-WebSocket-Version"@, "13"@)),
        upgrade_header_list(host, port, key).contains(("Host"@, host + ":"@ + decimal(port as nat))),
        forall|i: int|
            0 <= i < upgrade_header_list(host, port, key).len() && #[trigger] upgrade_header_list(host, port, key)[i].0
                == "connection"@ ==> upgrade_header_list(host, port, key)[i].1 == "upgrade"@,
        forall|i: int|
            0 <= i < upgrade_header_list(host, port, key).len() && #[trigger] upgrade_header_list(host, port, key)[i].0
                == "upgrade"@ ==> upgrade_header_list(host, port, key)[i].1 == "websocket"@,
{
    reveal_strlit("Host");
    reveal_strlit("upgrade");
    reveal_strlit("connection");
    reveal_strlit("Sec-WebSocket-Key");
    reveal_strlit("Sec-WebSocket-Version");
    let h = upgrade_header_list(host, port, key);
    assert(h[1] == ("upgrade"@, "websocket"@));
    assert(h[2] == ("connection"@, "upgrade"@));
    assert(h[3] == ("Sec-WebSocket-Key"@, key));
    assert(h[4] == ("Sec-WebSocket-Version"@, "13"@));
    assert(h[0] == ("Host"@, host + ":"@ + decimal(port as nat)));
    assert forall|i: int| 0 <= i < h.len() && #[trigger] h[i].0 == "connection"@ implies h[i].1 == "upgrade"@ by {
        assert(h[i].0[0] == "connection"@[0]);
    }
    assert forall|i: int| 0 <= i < h.len() && #[trigger] h[i].0 == "upgrade"@ implies h[i].1 == "websocket"@ by {
        assert(h[i].0[0] == "upgrade"@[0]);
    }
}

} // verus!
