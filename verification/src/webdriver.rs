//! WebDriver REST paths and bodies shared by the Firefox and Safari backends.

use vstd::prelude::*;
use crate::json::{Json, JsonV, member, members_view, number_from_i64, object, int_value};
use crate::text::concat3;

verus! {

/// `/session/{session_id}`.
pub fn session_path(session_id: &str) -> (r: String)
    ensures
        r@ == "/session/"@ + session_id@,
{
    crate::text::concat("/session/", session_id)
}

/// `/session/{session_id}{suffix}`, as in `/session/{id}/window/rect`.
pub fn session_subpath(session_id: &str, suffix: &str) -> (r: String)
    ensures
        r@ == "/session/"@ + session_id@ + suffix@,
{
    concat3("/session/", session_id, suffix)
}

/// The driver's readiness endpoint.
pub fn status_path() -> (r: &'static str)
    ensures
        r@ == "/status"@,
{
    "/status"
}

/// The endpoint that creates a session.
pub fn new_session_path() -> (r: &'static str)
    ensures
        r@ == "/session"@,
{
    "/session"
}

/// `/session/{id}/window/handles`: the session's windows.
pub fn handles_path(session_id: &str) -> (r: String)
    ensures
        r@ == "/session/"@ + session_id@ + "/window/handles"@,
{
    session_subpath(session_id, "/window/handles")
}

/// `/session/{id}/window/new`: opens a window.
pub fn new_window_path(session_id: &str) -> (r: String)
    ensures
        r@ == "/session/"@ + session_id@ + "/window/new"@,
{
    session_subpath(session_id, "/window/new")
}

/// `/session/{id}/window`: the current window (switch to, close).
pub fn window_path(session_id: &str) -> (r: String)
    ensures
        r@ == "/session/"@ + session_id@ + "/window"@,
{
    session_subpath(session_id, "/window")
}

/// `/session/{id}/window/rect`: the current window's position and size.
pub fn rect_path(session_id: &str) -> (r: String)
    ensures
        r@ == "/session/"@ + session_id@ + "/window/rect"@,
{
    session_subpath(session_id, "/window/rect")
}

/// `/session/{id}/url`: the current page's URL (read, navigate).
pub fn url_path(session_id: &str) -> (r: String)
    ensures
        r@ == "/session/"@ + session_id@ + "/url"@,
{
    session_subpath(session_id, "/url")
}

/// `/session/{id}/title`: the current page's title.
pub fn title_path(session_id: &str) -> (r: String)
    ensures
        r@ == "/session/"@ + session_id@ + "/title"@,
{
    session_subpath(session_id, "/title")
}

/// `/session/{id}/execute/sync`: runs a script.
pub fn execute_path(session_id: &str) -> (r: String)
    ensures
        r@ == "/session/"@ + session_id@ + "/execute/sync"@,
{
    session_subpath(session_id, "/execute/sync")
}

/// The error of a driver that did not come up in time.
pub fn driver_timeout(driver: &str) -> (e: crate::error::BrowserError)
    ensures
        e matches crate::error::BrowserError::Timeout(m) && m@ == driver@ + " did not start within 5s"@,
{
    crate::error::BrowserError::Timeout(crate::text::concat(driver, " did not start within 5s"))
}

/// The body of `POST /session/{id}/window/rect`.
pub open spec fn rect_value(x: i32, y: i32, width: i32, height: i32) -> JsonV {
    JsonV::Object(
        seq![
            ("x"@, JsonV::Number(number_from_i64(x as i64))),
            ("y"@, JsonV::Number(number_from_i64(y as i64))),
            ("width"@, JsonV::Number(number_from_i64(width as i64))),
            ("height"@, JsonV::Number(number_from_i64(height as i64))),
        ],
    )
}

/// The body of `POST /session/{id}/window/rect`: position and size.
pub fn rect_body(x: i32, y: i32, width: i32, height: i32) -> (r: Json)
    ensures
        r@ == rect_value(x, y, width, height),
{
    let ghost e = match rect_value(x, y, width, height) {
        JsonV::Object(m) => m,
        _ => Seq::empty(),
    };
    let mut m: Vec<(String, Json)> = Vec::new();
    m.push(member("x", int_value(x as i64)));
    m.push(member("y", int_value(y as i64)));
    m.push(member("width", int_value(width as i64)));
    m.push(member("height", int_value(height as i64)));
    let r = object(m);
    assert(members_view(m@) =~= e);
    r
}

/// Whether a new tab or window must still navigate to `url` (it opens blank).
pub fn needs_navigation(url: &str) -> (r: bool)
    ensures
        r == (url@ != "about:blank"@),
{
    let s = String::from_str(url);
    let blank = String::from_str("about:blank");
    !(s == blank)
}

/// The `value` member of a WebDriver reply (`null` where it has none).
pub fn reply_value(reply: &Json) -> (r: Json)
    ensures
        r@ == reply@.field("value"@),
{
    reply.field("value")
}

} // verus!
