//! Chrome: the CDP commands behind each browser and tab operation, and the
//! decoding of their replies.

use vstd::prelude::*;
use crate::error::BrowserError;
use crate::json::{Json, JsonV, member, member_lookup, members_view, number_from_i64, object, object1, object2, object3, text_value, int_value, items_view};
use crate::router::{Command, command, command_is};
use crate::types::{JsResult, JsResultV, PollAction, Poller, TargetInfo, TargetInfoV, probe_step};

verus! {

/// `Browser.getVersion`.
pub fn version_command() -> (c: Command)
    ensures
        command_is(c, "Browser.getVersion"@, JsonV::Object(Seq::empty())),
{
    command("Browser.getVersion", crate::json::empty_object())
}

/// `Target.getTargets`.
pub fn get_targets_command() -> (c: Command)
    ensures
        command_is(c, "Target.getTargets"@, JsonV::Object(Seq::empty())),
{
    command("Target.getTargets", crate::json::empty_object())
}

/// `Browser.close`.
pub fn close_browser_command() -> (c: Command)
    ensures
        command_is(c, "Browser.close"@, JsonV::Object(Seq::empty())),
{
    command("Browser.close", crate::json::empty_object())
}

/// `Target.createTarget` for `url`, in a new window when asked.
pub fn create_target_command(url: &str, new_window: bool) -> (c: Command)
    ensures
        command_is(
            c,
            "Target.createTarget"@,
            JsonV::Object(
                if new_window {
                    seq![("url"@, JsonV::Str(url@)), ("newWindow"@, JsonV::Bool(true))]
                } else {
                    seq![("url"@, JsonV::Str(url@))]
                },
            ),
        ),
{
    let params = if new_window {
        object2("url", text_value(url), "newWindow", Json::Bool(true))
    } else {
        object1("url", text_value(url))
    };
    command("Target.createTarget", params)
}

/// `Target.attachToTarget` for `target_id`, with a flat session.
pub fn attach_command(target_id: &str) -> (c: Command)
    ensures
        command_is(
            c,
            "Target.attachToTarget"@,
            JsonV::Object(seq![("targetId"@, JsonV::Str(target_id@)), ("flatten"@, JsonV::Bool(true))]),
        ),
{
    command("Target.attachToTarget", object2("targetId", text_value(target_id), "flatten", Json::Bool(true)))
}

/// `Target.closeTarget` for `target_id`.
pub fn close_target_command(target_id: &str) -> (c: Command)
    ensures
        command_is(c, "Target.closeTarget"@, JsonV::Object(seq![("targetId"@, JsonV::Str(target_id@))])),
{
    command("Target.closeTarget", object1("targetId", text_value(target_id)))
}

/// `Browser.getWindowForTarget` for `target_id`.
pub fn window_for_target_command(target_id: &str) -> (c: Command)
    ensures
        command_is(
            c,
            "Browser.getWindowForTarget"@,
            JsonV::Object(seq![("targetId"@, JsonV::Str(target_id@))]),
        ),
{
    command("Browser.getWindowForTarget", object1("targetId", text_value(target_id)))
}

/// `Page.enable`.
pub fn page_enable_command() -> (c: Command)
    ensures
        command_is(c, "Page.enable"@, JsonV::Object(Seq::empty())),
{
    command("Page.enable", crate::json::empty_object())
}

/// `Page.navigate` to `url`.
pub fn navigate_command(url: &str) -> (c: Command)
    ensures
        command_is(c, "Page.navigate"@, JsonV::Object(seq![("url"@, JsonV::Str(url@))])),
{
    command("Page.navigate", object1("url", text_value(url)))
}

/// `Runtime.evaluate` of `expression`, returning the value itself and
/// awaiting a promise.
pub fn evaluate_command(expression: &str) -> (c: Command)
    ensures
        command_is(
            c,
            "Runtime.evaluate"@,
            JsonV::Object(
                seq![
                    ("expression"@, JsonV::Str(expression@)),
                    ("returnByValue"@, JsonV::Bool(true)),
                    ("awaitPromise"@, JsonV::Bool(true)),
                ],
            ),
        ),
{
    command(
        "Runtime.evaluate",
        object3(
            "expression",
            text_value(expression),
            "returnByValue",
            Json::Bool(true),
            "awaitPromise",
            Json::Bool(true),
        ),
    )
}

/// `Runtime.evaluate` of `document.readyState`, the probe of a page load.
pub fn ready_state_command() -> (c: Command)
    ensures
        command_is(
            c,
            "Runtime.evaluate"@,
            JsonV::Object(
                seq![
                    ("expression"@, JsonV::Str("document.readyState"@)),
                    ("returnByValue"@, JsonV::Bool(true)),
                ],
            ),
        ),
{
    command(
        "Runtime.evaluate",
        object2("expression", text_value("document.readyState"), "returnByValue", Json::Bool(true)),
    )
}

/// `Page.addScriptToEvaluateOnNewDocument` with `source`.
pub fn preload_script_command(source: &str) -> (c: Command)
    ensures
        command_is(
            c,
            "Page.addScriptToEvaluateOnNewDocument"@,
            JsonV::Object(seq![("source"@, JsonV::Str(source@))]),
        ),
{
    command("Page.addScriptToEvaluateOnNewDocument", object1("source", text_value(source)))
}

/// `Browser.setWindowBounds` of window `window_id` to the normal state.
pub fn normal_window_command(window_id: i64) -> (c: Command)
    ensures
        command_is(
            c,
            "Browser.setWindowBounds"@,
            JsonV::Object(
                seq![
                    ("windowId"@, JsonV::Number(number_from_i64(window_id))),
                    ("bounds"@, JsonV::Object(seq![("windowState"@, JsonV::Str("normal"@))])),
                ],
            ),
        ),
{
    let bounds = object1("windowState", text_value("normal"));
    command("Browser.setWindowBounds", object2("windowId", int_value(window_id), "bounds", bounds))
}

/// The bounds object of a window position and size.
pub open spec fn bounds_value(x: i32, y: i32, width: i32, height: i32) -> JsonV {
    JsonV::Object(
        seq![
            ("left"@, JsonV::Number(number_from_i64(x as i64))),
            ("top"@, JsonV::Number(number_from_i64(y as i64))),
            ("width"@, JsonV::Number(number_from_i64(width as i64))),
            ("height"@, JsonV::Number(number_from_i64(height as i64))),
        ],
    )
}

/// `Browser.setWindowBounds` of window `window_id` to this position and size.
pub fn set_bounds_command(window_id: i64, x: i32, y: i32, width: i32, height: i32) -> (c: Command)
    ensures
        command_is(
            c,
            "Browser.setWindowBounds"@,
            JsonV::Object(
                seq![
                    ("windowId"@, JsonV::Number(number_from_i64(window_id))),
                    ("bounds"@, bounds_value(x, y, width, height)),
                ],
            ),
        ),
{
    let ghost e = seq![
        ("left"@, JsonV::Number(number_from_i64(x as i64))),
        ("top"@, JsonV::Number(number_from_i64(y as i64))),
        ("width"@, JsonV::Number(number_from_i64(width as i64))),
        ("height"@, JsonV::Number(number_from_i64(height as i64))),
    ];
    let mut m: Vec<(String, Json)> = Vec::new();
    m.push(member("left", int_value(x as i64)));
    m.push(member("top", int_value(y as i64)));
    m.push(member("width", int_value(width as i64)));
    m.push(member("height", int_value(height as i64)));
    let bounds = object(m);
    assert(members_view(m@) =~= e);
    command("Browser.setWindowBounds", object2("windowId", int_value(window_id), "bounds", bounds))
}

/// The string member `key` of a reply, or `Other(missing)` where there is none.
pub fn required_str(reply: &Json, key: &str, missing: &str) -> (r: Result<String, BrowserError>)
    ensures
        match reply@.field(key@).as_str() {
            Some(s) => r matches Ok(v) && v@ == s,
            None => r matches Err(BrowserError::Other(m)) && m@ == missing@,
        },
{
    match reply.str_field(key) {
        Some(s) => Ok(s),
        None => Err(BrowserError::Other(String::from_str(missing))),
    }
}

/// The target id in the reply of `Target.createTarget`.
pub fn target_id_from(reply: &Json) -> (r: Result<String, BrowserError>)
    ensures
        match reply@.field("targetId"@).as_str() {
            Some(s) => r matches Ok(v) && v@ == s,
            None => r matches Err(BrowserError::Other(m)) && m@ == "no targetId"@,
        },
{
    required_str(reply, "targetId", "no targetId")
}

/// The session id in the reply of `Target.attachToTarget`.
pub fn session_id_from(reply: &Json) -> (r: Result<String, BrowserError>)
    ensures
        match reply@.field("sessionId"@).as_str() {
            Some(s) => r matches Ok(v) && v@ == s,
            None => r matches Err(BrowserError::Other(m)) && m@ == "no sessionId"@,
        },
{
    required_str(reply, "sessionId", "no sessionId")
}

/// The path that reports the WebSocket debugger URL of a starting Chrome.
pub fn version_path() -> (r: &'static str)
    ensures
        r@ == "/json/version"@,
{
    "/json/version"
}

/// The error of a Chrome that did not come up in time.
pub fn start_timeout() -> (e: BrowserError)
    ensures
        e matches BrowserError::Timeout(m) && m@ == "Chrome did not start within 5s"@,
{
    crate::types::timed_out("Chrome did not start within 5s")
}

/// The error of a page that did not finish loading in time.
pub fn load_timeout() -> (e: BrowserError)
    ensures
        e matches BrowserError::Timeout(m) && m@ == "page load timed out"@,
{
    crate::types::timed_out("page load timed out")
}

/// The window id in the reply of `Browser.getWindowForTarget`.
pub fn window_id_from(reply: &Json) -> (r: Result<i64, BrowserError>)
    ensures
        match reply@.field("windowId"@).as_i64() {
            Some(n) => r == Ok::<i64, BrowserError>(n),
            None => r matches Err(BrowserError::Other(m)) && m@ == "no windowId"@,
        },
{
    match reply.field("windowId").as_i64() {
        Some(n) => Ok(n),
        None => Err(BrowserError::Other(String::from_str("no windowId"))),
    }
}

/// A target as `Target.getTargets` describes it, with empty text for
/// members that are missing or not strings.
pub open spec fn cdp_target(t: JsonV) -> TargetInfoV {
    TargetInfoV {
        target_id: t.field("targetId"@).str_or(Seq::empty()),
        title: t.field("title"@).str_or(Seq::empty()),
        url: t.field("url"@).str_or(Seq::empty()),
        target_type: t.field("type"@).str_or(Seq::empty()),
    }
}

/// The targets in the reply of `Target.getTargets`.
pub fn targets_from(reply: &Json) -> (r: Result<Vec<TargetInfo>, BrowserError>)
    ensures
        match reply@.field("targetInfos"@).as_array() {
            Some(items) => r matches Ok(ts) && ts@.len() == items.len() && forall|i: int|
                0 <= i < items.len() ==> #[trigger] ts@[i]@ == cdp_target(items[i]),
            None => r matches Err(BrowserError::Other(m)) && m@ == "no targetInfos"@,
        },
{
    proof {
        reveal_strlit("");
    }
    let infos = reply.field("targetInfos");
    match infos.as_array() {
        Some(items) => {
            let mut out: Vec<TargetInfo> = Vec::new();
            let mut i: usize = 0;
            while i < items.len()
                invariant
                    i <= items.len(),
                    out@.len() == i,
                    forall|j: int| 0 <= j < i ==> #[trigger] out@[j]@ == cdp_target(items_view(items@)[j]),
                decreases items.len() - i,
            {
                let t = &items[i];
                proof {
                    reveal_strlit("");
                    assert(""@ =~= Seq::<char>::empty());
                    assert(items_view(items@)[i as int] == t@);
                }
                out.push(
                    TargetInfo {
                        target_id: t.str_field_or("targetId", ""),
                        title: t.str_field_or("title", ""),
                        url: t.str_field_or("url", ""),
                        target_type: t.str_field_or("type", ""),
                    },
                );
                assert(out@[i as int]@ == cdp_target(items_view(items@)[i as int]));
                i += 1;
            }
            Ok(out)
        },
        None => Err(BrowserError::Other(String::from_str("no targetInfos"))),
    }
}

/// The text of a thrown exception: its `exception.description`, else its
/// `text`, else `unknown error`.
pub open spec fn exception_text(details: JsonV) -> Seq<char> {
    match details.get("exception"@) {
        Some(ex) => match ex.get("description"@) {
            Some(d) => match d.as_str() {
                Some(s) => s,
                None => details.field("text"@).str_or("unknown error"@),
            },
            None => details.field("text"@).str_or("unknown error"@),
        },
        None => details.field("text"@).str_or("unknown error"@),
    }
}

/// The outcome of `Runtime.evaluate`: a JavaScript error where an exception
/// was thrown, else the value and type of the result (`null` and
/// `undefined` where missing).
pub open spec fn evaluate_outcome_is(r: Result<JsResult, BrowserError>, reply: JsonV) -> bool {
    match reply.get("exceptionDetails"@) {
        Some(details) => r matches Err(BrowserError::JavaScript(m)) && m@ == exception_text(details),
        None => r matches Ok(js) && js@ == (JsResultV {
            value: reply.field("result"@).field("value"@),
            result_type: reply.field("result"@).field("type"@).str_or("undefined"@),
        }),
    }
}

/// Decodes the reply of `Runtime.evaluate`.
pub fn evaluate_result(reply: &Json) -> (r: Result<JsResult, BrowserError>)
    ensures
        evaluate_outcome_is(r, reply@),
{
    match reply.get("exceptionDetails") {
        Some(details) => {
            let described = match details.get("exception") {
                Some(ex) => match ex.get("description") {
                    Some(d) => match d.as_str() {
                        Some(s) => Some(s.clone()),
                        None => None,
                    },
                    None => None,
                },
                None => None,
            };
            let text = match described {
                Some(s) => s,
                None => details.str_field_or("text", "unknown error"),
            };
            Err(BrowserError::JavaScript(text))
        },
        None => {
            let ro = reply.field("result");
            Ok(JsResult { value: ro.field("value"), result_type: ro.str_field_or("type", "undefined") })
        },
    }
}

/// The reply of the ready-state probe says the page has loaded.
pub open spec fn page_loaded(reply: JsonV) -> bool {
    reply.field("result"@).field("value"@).as_str() == Some("complete"@)
}

/// Whether the reply of the ready-state probe says the page has loaded.
pub fn load_complete(reply: &Json) -> (r: bool)
    ensures
        r == page_loaded(reply@),
{
    let complete = String::from_str("complete");
    match reply.field("result").field("value").as_str() {
        Some(s) => *s == complete,
        None => false,
    }
}

/// The step of a wait for a page load after a ready-state probe, which
/// either failed (`None`) or got `reply`: done once the page has loaded;
/// else another probe while fewer than [`POLL_ATTEMPTS`](crate::types::POLL_ATTEMPTS)
/// have been made; else the wait times out.
pub fn load_step(poller: &mut Poller, probe: Option<&Json>) -> (r: PollAction)
    ensures
        probe_step(
            old(poller).attempts(),
            final(poller).attempts(),
            probe matches Some(reply) && page_loaded(reply@),
            r,
        ),
{
    let ready = match probe {
        Some(reply) => load_complete(reply),
        None => false,
    };
    poller.after_probe(ready)
}

/// The WebSocket debugger URL in the reply of `GET /json/version`.
pub fn debugger_url(version: &Json) -> (r: Option<String>)
    ensures
        r matches Some(s) ==> version@.field("webSocketDebuggerUrl"@).as_str() == Some(s@),
        r is None ==> version@.field("webSocketDebuggerUrl"@).as_str() is None,
{
    version.str_field("webSocketDebuggerUrl")
}

/// The reply of a ready-state probe that found the document in `state`:
/// `{"result": {"type": "string", "value": state}}`.
pub open spec fn ready_state_reply(state: Seq<char>) -> JsonV {
    JsonV::Object(
        seq![
            (
                "result"@,
                JsonV::Object(seq![("type"@, JsonV::Str("string"@)), ("value"@, JsonV::Str(state))]),
            ),
        ],
    )
}

/// A page counts as loaded exactly when its document's ready state is
/// `complete`: a probe that finds any other state (`loading`,
/// `interactive`, ...) never ends the wait for the load as done.
pub proof fn law_loaded_only_when_complete(state: Seq<char>, before: nat, after: nat, r: PollAction)
    ensures
        page_loaded(ready_state_reply(state)) <==> state == "complete"@,
        state != "complete"@ && probe_step(before, after, page_loaded(ready_state_reply(state)), r) ==> !(r is Done),
{
    reveal_strlit("result");
    reveal_strlit("type");
    reveal_strlit("value");
    assert("value"@ != "type"@) by {
        assert("value"@[0] != "type"@[0]);
    }
    let inner = JsonV::Object(seq![("type"@, JsonV::Str("string"@)), ("value"@, JsonV::Str(state))]);
    let outer = ready_state_reply(state);
    if let JsonV::Object(m) = outer {
        assert(member_lookup(m, "result"@) == Some(inner));
    }
    if let JsonV::Object(m) = inner {
        let m1 = m.drop_first();
        assert(member_lookup(m, "value"@) == member_lookup(m1, "value"@));
        assert(member_lookup(m1, "value"@) == Some(JsonV::Str(state)));
    }
    assert(outer.field("result"@).field("value"@) == JsonV::Str(state));
}

} // verus!
