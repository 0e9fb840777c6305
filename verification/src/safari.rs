//! Safari (safaridriver, WebDriver classic): the session request, the REST
//! bodies behind each operation, and the decoding of their replies.

use vstd::prelude::*;
use crate::error::BrowserError;
use crate::json::{Json, JsonV, items_view, object1, text_value, lemma_array_view};
use crate::launcher::{safaridriver_args, texts};
use crate::text::{concat3, contains_char, decimal};
use crate::types::{JsResult, JsResultV, TargetInfo, TargetInfoV};

verus! {

/// The body of `POST /session` for Safari: any Safari.
pub open spec fn safari_capabilities() -> JsonV {
    JsonV::Object(
        seq![
            (
                "capabilities"@,
                JsonV::Object(seq![("alwaysMatch"@, JsonV::Object(seq![("browserName"@, JsonV::Str("safari"@))]))]),
            ),
        ],
    )
}

/// The body of `POST /session` for Safari.
pub fn capabilities() -> (r: Json)
    ensures
        r@ == safari_capabilities(),
{
    object1("capabilities", object1("alwaysMatch", object1("browserName", text_value("safari"))))
}

/// What launching Safari asks for, with or without `headless`: safaridriver's
/// arguments for `port`, then the path and body of the session request.
/// Safari has no headless mode, so nothing here depends on `headless`.
pub open spec fn launch_requests(headless: bool, port: u16) -> (Seq<Seq<char>>, Seq<char>, JsonV) {
    (seq!["--port"@, decimal(port as nat)], "/session"@, safari_capabilities())
}

/// The launch of Safari: safaridriver's arguments and the session request.
pub fn launch_plan(headless: bool, port: u16) -> (r: (Vec<String>, &'static str, Json))
    ensures
        (texts(r.0@), r.1@, r.2@) == launch_requests(headless, port),
{
    (safaridriver_args(port), crate::webdriver::new_session_path(), capabilities())
}

/// Headless has no effect on Safari: a launch asks for the same driver
/// arguments and the same session request either way.
pub proof fn law_headless_ignored(port: u16)
    ensures
        launch_requests(true, port) == launch_requests(false, port),
{
}

/// The session id in the reply of `POST /session`.
pub fn session_id_from(reply: &Json) -> (r: Result<String, BrowserError>)
    ensures
        match reply@.field("value"@).field("sessionId"@).as_str() {
            Some(s) => r matches Ok(v) && v@ == s,
            None => r matches Err(BrowserError::ConnectionFailed(m)) && m@ == "no sessionId"@,
        },
{
    match reply.field("value").str_field("sessionId") {
        Some(s) => Ok(s),
        None => Err(BrowserError::ConnectionFailed(String::from_str("no sessionId"))),
    }
}

/// The window handles listed in a reply's `value` (none where it lists none).
pub open spec fn handles_of(reply: JsonV) -> Seq<JsonV> {
    match reply.field("value"@).as_array() {
        Some(items) => items,
        None => Seq::empty(),
    }
}

/// The first window handle in the reply of `GET /session/{id}/window/handles`,
/// or the empty text.
pub fn first_handle(reply: &Json) -> (r: String)
    ensures
        r@ == if handles_of(reply@).len() > 0 {
            handles_of(reply@)[0].str_or(Seq::empty())
        } else {
            Seq::empty()
        },
{
    let value = reply.field("value");
    match value.as_array() {
        Some(items) => if items.len() > 0 {
            proof {
                reveal_strlit("");
                assert(""@ =~= Seq::<char>::empty());
                assert(items_view(items@)[0] == items@[0]@);
            }
            match items[0].as_str() {
                Some(s) => s.clone(),
                None => String::new(),
            }
        } else {
            String::new()
        },
        None => String::new(),
    }
}

/// A window as Safari lists it: its handle, no title or URL, type `window`.
pub open spec fn safari_target(handle: JsonV) -> TargetInfoV {
    TargetInfoV {
        target_id: handle.str_or(Seq::empty()),
        title: Seq::empty(),
        url: Seq::empty(),
        target_type: "window"@,
    }
}

/// The windows in the reply of `GET /session/{id}/window/handles`.
pub fn targets_from_handles(reply: &Json) -> (ts: Vec<TargetInfo>)
    ensures
        ts@.len() == handles_of(reply@).len(),
        forall|i: int| 0 <= i < ts@.len() ==> #[trigger] ts@[i]@ == safari_target(handles_of(reply@)[i]),
{
    let value = reply.field("value");
    let mut out: Vec<TargetInfo> = Vec::new();
    match value.as_array() {
        Some(items) => {
            let mut i: usize = 0;
            while i < items.len()
                invariant
                    i <= items.len(),
                    out@.len() == i,
                    forall|j: int| 0 <= j < i ==> #[trigger] out@[j]@ == safari_target(items_view(items@)[j]),
                decreases items.len() - i,
            {
                let h = &items[i];
                proof {
                    reveal_strlit("");
                    assert(""@ =~= Seq::<char>::empty());
                    assert(items_view(items@)[i as int] == h@);
                }
                let id = match h.as_str() {
                    Some(s) => s.clone(),
                    None => String::new(),
                };
                out.push(
                    TargetInfo {
                        target_id: id,
                        title: String::new(),
                        url: String::new(),
                        target_type: String::from_str("window"),
                    },
                );
                assert(out@[i as int]@ == safari_target(items_view(items@)[i as int]));
                i += 1;
            }
        },
        None => {},
    }
    out
}

/// The body of `POST /session/{id}/window/new` for a window of type `window_type`.
pub fn new_window_body(window_type: &str) -> (r: Json)
    ensures
        r@ == JsonV::Object(seq![("type"@, JsonV::Str(window_type@))]),
{
    object1("type", text_value(window_type))
}

/// The handle in the reply of `POST /session/{id}/window/new`.
pub fn handle_from(reply: &Json) -> (r: Result<String, BrowserError>)
    ensures
        match reply@.field("value"@).field("handle"@).as_str() {
            Some(s) => r matches Ok(v) && v@ == s,
            None => r matches Err(BrowserError::Other(m)) && m@ == "no handle in response"@,
        },
{
    crate::chrome::required_str(&reply.field("value"), "handle", "no handle in response")
}

/// The body of `POST /session/{id}/window`: switch to window `handle`.
pub fn switch_body(handle: &str) -> (r: Json)
    ensures
        r@ == JsonV::Object(seq![("handle"@, JsonV::Str(handle@))]),
{
    object1("handle", text_value(handle))
}

/// The body of `POST /session/{id}/url`: navigate to `url`.
pub fn navigate_body(url: &str) -> (r: Json)
    ensures
        r@ == JsonV::Object(seq![("url"@, JsonV::Str(url@))]),
{
    object1("url", text_value(url))
}

/// The script that WebDriver runs for `expression`: code with a `;` runs
/// in a function whose value is returned; anything else is returned as is.
pub open spec fn wrapped_script(expression: Seq<char>) -> Seq<char> {
    if expression.contains(';') {
        "return (function(){ "@ + expression + " })()"@
    } else {
        "return ("@ + expression + ")"@
    }
}

/// Wraps `expression` in the `return` that `execute/sync` needs.
pub fn wrap_script(expression: &str) -> (r: String)
    ensures
        r@ == wrapped_script(expression@),
{
    if contains_char(expression, ';') {
        concat3("return (function(){ ", expression, " })()")
    } else {
        concat3("return (", expression, ")")
    }
}

/// The body of `POST /session/{id}/execute/sync`: `script` without arguments.
pub fn execute_body(script: String) -> (r: Json)
    ensures
        r@ == JsonV::Object(seq![("script"@, JsonV::Str(script@)), ("args"@, JsonV::Array(Seq::empty()))]),
{
    let args: Vec<Json> = Vec::new();
    proof {
        lemma_array_view(args);
        assert(items_view(args@) =~= Seq::<JsonV>::empty());
    }
    crate::json::object2("script", Json::Str(script), "args", Json::Array(args))
}

/// The JavaScript type that a WebDriver result value reports.
pub open spec fn webdriver_type(v: JsonV) -> Seq<char> {
    match v {
        JsonV::Bool(_) => "boolean"@,
        JsonV::Number(_) => "number"@,
        JsonV::Str(_) => "string"@,
        _ => "object"@,
    }
}

/// The outcome of `execute/sync`: a driver error where the reply reports
/// one, that is, where its `value` has an `error` member and its HTTP
/// status is not a success (200 to 299) — a JavaScript error where
/// `value.error` is `javascript error`, another error otherwise, each with
/// `value.message` (`unknown error` where it has none). Anything else is
/// the script's result: its `value`, whatever it holds (an object of the
/// script's with an `error` key among them), with its type.
pub open spec fn execute_outcome_is(r: Result<JsResult, BrowserError>, reply: JsonV, status: u16) -> bool {
    let value = reply.field("value"@);
    let message = value.field("message"@).str_or("unknown error"@);
    match value.get("error"@) {
        Some(err) if !(200 <= status <= 299) => if err.as_str() == Some("javascript error"@) {
            r matches Err(BrowserError::JavaScript(m)) && m@ == message
        } else {
            r matches Err(BrowserError::Other(m)) && m@ == message
        },
        _ => r matches Ok(js) && js@ == (JsResultV { value, result_type: webdriver_type(value) }),
    }
}

/// Decodes the reply of `POST /session/{id}/execute/sync` that came with
/// HTTP status `status`.
pub fn execute_result(reply: &Json, status: u16) -> (r: Result<JsResult, BrowserError>)
    ensures
        execute_outcome_is(r, reply@, status),
{
    let value = reply.field("value");
    let driver_error = match value.get("error") {
        Some(err) => if crate::transport::is_success(status) {
            None
        } else {
            let js_error = String::from_str("javascript error");
            Some(
                match err.as_str() {
                    Some(s) => *s == js_error,
                    None => false,
                },
            )
        },
        None => None,
    };
    match driver_error {
        Some(is_js) => {
            let message = value.str_field_or("message", "unknown error");
            if is_js {
                Err(BrowserError::JavaScript(message))
            } else {
                Err(BrowserError::Other(message))
            }
        },
        None => {
            let result_type = match &value {
                Json::Bool(_) => String::from_str("boolean"),
                Json::Number(_) => String::from_str("number"),
                Json::Str(_) => String::from_str("string"),
                _ => String::from_str("object"),
            };
            Ok(JsResult { value, result_type })
        },
    }
}

/// The text of a reply's `value`, or the empty text (what `url()` and
/// `title()` report).
pub fn value_text(reply: &Json) -> (r: String)
    ensures
        r@ == reply@.field("value"@).str_or(Seq::empty()),
{
    proof {
        reveal_strlit("");
        assert(""@ =~= Seq::<char>::empty());
    }
    reply.field("value").as_str_or("")
}

/// The error of a preload script, which WebDriver classic cannot register.
pub fn preload_unsupported() -> (e: BrowserError)
    ensures
        e matches BrowserError::Other(m) && m@
            == "inject_preload_script not supported on Safari (no WebDriver equivalent)"@,
{
    BrowserError::Other(String::from_str("inject_preload_script not supported on Safari (no WebDriver equivalent)"))
}

/// Only code with a `;` goes into a function: an expression without one is
/// returned as it is, `return (expression)`, so its value comes back; code
/// with one runs as the body of a function whose value is returned.
pub proof fn law_script_wrapping(expression: Seq<char>)
    ensures
        !expression.contains(';') ==> wrapped_script(expression) == "return ("@ + expression + ")"@,
        expression.contains(';') ==> wrapped_script(expression) == "return (function(){ "@ + expression + " })()"@,
{
}

} // verus!
