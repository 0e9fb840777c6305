//! Firefox (geckodriver + WebDriver BiDi): the session request, the BiDi
//! commands behind each operation, and the decoding of their replies.

use vstd::prelude::*;
use crate::bidi_value::{bidi_to_json, bidi_value};
use crate::error::BrowserError;
use crate::json::{Json, JsonNumber, JsonV, items_view, member, members_view, object, object1, object2, object3, text_value};
use crate::router::{Command, command, command_is};
use crate::text::{concat, concat3};
use crate::types::{JsResult, JsResultV, TargetInfo, TargetInfoV};

verus! {

/// Preferences that keep Firefox from prompting: saved logins, telemetry,
/// data reporting, default-browser checks, the post-upgrade home page.
pub open spec fn firefox_prefs() -> JsonV {
    JsonV::Object(
        seq![
            ("signon.rememberSignons"@, JsonV::Bool(false)),
            ("toolkit.telemetry.reportingpolicy.firstRun"@, JsonV::Bool(false)),
            ("datareporting.policy.dataSubmissionEnabled"@, JsonV::Bool(false)),
            ("browser.shell.checkDefaultBrowser"@, JsonV::Bool(false)),
            ("browser.startup.homepage_override.mstone"@, JsonV::Str("ignore"@)),
        ],
    )
}

/// The `moz:firefoxOptions`: the preferences, and `-headless` when asked.
pub open spec fn firefox_options(headless: bool) -> JsonV {
    if headless {
        JsonV::Object(
            seq![("prefs"@, firefox_prefs()), ("args"@, JsonV::Array(seq![JsonV::Str("-headless"@)]))],
        )
    } else {
        JsonV::Object(seq![("prefs"@, firefox_prefs())])
    }
}

/// The body of `POST /session`: Firefox with BiDi enabled.
pub open spec fn firefox_capabilities(headless: bool) -> JsonV {
    JsonV::Object(
        seq![
            (
                "capabilities"@,
                JsonV::Object(
                    seq![
                        (
                            "alwaysMatch"@,
                            JsonV::Object(
                                seq![
                                    ("browserName"@, JsonV::Str("firefox"@)),
                                    ("webSocketUrl"@, JsonV::Bool(true)),
                                    ("moz:firefoxOptions"@, firefox_options(headless)),
                                ],
                            ),
                        ),
                    ],
                ),
            ),
        ],
    )
}

fn prefs() -> (r: Json)
    ensures
        r@ == firefox_prefs(),
{
    let ghost e = match firefox_prefs() {
        JsonV::Object(m) => m,
        _ => Seq::empty(),
    };
    let mut m: Vec<(String, Json)> = Vec::new();
    m.push(member("signon.rememberSignons", Json::Bool(false)));
    m.push(member("toolkit.telemetry.reportingpolicy.firstRun", Json::Bool(false)));
    m.push(member("datareporting.policy.dataSubmissionEnabled", Json::Bool(false)));
    m.push(member("browser.shell.checkDefaultBrowser", Json::Bool(false)));
    m.push(member("browser.startup.homepage_override.mstone", text_value("ignore")));
    let r = object(m);
    assert(members_view(m@) =~= e);
    r
}

/// The body of the session request that launches Firefox.
pub fn capabilities(headless: bool) -> (r: Json)
    ensures
        r@ == firefox_capabilities(headless),
{
    let options = if headless {
        let mut args: Vec<Json> = Vec::new();
        args.push(text_value("-headless"));
        let arr = Json::Array(args);
        proof {
            crate::json::lemma_array_view(args);
            assert(items_view(args@) =~= seq![JsonV::Str("-headless"@)]);
        }
        object2("prefs", prefs(), "args", arr)
    } else {
        object1("prefs", prefs())
    };
    let always = object3("browserName", text_value("firefox"), "webSocketUrl", Json::Bool(true), "moz:firefoxOptions", options);
    object1("capabilities", object1("alwaysMatch", always))
}

/// The error that geckodriver reported instead of creating a session: the
/// `value.error` member and the `value.message` text (`unknown error` where
/// it has none).
pub fn session_error(reply: &Json) -> (r: Option<(Json, String)>)
    ensures
        match reply@.field("value"@).get("error"@) {
            Some(err) => r matches Some((e, m)) && e@ == err && m@ == reply@.field("value"@).field(
                "message"@,
            ).str_or("unknown error"@),
            None => r is None,
        },
{
    let value = reply.field("value");
    match value.get("error") {
        Some(err) => Some((err.duplicate(), value.str_field_or("message", "unknown error"))),
        None => None,
    }
}

/// The launch failure for a session error, given the JSON text of the error
/// member and the message.
pub fn session_launch_error(error_text: &str, message: &str) -> (e: BrowserError)
    ensures
        e matches BrowserError::LaunchFailed(m) && m@ == "geckodriver session error: "@ + error_text@ + ": "@
            + message@,
{
    let mut m = concat3("geckodriver session error: ", error_text, ": ");
    m.append(message);
    BrowserError::LaunchFailed(m)
}

/// The outcome of the new-session request that launches Firefox. Where
/// geckodriver reports an error (a `value.error` member), the launch fails
/// with that member as `render` writes it and the error's message
/// (`unknown error` where it has none). Else the session id and the BiDi
/// WebSocket URL; a missing session id is a connection failure that shows
/// the reply as `render_pretty` writes it, a missing URL one that says so.
/// The renderings are asked for only where they are shown.
pub fn session_from(
    reply: &Json,
    render: impl Fn(&Json) -> String,
    render_pretty: impl Fn(&Json) -> String,
) -> (r: Result<(String, String), BrowserError>)
    requires
        forall|j: &Json| call_requires(render, (j,)),
        forall|j: &Json| call_requires(render_pretty, (j,)),
    ensures
        match reply@.field("value"@).get("error"@) {
            Some(err) => r matches Err(BrowserError::LaunchFailed(m)) && exists|e: Json, t: String|
                e@ == err && #[trigger] call_ensures(render, (&e,), t) && m@ == "geckodriver session error: "@
                    + t@ + ": "@ + reply@.field("value"@).field("message"@).str_or("unknown error"@),
            None => match reply@.field("value"@).field("sessionId"@).as_str() {
                None => r matches Err(BrowserError::ConnectionFailed(m)) && exists|t: String|
                    #[trigger] call_ensures(render_pretty, (reply,), t) && m@ == "no sessionId in response: "@ + t@,
                Some(sid) => match reply@.field("value"@).field("capabilities"@).field("webSocketUrl"@).as_str() {
                    None => r matches Err(BrowserError::ConnectionFailed(m)) && m@ == "no webSocketUrl in capabilities"@,
                    Some(url) => r matches Ok((s, u)) && s@ == sid && u@ == url,
                },
            },
        },
{
    match session_error(reply) {
        Some((err, message)) => {
            let t = render(&err);
            Err(session_launch_error(t.as_str(), message.as_str()))
        },
        None => {
            let value = reply.field("value");
            match value.str_field("sessionId") {
                None => {
                    let t = render_pretty(reply);
                    Err(BrowserError::ConnectionFailed(concat("no sessionId in response: ", t.as_str())))
                },
                Some(sid) => match value.field("capabilities").str_field("webSocketUrl") {
                    Some(url) => Ok((sid, url)),
                    None => Err(BrowserError::ConnectionFailed(String::from_str("no webSocketUrl in capabilities"))),
                },
            }
        },
    }
}

/// `browsingContext.getTree`.
pub fn get_tree_command() -> (c: Command)
    ensures
        command_is(c, "browsingContext.getTree"@, JsonV::Object(Seq::empty())),
{
    command("browsingContext.getTree", crate::json::empty_object())
}

/// A browsing context as `browsingContext.getTree` describes it: no title.
pub open spec fn bidi_target(c: JsonV) -> TargetInfoV {
    TargetInfoV {
        target_id: c.field("context"@).str_or(Seq::empty()),
        title: Seq::empty(),
        url: c.field("url"@).str_or(Seq::empty()),
        target_type: c.field("type"@).str_or(Seq::empty()),
    }
}

/// The contexts in the reply of `browsingContext.getTree` (none where the
/// reply lists none).
pub fn targets_from(reply: &Json) -> (ts: Vec<TargetInfo>)
    ensures
        match reply@.field("contexts"@).as_array() {
            Some(items) => ts@.len() == items.len() && forall|i: int|
                0 <= i < items.len() ==> #[trigger] ts@[i]@ == bidi_target(items[i]),
            None => ts@.len() == 0,
        },
{
    let contexts = reply.field("contexts");
    let mut out: Vec<TargetInfo> = Vec::new();
    match contexts.as_array() {
        Some(items) => {
            let mut i: usize = 0;
            while i < items.len()
                invariant
                    i <= items.len(),
                    out@.len() == i,
                    forall|j: int| 0 <= j < i ==> #[trigger] out@[j]@ == bidi_target(items_view(items@)[j]),
                decreases items.len() - i,
            {
                let c = &items[i];
                proof {
                    reveal_strlit("");
                    assert(""@ =~= Seq::<char>::empty());
                    assert(items_view(items@)[i as int] == c@);
                }
                out.push(
                    TargetInfo {
                        target_id: c.str_field_or("context", ""),
                        title: String::new(),
                        url: c.str_field_or("url", ""),
                        target_type: c.str_field_or("type", ""),
                    },
                );
                assert(out@[i as int]@ == bidi_target(items_view(items@)[i as int]));
                i += 1;
            }
        },
        None => {},
    }
    out
}

/// `browsingContext.create` of a context of type `context_type` (`tab` or `window`).
pub fn create_context_command(context_type: &str) -> (c: Command)
    ensures
        command_is(c, "browsingContext.create"@, JsonV::Object(seq![("type"@, JsonV::Str(context_type@))])),
{
    command("browsingContext.create", object1("type", text_value(context_type)))
}

/// The context id in the reply of `browsingContext.create`.
pub fn context_from(reply: &Json) -> (r: Result<String, BrowserError>)
    ensures
        match reply@.field("context"@).as_str() {
            Some(s) => r matches Ok(v) && v@ == s,
            None => r matches Err(BrowserError::Other(m)) && m@ == "no context in response"@,
        },
{
    crate::chrome::required_str(reply, "context", "no context in response")
}

/// `browsingContext.navigate` of `context` to `url`, waiting for the load to complete.
pub fn navigate_command(context: &str, url: &str) -> (c: Command)
    ensures
        command_is(
            c,
            "browsingContext.navigate"@,
            JsonV::Object(
                seq![
                    ("context"@, JsonV::Str(context@)),
                    ("url"@, JsonV::Str(url@)),
                    ("wait"@, JsonV::Str("complete"@)),
                ],
            ),
        ),
{
    command(
        "browsingContext.navigate",
        object3("context", text_value(context), "url", text_value(url), "wait", text_value("complete")),
    )
}

/// The parameters of `script.evaluate` of `expression` in `context`.
pub open spec fn evaluate_params(expression: Seq<char>, context: Seq<char>) -> JsonV {
    JsonV::Object(
        seq![
            ("expression"@, JsonV::Str(expression)),
            ("target"@, JsonV::Object(seq![("context"@, JsonV::Str(context))])),
            ("awaitPromise"@, JsonV::Bool(true)),
            ("resultOwnership"@, JsonV::Str("none"@)),
            (
                "serializationOptions"@,
                JsonV::Object(
                    seq![
                        ("maxDomDepth"@, JsonV::Number(JsonNumber::PosInt(0))),
                        ("maxObjectDepth"@, JsonV::Number(JsonNumber::PosInt(10))),
                    ],
                ),
            ),
        ],
    )
}

/// `script.evaluate` of `expression` in `context`, awaiting a promise.
pub fn evaluate_command(expression: &str, context: &str) -> (c: Command)
    ensures
        command_is(c, "script.evaluate"@, evaluate_params(expression@, context@)),
{
    let ghost e = match evaluate_params(expression@, context@) {
        JsonV::Object(m) => m,
        _ => Seq::empty(),
    };
    let mut m: Vec<(String, Json)> = Vec::new();
    m.push(member("expression", text_value(expression)));
    m.push(member("target", object1("context", text_value(context))));
    m.push(member("awaitPromise", Json::Bool(true)));
    m.push(member("resultOwnership", text_value("none")));
    m.push(
        member(
            "serializationOptions",
            object2(
                "maxDomDepth",
                Json::Number(JsonNumber::PosInt(0)),
                "maxObjectDepth",
                Json::Number(JsonNumber::PosInt(10)),
            ),
        ),
    );
    let params = object(m);
    assert(members_view(m@) =~= e);
    command("script.evaluate", params)
}

/// The text of a thrown exception: its `text`, else its `exception.value`,
/// else `unknown error`.
pub open spec fn exception_text(details: JsonV) -> Seq<char> {
    match details.field("text"@).as_str() {
        Some(s) => s,
        None => details.field("exception"@).field("value"@).str_or("unknown error"@),
    }
}

/// The outcome of `script.evaluate`: a JavaScript error where an exception
/// was thrown, else the converted result value and its type (`undefined`
/// where missing).
pub open spec fn evaluate_outcome_is(r: Result<JsResult, BrowserError>, reply: JsonV) -> bool {
    match reply.get("exceptionDetails"@) {
        Some(details) => r matches Err(BrowserError::JavaScript(m)) && m@ == exception_text(details),
        None => r matches Ok(js) && js@ == (JsResultV {
            value: bidi_value(reply.field("result"@)),
            result_type: reply.field("result"@).field("type"@).str_or("undefined"@),
        }),
    }
}

/// Decodes the reply of `script.evaluate`.
pub fn evaluate_result(reply: &Json) -> (r: Result<JsResult, BrowserError>)
    ensures
        evaluate_outcome_is(r, reply@),
{
    match reply.get("exceptionDetails") {
        Some(details) => {
            let text = match details.str_field("text") {
                Some(s) => s,
                None => details.field("exception").str_field_or("value", "unknown error"),
            };
            Err(BrowserError::JavaScript(text))
        },
        None => {
            let remote = reply.field("result");
            let result_type = remote.str_field_or("type", "undefined");
            Ok(JsResult { value: bidi_to_json(&remote), result_type })
        },
    }
}

/// The function declaration that runs `source` as a preload script.
pub fn preload_function(source: &str) -> (r: String)
    ensures
        r@ == "() => { "@ + source@ + " }"@,
{
    concat3("() => { ", source, " }")
}

/// `script.addPreloadScript` running `source` before page scripts.
pub fn preload_script_command(source: &str) -> (c: Command)
    ensures
        command_is(
            c,
            "script.addPreloadScript"@,
            JsonV::Object(seq![("functionDeclaration"@, JsonV::Str("() => { "@ + source@ + " }"@))]),
        ),
{
    let f = preload_function(source);
    command("script.addPreloadScript", object1("functionDeclaration", Json::Str(f)))
}

/// `browsingContext.close` of `context`.
pub fn close_context_command(context: &str) -> (c: Command)
    ensures
        command_is(c, "browsingContext.close"@, JsonV::Object(seq![("context"@, JsonV::Str(context@))])),
{
    command("browsingContext.close", object1("context", text_value(context)))
}

} // verus!
