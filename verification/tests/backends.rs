use chromerunner::chrome;
use chromerunner::error::BrowserError;
use chromerunner::firefox;
use chromerunner::json::{Json, JsonNumber};
use chromerunner::safari;
use chromerunner::types::{text_of, JsResult};
use chromerunner::webdriver;

fn s(t: &str) -> Json {
    Json::Str(t.to_string())
}

fn n(v: u64) -> Json {
    Json::Number(JsonNumber::PosInt(v))
}

fn obj(members: Vec<(&str, Json)>) -> Json {
    Json::Object(members.into_iter().map(|(k, v)| (k.to_string(), v)).collect())
}

#[test]
fn chrome_create_target_params() {
    let tab = chrome::create_target_command("https://example.com", false);
    assert_eq!(tab.method, "Target.createTarget");
    assert_eq!(tab.params, obj(vec![("url", s("https://example.com"))]));
    let win = chrome::create_target_command("about:blank", true);
    assert_eq!(win.params, obj(vec![("url", s("about:blank")), ("newWindow", Json::Bool(true))]));
    let attach = chrome::attach_command("T1");
    assert_eq!(attach.params, obj(vec![("targetId", s("T1")), ("flatten", Json::Bool(true))]));
}

#[test]
fn chrome_required_ids() {
    assert_eq!(chrome::required_str(&obj(vec![("targetId", s("T"))]), "targetId", "no targetId").unwrap(), "T");
    match chrome::required_str(&obj(vec![("targetId", n(1))]), "targetId", "no targetId") {
        Err(BrowserError::Other(m)) => assert_eq!(m, "no targetId"),
        _ => panic!(),
    }
}

#[test]
fn chrome_evaluate_value_and_type() {
    let reply = obj(vec![("result", obj(vec![("type", s("number")), ("value", n(6))]))]);
    let r = chrome::evaluate_result(&reply).unwrap();
    assert_eq!(r.value, n(6));
    assert_eq!(r.result_type, "number");
    let undefined = chrome::evaluate_result(&obj(vec![("result", obj(vec![]))])).unwrap();
    assert_eq!(undefined.value, Json::Null);
    assert_eq!(undefined.result_type, "undefined");
}

#[test]
fn chrome_evaluate_exception_text() {
    let described = obj(vec![(
        "exceptionDetails",
        obj(vec![("text", s("Uncaught")), ("exception", obj(vec![("description", s("Error: boom"))]))]),
    )]);
    match chrome::evaluate_result(&described) {
        Err(BrowserError::JavaScript(m)) => assert_eq!(m, "Error: boom"),
        _ => panic!(),
    }
    let texted = obj(vec![("exceptionDetails", obj(vec![("text", s("Uncaught"))]))]);
    match chrome::evaluate_result(&texted) {
        Err(BrowserError::JavaScript(m)) => assert_eq!(m, "Uncaught"),
        _ => panic!(),
    }
    match chrome::evaluate_result(&obj(vec![("exceptionDetails", obj(vec![]))])) {
        Err(BrowserError::JavaScript(m)) => assert_eq!(m, "unknown error"),
        _ => panic!(),
    }
}

#[test]
fn chrome_targets() {
    let reply = obj(vec![(
        "targetInfos",
        Json::Array(vec![
            obj(vec![("targetId", s("A")), ("title", s("t")), ("url", s("about:blank")), ("type", s("page"))]),
            obj(vec![("targetId", s("B"))]),
        ]),
    )]);
    let ts = chrome::targets_from(&reply).unwrap();
    assert_eq!(ts.len(), 2);
    assert_eq!((ts[0].target_id.as_str(), ts[0].title.as_str(), ts[0].url.as_str(), ts[0].target_type.as_str()), ("A", "t", "about:blank", "page"));
    assert_eq!((ts[1].target_id.as_str(), ts[1].title.as_str(), ts[1].target_type.as_str()), ("B", "", ""));
    match chrome::targets_from(&obj(vec![])) {
        Err(BrowserError::Other(m)) => assert_eq!(m, "no targetInfos"),
        _ => panic!(),
    }
}

#[test]
fn chrome_load_probe_and_window() {
    assert!(chrome::load_complete(&obj(vec![("result", obj(vec![("value", s("complete"))]))])));
    assert!(!chrome::load_complete(&obj(vec![("result", obj(vec![("value", s("loading"))]))])));
    assert_eq!(chrome::window_id_from(&obj(vec![("windowId", n(12))])).unwrap(), 12);
    assert!(matches!(chrome::window_id_from(&obj(vec![])), Err(BrowserError::Other(m)) if m == "no windowId"));
    let b = chrome::set_bounds_command(12, -5, 20, 800, 600);
    assert_eq!(
        b.params,
        obj(vec![
            ("windowId", n(12)),
            ("bounds", obj(vec![("left", Json::Number(JsonNumber::NegInt(-5))), ("top", n(20)), ("width", n(800)), ("height", n(600))])),
        ])
    );
    let normal = chrome::normal_window_command(3);
    assert_eq!(normal.params, obj(vec![("windowId", n(3)), ("bounds", obj(vec![("windowState", s("normal"))]))]));
    assert_eq!(chrome::debugger_url(&obj(vec![("webSocketDebuggerUrl", s("ws://x"))])), Some("ws://x".to_string()));
}

#[test]
fn text_of_string_results() {
    let r = JsResult { value: s("about:blank"), result_type: "string".to_string() };
    assert_eq!(text_of(&r), "about:blank");
    let other = JsResult { value: n(1), result_type: "number".to_string() };
    assert_eq!(text_of(&other), "");
}

#[test]
fn firefox_capabilities_headless() {
    let caps = firefox::capabilities(true);
    let options = caps.field("capabilities").field("alwaysMatch").field("moz:firefoxOptions");
    assert_eq!(options.field("args"), Json::Array(vec![s("-headless")]));
    assert_eq!(options.field("prefs").field("browser.startup.homepage_override.mstone"), s("ignore"));
    assert_eq!(caps.field("capabilities").field("alwaysMatch").field("webSocketUrl"), Json::Bool(true));
    assert_eq!(firefox::capabilities(false).field("capabilities").field("alwaysMatch").field("moz:firefoxOptions").get("args"), None);
}

fn render(j: &Json) -> String {
    match j {
        Json::Str(t) => format!("\"{}\"", t),
        Json::Object(m) if m.is_empty() => "{}".to_string(),
        _ => "<json>".to_string(),
    }
}

#[test]
fn firefox_session_reply() {
    let good = obj(vec![(
        "value",
        obj(vec![("sessionId", s("S")), ("capabilities", obj(vec![("webSocketUrl", s("ws://127.0.0.1:4444/session/S"))]))]),
    )]);
    assert!(firefox::session_error(&good).is_none());
    let (sid, url) = firefox::session_from(&good, render, render).unwrap();
    assert_eq!(sid, "S");
    assert_eq!(url, "ws://127.0.0.1:4444/session/S");
    let bad = obj(vec![("value", obj(vec![("error", s("session not created"))]))]);
    let (err, message) = firefox::session_error(&bad).unwrap();
    assert_eq!(err, s("session not created"));
    assert_eq!(message, "unknown error");
    match firefox::session_launch_error("\"session not created\"", "unknown error") {
        BrowserError::LaunchFailed(m) => assert_eq!(m, "geckodriver session error: \"session not created\": unknown error"),
        _ => panic!(),
    }
    match firefox::session_from(&obj(vec![]), render, render) {
        Err(BrowserError::ConnectionFailed(m)) => assert_eq!(m, "no sessionId in response: {}"),
        _ => panic!(),
    }
    match firefox::session_from(&obj(vec![("value", obj(vec![("sessionId", s("S"))]))]), render, render) {
        Err(BrowserError::ConnectionFailed(m)) => assert_eq!(m, "no webSocketUrl in capabilities"),
        _ => panic!(),
    }
}

#[test]
fn firefox_session_outcome() {
    let bad = obj(vec![(
        "value",
        obj(vec![("error", s("session not created")), ("message", s("busy")), ("sessionId", s("S"))]),
    )]);
    match firefox::session_from(&bad, render, render) {
        Err(BrowserError::LaunchFailed(m)) => assert_eq!(m, "geckodriver session error: \"session not created\": busy"),
        _ => panic!("expected a launch failure"),
    }
}

#[test]
fn firefox_evaluate_and_contexts() {
    let reply = obj(vec![("result", obj(vec![("type", s("number")), ("value", n(6))]))]);
    let r = firefox::evaluate_result(&reply).unwrap();
    assert_eq!(r.value, n(6));
    assert_eq!(r.result_type, "number");
    let thrown = obj(vec![("exceptionDetails", obj(vec![("exception", obj(vec![("value", s("boom"))]))]))]);
    assert!(matches!(firefox::evaluate_result(&thrown), Err(BrowserError::JavaScript(m)) if m == "boom"));
    let tree = obj(vec![(
        "contexts",
        Json::Array(vec![obj(vec![("context", s("C1")), ("url", s("about:blank")), ("type", s("tab"))])]),
    )]);
    let ts = firefox::targets_from(&tree);
    assert_eq!(ts.len(), 1);
    assert_eq!((ts[0].target_id.as_str(), ts[0].title.as_str(), ts[0].url.as_str()), ("C1", "", "about:blank"));
    assert!(firefox::targets_from(&obj(vec![])).is_empty());
    assert!(!webdriver::needs_navigation("about:blank"));
    assert!(webdriver::needs_navigation("https://example.com"));
    assert_eq!(firefox::preload_function("window.x = 1"), "() => { window.x = 1 }");
    let nav = firefox::navigate_command("C1", "https://example.com");
    assert_eq!(nav.params, obj(vec![("context", s("C1")), ("url", s("https://example.com")), ("wait", s("complete"))]));
}

#[test]
fn safari_script_wrapping() {
    assert_eq!(safari::wrap_script("2 + 2"), "return (2 + 2)");
    assert_eq!(safari::wrap_script("x(); y()"), "return (function(){ x(); y() })()");
}

#[test]
fn safari_execute_results() {
    let cases = vec![
        (Json::Null, "object"),
        (Json::Bool(true), "boolean"),
        (n(4), "number"),
        (s("t"), "string"),
        (Json::Array(vec![]), "object"),
        (obj(vec![("a", n(1))]), "object"),
    ];
    for (value, ty) in cases {
        let r = safari::execute_result(&obj(vec![("value", value.clone())]), 200).unwrap();
        assert_eq!(r.value, value);
        assert_eq!(r.result_type, ty);
    }
    let user_object = obj(vec![("error", s("x")), ("message", s("y"))]);
    let r = safari::execute_result(&obj(vec![("value", user_object.clone())]), 200).unwrap();
    assert_eq!(r.value, user_object);
    assert_eq!(r.result_type, "object");
    let no_error_member = obj(vec![("value", obj(vec![("message", s("m"))]))]);
    let r = safari::execute_result(&no_error_member, 500).unwrap();
    assert_eq!(r.value, obj(vec![("message", s("m"))]));
    assert_eq!(r.result_type, "object");
    let js = obj(vec![("value", obj(vec![("error", s("javascript error")), ("message", s("boom"))]))]);
    assert!(matches!(safari::execute_result(&js, 500), Err(BrowserError::JavaScript(m)) if m == "boom"));
    let other = obj(vec![("value", obj(vec![("error", s("no such window"))]))]);
    assert!(matches!(safari::execute_result(&other, 404), Err(BrowserError::Other(m)) if m == "unknown error"));
}

#[test]
fn safari_launch_ignores_headless() {
    let (args, path, body) = safari::launch_plan(true, 4444);
    assert_eq!(args, vec!["--port".to_string(), "4444".to_string()]);
    assert_eq!(path, "/session");
    assert_eq!(body, safari::capabilities());
    let (args2, path2, body2) = safari::launch_plan(false, 4444);
    assert_eq!((args2, path2, body2), (args, path, body));
}

#[test]
fn safari_handles() {
    let reply = obj(vec![("value", Json::Array(vec![s("H1"), s("H2")]))]);
    assert_eq!(safari::first_handle(&reply), "H1");
    assert_eq!(safari::first_handle(&obj(vec![])), "");
    let ts = safari::targets_from_handles(&reply);
    assert_eq!(ts.len(), 2);
    assert_eq!((ts[1].target_id.as_str(), ts[1].target_type.as_str(), ts[1].url.as_str()), ("H2", "window", ""));
    assert_eq!(safari::handle_from(&obj(vec![("value", obj(vec![("handle", s("H3"))]))])).unwrap(), "H3");
    assert!(matches!(safari::session_id_from(&obj(vec![])), Err(BrowserError::ConnectionFailed(m)) if m == "no sessionId"));
    assert_eq!(safari::value_text(&obj(vec![("value", s("Title"))])), "Title");
    assert!(matches!(safari::preload_unsupported(), BrowserError::Other(m) if m.starts_with("inject_preload_script not supported")));
}

#[test]
fn webdriver_paths_and_bodies() {
    assert_eq!(webdriver::session_path("abc"), "/session/abc");
    assert_eq!(webdriver::session_subpath("abc", "/window/rect"), "/session/abc/window/rect");
    assert_eq!(webdriver::rect_body(1, 2, 3, 4), obj(vec![("x", n(1)), ("y", n(2)), ("width", n(3)), ("height", n(4))]));
    assert_eq!(webdriver::reply_value(&obj(vec![("value", n(1))])), n(1));
    assert_eq!(webdriver::reply_value(&obj(vec![])), Json::Null);
}
