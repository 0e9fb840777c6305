use chromerunner::demo;
use chromerunner::error::BrowserError;
use chromerunner::launcher;
use chromerunner::transport;
use chromerunner::chrome;
use chromerunner::json::Json;
use chromerunner::types::{NavigationScripts, PollAction, Poller, POLL_ATTEMPTS, POLL_INTERVAL_MS};

#[test]
fn find_chrome_prefers_bundles_in_order() {
    let found = launcher::find_chrome(|p: &str| p.contains("Chromium"), |_: &str| Some("/usr/bin/x".to_string()));
    assert_eq!(found, Some("/Applications/Chromium.app/Contents/MacOS/Chromium".to_string()));
}

#[test]
fn find_chrome_falls_back_to_path() {
    let found = launcher::find_chrome(
        |_: &str| false,
        |name: &str| if name == "chromium" { Some("  /usr/bin/chromium\n".to_string()) } else if name == "google-chrome" { Some("\n".to_string()) } else { None },
    );
    assert_eq!(found, Some("/usr/bin/chromium".to_string()));
    assert_eq!(launcher::find_chrome(|_: &str| false, |_: &str| None), None);
}

#[test]
fn find_on_path_takes_first_hit() {
    let names = ["a", "b", "c"];
    assert_eq!(launcher::find_on_path(&names, |n: &str| if n != "a" { Some(format!("/bin/{}", n)) } else { None }), Some("/bin/b".to_string()));
}

#[test]
fn browser_command_lines() {
    let args = launcher::chrome_args(9222, "/tmp/profile", true);
    assert_eq!(args[0], "--remote-debugging-port=9222");
    assert_eq!(args[1], "--user-data-dir=/tmp/profile");
    assert_eq!(args[args.len() - 2], "--headless=new");
    assert_eq!(args[args.len() - 1], "about:blank");
    assert_eq!(args.len(), 13);
    assert_eq!(launcher::chrome_args(1, "d", false).len(), 12);
    assert_eq!(launcher::geckodriver_args(4444, 9223), vec!["--host", "127.0.0.1", "--port", "4444", "--websocket-port", "9223"]);
    assert_eq!(launcher::safaridriver_args(5555), vec!["--port", "5555"]);
    assert_eq!(launcher::safaridriver_path(), "/usr/bin/safaridriver");
    assert!(matches!(launcher::spawn_failure("chrome", "denied"), BrowserError::LaunchFailed(m) if m == "chrome: denied"));
}

#[test]
fn websocket_endpoints() {
    let (host, port, path) = transport::ws_endpoint("ws://127.0.0.1:9222/devtools/browser/abc").unwrap();
    assert_eq!((host.as_str(), port, path.as_str()), ("127.0.0.1", 9222, "/devtools/browser/abc"));
    let (host, port, path) = transport::ws_endpoint("ws://localhost/session?x=1").unwrap();
    assert_eq!((host.as_str(), port, path.as_str()), ("localhost", 9222, "/session?x=1"));
    assert!(matches!(transport::ws_endpoint("ws://bad host/"), Err(BrowserError::ConnectionFailed(_))));
    let parts: Result<(Option<String>, Option<u16>, Option<String>), String> = Ok((None, None, None));
    let (host, port, path) = transport::endpoint_from_parts(parts).unwrap();
    assert_eq!((host.as_str(), port, path.as_str()), ("127.0.0.1", 9222, "/"));
}

#[test]
fn http_status_checks() {
    assert!(transport::check_get_status("/json/version", 200).is_ok());
    assert!(transport::check_get_status("/status", 299).is_ok());
    assert!(matches!(transport::check_get_status("/x", 404), Err(BrowserError::Http(m)) if m == "GET /x returned 404 Not Found"));
    assert!(matches!(transport::get_status_result("/x", 799, None), Err(BrowserError::Http(m)) if m == "GET /x returned 799 <unknown status code>"));
    assert_eq!(transport::host_port("127.0.0.1", 80), "127.0.0.1:80");
    let h = transport::request_headers("h", 1, true);
    assert_eq!(h, vec![("Host".to_string(), "h:1".to_string()), ("Content-Type".to_string(), "application/json".to_string())]);
    assert_eq!(transport::upgrade_headers("h", 2, "k").len(), 5);
    let hs = transport::handshake_headers("127.0.0.1", 9222);
    assert_eq!(hs.len(), 5);
    assert_eq!(hs[0], ("Host".to_string(), "127.0.0.1:9222".to_string()));
    assert_eq!(hs[3].0, "Sec-WebSocket-Key");
    assert_eq!(hs[3].1.len(), 24);
    assert!(hs[3].1.ends_with("=="));
    assert_eq!(hs[4], ("Sec-WebSocket-Version".to_string(), "13".to_string()));
}

#[test]
fn poller_allows_a_hundred_probes() {
    let mut p = Poller::new();
    let mut count = 0;
    while matches!(p.after_probe(false), PollAction::ProbeAgain) {
        count += 1;
    }
    assert_eq!(count, POLL_ATTEMPTS);
    assert!(matches!(p.after_probe(false), PollAction::TimedOut));
    assert!(matches!(p.after_probe(true), PollAction::Done));
    let mut q = Poller::new();
    assert!(matches!(chrome::load_step(&mut q, None), PollAction::ProbeAgain));
    let loading = Json::Object(vec![("result".to_string(), Json::Object(vec![("value".to_string(), Json::Str("loading".to_string()))]))]);
    let complete = Json::Object(vec![("result".to_string(), Json::Object(vec![("value".to_string(), Json::Str("complete".to_string()))]))]);
    assert!(matches!(chrome::load_step(&mut q, Some(&loading)), PollAction::ProbeAgain));
    assert!(matches!(chrome::load_step(&mut q, Some(&complete)), PollAction::Done));
    assert_eq!(POLL_ATTEMPTS as u64 * POLL_INTERVAL_MS, 5000);
}

#[test]
fn navigation_scripts_keep_order() {
    let mut scripts = NavigationScripts::new();
    assert!(scripts.to_run().is_empty());
    scripts.register("window.a = 1");
    scripts.register("window.b = 2");
    assert_eq!(scripts.to_run(), vec!["window.a = 1".to_string(), "window.b = 2".to_string()]);
    for _ in 0..2 {
        let mut run = scripts.start_run();
        assert_eq!(run.next_script(), Some("window.a = 1".to_string()));
        assert_eq!(run.next_script(), Some("window.b = 2".to_string()));
        assert_eq!(run.next_script(), None);
        assert_eq!(run.next_script(), None);
    }
}

#[test]
fn demo_layout_and_scripts() {
    let tiles = demo::demo_tiles();
    assert_eq!(tiles.len(), 4);
    assert_eq!((tiles[3].color.as_str(), tiles[3].name.as_str(), tiles[3].x, tiles[3].y), ("#f39c12", "Orange", 640, 480));
    let script = demo::window_paint_script(2, "Green", "#2ecc71");
    assert!(script.starts_with("document.title = 'Window 2 - Green';"));
    assert!(script.contains("background:#2ecc71;"));
    assert!(script.ends_with("Window 2<br>Green</h1>';"));
    assert!(demo::window_listener_script(3).contains("'Window 3<br>Got: ' + e.data;"));
    assert_eq!(demo::greeting_expression(1), "'Hello from window 1'");
}
