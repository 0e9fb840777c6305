use chromerunner::bidi;
use chromerunner::cdp::{self, Delivery};
use chromerunner::error::BrowserError;
use chromerunner::json::{Json, JsonNumber};
use chromerunner::router::{PendingTable, ReadStep, Received, Waited};

fn s(t: &str) -> Json {
    Json::Str(t.to_string())
}

fn n(v: u64) -> Json {
    Json::Number(JsonNumber::PosInt(v))
}

fn obj(members: Vec<(&str, Json)>) -> Json {
    Json::Object(members.into_iter().map(|(k, v)| (k.to_string(), v)).collect())
}

#[test]
fn cdp_command_message_with_session() {
    let msg = cdp::command_message(7, "Runtime.evaluate", obj(vec![("expression", s("1"))]), Some("S1"));
    assert_eq!(
        msg,
        obj(vec![
            ("id", n(7)),
            ("method", s("Runtime.evaluate")),
            ("params", obj(vec![("expression", s("1"))])),
            ("sessionId", s("S1")),
        ])
    );
}

#[test]
fn cdp_command_message_without_session() {
    let msg = cdp::command_message(1, "Browser.getVersion", obj(vec![]), None);
    assert_eq!(msg, obj(vec![("id", n(1)), ("method", s("Browser.getVersion")), ("params", obj(vec![]))]));
    assert_eq!(msg.get("sessionId"), None);
}

#[test]
fn command_ids_start_at_one_and_increase() {
    let mut table: PendingTable<&str> = PendingTable::new();
    let (a, _) = cdp::begin_command(&mut table, "first", "A", obj(vec![]), None);
    let (b, msg) = cdp::begin_command(&mut table, "second", "B", obj(vec![]), None);
    assert_eq!(a, 1);
    assert_eq!(b, 2);
    assert_eq!(msg.get("id"), Some(&n(2)));
}

#[test]
fn cdp_reply_reaches_its_waiter_once() {
    let mut table: PendingTable<&str> = PendingTable::new();
    let (id, _) = cdp::begin_command(&mut table, "w", "Target.getTargets", obj(vec![]), None);
    let reply = obj(vec![("id", n(id)), ("result", obj(vec![("ok", Json::Bool(true))]))]);
    match cdp::route(&mut table, &reply) {
        Delivery::Reply(w, Ok(v)) => {
            assert_eq!(w, "w");
            assert_eq!(v, obj(vec![("ok", Json::Bool(true))]));
        }
        _ => panic!("expected a reply"),
    }
    assert!(matches!(cdp::route(&mut table, &reply), Delivery::Nothing));
}

#[test]
fn cdp_reply_without_result_is_null() {
    let mut table: PendingTable<u8> = PendingTable::new();
    let id = table.register(9);
    match cdp::route(&mut table, &obj(vec![("id", n(id))])) {
        Delivery::Reply(9, Ok(Json::Null)) => {}
        _ => panic!("expected a null result"),
    }
}

#[test]
fn cdp_error_reply_is_protocol_error() {
    let mut table: PendingTable<u8> = PendingTable::new();
    let id = table.register(1);
    let reply = obj(vec![
        ("id", n(id)),
        ("error", obj(vec![("code", Json::Number(JsonNumber::NegInt(-32000))), ("message", s("No target")), ("data", s("x"))])),
    ]);
    match cdp::route(&mut table, &reply) {
        Delivery::Reply(1, Err(BrowserError::Protocol { code, message, data })) => {
            assert_eq!(code, -32000);
            assert_eq!(message, "No target");
            assert_eq!(data, Some(s("x")));
        }
        _ => panic!("expected a protocol error"),
    }
}

#[test]
fn cdp_error_reply_defaults() {
    let mut table: PendingTable<u8> = PendingTable::new();
    let id = table.register(1);
    let reply = obj(vec![("id", n(id)), ("error", s("oops"))]);
    match cdp::route(&mut table, &reply) {
        Delivery::Reply(1, Err(BrowserError::Protocol { code, message, data })) => {
            assert_eq!(code, 0);
            assert_eq!(message, "unknown");
            assert_eq!(data, None);
        }
        _ => panic!("expected a protocol error"),
    }
}

#[test]
fn cdp_unknown_reply_is_dropped() {
    let mut table: PendingTable<u8> = PendingTable::new();
    table.register(1);
    assert!(matches!(cdp::route(&mut table, &obj(vec![("id", n(42))])), Delivery::Nothing));
    assert_eq!(table.take(1), Some(1));
}

#[test]
fn cdp_event_is_published() {
    let mut table: PendingTable<u8> = PendingTable::new();
    let ev = obj(vec![("method", s("Page.loadEventFired")), ("params", obj(vec![("t", n(3))])), ("sessionId", s("S"))]);
    match cdp::route(&mut table, &ev) {
        Delivery::Event(e) => {
            assert_eq!(e.method, "Page.loadEventFired");
            assert_eq!(e.params, obj(vec![("t", n(3))]));
            assert_eq!(e.session_id, Some("S".to_string()));
        }
        _ => panic!("expected an event"),
    }
    let bare = obj(vec![("method", s("Target.targetCreated"))]);
    match cdp::route(&mut table, &bare) {
        Delivery::Event(e) => {
            assert_eq!(e.params, Json::Null);
            assert_eq!(e.session_id, None);
        }
        _ => panic!("expected an event"),
    }
}

#[test]
fn cdp_message_without_id_or_method_is_dropped() {
    let mut table: PendingTable<u8> = PendingTable::new();
    assert!(matches!(cdp::route(&mut table, &obj(vec![("foo", n(1))])), Delivery::Nothing));
    assert!(matches!(cdp::route(&mut table, &s("text")), Delivery::Nothing));
}

#[test]
fn cdp_wait_outcomes() {
    assert!(matches!(cdp::command_result(Waited::Answered(Ok(n(1)))), Ok(v) if v == n(1)));
    match cdp::command_result(Waited::Closed) {
        Err(BrowserError::Other(m)) => assert_eq!(m, "response channel closed"),
        _ => panic!(),
    }
    match cdp::command_result(Waited::TimedOut) {
        Err(BrowserError::Timeout(m)) => assert_eq!(m, "CDP command timed out after 30s"),
        _ => panic!(),
    }
}

#[test]
fn bidi_command_message_shape() {
    let msg = bidi::command_message(3, "browsingContext.getTree", obj(vec![]));
    assert_eq!(msg, obj(vec![("id", n(3)), ("method", s("browsingContext.getTree")), ("params", obj(vec![]))]));
}

#[test]
fn bidi_success_reply() {
    let mut table: PendingTable<&str> = PendingTable::new();
    let (id, _) = bidi::begin_command(&mut table, "w", "script.evaluate", obj(vec![]));
    let reply = obj(vec![("type", s("success")), ("id", n(id)), ("result", n(5))]);
    match bidi::route(&mut table, &reply) {
        Delivery::Reply("w", Ok(v)) => assert_eq!(v, n(5)),
        _ => panic!("expected success"),
    }
    assert!(matches!(bidi::route(&mut table, &reply), Delivery::Nothing));
}

#[test]
fn bidi_error_reply() {
    let mut table: PendingTable<u8> = PendingTable::new();
    let id = table.register(4);
    let reply = obj(vec![("type", s("error")), ("id", n(id)), ("error", s("no such frame")), ("message", s("gone"))]);
    match bidi::route(&mut table, &reply) {
        Delivery::Reply(4, Err(BrowserError::Protocol { code, message, data })) => {
            assert_eq!(code, 0);
            assert_eq!(message, "no such frame: gone");
            assert!(data.is_none());
        }
        _ => panic!("expected error"),
    }
    let id2 = table.register(5);
    let bare = obj(vec![("type", s("error")), ("id", n(id2))]);
    match bidi::route(&mut table, &bare) {
        Delivery::Reply(5, Err(BrowserError::Protocol { message, .. })) => assert_eq!(message, "unknown: unknown error"),
        _ => panic!("expected error"),
    }
}

#[test]
fn bidi_event_and_unknown_types() {
    let mut table: PendingTable<u8> = PendingTable::new();
    let ev = obj(vec![("type", s("event")), ("method", s("browsingContext.load")), ("params", n(1))]);
    match bidi::route(&mut table, &ev) {
        Delivery::Event(e) => {
            assert_eq!(e.method, "browsingContext.load");
            assert_eq!(e.params, n(1));
        }
        _ => panic!("expected event"),
    }
    let id = table.register(1);
    let untyped = obj(vec![("id", n(id)), ("result", n(1))]);
    assert!(matches!(bidi::route(&mut table, &untyped), Delivery::Nothing));
    assert_eq!(table.take(id), Some(1));
    let event_without_method = obj(vec![("type", s("event"))]);
    assert!(matches!(bidi::route(&mut table, &event_without_method), Delivery::Nothing));
}

#[test]
fn bidi_wait_timeout_message() {
    match bidi::command_result(Waited::TimedOut) {
        Err(BrowserError::Timeout(m)) => assert_eq!(m, "BiDi command timed out after 30s"),
        _ => panic!(),
    }
}

#[test]
fn pending_table_register_and_take() {
    let mut table: PendingTable<char> = PendingTable::new();
    let a = table.register('a');
    let b = table.register('b');
    assert_ne!(a, b);
    assert_eq!(table.take(b), Some('b'));
    assert_eq!(table.take(b), None);
    assert_eq!(table.take(a), Some('a'));
}

#[test]
fn cdp_reader_steps() {
    let mut table: PendingTable<&str> = PendingTable::new();
    let (id, _) = cdp::begin_command(&mut table, "w", "Page.enable", obj(vec![]), Some("S"));
    assert!(matches!(cdp::on_received(&mut table, Received::Unparsable), ReadStep::Skip));
    assert!(matches!(cdp::on_received(&mut table, Received::OtherFrame), ReadStep::Skip));
    let reply = obj(vec![("id", n(id)), ("result", obj(vec![]))]);
    match cdp::on_received(&mut table, Received::Message(reply)) {
        ReadStep::Handle(Delivery::Reply(w, Ok(v))) => {
            assert_eq!(w, "w");
            assert_eq!(v, obj(vec![]));
        }
        _ => panic!("expected the reply to be handed on"),
    }
    assert!(matches!(cdp::on_received(&mut table, Received::Close), ReadStep::Stop));
    assert!(matches!(cdp::on_received(&mut table, Received::ReadFailed), ReadStep::Stop));
}

#[test]
fn bidi_reader_steps() {
    let mut table: PendingTable<u8> = PendingTable::new();
    let (id, _) = bidi::begin_command(&mut table, 5, "script.evaluate", obj(vec![]));
    assert!(matches!(bidi::on_received(&mut table, Received::Unparsable), ReadStep::Skip));
    let reply = obj(vec![("type", s("error")), ("id", n(id)), ("error", s("no such frame"))]);
    match bidi::on_received(&mut table, Received::Message(reply)) {
        ReadStep::Handle(Delivery::Reply(5, Err(BrowserError::Protocol { code, message, data }))) => {
            assert_eq!(code, 0);
            assert_eq!(message, "no such frame: unknown error");
            assert!(data.is_none());
        }
        _ => panic!("expected the error reply to be handed on"),
    }
    assert!(matches!(bidi::on_received(&mut table, Received::Close), ReadStep::Stop));
}

#[test]
fn session_ids_run_one_to_n() {
    let mut cdp_table: PendingTable<usize> = PendingTable::new();
    let mut bidi_table: PendingTable<usize> = PendingTable::new();
    for i in 0..5usize {
        let (id, msg) = cdp::begin_command(&mut cdp_table, i, "Page.enable", obj(vec![]), None);
        assert_eq!(id, i as u64 + 1);
        assert_eq!(msg.get("id"), Some(&n(i as u64 + 1)));
        let (id, msg) = bidi::begin_command(&mut bidi_table, i, "script.evaluate", obj(vec![]));
        assert_eq!(id, i as u64 + 1);
        assert_eq!(msg, obj(vec![("id", n(i as u64 + 1)), ("method", s("script.evaluate")), ("params", obj(vec![]))]));
    }
    for i in 0..5usize {
        assert_eq!(cdp_table.take(i as u64 + 1), Some(i));
        assert_eq!(bidi_table.take(i as u64 + 1), Some(i));
    }
}
