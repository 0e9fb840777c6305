//! WebDriver BiDi message framing and routing.
//!
//! ```text
//! Command:  {"id": 1, "method": "browsingContext.navigate", "params": {...}}
//! Response: {"type": "success", "id": 1, "result": {...}}
//! Error:    {"type": "error", "id": 1, "error": "...", "message": "..."}
//! Event:    {"type": "event", "method": "browsingContext.load", "params": {...}}
//! ```

use vstd::prelude::*;
use crate::cdp::{Delivery, reply_id, event_method};
use crate::error::{BrowserError, is_protocol_error};
use crate::json::{Json, JsonNumber, JsonV, member, member_lookup, members_view, object, text_value};
use crate::router::{PendingTable, ReadStep, Received, Waited, finish_wait, law_ids_over_a_session, registered_in_turn, waited_result_is};

verus! {

/// A BiDi event pushed by the browser.
#[derive(Debug, Clone)]
pub struct BidiEvent {
    pub method: String,
    pub params: Json,
}

/// The command message: `id`, `method` and `params`.
pub open spec fn bidi_command(id: u64, method: Seq<char>, params: JsonV) -> JsonV {
    JsonV::Object(
        seq![
            ("id"@, JsonV::Number(JsonNumber::PosInt(id))),
            ("method"@, JsonV::Str(method)),
            ("params"@, params),
        ],
    )
}

/// A string member's text, or `default` where the member is missing or not a string.
pub open spec fn str_member_or(msg: JsonV, key: Seq<char>, default: Seq<char>) -> Seq<char> {
    match msg.get(key) {
        Some(v) => match v.as_str() {
            Some(s) => s,
            None => default,
        },
        None => default,
    }
}

/// The message's `type` discriminant, empty where it has none.
pub open spec fn message_type(msg: JsonV) -> Seq<char> {
    str_member_or(msg, "type"@, Seq::empty())
}

/// The text of an error reply: `<error>: <message>`, with `unknown` and
/// `unknown error` standing in for missing members.
pub open spec fn error_text(msg: JsonV) -> Seq<char> {
    str_member_or(msg, "error"@, "unknown"@) + ": "@ + str_member_or(msg, "message"@, "unknown error"@)
}

/// The message is a reply of the given type with a usable id.
pub open spec fn is_reply(msg: JsonV) -> bool {
    (message_type(msg) == "success"@ || message_type(msg) == "error"@) && reply_id(msg) is Some
}

/// What the waiter of a reply gets.
pub open spec fn bidi_outcome_is(outcome: std::result::Result<Json, BrowserError>, msg: JsonV) -> bool {
    if message_type(msg) == "success"@ {
        outcome matches Ok(v) && v@ == msg.field("result"@)
    } else {
        outcome matches Err(e) && is_protocol_error(e, 0, error_text(msg), None)
    }
}

/// The event that an `event` message carries.
pub open spec fn bidi_event_is(ev: BidiEvent, msg: JsonV) -> bool {
    &&& event_method(msg) == Some(ev.method@)
    &&& ev.params@ == msg.field("params"@)
}

/// The command message for `method` with `params`.
pub fn command_message(id: u64, method: &str, params: Json) -> (r: Json)
    ensures
        r@ == bidi_command(id, method@, params@),
{
    let ghost pv = params@;
    let mut members: Vec<(String, Json)> = Vec::new();
    members.push(member("id", Json::Number(JsonNumber::PosInt(id))));
    members.push(member("method", text_value(method)));
    members.push(member("params", params));
    let r = object(members);
    assert(members_view(members@) =~= match bidi_command(id, method@, pv) {
        JsonV::Object(m) => m,
        _ => Seq::empty(),
    });
    r
}

fn str_member_or_default(msg: &Json, key: &str, default: &str) -> (r: String)
    ensures
        r@ == str_member_or(msg@, key@, default@),
{
    match msg.get(key) {
        Some(v) => match v.as_str() {
            Some(s) => s.clone(),
            None => String::from_str(default),
        },
        None => String::from_str(default),
    }
}

fn optional_member(msg: &Json, key: &str) -> (r: Json)
    ensures
        r@ == msg@.field(key@),
{
    match msg.get(key) {
        Some(v) => v.duplicate(),
        None => Json::Null,
    }
}

/// How routing `msg` takes the table from `before` to `after` and what it
/// delivers: a `success` or `error` reply goes to the waiter of its id,
/// which is then no longer waiting (a reply that nobody waits for is
/// dropped); an `event` message that names a method is an event; anything
/// else is dropped.
pub open spec fn bidi_routed<S>(before: PendingTable<S>, after: PendingTable<S>, msg: JsonV, r: Delivery<S, BidiEvent>) -> bool {
    &&& after.next_id() == before.next_id()
    &&& if is_reply(msg) {
        let id = reply_id(msg)->0;
        &&& after.waiters() == before.waiters().remove(id)
        &&& if before.waiters().contains_key(id) {
            r matches Delivery::Reply(w, outcome) && w == before.waiters()[id] && bidi_outcome_is(outcome, msg)
        } else {
            r is Nothing
        }
    } else {
        &&& after.waiters() == before.waiters()
        &&& if message_type(msg) == "event"@ && event_method(msg) is Some {
            r matches Delivery::Event(ev) && bidi_event_is(ev, msg)
        } else {
            r is Nothing
        }
    }
}

/// Hands a received message to its destination: the waiter of a pending
/// command (which is then no longer pending), or the event subscribers.
pub fn route<S>(pending: &mut PendingTable<S>, msg: &Json) -> (r: Delivery<S, BidiEvent>)
    ensures
        bidi_routed(*old(pending), *final(pending), msg@, r),
{
    let kind = str_member_or_default(msg, "type", "");
    proof {
        reveal_strlit("");
        reveal_strlit("success");
        reveal_strlit("error");
        reveal_strlit("event");
        assert("success"@[0] != "event"@[0]);
        assert("error"@[1] != "event"@[1]);
        assert("success"@[0] != "error"@[0]);
    }
    assert(kind@ == message_type(msg@));
    let success = String::from_str("success");
    let error = String::from_str("error");
    let event = String::from_str("event");
    if kind == success || kind == error {
        let id = match msg.get("id") {
            Some(v) => v.as_u64(),
            None => None,
        };
        match id {
            Some(id) => match pending.take(id) {
                Some(waiter) => {
                    let outcome = if kind == success {
                        Ok(optional_member(msg, "result"))
                    } else {
                        let error_type = str_member_or_default(msg, "error", "unknown");
                        let message = str_member_or_default(msg, "message", "unknown error");
                        let mut text = error_type;
                        text.append(": ");
                        text.append(message.as_str());
                        Err(BrowserError::Protocol { code: 0, message: text, data: None })
                    };
                    Delivery::Reply(waiter, outcome)
                },
                None => Delivery::Nothing,
            },
            None => Delivery::Nothing,
        }
    } else if kind == event {
        let method = match msg.get("method") {
            Some(m) => m.as_str(),
            None => None,
        };
        match method {
            Some(m) => {
                let ev = BidiEvent { method: m.clone(), params: optional_member(msg, "params") };
                Delivery::Event(ev)
            },
            None => Delivery::Nothing,
        }
    } else {
        Delivery::Nothing
    }
}

/// The reader's step on what it received: a message is routed; a frame
/// that is not a JSON text is skipped; a close frame or a failed read ends
/// the reading.
pub fn on_received<S>(pending: &mut PendingTable<S>, received: Received) -> (r: ReadStep<Delivery<S, BidiEvent>>)
    ensures
        match received {
            Received::Message(m) => r matches ReadStep::Handle(d) && bidi_routed(*old(pending), *final(pending), m@, d),
            Received::Unparsable => r is Skip && *final(pending) == *old(pending),
            Received::OtherFrame => r is Skip && *final(pending) == *old(pending),
            Received::Close => r is Stop && *final(pending) == *old(pending),
            Received::ReadFailed => r is Stop && *final(pending) == *old(pending),
        },
{
    match received {
        Received::Message(m) => ReadStep::Handle(route(pending, &m)),
        Received::Unparsable => ReadStep::Skip,
        Received::OtherFrame => ReadStep::Skip,
        Received::Close => ReadStep::Stop,
        Received::ReadFailed => ReadStep::Stop,
    }
}

/// Allocates the next command id for `waiter` and frames the command.
pub fn begin_command<S>(pending: &mut PendingTable<S>, waiter: S, method: &str, params: Json) -> (r: (u64, Json))
    ensures
        r.0 == old(pending).next_id(),
        final(pending).next_id() == old(pending).next_id().wrapping_add(1),
        final(pending).waiters() == old(pending).waiters().insert(r.0, waiter),
        r.1@ == bidi_command(r.0, method@, params@),
{
    let id = pending.register(waiter);
    (id, command_message(id, method, params))
}

/// The result of a command once its wait is over.
pub fn command_result(waited: Waited) -> (r: std::result::Result<Json, BrowserError>)
    ensures
        waited_result_is(waited, r, "BiDi command timed out after 30s"@),
{
    finish_wait(waited, "BiDi command timed out after 30s")
}

/// A success reply `{"type": "success", "id": id, "result": result}`.
pub open spec fn success_reply(id: u64, result: JsonV) -> JsonV {
    JsonV::Object(
        seq![
            ("type"@, JsonV::Str("success"@)),
            ("id"@, JsonV::Number(JsonNumber::PosInt(id))),
            ("result"@, result),
        ],
    )
}

proof fn lemma_success_reply_fields(id: u64, result: JsonV)
    ensures
        message_type(success_reply(id, result)) == "success"@,
        reply_id(success_reply(id, result)) == Some(id),
        success_reply(id, result).field("result"@) == result,
{
    reveal_strlit("type");
    reveal_strlit("id");
    reveal_strlit("result");
    assert("id"@ != "type"@) by { assert("id"@[0] != "type"@[0]); }
    assert("result"@ != "type"@) by { assert("result"@[0] != "type"@[0]); }
    assert("result"@ != "id"@) by { assert("result"@[0] != "id"@[0]); }
    let r = success_reply(id, result);
    if let JsonV::Object(m) = r {
        let m1 = m.drop_first();
        let m2 = m1.drop_first();
        assert(member_lookup(m, "type"@) == Some(m[0].1));
        assert(member_lookup(m, "id"@) == member_lookup(m1, "id"@));
        assert(member_lookup(m1, "id"@) == Some(m1[0].1));
        assert(member_lookup(m, "result"@) == member_lookup(m1, "result"@));
        assert(member_lookup(m1, "result"@) == member_lookup(m2, "result"@));
        assert(member_lookup(m2, "result"@) == Some(m2[0].1));
    }
}

/// A success reply reaches the command it answers, once: when a command
/// waits under `id`, routing `{"type": "success", "id": id, "result":
/// result}` hands `result` to that command's waiter and ends its wait, so
/// that the same reply routed again reaches nobody.
pub proof fn law_success_reaches_waiter_once<S>(
    before: PendingTable<S>,
    middle: PendingTable<S>,
    after: PendingTable<S>,
    id: u64,
    result: JsonV,
    first: Delivery<S, BidiEvent>,
    second: Delivery<S, BidiEvent>,
)
    requires
        before.waiters().contains_key(id),
        bidi_routed(before, middle, success_reply(id, result), first),
        bidi_routed(middle, after, success_reply(id, result), second),
    ensures
        first matches Delivery::Reply(w, Ok(v)) && w == before.waiters()[id] && v@ == result,
        !middle.waiters().contains_key(id),
        second is Nothing,
        after.waiters() == before.waiters().remove(id),
{
    lemma_success_reply_fields(id, result);
    assert(middle.waiters().remove(id) =~= middle.waiters());
}

/// A framed BiDi command gives back what it was made of: its `id`,
/// `method` and `params` members read back as the values framed, and it
/// names no session.
pub proof fn law_command_reads_back(id: u64, method: Seq<char>, params: JsonV)
    ensures
        bidi_command(id, method, params).get("id"@) == Some(JsonV::Number(JsonNumber::PosInt(id))),
        bidi_command(id, method, params).get("method"@) == Some(JsonV::Str(method)),
        bidi_command(id, method, params).get("params"@) == Some(params),
        bidi_command(id, method, params).get("sessionId"@) is None,
{
    reveal_strlit("id");
    reveal_strlit("method");
    reveal_strlit("params");
    reveal_strlit("sessionId");
    let c = bidi_command(id, method, params);
    if let JsonV::Object(m) = c {
        assert("method"@ != "id"@) by { assert("method"@[0] != "id"@[0]); }
        assert("params"@ != "id"@) by { assert("params"@[0] != "id"@[0]); }
        assert("params"@ != "method"@) by { assert("params"@[0] != "method"@[0]); }
        assert("sessionId"@ != "id"@) by { assert("sessionId"@[0] != "id"@[0]); }
        assert("sessionId"@ != "method"@) by { assert("sessionId"@[0] != "method"@[0]); }
        assert("sessionId"@ != "params"@) by { assert("sessionId"@[0] != "params"@[0]); }
        let m1 = m.drop_first();
        let m2 = m1.drop_first();
        let m3 = m2.drop_first();
        assert(m3.len() == 0);
        assert(member_lookup(m, "id"@) == Some(m[0].1));
        assert(member_lookup(m, "method"@) == member_lookup(m1, "method"@));
        assert(member_lookup(m1, "method"@) == Some(m1[0].1));
        assert(member_lookup(m, "params"@) == member_lookup(m1, "params"@));
        assert(member_lookup(m1, "params"@) == member_lookup(m2, "params"@));
        assert(member_lookup(m2, "params"@) == Some(m2[0].1));
        assert(member_lookup(m, "sessionId"@) == member_lookup(m1, "sessionId"@));
        assert(member_lookup(m1, "sessionId"@) == member_lookup(m2, "sessionId"@));
        assert(member_lookup(m2, "sessionId"@) == member_lookup(m3, "sessionId"@));
    }
}

/// Commands over a whole BiDi session: starting from a new table, `n`
/// commands begun one after another with `begin_command` (while the
/// counter has not wrapped around) carry the ids 1 to `n` in turn, no two
/// alike: command `i` is exactly `{"id": i + 1, "method": methods[i],
/// "params": params[i]}`.
pub proof fn law_session_commands<S>(
    tables: Seq<PendingTable<S>>,
    waiters: Seq<S>,
    ids: Seq<u64>,
    messages: Seq<JsonV>,
    methods: Seq<Seq<char>>,
    params: Seq<JsonV>,
)
    requires
        registered_in_turn(tables, waiters, ids),
        tables[0].next_id() == 1,
        tables[0].waiters() == Map::<u64, S>::empty(),
        waiters.len() < u64::MAX,
        messages.len() == waiters.len(),
        methods.len() == waiters.len(),
        params.len() == waiters.len(),
        forall|i: int| 0 <= i < waiters.len() ==> #[trigger] messages[i] == bidi_command(ids[i], methods[i], params[i]),
    ensures
        forall|i: int| 0 <= i < messages.len() ==> #[trigger] messages[i] == bidi_command((i + 1) as u64, methods[i], params[i]),
        forall|i: int|
            0 <= i < messages.len() ==> (#[trigger] messages[i]).get("id"@) == Some(JsonV::Number(JsonNumber::PosInt((i + 1) as u64))),
        forall|i: int, j: int|
            0 <= i < messages.len() && 0 <= j < messages.len() && i != j ==> (#[trigger] messages[i]).get("id"@) != (
            #[trigger] messages[j]).get("id"@),
{
    law_ids_over_a_session(tables, waiters, ids);
    assert forall|i: int| 0 <= i < messages.len() implies (#[trigger] messages[i]).get("id"@) == Some(
        JsonV::Number(JsonNumber::PosInt((i + 1) as u64)),
    ) by {
        assert(ids[i] == i + 1);
        law_command_reads_back((i + 1) as u64, methods[i], params[i]);
    }
    assert forall|i: int, j: int|
        0 <= i < messages.len() && 0 <= j < messages.len() && i != j implies (#[trigger] messages[i]).get("id"@) != (
        #[trigger] messages[j]).get("id"@) by {
        assert(messages[i].get("id"@) == Some(JsonV::Number(JsonNumber::PosInt((i + 1) as u64))));
        assert(messages[j].get("id"@) == Some(JsonV::Number(JsonNumber::PosInt((j + 1) as u64))));
    }
    assert forall|i: int| 0 <= i < messages.len() implies #[trigger] messages[i] == bidi_command(
        (i + 1) as u64,
        methods[i],
        params[i],
    ) by {
        assert(ids[i] == i + 1);
    }
}

} // verus!
