//! Chrome DevTools Protocol message framing and routing.
//!
//! ```text
//! Command:  {"id": 1, "method": "Runtime.evaluate", "params": {...}, "sessionId": "..."}
//! Response: {"id": 1, "result": {...}}
//! Error:    {"id": 1, "error": {"code": -32000, "message": "..."}}
//! Event:    {"method": "Page.loadEventFired", "params": {...}}
//! ```

use vstd::prelude::*;
use crate::error::{BrowserError, is_protocol_error};
use crate::json::{Json, JsonNumber, JsonV, member, member_lookup, members_view, object, text_value};
use crate::router::{PendingTable, ReadStep, Received, Waited, finish_wait, law_ids_over_a_session, registered_in_turn, waited_result_is};

verus! {

/// A CDP event pushed by Chrome.
#[derive(Debug, Clone)]
pub struct CdpEvent {
    pub method: String,
    pub params: Json,
    pub session_id: Option<String>,
}

/// How an incoming message is handled.
pub enum Delivery<S, E> {
    /// The reply to a pending command: hand `outcome` to the waiter.
    Reply(S, std::result::Result<Json, BrowserError>),
    /// An event for the subscribers.
    Event(E),
    /// Nothing to do (an unknown reply id or an unrecognised message).
    Nothing,
}

pub open spec fn opt_str_view(s: Option<&str>) -> Option<Seq<char>> {
    match s {
        Some(t) => Some(t@),
        None => None,
    }
}

pub open spec fn opt_string_view(s: Option<String>) -> Option<Seq<char>> {
    match s {
        Some(t) => Some(t@),
        None => None,
    }
}

/// The command message: `id`, `method`, `params`, and `sessionId` when given.
pub open spec fn cdp_command(id: u64, method: Seq<char>, params: JsonV, session_id: Option<Seq<char>>) -> JsonV {
    let base = seq![
        ("id"@, JsonV::Number(JsonNumber::PosInt(id))),
        ("method"@, JsonV::Str(method)),
        ("params"@, params),
    ];
    match session_id {
        Some(s) => JsonV::Object(base.push(("sessionId"@, JsonV::Str(s)))),
        None => JsonV::Object(base),
    }
}

/// The id of a reply: an `id` member holding a non-negative integer.
pub open spec fn reply_id(msg: JsonV) -> Option<u64> {
    match msg.get("id"@) {
        Some(v) => v.as_u64(),
        None => None,
    }
}

/// The method of an event: a `method` member holding a string.
pub open spec fn event_method(msg: JsonV) -> Option<Seq<char>> {
    match msg.get("method"@) {
        Some(v) => v.as_str(),
        None => None,
    }
}

/// The code of a protocol error object, 0 where it has none.
pub open spec fn error_code(err: JsonV) -> i64 {
    match err.get("code"@) {
        Some(c) => match c.as_i64() {
            Some(n) => n,
            None => 0,
        },
        None => 0,
    }
}

/// The message of a protocol error object, `unknown` where it has none.
pub open spec fn error_message(err: JsonV) -> Seq<char> {
    match err.get("message"@) {
        Some(m) => match m.as_str() {
            Some(s) => s,
            None => "unknown"@,
        },
        None => "unknown"@,
    }
}

/// What the waiter of a reply gets: the `result` member (`null` where it
/// has none), or the protocol error described by its `error` member.
pub open spec fn reply_outcome_is(outcome: std::result::Result<Json, BrowserError>, msg: JsonV) -> bool {
    match msg.get("error"@) {
        Some(err) => outcome matches Err(e) && is_protocol_error(
            e,
            error_code(err),
            error_message(err),
            err.get("data"@),
        ),
        None => outcome matches Ok(v) && v@ == msg.field("result"@),
    }
}

/// The event that a message without a reply id carries.
pub open spec fn event_is(ev: CdpEvent, msg: JsonV) -> bool {
    &&& event_method(msg) == Some(ev.method@)
    &&& ev.params@ == msg.field("params"@)
    &&& opt_string_view(ev.session_id) == match msg.get("sessionId"@) {
        Some(s) => s.as_str(),
        None => None,
    }
}

/// The command message for `method` with `params`, addressed to
/// `session_id` when one is given.
pub fn command_message(id: u64, method: &str, params: Json, session_id: Option<&str>) -> (r: Json)
    ensures
        r@ == cdp_command(id, method@, params@, opt_str_view(session_id)),
{
    let ghost pv = params@;
    let mut members: Vec<(String, Json)> = Vec::new();
    members.push(member("id", Json::Number(JsonNumber::PosInt(id))));
    members.push(member("method", text_value(method)));
    members.push(member("params", params));
    if let Some(sid) = session_id {
        members.push(member("sessionId", text_value(sid)));
    }
    let r = object(members);
    assert(members_view(members@) =~= match cdp_command(id, method@, pv, opt_str_view(session_id)) {
        JsonV::Object(m) => m,
        _ => Seq::empty(),
    });
    r
}

fn optional_member<'a>(msg: &'a Json, key: &str) -> (r: Json)
    ensures
        r@ == msg@.field(key@),
{
    match msg.get(key) {
        Some(v) => v.duplicate(),
        None => Json::Null,
    }
}

fn protocol_error(err: &Json) -> (e: BrowserError)
    ensures
        is_protocol_error(e, error_code(err@), error_message(err@), err@.get("data"@)),
{
    let code = match err.get("code") {
        Some(c) => match c.as_i64() {
            Some(n) => n,
            None => 0,
        },
        None => 0,
    };
    let message = match err.get("message") {
        Some(m) => match m.as_str() {
            Some(s) => s.clone(),
            None => String::from_str("unknown"),
        },
        None => String::from_str("unknown"),
    };
    let data = match err.get("data") {
        Some(d) => Some(d.duplicate()),
        None => None,
    };
    BrowserError::Protocol { code, message, data }
}

/// How routing `msg` takes the table from `before` to `after` and what it
/// delivers: a reply goes to the waiter of its id, which is then no longer
/// waiting (a reply that nobody waits for is dropped); a message without a
/// reply id that names a method is an event; anything else is dropped.
pub open spec fn cdp_routed<S>(before: PendingTable<S>, after: PendingTable<S>, msg: JsonV, r: Delivery<S, CdpEvent>) -> bool {
    &&& after.next_id() == before.next_id()
    &&& match reply_id(msg) {
        Some(id) => {
            &&& after.waiters() == before.waiters().remove(id)
            &&& if before.waiters().contains_key(id) {
                r matches Delivery::Reply(w, outcome) && w == before.waiters()[id] && reply_outcome_is(outcome, msg)
            } else {
                r is Nothing
            }
        },
        None => {
            &&& after.waiters() == before.waiters()
            &&& if event_method(msg) is Some {
                r matches Delivery::Event(ev) && event_is(ev, msg)
            } else {
                r is Nothing
            }
        },
    }
}

/// Hands a received message to its destination: the waiter of a pending
/// command (which is then no longer pending), or the event subscribers.
pub fn route<S>(pending: &mut PendingTable<S>, msg: &Json) -> (r: Delivery<S, CdpEvent>)
    ensures
        cdp_routed(*old(pending), *final(pending), msg@, r),
{
    let id = match msg.get("id") {
        Some(v) => v.as_u64(),
        None => None,
    };
    if let Some(id) = id {
        match pending.take(id) {
            Some(waiter) => {
                let outcome = match msg.get("error") {
                    Some(err) => Err(protocol_error(err)),
                    None => Ok(optional_member(msg, "result")),
                };
                Delivery::Reply(waiter, outcome)
            },
            None => Delivery::Nothing,
        }
    } else {
        let method = match msg.get("method") {
            Some(m) => m.as_str(),
            None => None,
        };
        match method {
            Some(m) => {
                let session_id = match msg.get("sessionId") {
                    Some(s) => match s.as_str() {
                        Some(t) => Some(t.clone()),
                        None => None,
                    },
                    None => None,
                };
                Delivery::Event(
                    CdpEvent { method: m.clone(), params: optional_member(msg, "params"), session_id },
                )
            },
            None => Delivery::Nothing,
        }
    }
}

/// The reader's step on what it received: a message is routed; a frame
/// that is not a JSON text is skipped; a close frame or a failed read ends
/// the reading.
pub fn on_received<S>(pending: &mut PendingTable<S>, received: Received) -> (r: ReadStep<Delivery<S, CdpEvent>>)
    ensures
        match received {
            Received::Message(m) => r matches ReadStep::Handle(d) && cdp_routed(*old(pending), *final(pending), m@, d),
            Received::Unparsable => r is Skip && *final(pending) == *old(pending),
            Received::OtherFrame => r is Skip && *final(pending) == *old(pending),
            Received::Close => r is Stop && *final(pending) == *old(pending),
            Received::ReadFailed => r is Stop && *final(pending) == *old(pending),
        },
{
    match received {
        Received::Message(m) => ReadStep::Handle(route(pending, &m)),
        Received::Unparsable => ReadStep::Skip,
        Received::OtherFrame => ReadStep::Skip,
        Received::Close => ReadStep::Stop,
        Received::ReadFailed => ReadStep::Stop,
    }
}

/// Allocates the next command id for `waiter` and frames the command.
pub fn begin_command<S>(
    pending: &mut PendingTable<S>,
    waiter: S,
    method: &str,
    params: Json,
    session_id: Option<&str>,
) -> (r: (u64, Json))
    ensures
        r.0 == old(pending).next_id(),
        final(pending).next_id() == old(pending).next_id().wrapping_add(1),
        final(pending).waiters() == old(pending).waiters().insert(r.0, waiter),
        r.1@ == cdp_command(r.0, method@, params@, opt_str_view(session_id)),
{
    let id = pending.register(waiter);
    (id, command_message(id, method, params, session_id))
}

/// The result of a command once its wait is over.
pub fn command_result(waited: Waited) -> (r: std::result::Result<Json, BrowserError>)
    ensures
        waited_result_is(waited, r, "CDP command timed out after 30s"@),
{
    finish_wait(waited, "CDP command timed out after 30s")
}

/// A reply `{"id": id, "result": result}`.
pub open spec fn result_reply(id: u64, result: JsonV) -> JsonV {
    JsonV::Object(seq![("id"@, JsonV::Number(JsonNumber::PosInt(id))), ("result"@, result)])
}

/// A framed command gives back what it was made of: its `id`, `method`,
/// `params` and `sessionId` members read back as the values framed.
pub proof fn law_command_reads_back(id: u64, method: Seq<char>, params: JsonV, session_id: Option<Seq<char>>)
    ensures
        cdp_command(id, method, params, session_id).get("id"@) == Some(JsonV::Number(JsonNumber::PosInt(id))),
        cdp_command(id, method, params, session_id).get("method"@) == Some(JsonV::Str(method)),
        cdp_command(id, method, params, session_id).get("params"@) == Some(params),
        cdp_command(id, method, params, session_id).get("sessionId"@) == match session_id {
            Some(s) => Some(JsonV::Str(s)),
            None => None::<JsonV>,
        },
{
    reveal_strlit("id");
    reveal_strlit("method");
    reveal_strlit("params");
    reveal_strlit("sessionId");
    let c = cdp_command(id, method, params, session_id);
    if let JsonV::Object(m) = c {
        assert(m[0].0 == "id"@);
        assert("method"@ != "id"@) by { assert("method"@[0] != "id"@[0]); }
        assert("params"@ != "id"@) by { assert("params"@[0] != "id"@[0]); }
        assert("params"@ != "method"@) by { assert("params"@[0] != "method"@[0]); }
        assert("sessionId"@ != "id"@) by { assert("sessionId"@[0] != "id"@[0]); }
        assert("sessionId"@ != "method"@) by { assert("sessionId"@[0] != "method"@[0]); }
        assert("sessionId"@ != "params"@) by { assert("sessionId"@[0] != "params"@[0]); }
        let m1 = m.drop_first();
        let m2 = m1.drop_first();
        let m3 = m2.drop_first();
        assert(m1[0].0 == "method"@);
        assert(m2[0].0 == "params"@);
        assert(member_lookup(m, "method"@) == member_lookup(m1, "method"@));
        assert(member_lookup(m1, "method"@) == Some(m1[0].1));
        assert(member_lookup(m, "params"@) == member_lookup(m1, "params"@));
        assert(member_lookup(m1, "params"@) == member_lookup(m2, "params"@));
        assert(member_lookup(m2, "params"@) == Some(m2[0].1));
        assert(member_lookup(m, "sessionId"@) == member_lookup(m1, "sessionId"@));
        assert(member_lookup(m1, "sessionId"@) == member_lookup(m2, "sessionId"@));
        assert(member_lookup(m2, "sessionId"@) == member_lookup(m3, "sessionId"@));
        if session_id is Some {
            let m4 = m3.drop_first();
            assert(m3[0].0 == "sessionId"@);
            assert(m4.len() == 0);
            assert(member_lookup(m4, "sessionId"@) is None);
        } else {
            assert(m3.len() == 0);
        }
    }
}

/// A reply that carries a non-negative integer id and a result, and no
/// error, hands that result to the waiter of the command with that id.
pub proof fn law_result_reply(id: u64, result: JsonV)
    ensures
        reply_id(result_reply(id, result)) == Some(id),
        result_reply(id, result).get("error"@) is None,
        result_reply(id, result).field("result"@) == result,
{
    reveal_strlit("id");
    reveal_strlit("result");
    reveal_strlit("error");
    let r = result_reply(id, result);
    if let JsonV::Object(m) = r {
        assert("result"@ != "id"@) by { assert("result"@[0] != "id"@[0]); }
        assert("error"@ != "id"@) by { assert("error"@[0] != "id"@[0]); }
        assert("error"@ != "result"@) by { assert("error"@[0] != "result"@[0]); }
        let m1 = m.drop_first();
        assert(m1[0].0 == "result"@);
        assert(m1.drop_first().len() == 0);
        assert(member_lookup(m, "result"@) == member_lookup(m1, "result"@));
        assert(member_lookup(m1, "result"@) == Some(m1[0].1));
        assert(member_lookup(m, "error"@) == member_lookup(m1, "error"@));
        assert(member_lookup(m1, "error"@) == member_lookup(m1.drop_first(), "error"@));
    }
}

/// A reply reaches the command it answers, once: when a command waits
/// under `id`, routing the reply `{"id": id, "result": result}` hands
/// `result` to that command's waiter and ends its wait, so that the same
/// reply routed again reaches nobody.
pub proof fn law_reply_reaches_waiter_once<S>(
    before: PendingTable<S>,
    middle: PendingTable<S>,
    after: PendingTable<S>,
    id: u64,
    result: JsonV,
    first: Delivery<S, CdpEvent>,
    second: Delivery<S, CdpEvent>,
)
    requires
        before.waiters().contains_key(id),
        cdp_routed(before, middle, result_reply(id, result), first),
        cdp_routed(middle, after, result_reply(id, result), second),
    ensures
        first matches Delivery::Reply(w, Ok(v)) && w == before.waiters()[id] && v@ == result,
        !middle.waiters().contains_key(id),
        second is Nothing,
        after.waiters() == before.waiters().remove(id),
{
    law_result_reply(id, result);
    assert(middle.waiters().remove(id) =~= middle.waiters());
}

/// A command's reply comes back to it: once `begin_command` has registered
/// `waiter` under the table's next id, routing the reply that carries that
/// id and a result hands the result to `waiter`, and the table is left as
/// it was before the command, but for that id.
pub proof fn law_command_round_trip<S>(
    start: PendingTable<S>,
    sent: PendingTable<S>,
    done: PendingTable<S>,
    waiter: S,
    result: JsonV,
    d: Delivery<S, CdpEvent>,
)
    requires
        sent.waiters() == start.waiters().insert(start.next_id(), waiter),
        cdp_routed(sent, done, result_reply(start.next_id(), result), d),
    ensures
        d matches Delivery::Reply(w, Ok(v)) && w == waiter && v@ == result,
        done.waiters() == start.waiters().remove(start.next_id()),
{
    law_result_reply(start.next_id(), result);
    assert(start.waiters().insert(start.next_id(), waiter).remove(start.next_id()) =~= start.waiters().remove(
        start.next_id(),
    ));
}

/// Commands over a whole CDP session: starting from a new table, `n`
/// commands begun one after another with `begin_command` (while the
/// counter has not wrapped around) carry the ids 1 to `n` in turn, no two
/// alike: command `i` is `{"id": i + 1, "method": methods[i], "params":
/// params[i]}`, with `"sessionId"` where `sessions[i]` names one.
pub proof fn law_session_commands<S>(
    tables: Seq<PendingTable<S>>,
    waiters: Seq<S>,
    ids: Seq<u64>,
    messages: Seq<JsonV>,
    methods: Seq<Seq<char>>,
    params: Seq<JsonV>,
    sessions: Seq<Option<Seq<char>>>,
)
    requires
        registered_in_turn(tables, waiters, ids),
        tables[0].next_id() == 1,
        tables[0].waiters() == Map::<u64, S>::empty(),
        waiters.len() < u64::MAX,
        messages.len() == waiters.len(),
        methods.len() == waiters.len(),
        params.len() == waiters.len(),
        sessions.len() == waiters.len(),
        forall|i: int|
            0 <= i < waiters.len() ==> #[trigger] messages[i] == cdp_command(ids[i], methods[i], params[i], sessions[i]),
    ensures
        forall|i: int|
            0 <= i < messages.len() ==> #[trigger] messages[i] == cdp_command((i + 1) as u64, methods[i], params[i], sessions[i]),
        forall|i: int|
            0 <= i < messages.len() ==> (#[trigger] messages[i]).get("id"@) == Some(JsonV::Number(JsonNumber::PosInt((i + 1) as u64))),
        forall|i: int, j: int|
            0 <= i < messages.len() && 0 <= j < messages.len() && i != j ==> (#[trigger] messages[i]).get("id"@) != (
            #[trigger] messages[j]).get("id"@),
{
    law_ids_over_a_session(tables, waiters, ids);
    assert forall|i: int| 0 <= i < messages.len() implies (#[trigger] messages[i]).get("id"@) == Some(
        JsonV::Number(JsonNumber::PosInt((i + 1) as u64)),
    ) by {
        assert(ids[i] == i + 1);
        law_command_reads_back((i + 1) as u64, methods[i], params[i], sessions[i]);
    }
    assert forall|i: int, j: int|
        0 <= i < messages.len() && 0 <= j < messages.len() && i != j implies (#[trigger] messages[i]).get("id"@) != (
        #[trigger] messages[j]).get("id"@) by {
        assert(messages[i].get("id"@) == Some(JsonV::Number(JsonNumber::PosInt((i + 1) as u64))));
        assert(messages[j].get("id"@) == Some(JsonV::Number(JsonNumber::PosInt((j + 1) as u64))));
    }
    assert forall|i: int| 0 <= i < messages.len() implies #[trigger] messages[i] == cdp_command(
        (i + 1) as u64,
        methods[i],
        params[i],
        sessions[i],
    ) by {
        assert(ids[i] == i + 1);
    }
}

} // verus!
