//! The table of commands that await their reply.
//!
//! Every command sent over a protocol connection gets an id; the reply that
//! carries the same id goes to the waiter registered under it, once.

use vstd::prelude::*;
use crate::error::BrowserError;
use crate::json::Json;
use std::collections::HashMap;

verus! {

/// How long a command waits for its reply, in seconds.
pub const COMMAND_TIMEOUT_SECS: u64 = 30;

/// How many events the subscribers' channel buffers.
pub const EVENT_CAPACITY: usize = 256;

/// A protocol command: its method and parameters.
pub struct Command {
    pub method: String,
    pub params: Json,
}

/// The command has this method and these parameters.
pub open spec fn command_is(c: Command, method: Seq<char>, params: crate::json::JsonV) -> bool {
    c.method@ == method && c.params@ == params
}

/// The command `method` with `params`.
pub fn command(method: &str, params: Json) -> (c: Command)
    ensures
        command_is(c, method@, params@),
{
    Command { method: String::from_str(method), params }
}

/// How the wait for a reply ended.
pub enum Waited {
    /// The reply arrived.
    Answered(std::result::Result<Json, BrowserError>),
    /// The reply channel closed without a reply.
    Closed,
    /// No reply within the time limit.
    TimedOut,
}

/// The outcome of a wait: the reply itself; `Other("response channel closed")`
/// when the channel closed; `Timeout(timeout_message)` when time ran out.
pub open spec fn waited_result_is(
    waited: Waited,
    r: std::result::Result<Json, BrowserError>,
    timeout_message: Seq<char>,
) -> bool {
    match waited {
        Waited::Answered(reply) => r == reply,
        Waited::Closed => r matches Err(BrowserError::Other(m)) && m@ == "response channel closed"@,
        Waited::TimedOut => r matches Err(BrowserError::Timeout(m)) && m@ == timeout_message,
    }
}

/// The result of a command once its wait is over.
pub fn finish_wait(waited: Waited, timeout_message: &str) -> (r: std::result::Result<Json, BrowserError>)
    ensures
        waited_result_is(waited, r, timeout_message@),
{
    match waited {
        Waited::Answered(reply) => reply,
        Waited::Closed => Err(BrowserError::Other(String::from_str("response channel closed"))),
        Waited::TimedOut => Err(BrowserError::Timeout(String::from_str(timeout_message))),
    }
}

/// What the reader of a protocol connection received.
pub enum Received {
    /// A text frame holding this JSON message.
    Message(Json),
    /// A text frame whose payload is not JSON.
    Unparsable,
    /// A frame of another kind (binary, ping, pong).
    OtherFrame,
    /// A close frame.
    Close,
    /// The read failed.
    ReadFailed,
}

/// What the reader does with what it received.
pub enum ReadStep<D> {
    /// Hand this on, then read the next frame.
    Handle(D),
    /// Read the next frame.
    Skip,
    /// The connection has ended: stop reading.
    Stop,
}

/// Commands awaiting their reply, and the id that the next command gets.
pub struct PendingTable<S> {
    next_id: u64,
    entries: HashMap<u64, S>,
}

impl<S> PendingTable<S> {
    /// The id that the next registered command gets.
    pub closed spec fn next_id(&self) -> u64 {
        self.next_id
    }

    /// The waiters by command id.
    pub closed spec fn waiters(&self) -> Map<u64, S> {
        self.entries@
    }

    /// An empty table whose first command gets id 1.
    pub fn new() -> (r: Self)
        ensures
            r.next_id() == 1,
            r.waiters() == Map::<u64, S>::empty(),
    {
        PendingTable { next_id: 1, entries: HashMap::new() }
    }

    /// Registers `waiter` under the next id and returns that id. The id
    /// counter advances by one, wrapping around at the end of its range; a
    /// waiter already registered under the same id is replaced.
    pub fn register(&mut self, waiter: S) -> (id: u64)
        ensures
            id == old(self).next_id(),
            final(self).next_id() == old(self).next_id().wrapping_add(1),
            final(self).waiters() == old(self).waiters().insert(id, waiter),
    {
        let id = self.next_id;
        self.next_id = self.next_id.wrapping_add(1);
        self.entries.insert(id, waiter);
        id
    }

    /// Removes and returns the waiter registered under `id`, if there is one.
    pub fn take(&mut self, id: u64) -> (r: Option<S>)
        ensures
            final(self).next_id() == old(self).next_id(),
            old(self).waiters().contains_key(id) ==> r == Some(old(self).waiters()[id]),
            !old(self).waiters().contains_key(id) ==> r is None,
            final(self).waiters() == old(self).waiters().remove(id),
    {
        self.entries.remove(&id)
    }
}

/// Each table is the one before it after registering `waiters[i]`, which
/// got the id `ids[i]`: the relation that `register` (and so each protocol's
/// `begin_command`) ensures between its table before and after.
pub open spec fn registered_in_turn<S>(tables: Seq<PendingTable<S>>, waiters: Seq<S>, ids: Seq<u64>) -> bool {
    &&& tables.len() == waiters.len() + 1
    &&& ids.len() == waiters.len()
    &&& forall|i: int|
        0 <= i < waiters.len() ==> {
            &&& #[trigger] ids[i] == tables[i].next_id()
            &&& tables[i + 1].next_id() == tables[i].next_id().wrapping_add(1)
            &&& tables[i + 1].waiters() == tables[i].waiters().insert(ids[i], waiters[i])
        }
}

proof fn lemma_ids_prefix<S>(tables: Seq<PendingTable<S>>, waiters: Seq<S>, ids: Seq<u64>, m: int)
    requires
        registered_in_turn(tables, waiters, ids),
        tables[0].next_id() == 1,
        tables[0].waiters() == Map::<u64, S>::empty(),
        waiters.len() < u64::MAX,
        0 <= m <= waiters.len(),
    ensures
        tables[m].next_id() == m + 1,
        forall|i: int| 0 <= i < m ==> #[trigger] ids[i] == i + 1,
        forall|k: u64| #[trigger] tables[m].waiters().contains_key(k) <==> 1 <= k <= m,
        forall|i: int| 0 <= i < m ==> #[trigger] tables[m].waiters()[(i + 1) as u64] == waiters[i],
    decreases m,
{
    if m > 0 {
        lemma_ids_prefix(tables, waiters, ids, m - 1);
        assert(ids[m - 1] == tables[m - 1].next_id());
        assert(tables[m].waiters() == tables[m - 1].waiters().insert(ids[m - 1], waiters[m - 1]));
        assert forall|i: int| 0 <= i < m implies #[trigger] tables[m].waiters()[(i + 1) as u64] == waiters[i] by {
            if i < m - 1 {
                assert(tables[m - 1].waiters()[(i + 1) as u64] == waiters[i]);
            }
        }
    }
}

/// Command ids over a whole session: starting from a new table, `n`
/// commands registered one after another (while the counter has not
/// wrapped around) get the ids 1 to `n` in turn, no two alike, and the
/// table then holds each command's waiter under its id and nothing else.
pub proof fn law_ids_over_a_session<S>(tables: Seq<PendingTable<S>>, waiters: Seq<S>, ids: Seq<u64>)
    requires
        registered_in_turn(tables, waiters, ids),
        tables[0].next_id() == 1,
        tables[0].waiters() == Map::<u64, S>::empty(),
        waiters.len() < u64::MAX,
    ensures
        forall|i: int| 0 <= i < ids.len() ==> #[trigger] ids[i] == i + 1,
        forall|i: int, j: int|
            0 <= i < ids.len() && 0 <= j < ids.len() && i != j ==> #[trigger] ids[i] != #[trigger] ids[j],
        forall|k: u64| #[trigger] tables[waiters.len() as int].waiters().contains_key(k) <==> 1 <= k <= waiters.len(),
        forall|i: int| 0 <= i < ids.len() ==> tables[waiters.len() as int].waiters()[#[trigger] ids[i]] == waiters[i],
{
    lemma_ids_prefix(tables, waiters, ids, waiters.len() as int);
    assert forall|i: int| 0 <= i < ids.len() implies tables[waiters.len() as int].waiters()[#[trigger] ids[i]]
        == waiters[i] by {
        assert(ids[i] == (i + 1) as u64);
        assert(tables[waiters.len() as int].waiters()[(i + 1) as u64] == waiters[i]);
    }
}

/// Every waiting command has an id below `next`.
pub open spec fn ids_below<S>(waiters: Map<u64, S>, next: u64) -> bool {
    forall|k: u64| #[trigger] waiters.contains_key(k) ==> k < next
}

/// Command ids are fresh: while the counter has not wrapped around, the id
/// that a registration hands out belongs to no waiting command, and every
/// waiting command's id stays below the advanced counter.
pub proof fn law_fresh_ids<S>(waiters: Map<u64, S>, next: u64, waiter: S)
    requires
        ids_below(waiters, next),
        next < u64::MAX,
    ensures
        !waiters.contains_key(next),
        ids_below(waiters.insert(next, waiter), next.wrapping_add(1)),
{
    assert(next.wrapping_add(1) == next + 1);
}

/// Two successive registrations get different ids.
pub proof fn law_successive_ids_differ(next: u64)
    ensures
        next.wrapping_add(1) != next,
{
}

/// A reply reaches the waiter registered under its id, and only once:
/// after registering `waiter` under `id`, taking `id` gives `waiter` and
/// leaves no waiter under `id`, so a repeated reply reaches nobody.
pub proof fn law_reply_taken_once<S>(waiters: Map<u64, S>, id: u64, waiter: S)
    ensures
        waiters.insert(id, waiter).contains_key(id),
        waiters.insert(id, waiter)[id] == waiter,
        !waiters.insert(id, waiter).remove(id).contains_key(id),
        !waiters.contains_key(id) ==> waiters.insert(id, waiter).remove(id) == waiters,
{
    if !waiters.contains_key(id) {
        assert(waiters.insert(id, waiter).remove(id) =~= waiters);
    }
}

} // verus!
