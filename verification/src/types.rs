//! Shared result types of all browser backends.

use vstd::prelude::*;
use crate::error::BrowserError;
use crate::json::{Json, JsonV};

verus! {

/// The result of evaluating a JavaScript expression.
#[derive(Debug, Clone)]
pub struct JsResult {
    /// The returned value. Primitive values map directly to their JSON
    /// equivalents; objects and arrays are fully serialised; `undefined`
    /// becomes `null`.
    pub value: Json,
    /// The JavaScript type string: `"string"`, `"number"`, `"boolean"`,
    /// `"object"`, `"undefined"`, `"function"`, etc.
    pub result_type: String,
}

/// Metadata about a browser target / browsing context.
#[derive(Debug, Clone)]
pub struct TargetInfo {
    /// Unique identifier for this target.
    pub target_id: String,
    /// Page title (may be empty).
    pub title: String,
    /// Current URL of the target.
    pub url: String,
    /// Target type: `"page"`, `"tab"`, `"window"`, etc.
    pub target_type: String,
}

/// The value of a [`JsResult`].
pub struct JsResultV {
    pub value: JsonV,
    pub result_type: Seq<char>,
}

impl View for JsResult {
    type V = JsResultV;

    open spec fn view(&self) -> JsResultV {
        JsResultV { value: self.value@, result_type: self.result_type@ }
    }
}

/// The value of a [`TargetInfo`].
pub struct TargetInfoV {
    pub target_id: Seq<char>,
    pub title: Seq<char>,
    pub url: Seq<char>,
    pub target_type: Seq<char>,
}

impl View for TargetInfo {
    type V = TargetInfoV;

    open spec fn view(&self) -> TargetInfoV {
        TargetInfoV {
            target_id: self.target_id@,
            title: self.title@,
            url: self.url@,
            target_type: self.target_type@,
        }
    }
}

/// The text of an evaluation result that is a string, the empty text otherwise
/// (what `url()` and `title()` report).
pub fn text_of(r: &JsResult) -> (s: String)
    ensures
        s@ == r.value@.str_or_empty(),
{
    match r.value.as_str() {
        Some(t) => t.clone(),
        None => String::new(),
    }
}

/// Scripts to run after every navigation, in the order they were registered.
pub struct NavigationScripts {
    scripts: Vec<String>,
}

impl NavigationScripts {
    /// The registered scripts, in order.
    pub closed spec fn sources(&self) -> Seq<Seq<char>> {
        self.scripts@.map_values(|s: String| s@)
    }

    pub fn new() -> (r: Self)
        ensures
            r.sources() == Seq::<Seq<char>>::empty(),
    {
        let r = NavigationScripts { scripts: Vec::new() };
        assert(r.sources() =~= Seq::<Seq<char>>::empty());
        r
    }

    /// Registers `source` to run after every later navigation, after the
    /// scripts registered before it.
    pub fn register(&mut self, source: &str)
        ensures
            final(self).sources() == old(self).sources().push(source@),
    {
        self.scripts.push(String::from_str(source));
        assert(self.sources() =~= old(self).sources().push(source@));
    }

    /// The scripts to run after a navigation, in registration order.
    pub fn to_run(&self) -> (r: Vec<String>)
        ensures
            r@.map_values(|s: String| s@) == self.sources(),
    {
        let mut out: Vec<String> = Vec::new();
        let mut i: usize = 0;
        while i < self.scripts.len()
            invariant
                i <= self.scripts.len(),
                out@.len() == i,
                forall|j: int| 0 <= j < i ==> #[trigger] out@[j]@ == self.scripts@[j]@,
            decreases self.scripts.len() - i,
        {
            out.push(self.scripts[i].clone());
            i += 1;
        }
        assert(out@.map_values(|s: String| s@) =~= self.sources());
        out
    }
}

impl NavigationScripts {
    /// The run of the registered scripts after a navigation.
    pub fn start_run(&self) -> (r: ScriptRun)
        ensures
            r.remaining() == self.sources(),
    {
        let scripts = self.to_run();
        let r = ScriptRun { scripts, next: 0 };
        assert(r.remaining() =~= self.sources());
        r
    }
}

/// The scripts still to run after one navigation, in order.
pub struct ScriptRun {
    scripts: Vec<String>,
    next: usize,
}

/// One step of a run: the first remaining script is handed out and leaves
/// the run; when none remains, nothing is handed out.
pub open spec fn script_step(before: Seq<Seq<char>>, after: Seq<Seq<char>>, r: Option<String>) -> bool {
    match r {
        Some(s) => before.len() > 0 && s@ == before[0] && after == before.drop_first(),
        None => before.len() == 0 && after == before,
    }
}

impl ScriptRun {
    #[verifier::type_invariant]
    spec fn in_bounds(self) -> bool {
        self.next <= self.scripts.len()
    }

    /// The scripts still to run, in order.
    pub closed spec fn remaining(&self) -> Seq<Seq<char>> {
        self.scripts@.skip(self.next as int).map_values(|s: String| s@)
    }

    /// The next script to run, if any is left. The run takes nothing back
    /// from the script: what it gives, or whether it fails, changes nothing.
    pub fn next_script(&mut self) -> (r: Option<String>)
        ensures
            script_step(old(self).remaining(), final(self).remaining(), r),
    {
        proof {
            use_type_invariant(&*self);
        }
        if self.next < self.scripts.len() {
            let s = self.scripts[self.next].clone();
            let ghost before = self.remaining();
            self.next = self.next + 1;
            assert(self.remaining() =~= before.drop_first());
            Some(s)
        } else {
            assert(self.remaining() =~= Seq::<Seq<char>>::empty());
            None
        }
    }
}

proof fn lemma_run_prefix(rem: Seq<Seq<Seq<char>>>, outs: Seq<Option<String>>, k: int)
    requires
        rem.len() == outs.len() + 1,
        forall|i: int| 0 <= i < outs.len() ==> script_step(rem[i], rem[i + 1], #[trigger] outs[i]),
        0 <= k <= outs.len(),
    ensures
        rem[k] == rem[0].skip(if k < rem[0].len() { k } else { rem[0].len() as int }),
    decreases k,
{
    if k == 0 {
        assert(rem[0].skip(0) =~= rem[0]);
    } else {
        lemma_run_prefix(rem, outs, k - 1);
        assert(script_step(rem[k - 1], rem[k], outs[k - 1]));
        if k - 1 < rem[0].len() {
            assert(rem[0].skip(k - 1).drop_first() =~= rem[0].skip(k));
        }
    }
}

/// After a navigation the registered scripts are each issued once, in
/// order, and then nothing more: when `remaining[i + 1]` is what is left
/// of `remaining[i]` after step `i` handed out `issued[i]`, step `i` hands
/// out the `i`-th script of the first run while there is one, and nothing
/// after that.
pub proof fn law_run_issues_each_once(remaining: Seq<Seq<Seq<char>>>, issued: Seq<Option<String>>)
    requires
        remaining.len() == issued.len() + 1,
        forall|i: int| 0 <= i < issued.len() ==> script_step(remaining[i], remaining[i + 1], #[trigger] issued[i]),
    ensures
        forall|i: int|
            0 <= i < issued.len() && i < remaining[0].len() ==> (#[trigger] issued[i] matches Some(s) && s@
                == remaining[0][i]),
        forall|i: int| 0 <= i < issued.len() && i >= remaining[0].len() ==> #[trigger] issued[i] is None,
{
    assert forall|i: int| 0 <= i < issued.len() implies (i < remaining[0].len() ==> (#[trigger] issued[i] matches Some(
        s,
    ) && s@ == remaining[0][i])) && (i >= remaining[0].len() ==> issued[i] is None) by {
        lemma_run_prefix(remaining, issued, i);
        assert(script_step(remaining[i], remaining[i + 1], issued[i]));
        if i < remaining[0].len() {
            assert(remaining[i][0] == remaining[0][i]);
        }
    }
}

proof fn lemma_scripts_prefix(lists: Seq<NavigationScripts>, sources: Seq<Seq<char>>, k: int)
    requires
        lists.len() == sources.len() + 1,
        lists[0].sources() == Seq::<Seq<char>>::empty(),
        forall|i: int| 0 <= i < sources.len() ==> lists[i + 1].sources() == lists[i].sources().push(#[trigger] sources[i]),
        0 <= k <= sources.len(),
    ensures
        lists[k].sources() == sources.take(k),
    decreases k,
{
    if k == 0 {
        assert(sources.take(0) =~= Seq::<Seq<char>>::empty());
    } else {
        lemma_scripts_prefix(lists, sources, k - 1);
        assert(lists[k].sources() == lists[k - 1].sources().push(sources[k - 1]));
        assert(sources.take(k) =~= sources.take(k - 1).push(sources[k - 1]));
    }
}

/// Scripts registered one after another all run after a navigation, in
/// the order in which they were registered: when `lists[i + 1]` is
/// `lists[i]` after registering `sources[i]`, starting from a new list, the
/// last list runs exactly `sources`, in that order (and `to_run` gives them
/// again on every later navigation, as it leaves the list as it is).
pub proof fn law_scripts_run_in_order(lists: Seq<NavigationScripts>, sources: Seq<Seq<char>>)
    requires
        lists.len() == sources.len() + 1,
        lists[0].sources() == Seq::<Seq<char>>::empty(),
        forall|i: int| 0 <= i < sources.len() ==> lists[i + 1].sources() == lists[i].sources().push(#[trigger] sources[i]),
    ensures
        lists[sources.len() as int].sources() == sources,
{
    lemma_scripts_prefix(lists, sources, sources.len() as int);
    assert(sources.take(sources.len() as int) =~= sources);
}

/// The expression whose value is the page's URL.
pub fn location_expression() -> (r: &'static str)
    ensures
        r@ == "location.href"@,
{
    "location.href"
}

/// The expression whose value is the page's title.
pub fn title_expression() -> (r: &'static str)
    ensures
        r@ == "document.title"@,
{
    "document.title"
}

/// How many times a readiness probe is tried before giving up.
pub const POLL_ATTEMPTS: u32 = 100;

/// The pause before each readiness probe, in milliseconds.
pub const POLL_INTERVAL_MS: u64 = 50;

/// Counts the probes of a wait for readiness (a browser or driver coming up,
/// a page finishing its load): at most [`POLL_ATTEMPTS`] of them.
pub struct Poller {
    attempts: u32,
}

impl Poller {
    /// How many probes have been made.
    pub closed spec fn attempts(&self) -> nat {
        self.attempts as nat
    }

    /// No more than [`POLL_ATTEMPTS`] probes are ever counted.
    #[verifier::type_invariant]
    spec fn within_budget(self) -> bool {
        self.attempts <= POLL_ATTEMPTS
    }

    pub fn new() -> (r: Self)
        ensures
            r.attempts() == 0,
    {
        Poller { attempts: 0 }
    }

    /// The step of a wait after a probe that found the awaited thing `ready`
    /// or not (before the first probe, not): done when it is ready; else one
    /// more probe, counted, while fewer than [`POLL_ATTEMPTS`] have been
    /// made; else the wait times out.
    pub fn after_probe(&mut self, ready: bool) -> (r: PollAction)
        ensures
            probe_step(old(self).attempts(), final(self).attempts(), ready, r),
            final(self).attempts() <= POLL_ATTEMPTS,
    {
        proof {
            use_type_invariant(&*self);
        }
        if ready {
            PollAction::Done
        } else if self.attempts < POLL_ATTEMPTS {
            self.attempts = self.attempts + 1;
            PollAction::ProbeAgain
        } else {
            PollAction::TimedOut
        }
    }
}

/// What a wait for readiness does next.
pub enum PollAction {
    /// The awaited thing is ready.
    Done,
    /// Pause, then probe again.
    ProbeAgain,
    /// Give up: the wait timed out.
    TimedOut,
}

/// One step of a wait, from `before` probes counted to `after`, given
/// whether the last probe found the awaited thing ready.
pub open spec fn probe_step(before: nat, after: nat, ready: bool, r: PollAction) -> bool {
    if ready {
        r is Done && after == before
    } else if before < POLL_ATTEMPTS {
        r is ProbeAgain && after == before + 1
    } else {
        r is TimedOut && after == before
    }
}

proof fn lemma_probe_prefix(counts: Seq<nat>, actions: Seq<PollAction>, k: int)
    requires
        counts.len() == actions.len() + 1,
        counts[0] == 0,
        forall|i: int| 0 <= i < actions.len() ==> probe_step(counts[i], counts[i + 1], false, #[trigger] actions[i]),
        0 <= k <= actions.len(),
    ensures
        counts[k] == if k < POLL_ATTEMPTS { k } else { POLL_ATTEMPTS as int },
    decreases k,
{
    if k > 0 {
        lemma_probe_prefix(counts, actions, k - 1);
        assert(probe_step(counts[k - 1], counts[k], false, actions[k - 1]));
    }
}

/// A wait whose probes never find the awaited thing ready gets exactly
/// [`POLL_ATTEMPTS`] probes and then times out: starting from a new poller,
/// step `i` asks for another probe while `i < POLL_ATTEMPTS`, and every
/// later step times out.
pub proof fn law_probes_then_timeout(counts: Seq<nat>, actions: Seq<PollAction>)
    requires
        counts.len() == actions.len() + 1,
        counts[0] == 0,
        forall|i: int| 0 <= i < actions.len() ==> probe_step(counts[i], counts[i + 1], false, #[trigger] actions[i]),
    ensures
        forall|i: int| 0 <= i < actions.len() && i < POLL_ATTEMPTS ==> #[trigger] actions[i] is ProbeAgain,
        forall|i: int| 0 <= i < actions.len() && i >= POLL_ATTEMPTS ==> #[trigger] actions[i] is TimedOut,
{
    assert forall|i: int| 0 <= i < actions.len() implies (i < POLL_ATTEMPTS ==> #[trigger] actions[i] is ProbeAgain)
        && (i >= POLL_ATTEMPTS ==> actions[i] is TimedOut) by {
        lemma_probe_prefix(counts, actions, i);
        assert(probe_step(counts[i], counts[i + 1], false, actions[i]));
    }
}

/// A wait for readiness makes at most [`POLL_ATTEMPTS`] probes, each after a
/// pause of [`POLL_INTERVAL_MS`]: five seconds in all, the time that its
/// timeout error names.
pub proof fn law_wait_budget()
    ensures
        POLL_ATTEMPTS as int * POLL_INTERVAL_MS as int == 5000,
{
}

/// The error of a wait that ran out of probes.
pub fn timed_out(what: &str) -> (e: BrowserError)
    ensures
        e matches BrowserError::Timeout(m) && m@ == what@,
{
    BrowserError::Timeout(String::from_str(what))
}

} // verus!
