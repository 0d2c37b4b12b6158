//! The invocation gate.
//!
//! Every call of the hooked scheduler-run function is observed; this state machine
//! decides whether that observation triggers a snapshot. Two independent
//! policies run on each observation: startup-phase labels dump every time,
//! and any label dumps once per world incarnation after a configured delay
//! has elapsed since arming. A dump that failed is not recorded, so the
//! next invocation of that label retries.

use vstd::prelude::*;

use crate::text::str_eq;

verus! {

/// One dedup entry of the delayed-once policy: this world incarnation has
/// had this schedule label dumped.
pub struct RanKey {
    pub world_id: u64,
    pub label: String,
}

/// The arming data the orchestrator hands in at attach time: the arming
/// instant, the delay threshold, and the timestamp-derived name of the
/// dump root.
pub struct Armed {
    pub at_ms: i64,
    pub delay_ms: i64,
    pub stamp: String,
}

/// The whole trigger state: created at attach, mutated on every hooked
/// call, never persisted.
pub struct Gate {
    pub armed: Option<Armed>,
    pub ran: Vec<RanKey>,
}

/// What one observation decided: each policy independently.
#[derive(Debug, PartialEq, Eq, Structural, Clone, Copy)]
pub struct Decision {
    pub startup: bool,
    pub delayed: bool,
}

/// The fixed recognized set of startup-phase schedule labels.
pub open spec fn is_startup_label(label: Seq<char>) -> bool {
    label == "PreStartup"@ || label == "Startup"@ || label == "PostStartup"@
}

/// Whether this (world identity, label) pair was recorded as dumped.
pub open spec fn has_ran(ran: Seq<RanKey>, world_id: u64, label: Seq<char>) -> bool {
    exists|i: int| 0 <= i < ran.len() && ran[i].world_id == world_id && ran[i].label@ == label
}

/// Whether the configured delay has elapsed; an unarmed gate is never due.
pub open spec fn delayed_due(g: Gate, now_ms: i64) -> bool {
    match g.armed {
        Some(a) => now_ms - a.at_ms >= a.delay_ms,
        None => false,
    }
}

/// Whether the delayed-once policy fires: the delay has elapsed and this
/// pair was not yet recorded.
pub open spec fn delayed_triggers(g: Gate, world_id: u64, label: Seq<char>, now_ms: i64) -> bool {
    delayed_due(g, now_ms) && !has_ran(g.ran@, world_id, label)
}

/// The name of the dump root: the arming timestamp, or a fixed fallback
/// while unarmed.
pub open spec fn spec_dump_root(g: Gate) -> Seq<char> {
    match g.armed {
        Some(a) => a.stamp@,
        None => "dump"@,
    }
}

/// What one observation decides, as a value: the startup policy by the
/// label alone, the delayed-once policy by elapsed time and the recorded
/// set.
pub open spec fn spec_decide(g: Gate, world_id: u64, label: Seq<char>, now_ms: i64) -> Decision {
    Decision {
        startup: is_startup_label(label),
        delayed: delayed_triggers(g, world_id, label, now_ms),
    }
}

/// Relies on std::time::SystemTime::now and duration_since: the current
/// time in milliseconds since the Unix epoch. A clock before the epoch
/// reads as zero and one beyond the representable range saturates, so the
/// read never unwinds into the host. Nothing is promised of the value.
#[verifier::external_body]
fn now_millis() -> i64 {
    match std::time::SystemTime::now().duration_since(std::time::UNIX_EPOCH) {
        Ok(d) => i64::try_from(d.as_millis()).unwrap_or(i64::MAX),
        Err(_) => 0,
    }
}

/// Relies on std::time::SystemTime::now and duration_since for the instant
/// and on chrono::DateTime::from_timestamp with NaiveDateTime::format for
/// the rendering: the current time as a directory-name-safe timestamp. A
/// clock before the epoch or outside chrono's range falls back to a fixed
/// name, so the read never unwinds into the host. Nothing is promised of
/// the value.
#[verifier::external_body]
fn now_timestamp() -> String {
    let secs = match std::time::SystemTime::now().duration_since(std::time::UNIX_EPOCH) {
        Ok(d) => i64::try_from(d.as_secs()).unwrap_or(i64::MAX),
        Err(_) => 0,
    };
    match chrono::DateTime::from_timestamp(secs, 0) {
        Some(t) => t.naive_utc().format("%Y-%m-%d-%H-%M-%S").to_string(),
        None => String::from("dump"),
    }
}

/// Tests a label against the fixed startup set.
pub fn startup_label(label: &str) -> (r: bool)
    ensures
        r == is_startup_label(label@),
{
    str_eq(label, "PreStartup") || str_eq(label, "Startup") || str_eq(label, "PostStartup")
}

impl Gate {
    /// A fresh gate: unarmed, nothing recorded.
    pub fn new() -> (g: Gate)
        ensures
            g.armed is None,
            g.ran@.len() == 0,
    {
        Gate { armed: None, ran: Vec::new() }
    }

    /// Arms with explicit clock readings: from `at_ms` on, the
    /// delayed policy fires once `delay_ms` has elapsed; `stamp` names the
    /// dump root.
    pub fn arm_at(&mut self, at_ms: i64, delay_ms: i64, stamp: String)
        ensures
            final(self).armed == Some(Armed { at_ms, delay_ms, stamp }),
            final(self).ran == old(self).ran,
    {
        self.armed = Some(Armed { at_ms, delay_ms, stamp });
    }

    /// Arms now: reads the clock for the armed-at instant and the
    /// dump-root timestamp. Whatever the clock returned, arming holds
    /// with the given delay and the recorded set is untouched.
    pub fn arm(&mut self, delay_ms: i64)
        ensures
            final(self).armed matches Some(a) && a.delay_ms == delay_ms,
            final(self).ran == old(self).ran,
    {
        let at_ms = now_millis();
        let stamp = now_timestamp();
        self.arm_at(at_ms, delay_ms, stamp);
    }

    /// The name of the dump root: the arming timestamp, or a fixed
    /// fallback while unarmed.
    pub fn dump_root(&self) -> (r: String)
        ensures
            r@ == spec_dump_root(*self),
    {
        match &self.armed {
            Some(a) => a.stamp.clone(),
            None => String::from_str("dump"),
        }
    }

    /// Whether this (world identity, label) pair is already recorded.
    pub fn has_ran_key(&self, world_id: u64, label: &str) -> (r: bool)
        ensures
            r == has_ran(self.ran@, world_id, label@),
    {
        let n = self.ran.len();
        let mut i: usize = 0;
        while i < n
            invariant
                i <= n,
                n == self.ran@.len(),
                forall|j: int|
                    0 <= j < i ==> !(self.ran@[j].world_id == world_id && self.ran@[j].label@
                        == label@),
            decreases n - i,
        {
            if self.ran[i].world_id == world_id && str_eq(self.ran[i].label.as_str(), label) {
                return true;
            }
            i += 1;
        }
        false
    }

    /// Evaluates both trigger policies for one observed call: the startup
    /// policy by the label alone, the delayed-once policy by elapsed time
    /// and the recorded set.
    pub fn decide(&self, world_id: u64, label: &str, now_ms: i64) -> (d: Decision)
        ensures
            d == spec_decide(*self, world_id, label@, now_ms),
            d.startup == is_startup_label(label@),
            d.delayed == delayed_triggers(*self, world_id, label@, now_ms),
    {
        let startup = startup_label(label);
        let due = match &self.armed {
            Some(a) => (now_ms as i128) - (a.at_ms as i128) >= (a.delay_ms as i128),
            None => false,
        };
        let delayed = due && !self.has_ran_key(world_id, label);
        Decision { startup, delayed }
    }

    /// Records one (world identity, label) pair as dumped by the delayed
    /// policy: everything already recorded stays, this pair is appended.
    pub fn record(&mut self, world_id: u64, label: &str)
        ensures
            final(self).armed == old(self).armed,
            final(self).ran@.len() == old(self).ran@.len() + 1,
            final(self).ran@[old(self).ran@.len() as int].world_id == world_id,
            final(self).ran@[old(self).ran@.len() as int].label@ == label@,
            forall|i: int| 0 <= i < old(self).ran@.len() ==> final(self).ran@[i] == old(
                self,
            ).ran@[i],
    {
        self.ran.push(RanKey { world_id, label: String::from_str(label) });
    }

    /// Applies one dump attempt's outcome: a successful delayed dump is
    /// recorded; a failed one, or a purely startup-triggered one, changes
    /// nothing — so a failed delayed dump is retried on the next
    /// invocation of that label.
    pub fn record_outcome(&mut self, world_id: u64, label: &str, delayed: bool, success: bool)
        ensures
            delayed && success ==> {
                &&& final(self).armed == old(self).armed
                &&& final(self).ran@.len() == old(self).ran@.len() + 1
                &&& final(self).ran@[old(self).ran@.len() as int].world_id == world_id
                &&& final(self).ran@[old(self).ran@.len() as int].label@ == label@
                &&& forall|i: int| 0 <= i < old(self).ran@.len() ==> final(self).ran@[i] == old(
                    self,
                ).ran@[i]
            },
            !(delayed && success) ==> *final(self) == *old(self),
    {
        if delayed && success {
            self.record(world_id, label);
        }
    }
}

/// The startup policy is stateless: whether it fires depends on the label
/// alone, never on the trigger state, the world identity, the clock, or
/// what was already dumped — so a startup-phase label dumps on every
/// single call, and a label outside the set never dumps through it.
pub proof fn lemma_startup_every_call(
    g1: Gate,
    g2: Gate,
    w1: u64,
    w2: u64,
    label: Seq<char>,
    now1: i64,
    now2: i64,
)
    ensures
        spec_decide(g1, w1, label, now1).startup == spec_decide(g2, w2, label, now2).startup,
        spec_decide(g1, w1, label, now1).startup == is_startup_label(label),
{
}

/// Once a (world identity, label) pair is recorded, the delayed policy
/// never fires for it again, at any time; every other pair is exactly as
/// eligible as before.
pub proof fn lemma_delayed_once(g_before: Gate, g_after: Gate, world_id: u64, label: Seq<char>)
    requires
        g_after.armed == g_before.armed,
        g_after.ran@.len() == g_before.ran@.len() + 1,
        g_after.ran@[g_before.ran@.len() as int].world_id == world_id,
        g_after.ran@[g_before.ran@.len() as int].label@ == label,
        forall|i: int| 0 <= i < g_before.ran@.len() ==> g_after.ran@[i] == g_before.ran@[i],
    ensures
        forall|now: i64| !delayed_triggers(g_after, world_id, label, now),
        forall|w: u64, l: Seq<char>, now: i64|
            !(w == world_id && l == label) ==> delayed_triggers(g_after, w, l, now)
                == delayed_triggers(g_before, w, l, now),
{
    let n = g_before.ran@.len() as int;
    assert(g_after.ran@[n].world_id == world_id && g_after.ran@[n].label@ == label);
    assert(has_ran(g_after.ran@, world_id, label));
    assert forall|w: u64, l: Seq<char>|
        !(w == world_id && l == label) implies has_ran(g_after.ran@, w, l) == has_ran(
        g_before.ran@,
        w,
        l,
    ) by {
        if has_ran(g_before.ran@, w, l) {
            let i = choose|i: int|
                0 <= i < g_before.ran@.len() && g_before.ran@[i].world_id == w
                    && g_before.ran@[i].label@ == l;
            assert(g_after.ran@[i].world_id == w && g_after.ran@[i].label@ == l);
        }
        if has_ran(g_after.ran@, w, l) {
            let i = choose|i: int|
                0 <= i < g_after.ran@.len() && g_after.ran@[i].world_id == w
                    && g_after.ran@[i].label@ == l;
            if i < n {
                assert(g_before.ran@[i].world_id == w && g_before.ran@[i].label@ == l);
            }
        }
    }
}

/// A world incarnation with nothing recorded — in particular a freshly
/// recreated world under a new identity — is eligible for a delayed dump
/// of any label as soon as the delay has elapsed.
pub proof fn lemma_fresh_world_eligible(g: Gate, w: u64, label: Seq<char>, now: i64)
    requires
        delayed_due(g, now),
        forall|i: int| 0 <= i < g.ran@.len() ==> g.ran@[i].world_id != w,
    ensures
        delayed_triggers(g, w, label, now),
{
    assert(!has_ran(g.ran@, w, label));
}

} // verus!
