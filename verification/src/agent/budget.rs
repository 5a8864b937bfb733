//! Rate limiting for the agent loop: a sliding one-minute window and a minimum spacing.
use vstd::prelude::*;

verus! {

/// Length of the sliding window, in milliseconds.
pub const WINDOW_MS: u64 = 60000;

/// `now.saturating_sub(ts)`.
pub open spec fn age(now: u64, ts: u64) -> u64 {
    if now >= ts {
        (now - ts) as u64
    } else {
        0
    }
}

/// The timestamp lies inside the window that ends at `now`.
pub open spec fn in_window(now: u64, ts: u64) -> bool {
    age(now, ts) < WINDOW_MS
}

/// How many timestamps lie inside the window that ends at `now`.
pub open spec fn count_in_window(ts: Seq<u64>, now: u64) -> nat
    decreases ts.len(),
{
    if ts.len() == 0 {
        0
    } else {
        count_in_window(ts.drop_last(), now) + if in_window(now, ts.last()) {
            1nat
        } else {
            0nat
        }
    }
}

/// The timestamps inside the window that ends at `now`, in their order.
pub open spec fn keep_in_window(ts: Seq<u64>, now: u64) -> Seq<u64>
    decreases ts.len(),
{
    if ts.len() == 0 {
        Seq::empty()
    } else if in_window(now, ts.last()) {
        keep_in_window(ts.drop_last(), now).push(ts.last())
    } else {
        keep_in_window(ts.drop_last(), now)
    }
}

/// Call limits of one agent run and the record of recent calls.
pub struct AgentBudget {
    pub max_steps: u32,
    pub max_calls_per_minute: u32,
    pub min_call_interval_ms: u64,
    pub calls_timestamps: Vec<u64>,
}

impl AgentBudget {
    /// Whether a new call is allowed at time `now`: fewer than `max_calls_per_minute` calls in
    /// the last minute, and at least `min_call_interval_ms` since the last recorded call.
    pub open spec fn allows(&self, now: u64) -> bool {
        let ts = self.calls_timestamps@;
        &&& (count_in_window(ts, now) as u32) < self.max_calls_per_minute
        &&& (ts.len() > 0 ==> age(now, ts.last()) >= self.min_call_interval_ms)
    }

    /// The default limits: five steps, three calls a minute, fifteen seconds apart.
    pub fn new() -> (b: Self)
        ensures
            b.max_steps == 5,
            b.max_calls_per_minute == 3,
            b.min_call_interval_ms == 15000,
            b.calls_timestamps@ == Seq::<u64>::empty(),
    {
        AgentBudget {
            max_steps: 5,
            max_calls_per_minute: 3,
            min_call_interval_ms: 15000,
            calls_timestamps: Vec::new(),
        }
    }

    /// Whether a new call is allowed now, by the system clock.
    pub fn check(&self) -> (ok: bool)
        ensures
            exists|now: u64| ok == self.allows(now),
    {
        let now = crate::clock::now_millis();
        self.check_at(now)
    }

    /// Whether a new call is allowed at time `now`.
    pub fn check_at(&self, now: u64) -> (ok: bool)
        ensures
            ok == self.allows(now),
    {
        let ts = &self.calls_timestamps;
        let mut recent: usize = 0;
        let mut i: usize = 0;
        while i < ts.len()
            invariant
                i <= ts.len(),
                recent == count_in_window(ts@.take(i as int), now),
                recent <= i,
            decreases ts.len() - i,
        {
            assert(ts@.take(i + 1).drop_last() == ts@.take(i as int));
            let t = ts[i];
            let a = if now >= t {
                now - t
            } else {
                0
            };
            if a < WINDOW_MS {
                recent = recent + 1;
            }
            i = i + 1;
        }
        assert(ts@.take(ts.len() as int) == ts@);
        if (recent as u32) >= self.max_calls_per_minute {
            return false;
        }
        if ts.len() > 0 {
            let last = ts[ts.len() - 1];
            let a = if now >= last {
                now - last
            } else {
                0
            };
            if a < self.min_call_interval_ms {
                return false;
            }
        }
        true
    }

    /// Records one call at the system clock's time and forgets calls older than a minute.
    pub fn consume(&mut self)
        ensures
            exists|now: u64|
                final(self).calls_timestamps@ == keep_in_window(
                    old(self).calls_timestamps@.push(now),
                    now,
                ),
            final(self).max_steps == old(self).max_steps,
            final(self).max_calls_per_minute == old(self).max_calls_per_minute,
            final(self).min_call_interval_ms == old(self).min_call_interval_ms,
    {
        let now = crate::clock::now_millis();
        self.consume_at(now);
    }

    /// Records one call at time `now` and forgets calls older than a minute.
    pub fn consume_at(&mut self, now: u64)
        ensures
            final(self).calls_timestamps@ == keep_in_window(old(self).calls_timestamps@.push(now), now),
            final(self).max_steps == old(self).max_steps,
            final(self).max_calls_per_minute == old(self).max_calls_per_minute,
            final(self).min_call_interval_ms == old(self).min_call_interval_ms,
    {
        self.calls_timestamps.push(now);
        self.prune_at(now);
    }

    /// Forgets the calls that lie outside the window that ends at `now`.
    fn prune_at(&mut self, now: u64)
        ensures
            final(self).calls_timestamps@ == keep_in_window(old(self).calls_timestamps@, now),
            final(self).max_steps == old(self).max_steps,
            final(self).max_calls_per_minute == old(self).max_calls_per_minute,
            final(self).min_call_interval_ms == old(self).min_call_interval_ms,
    {
        let mut kept: Vec<u64> = Vec::new();
        let mut i: usize = 0;
        while i < self.calls_timestamps.len()
            invariant
                i <= self.calls_timestamps.len(),
                kept@ == keep_in_window(self.calls_timestamps@.take(i as int), now),
            decreases self.calls_timestamps.len() - i,
        {
            assert(self.calls_timestamps@.take(i + 1).drop_last() == self.calls_timestamps@.take(i as int));
            let t = self.calls_timestamps[i];
            let a = if now >= t {
                now - t
            } else {
                0
            };
            if a < WINDOW_MS {
                kept.push(t);
            }
            i = i + 1;
        }
        assert(self.calls_timestamps@.take(self.calls_timestamps.len() as int) == self.calls_timestamps@);
        self.calls_timestamps = kept;
    }
}

/// Keeping the calls inside the window does not change how many lie inside it.
proof fn lemma_keep_count(ts: Seq<u64>, now: u64)
    ensures
        count_in_window(keep_in_window(ts, now), now) == count_in_window(ts, now),
        keep_in_window(ts, now).len() <= ts.len(),
    decreases ts.len(),
{
    if ts.len() > 0 {
        lemma_keep_count(ts.drop_last(), now);
        let k = keep_in_window(ts.drop_last(), now);
        if in_window(now, ts.last()) {
            assert(k.push(ts.last()).drop_last() =~= k);
        }
    }
}

/// How many calls lie inside a window is at most how many calls there are.
proof fn lemma_count_bound(ts: Seq<u64>, now: u64)
    ensures
        count_in_window(ts, now) <= ts.len(),
    decreases ts.len(),
{
    if ts.len() > 0 {
        lemma_count_bound(ts.drop_last(), now);
    }
}

/// Spacing: once a call is recorded at `t`, no call is allowed until the minimum interval
/// has passed.
pub proof fn law_min_interval(before: AgentBudget, after: AgentBudget, t: u64, now: u64)
    requires
        after.calls_timestamps@ == keep_in_window(before.calls_timestamps@.push(t), t),
        age(now, t) < after.min_call_interval_ms,
    ensures
        !after.allows(now),
{
    let s = before.calls_timestamps@.push(t);
    assert(s.drop_last() =~= before.calls_timestamps@);
    assert(in_window(t, s.last()));
    assert(after.calls_timestamps@.last() == t);
}

/// The window limit: a call made when the budget allows it leaves at most
/// `max_calls_per_minute` calls in the minute that ends with it.
pub proof fn law_window_limit(before: AgentBudget, after: AgentBudget, t: u64)
    requires
        before.calls_timestamps@.len() < u32::MAX,
        before.allows(t),
        after.calls_timestamps@ == keep_in_window(before.calls_timestamps@.push(t), t),
        after.max_calls_per_minute == before.max_calls_per_minute,
    ensures
        count_in_window(after.calls_timestamps@, t) <= after.max_calls_per_minute,
{
    let s = before.calls_timestamps@.push(t);
    assert(s.drop_last() =~= before.calls_timestamps@);
    lemma_keep_count(s, t);
    lemma_count_bound(before.calls_timestamps@, t);
    assert(count_in_window(s, t) == count_in_window(before.calls_timestamps@, t) + 1);
}

} // verus!
