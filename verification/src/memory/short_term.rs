//! Short-term memory: a bounded, time-limited queue of recent entries.
use super::types::{entry_views, kind_name, MemoryEntry, MemoryEntryView, MemoryKind};
use crate::text::{join, join_exec, owned, push_str, views};
use std::collections::VecDeque;
use crate::seqs::lemma_filter_push;
use vstd::prelude::*;

verus! {

/// `a - b`, saturated to the `i64` range.
pub open spec fn sat_sub_i64(a: i64, b: i64) -> i64 {
    let d = a - b;
    if d < i64::MIN {
        i64::MIN
    } else if d > i64::MAX {
        i64::MAX
    } else {
        d as i64
    }
}

/// `a - b`, saturated to the `i64` range.
pub fn sat_sub_i64_exec(a: i64, b: i64) -> (r: i64)
    ensures
        r == sat_sub_i64(a, b),
{
    let d = (a as i128) - (b as i128);
    if d < i64::MIN as i128 {
        i64::MIN
    } else if d > i64::MAX as i128 {
        i64::MAX
    } else {
        d as i64
    }
}

/// Drops entries from the front while they are older than `cutoff`.
pub open spec fn drop_expired(s: Seq<MemoryEntryView>, cutoff: i64) -> Seq<MemoryEntryView>
    decreases s.len(),
{
    if s.len() > 0 && s[0].timestamp < cutoff {
        drop_expired(s.drop_first(), cutoff)
    } else {
        s
    }
}

/// The last `max` entries.
pub open spec fn keep_last(s: Seq<MemoryEntryView>, max: nat) -> Seq<MemoryEntryView> {
    if s.len() > max {
        s.subrange(s.len() - max, s.len() as int)
    } else {
        s
    }
}

/// Eviction: expired entries leave from the front, then the oldest until `max` remain.
pub open spec fn evicted(s: Seq<MemoryEntryView>, cutoff: i64, max: nat) -> Seq<MemoryEntryView> {
    keep_last(drop_expired(s, cutoff), max)
}

/// What remains after dropping expired entries is a suffix, and keeps the newest entry
/// when it is not expired.
proof fn lemma_drop_expired(s: Seq<MemoryEntryView>, cutoff: i64)
    ensures
        drop_expired(s, cutoff) == s.skip(s.len() - drop_expired(s, cutoff).len()),
        drop_expired(s, cutoff).len() <= s.len(),
        s.len() > 0 && s.last().timestamp >= cutoff ==> drop_expired(s, cutoff).len() > 0,
    decreases s.len(),
{
    if s.len() > 0 && s[0].timestamp < cutoff {
        lemma_drop_expired(s.drop_first(), cutoff);
        let d = drop_expired(s.drop_first(), cutoff);
        assert(s.drop_first().skip(s.drop_first().len() - d.len()) =~= s.skip(s.len() - d.len()));
        if s.len() > 1 {
            assert(s.drop_first().last() == s.last());
        }
    } else {
        assert(s.skip(0) =~= s);
    }
}

/// Short-term memory stays within its capacity, keeps a suffix of what it held (the oldest
/// entries leave first), and keeps the newest entry when it is not expired and the capacity
/// is not zero.
pub proof fn law_short_term_bounded(s: Seq<MemoryEntryView>, cutoff: i64, max: nat)
    ensures
        evicted(s, cutoff, max).len() <= max,
        evicted(s, cutoff, max) == s.skip(s.len() - evicted(s, cutoff, max).len()),
        max > 0 && s.len() > 0 && s.last().timestamp >= cutoff ==> evicted(s, cutoff, max).last() == s.last(),
{
    lemma_drop_expired(s, cutoff);
    let d = drop_expired(s, cutoff);
    let e = evicted(s, cutoff, max);
    if d.len() > max {
        assert(d.subrange(d.len() - max, d.len() as int) =~= d.skip(d.len() - max));
        assert(s.skip(s.len() - d.len()).skip(d.len() - max) =~= s.skip(s.len() - max));
    }
    if max > 0 && s.len() > 0 && s.last().timestamp >= cutoff {
        assert(d.last() == s.last());
        assert(e.last() == d.last());
    }
}

/// The entries of one kind, in order.
pub open spec fn only_kind(s: Seq<MemoryEntryView>, k: MemoryKind) -> Seq<MemoryEntryView> {
    s.filter(|e: MemoryEntryView| e.kind == k)
}

/// The entries of any other kind, in order.
pub open spec fn other_kinds(s: Seq<MemoryEntryView>, k: MemoryKind) -> Seq<MemoryEntryView> {
    s.filter(|e: MemoryEntryView| e.kind != k)
}

/// The entries at or after `ts`, in order.
pub open spec fn at_or_after(s: Seq<MemoryEntryView>, ts: i64) -> Seq<MemoryEntryView> {
    s.filter(|e: MemoryEntryView| e.timestamp >= ts)
}

/// The line `- [kind] content`.
pub open spec fn kind_line(e: MemoryEntryView) -> Seq<char> {
    "- ["@ + kind_name(e.kind) + "] "@ + e.content
}

/// The summary text: `(空)` when empty, else one `- [kind] content` line per entry.
pub open spec fn summary_text(s: Seq<MemoryEntryView>) -> Seq<char> {
    if s.len() == 0 {
        "(空)"@
    } else {
        join(s.map_values(|e: MemoryEntryView| kind_line(e)), "\n"@)
    }
}

/// Recent entries, oldest first, bounded in number and in age.
pub struct ShortTermMemory {
    entries: VecDeque<MemoryEntry>,
    max_entries: usize,
    max_age_ms: i64,
}

impl View for ShortTermMemory {
    type V = Seq<MemoryEntryView>;

    closed spec fn view(&self) -> Seq<MemoryEntryView> {
        entry_views(self.entries@)
    }
}

/// Appends the `- [kind] content` line of an entry.
pub fn kind_line_exec(e: &MemoryEntry) -> (s: String)
    ensures
        s@ == kind_line(e@),
{
    let mut s = owned("- [");
    push_str(&mut s, e.kind.as_str());
    push_str(&mut s, "] ");
    push_str(&mut s, e.content.as_str());
    s
}

impl ShortTermMemory {
    /// The capacity.
    pub closed spec fn capacity(&self) -> nat {
        self.max_entries as nat
    }

    /// The maximum age of an entry, in milliseconds.
    pub closed spec fn max_age(&self) -> i64 {
        self.max_age_ms
    }

    /// An empty memory with the given limits.
    pub fn new(max_entries: usize, max_age_ms: i64) -> (m: Self)
        ensures
            m@ == Seq::<MemoryEntryView>::empty(),
            m.capacity() == max_entries,
            m.max_age() == max_age_ms,
    {
        let m = ShortTermMemory { entries: VecDeque::new(), max_entries, max_age_ms };
        assert(entry_views(m.entries@) =~= Seq::<MemoryEntryView>::empty());
        m
    }

    /// Pushes an entry and evicts, the entry's own time being the present: entries older
    /// than `max_age` before it leave from the front, then the oldest ones beyond capacity.
    pub fn push(&mut self, entry: MemoryEntry)
        ensures
            final(self)@ == evicted(
                old(self)@.push(entry@),
                sat_sub_i64(entry.timestamp, old(self).max_age()),
                old(self).capacity(),
            ),
            final(self).capacity() == old(self).capacity(),
            final(self).max_age() == old(self).max_age(),
    {
        let now = entry.timestamp;
        self.push_at(entry, now);
    }

    /// Pushes an entry, then drops the entries older than `max_age` before `now` from the
    /// front and, if still over capacity, the oldest ones.
    pub fn push_at(&mut self, entry: MemoryEntry, now: i64)
        ensures
            final(self)@ == evicted(
                old(self)@.push(entry@),
                sat_sub_i64(now, old(self).max_age()),
                old(self).capacity(),
            ),
            final(self).capacity() == old(self).capacity(),
            final(self).max_age() == old(self).max_age(),
    {
        let ghost e = entry@;
        self.entries.push_back(entry);
        assert(entry_views(self.entries@) =~= entry_views(old(self).entries@).push(e));
        self.evict(now);
    }

    /// The last `n` entries (all of them when there are fewer), oldest first.
    pub fn recent(&self, n: usize) -> (r: Vec<MemoryEntry>)
        ensures
            entry_views(r@) == self@.subrange(
                if n < self@.len() {
                    self@.len() - n
                } else {
                    0
                },
                self@.len() as int,
            ),
    {
        let len = self.entries.len();
        let start = if n < len {
            len - n
        } else {
            0
        };
        let mut r: Vec<MemoryEntry> = Vec::new();
        let mut i = start;
        while i < len
            invariant
                len == self.entries@.len(),
                start <= i <= len,
                entry_views(r@) == entry_views(self.entries@).subrange(start as int, i as int),
            decreases len - i,
        {
            let ghost before = r@;
            r.push(self.entries[i].duplicate());
            assert(entry_views(r@) =~= entry_views(before).push(self.entries@[i as int]@));
            assert(entry_views(self.entries@).subrange(start as int, i + 1) =~= entry_views(
                self.entries@,
            ).subrange(start as int, i as int).push(self.entries@[i as int]@));
            i = i + 1;
        }
        r
    }

    /// Copies of the entries that pass a test on the view, in order (used by the filters).
    fn select(&self, which: u8, k: MemoryKind, ts: i64) -> (r: Vec<MemoryEntry>)
        requires
            which < 3,
        ensures
            which == 0 ==> entry_views(r@) == only_kind(self@, k),
            which == 1 ==> entry_views(r@) == other_kinds(self@, k),
            which == 2 ==> entry_views(r@) == at_or_after(self@, ts),
    {
        let ghost f = if which == 0 {
            |e: MemoryEntryView| e.kind == k
        } else if which == 1 {
            |e: MemoryEntryView| e.kind != k
        } else {
            |e: MemoryEntryView| e.timestamp >= ts
        };
        let ghost all = entry_views(self.entries@);
        let mut r: Vec<MemoryEntry> = Vec::new();
        let mut i: usize = 0;
        while i < self.entries.len()
            invariant
                all == entry_views(self.entries@),
                i <= self.entries@.len(),
                which < 3,
                f == (if which == 0 {
                    |e: MemoryEntryView| e.kind == k
                } else if which == 1 {
                    |e: MemoryEntryView| e.kind != k
                } else {
                    |e: MemoryEntryView| e.timestamp >= ts
                }),
                entry_views(r@) == all.take(i as int).filter(f),
            decreases self.entries@.len() - i,
        {
            let e = &self.entries[i];
            let keep = if which == 0 {
                e.kind == k
            } else if which == 1 {
                e.kind != k
            } else {
                e.timestamp >= ts
            };
            proof {
                lemma_filter_push(all.take(i as int), f, all[i as int]);
                assert(all.take(i + 1) =~= all.take(i as int).push(all[i as int]));
            }
            if keep {
                let ghost before = r@;
                r.push(e.duplicate());
                assert(entry_views(r@) =~= entry_views(before).push(e@));
            }
            i = i + 1;
        }
        assert(all.take(self.entries@.len() as int) =~= all);
        r
    }

    /// Copies of the conversation entries, in order.
    pub fn conversations(&self) -> (r: Vec<MemoryEntry>)
        ensures
            entry_views(r@) == only_kind(self@, MemoryKind::Conversation),
    {
        self.select(0, MemoryKind::Conversation, 0)
    }

    /// Copies of the entries of any kind but `Conversation`, in order.
    pub fn non_conversations(&self) -> (r: Vec<MemoryEntry>)
        ensures
            entry_views(r@) == other_kinds(self@, MemoryKind::Conversation),
    {
        self.select(1, MemoryKind::Conversation, 0)
    }

    /// Copies of the entries recorded at or after `ts`, in order.
    pub fn since(&self, ts: i64) -> (r: Vec<MemoryEntry>)
        ensures
            entry_views(r@) == at_or_after(self@, ts),
    {
        self.select(2, MemoryKind::Observation, ts)
    }

    /// The number of entries.
    pub fn len(&self) -> (n: usize)
        ensures
            n == self@.len(),
    {
        self.entries.len()
    }

    /// Copies of all entries, oldest first.
    pub fn all(&self) -> (r: Vec<MemoryEntry>)
        ensures
            entry_views(r@) == self@,
    {
        let r = self.recent(self.entries.len());
        assert(self@.subrange(0, self@.len() as int) =~= self@);
        r
    }

    /// A short text listing every entry, for prompts.
    pub fn summary(&self) -> (s: String)
        ensures
            s@ == summary_text(self@),
    {
        if self.entries.len() == 0 {
            return owned("(空)");
        }
        let ghost all = entry_views(self.entries@);
        let ghost lines = all.map_values(|e: MemoryEntryView| kind_line(e));
        let mut out: Vec<String> = Vec::new();
        let mut i: usize = 0;
        while i < self.entries.len()
            invariant
                all == entry_views(self.entries@),
                lines == all.map_values(|e: MemoryEntryView| kind_line(e)),
                i <= self.entries@.len(),
                views(out@) == lines.take(i as int),
            decreases self.entries@.len() - i,
        {
            let ghost before = out@;
            out.push(kind_line_exec(&self.entries[i]));
            assert(views(out@) =~= views(before).push(lines[i as int]));
            assert(lines.take(i + 1) =~= lines.take(i as int).push(lines[i as int]));
            i = i + 1;
        }
        assert(lines.take(self.entries@.len() as int) =~= lines);
        join_exec(&out, "\n")
    }

    /// Drops expired entries from the front, then the oldest ones beyond capacity.
    fn evict(&mut self, now: i64)
        ensures
            final(self)@ == evicted(old(self)@, sat_sub_i64(now, old(self).max_age()), old(self).capacity()),
            final(self).capacity() == old(self).capacity(),
            final(self).max_age() == old(self).max_age(),
    {
        let cutoff = sat_sub_i64_exec(now, self.max_age_ms);
        let ghost orig = entry_views(self.entries@);
        while self.entries.len() > 0 && self.entries[0].timestamp < cutoff
            invariant
                drop_expired(entry_views(self.entries@), cutoff) == drop_expired(orig, cutoff),
                self.max_entries == old(self).max_entries,
                self.max_age_ms == old(self).max_age_ms,
            decreases self.entries@.len(),
        {
            let ghost before = entry_views(self.entries@);
            let _ = self.entries.pop_front();
            assert(entry_views(self.entries@) =~= before.drop_first());
        }
        assert(drop_expired(entry_views(self.entries@), cutoff) == entry_views(self.entries@));
        let ghost kept = entry_views(self.entries@);
        while self.entries.len() > self.max_entries
            invariant
                self.max_entries == old(self).max_entries,
                self.max_age_ms == old(self).max_age_ms,
                keep_last(entry_views(self.entries@), self.max_entries as nat) == keep_last(
                    kept,
                    self.max_entries as nat,
                ),
            decreases self.entries@.len(),
        {
            let ghost before = entry_views(self.entries@);
            let _ = self.entries.pop_front();
            assert(entry_views(self.entries@) =~= before.drop_first());
            assert(keep_last(entry_views(self.entries@), self.max_entries as nat) =~= keep_last(
                before,
                self.max_entries as nat,
            ));
        }
    }
}

} // verus!
