//! The memory system: short-term queue, long-term store, digestion and retrieval.
pub mod digest;
pub mod long_term;
pub mod retrieval;
pub mod short_term;
pub mod types;

use crate::sort::{is_stable_desc_order, stable_desc_order};
use crate::text::str_eq;
use long_term::LongTermMemory;
use short_term::{evicted, sat_sub_i64, ShortTermMemory};
use types::{entry_views, kind_name, MemoryEntry, MemoryEntryView, MemoryKind, Metadata};
use crate::seqs::lemma_filter_push;
use vstd::prelude::*;

verus! {

pub const DEFAULT_MAX_ENTRIES: usize = 100;

pub const DEFAULT_MAX_AGE_MS: i64 = 7200000;

pub const DIGEST_MIN_ENTRIES: usize = 20;

pub const DIGEST_MIN_INTERVAL_MS: i64 = 1800000;

/// A new entry goes to long-term memory too: a conversation of importance at least 0.3, or
/// a decision of importance at least 0.5.
pub open spec fn promoted(kind: MemoryKind, importance_milli: i64) -> bool {
    (kind == MemoryKind::Conversation && importance_milli >= 300) || (kind == MemoryKind::Decision
        && importance_milli >= 500)
}

/// The memories to display: short-term then long-term entries, those of the named kind
/// when a kind is given.
pub open spec fn listed(all: Seq<MemoryEntryView>, kind: Option<Seq<char>>) -> Seq<MemoryEntryView> {
    match kind {
        Some(k) => all.filter(|e: MemoryEntryView| kind_name(e.kind) == k),
        None => all,
    }
}

/// The timestamps of a sequence of entries.
pub open spec fn timestamps(s: Seq<MemoryEntryView>) -> Seq<i128> {
    s.map_values(|e: MemoryEntryView| e.timestamp as i128)
}

/// `r` is `s` in stable order of descending timestamp, cut to `limit` entries.
pub open spec fn newest_first(s: Seq<MemoryEntryView>, limit: nat, r: Seq<MemoryEntryView>) -> bool {
    exists|p: Seq<usize>|
        #![trigger is_stable_desc_order(timestamps(s), p)]
        is_stable_desc_order(timestamps(s), p) && r == p.take(
            if limit < s.len() {
                limit as int
            } else {
                s.len() as int
            },
        ).map_values(|j: usize| s[j as int])
}

/// The memories listed newest first are at most `limit`, in order of non-increasing time.
pub proof fn law_newest_first(s: Seq<MemoryEntryView>, limit: nat, r: Seq<MemoryEntryView>)
    requires
        newest_first(s, limit, r),
    ensures
        r.len() <= limit,
        r.len() <= s.len(),
        forall|i: int, j: int| 0 <= i < j < r.len() ==> r[i].timestamp >= r[j].timestamp,
{
    let p = choose|p: Seq<usize>|
        #![trigger is_stable_desc_order(timestamps(s), p)]
        is_stable_desc_order(timestamps(s), p) && r == p.take(
            if limit < s.len() {
                limit as int
            } else {
                s.len() as int
            },
        ).map_values(|j: usize| s[j as int]);
    let keys = timestamps(s);
    assert forall|i: int, j: int| 0 <= i < j < r.len() implies r[i].timestamp >= r[j].timestamp by {
        assert(crate::sort::precedes(keys, p[i] as int, p[j] as int));
        assert(r[i] == s[p[i] as int]);
        assert(r[j] == s[p[j] as int]);
    }
}

/// A freshly recorded event.
pub open spec fn fresh_entry(
    id: Seq<char>,
    now: i64,
    kind: MemoryKind,
    content: Seq<char>,
    importance_milli: i64,
) -> MemoryEntryView {
    MemoryEntryView {
        id,
        timestamp: now,
        kind,
        content,
        importance_milli,
        metadata: types::MetadataView::Null,
    }
}

/// Recording `e` at `now` took `before` to `after`: pushed to short-term memory with
/// eviction, and appended to long-term memory when promoted.
pub open spec fn recorded(before: MemoryManager, after: MemoryManager, e: MemoryEntryView, now: i64) -> bool {
    &&& after.stm()@ == evicted(
        before.stm()@.push(e),
        sat_sub_i64(now, before.stm().max_age()),
        before.stm().capacity(),
    )
    &&& after.ltm()@ == if promoted(e.kind, e.importance_milli) {
        before.ltm()@.push(e)
    } else {
        before.ltm()@
    }
}

/// The short-term and long-term memories together with the digestion bookkeeping.
pub struct MemoryManager {
    short_term: ShortTermMemory,
    long_term: LongTermMemory,
    last_digest_at: i64,
    entries_since_digest: usize,
}

impl MemoryManager {
    /// The short-term memories.
    pub closed spec fn stm(&self) -> ShortTermMemory {
        self.short_term
    }

    /// The long-term memories.
    pub closed spec fn ltm(&self) -> LongTermMemory {
        self.long_term
    }

    /// When the last digestion was committed (0 for never).
    pub closed spec fn last_digest(&self) -> i64 {
        self.last_digest_at
    }

    /// How many entries were recorded since the last digestion.
    pub closed spec fn since_digest(&self) -> usize {
        self.entries_since_digest
    }

    /// A manager over the given long-term memory, with an empty short-term memory of 100
    /// entries and two hours.
    pub fn new(long_term: LongTermMemory) -> (m: Self)
        ensures
            m.stm()@ == Seq::<MemoryEntryView>::empty(),
            m.stm().capacity() == DEFAULT_MAX_ENTRIES,
            m.stm().max_age() == DEFAULT_MAX_AGE_MS,
            m.ltm() == long_term,
            m.last_digest() == 0,
            m.since_digest() == 0,
    {
        MemoryManager {
            short_term: ShortTermMemory::new(DEFAULT_MAX_ENTRIES, DEFAULT_MAX_AGE_MS),
            long_term,
            last_digest_at: 0,
            entries_since_digest: 0,
        }
    }

    /// Records an event with a fresh identifier at the system clock's time; returns whether
    /// it was also kept in long-term memory (which the caller then writes to disk).
    pub fn record(&mut self, kind: MemoryKind, content: String, importance_milli: i64) -> (promoted_now: bool)
        ensures
            promoted_now == promoted(kind, importance_milli),
            exists|id: Seq<char>, now: i64|
                #[trigger] recorded(
                    *old(self),
                    *final(self),
                    fresh_entry(id, now, kind, content@, importance_milli),
                    now,
                ),
            final(self).ltm().path() == old(self).ltm().path(),
            final(self).stm().capacity() == old(self).stm().capacity(),
            final(self).stm().max_age() == old(self).stm().max_age(),
            final(self).last_digest() == old(self).last_digest(),
            final(self).since_digest() == if old(self).since_digest() < usize::MAX {
                (old(self).since_digest() + 1) as usize
            } else {
                old(self).since_digest()
            },
    {
        let id = crate::clock::new_entry_id();
        let now = crate::clock::utc_now_millis();
        self.record_at(id, now, kind, content, importance_milli)
    }

    /// Records an event with the given identifier and time; returns whether it was also kept
    /// in long-term memory. The count since digestion stops at `usize::MAX`.
    pub fn record_at(
        &mut self,
        id: String,
        now: i64,
        kind: MemoryKind,
        content: String,
        importance_milli: i64,
    ) -> (promoted_now: bool)
        ensures
            promoted_now == promoted(kind, importance_milli),
            recorded(*old(self), *final(self), fresh_entry(id@, now, kind, content@, importance_milli), now),
            final(self).ltm().path() == old(self).ltm().path(),
            final(self).stm().capacity() == old(self).stm().capacity(),
            final(self).stm().max_age() == old(self).stm().max_age(),
            final(self).last_digest() == old(self).last_digest(),
            final(self).since_digest() == if old(self).since_digest() < usize::MAX {
                (old(self).since_digest() + 1) as usize
            } else {
                old(self).since_digest()
            },
    {
        let entry = MemoryEntry {
            id,
            timestamp: now,
            kind,
            content,
            importance_milli,
            metadata: Metadata::Null,
        };
        let copy = entry.duplicate();
        self.short_term.push(copy);
        if self.entries_since_digest < usize::MAX {
            self.entries_since_digest = self.entries_since_digest + 1;
        }
        let promote = match kind {
            MemoryKind::Conversation => importance_milli >= 300,
            MemoryKind::Decision => importance_milli >= 500,
            _ => false,
        };
        if promote {
            self.long_term.insert(entry);
        }
        promote
    }

    /// Adds a prepared entry to short-term memory (evicting as of the entry's time).
    pub fn record_entry(&mut self, entry: MemoryEntry)
        ensures
            final(self).stm()@ == evicted(
                old(self).stm()@.push(entry@),
                sat_sub_i64(entry.timestamp, old(self).stm().max_age()),
                old(self).stm().capacity(),
            ),
            final(self).ltm() == old(self).ltm(),
            final(self).stm().capacity() == old(self).stm().capacity(),
            final(self).stm().max_age() == old(self).stm().max_age(),
            final(self).last_digest() == old(self).last_digest(),
            final(self).since_digest() == if old(self).since_digest() < usize::MAX {
                (old(self).since_digest() + 1) as usize
            } else {
                old(self).since_digest()
            },
    {
        self.short_term.push(entry);
        if self.entries_since_digest < usize::MAX {
            self.entries_since_digest = self.entries_since_digest + 1;
        }
    }

    /// The memory context for prompts (see `retrieval::build_memory_context`).
    pub fn build_context(&self) -> (s: String)
        ensures
            exists|now: i64| #[trigger] retrieval::is_context(self.stm()@, self.ltm()@, now, s@),
    {
        let s = retrieval::build_memory_context(&self.short_term, &self.long_term);
        proof {
            let now = choose|now: i64| retrieval::is_context(self.short_term@, self.long_term@, now, s@);
            assert(retrieval::is_context(self.stm()@, self.ltm()@, now, s@));
        }
        s
    }

    /// The memory context for prompts at time `now`.
    pub fn build_context_at(&self, now: i64) -> (s: String)
        ensures
            retrieval::is_context(self.stm()@, self.ltm()@, now, s@),
    {
        retrieval::build_memory_context_at(&self.short_term, &self.long_term, now)
    }

    /// Whether a digestion is due (20 entries, or 30 minutes since the last one).
    pub fn should_digest(&self) -> (b: bool)
        ensures
            exists|now: i64|
                b == #[trigger] digest::digest_due(
                    self.since_digest(),
                    self.last_digest(),
                    DIGEST_MIN_ENTRIES,
                    DIGEST_MIN_INTERVAL_MS,
                    now,
                ),
    {
        let b = digest::should_digest(
            self.entries_since_digest,
            self.last_digest_at,
            DIGEST_MIN_ENTRIES,
            DIGEST_MIN_INTERVAL_MS,
        );
        proof {
            let now = choose|now: i64|
                b == digest::digest_due(
                    self.entries_since_digest,
                    self.last_digest_at,
                    DIGEST_MIN_ENTRIES,
                    DIGEST_MIN_INTERVAL_MS,
                    now,
                );
            assert(b == digest::digest_due(
                self.since_digest(),
                self.last_digest(),
                DIGEST_MIN_ENTRIES,
                DIGEST_MIN_INTERVAL_MS,
                now,
            ));
        }
        b
    }

    /// Copies of the short-term entries recorded since the last digestion.
    pub fn entries_since_last_digest(&self) -> (r: Vec<MemoryEntry>)
        ensures
            entry_views(r@) == short_term::at_or_after(self.stm()@, self.last_digest()),
    {
        self.short_term.since(self.last_digest_at)
    }

    /// Stores a digestion result at the system clock's time.
    pub fn commit_digest(&mut self, entry: MemoryEntry)
        ensures
            final(self).ltm()@ == old(self).ltm()@.push(entry@),
            final(self).ltm().path() == old(self).ltm().path(),
            final(self).stm() == old(self).stm(),
            final(self).since_digest() == 0,
            final(self).last_digest() >= 0,
    {
        let now = crate::clock::utc_now_millis();
        self.commit_digest_at(entry, now);
    }

    /// Stores a digestion result in long-term memory and restarts the digestion count at `now`.
    pub fn commit_digest_at(&mut self, entry: MemoryEntry, now: i64)
        ensures
            final(self).ltm()@ == old(self).ltm()@.push(entry@),
            final(self).ltm().path() == old(self).ltm().path(),
            final(self).stm() == old(self).stm(),
            final(self).since_digest() == 0,
            final(self).last_digest() == now,
    {
        self.long_term.insert(entry);
        self.last_digest_at = now;
        self.entries_since_digest = 0;
    }

    /// The memories to display: short-term then long-term entries, of the named kind if one
    /// is given, newest first (ties in that order), at most `limit`.
    pub fn get_memories(&self, kind: Option<&str>, limit: usize) -> (r: Vec<MemoryEntry>)
        ensures
            newest_first(
                listed(
                    self.stm()@ + self.ltm()@,
                    match kind {
                        Some(k) => Some(k@),
                        None => None,
                    },
                ),
                limit as nat,
                entry_views(r@),
            ),
    {
        let a = self.short_term.all();
        let b = self.long_term.all();
        let ghost all = entry_views(a@) + entry_views(b@);
        let ghost kv = match kind {
            Some(k) => Some(k@),
            None => None::<Seq<char>>,
        };
        let ghost f = |e: MemoryEntryView| match kv {
            Some(k) => kind_name(e.kind) == k,
            None => true,
        };
        let mut sel: Vec<MemoryEntry> = Vec::new();
        let mut keys: Vec<i128> = Vec::new();
        let mut i: usize = 0;
        while i < a.len()
            invariant
                all == entry_views(a@) + entry_views(b@),
                i <= a@.len(),
                f == (|e: MemoryEntryView| match kv {
                    Some(k) => kind_name(e.kind) == k,
                    None => true,
                }),
                kv == match kind {
                    Some(k) => Some(k@),
                    None => None::<Seq<char>>,
                },
                entry_views(sel@) == all.take(i as int).filter(f),
                keys@ == timestamps(all.take(i as int).filter(f)),
            decreases a@.len() - i,
        {
            let e = &a[i];
            assert(e@ == all[i as int]);
            proof {
                lemma_filter_push(all.take(i as int), f, all[i as int]);
                assert(all.take(i + 1) =~= all.take(i as int).push(all[i as int]));
            }
            let keep = match kind {
                Some(k) => str_eq(e.kind.as_str(), k),
                None => true,
            };
            if keep {
                let ghost bs = sel@;
                sel.push(e.duplicate());
                keys.push(e.timestamp as i128);
                assert(entry_views(sel@) =~= entry_views(bs).push(e@));
                assert(keys@ =~= timestamps(all.take(i + 1).filter(f)));
            }
            i = i + 1;
        }
        let mut j: usize = 0;
        while j < b.len()
            invariant
                all == entry_views(a@) + entry_views(b@),
                j <= b@.len(),
                f == (|e: MemoryEntryView| match kv {
                    Some(k) => kind_name(e.kind) == k,
                    None => true,
                }),
                kv == match kind {
                    Some(k) => Some(k@),
                    None => None::<Seq<char>>,
                },
                entry_views(sel@) == all.take(a@.len() + j).filter(f),
                keys@ == timestamps(all.take(a@.len() + j).filter(f)),
            decreases b@.len() - j,
        {
            let e = &b[j];
            let ghost at = a@.len() + j;
            assert(e@ == all[at]);
            proof {
                lemma_filter_push(all.take(at), f, all[at]);
                assert(all.take(at + 1) =~= all.take(at).push(all[at]));
            }
            let keep = match kind {
                Some(k) => str_eq(e.kind.as_str(), k),
                None => true,
            };
            if keep {
                let ghost bs = sel@;
                sel.push(e.duplicate());
                keys.push(e.timestamp as i128);
                assert(entry_views(sel@) =~= entry_views(bs).push(e@));
                assert(keys@ =~= timestamps(all.take(at + 1).filter(f)));
            }
            j = j + 1;
        }
        assert(all.take(a@.len() + b@.len() as int) =~= all);
        let ghost s = listed(self.stm()@ + self.ltm()@, kv);
        assert(s == all.filter(f)) by {
            assert(all == self.stm()@ + self.ltm()@);
            if kv is None {
                assert(all.filter(f) =~= all) by {
                    assert forall|j: int| 0 <= j < all.len() implies f(all[j]) by {}
                    crate::seqs::lemma_filter_all(all, f);
                }
            } else {
                assert(f =~= (|e: MemoryEntryView| kind_name(e.kind) == kv->0));
            }
        }
        let p = stable_desc_order(&keys);
        let n = if limit < p.len() {
            limit
        } else {
            p.len()
        };
        let mut r: Vec<MemoryEntry> = Vec::new();
        let mut j: usize = 0;
        while j < n
            invariant
                n <= p.len(),
                p.len() == sel.len(),
                entry_views(sel@) == s,
                is_stable_desc_order(keys@, p@),
                j <= n,
                entry_views(r@) == p@.take(j as int).map_values(|k: usize| s[k as int]),
            decreases n - j,
        {
            let k = p[j];
            let ghost before = r@;
            r.push(sel[k].duplicate());
            assert(entry_views(r@) =~= entry_views(before).push(s[k as int]));
            assert(p@.take(j + 1) =~= p@.take(j as int).push(k));
            assert(p@.take(j + 1).map_values(|k: usize| s[k as int]) =~= p@.take(j as int).map_values(
                |k: usize| s[k as int],
            ).push(s[k as int]));
            j = j + 1;
        }
        assert(keys@ == timestamps(s));
        r
    }

    /// Forgets unimportant old long-term entries at the system clock's time.
    pub fn prune(&mut self)
        ensures
            exists|now: i64|
                final(self).ltm()@ == long_term::kept_after_prune(
                    old(self).ltm()@,
                    sat_sub_i64(now, long_term::MONTH_MS),
                ),
            final(self).ltm().path() == old(self).ltm().path(),
            final(self).stm() == old(self).stm(),
            final(self).last_digest() == old(self).last_digest(),
            final(self).since_digest() == old(self).since_digest(),
    {
        self.long_term.prune();
    }

    /// Forgets unimportant old long-term entries at time `now`.
    pub fn prune_at(&mut self, now: i64)
        ensures
            final(self).ltm()@ == long_term::kept_after_prune(
                old(self).ltm()@,
                sat_sub_i64(now, long_term::MONTH_MS),
            ),
            final(self).ltm().path() == old(self).ltm().path(),
            final(self).stm() == old(self).stm(),
            final(self).last_digest() == old(self).last_digest(),
            final(self).since_digest() == old(self).since_digest(),
    {
        self.long_term.prune_at(now);
    }

    /// The long-term memory, for writing it to disk.
    pub fn long_term(&self) -> (l: &LongTermMemory)
        ensures
            *l == self.ltm(),
    {
        &self.long_term
    }
}

} // verus!
