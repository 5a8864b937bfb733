//! Long-term memory: entries kept across runs, retrieved by importance, keyword and recency.
use super::short_term::{sat_sub_i64, sat_sub_i64_exec};
use super::types::{entry_views, MemoryEntry, MemoryEntryView};
use crate::sort::{is_stable_desc_pair_order, pair_precedes, stable_desc_pair_order};
use crate::text::{byte_len, contains, contains_exec, lowercase, to_lowercase};
use crate::seqs::lemma_filter_push;
use vstd::prelude::*;

verus! {

/// One week in milliseconds.
pub const WEEK_MS: i64 = 604800000;

/// Thirty days in milliseconds.
pub const MONTH_MS: i64 = 2592000000;

/// Entries that may be retrieved: those with positive importance, in order.
pub open spec fn retrievable(s: Seq<MemoryEntryView>) -> Seq<MemoryEntryView> {
    s.filter(|e: MemoryEntryView| e.importance_milli > 0)
}

/// The keyword bonus applies: the lowercased query is longer than one byte and occurs in the
/// lowercased content.
pub open spec fn keyword_hit(e: MemoryEntryView, query_lower: Seq<char>) -> bool {
    (byte_len(query_lower) as usize) > 1 && contains(lowercase(e.content), query_lower)
}

/// The tie-breaking bonus of an entry, exactly, in thousandths multiplied by a week in
/// milliseconds: 0.3 for a keyword hit, plus `0.2 × (1 − age/week)` for an entry less than
/// a week old (more for one dated after `now`).
pub open spec fn retrieval_bonus(e: MemoryEntryView, query_lower: Seq<char>, now: i64) -> int {
    let age = sat_sub_i64(now, e.timestamp);
    (if keyword_hit(e, query_lower) {
        300 * WEEK_MS
    } else {
        0int
    }) + (if age < WEEK_MS {
        200 * (WEEK_MS - age)
    } else {
        0int
    })
}

/// The retrieval key of an entry: its importance (in thousandths), then its bonus (which
/// lies between 0 and 2^72, well inside an `i128`).
pub open spec fn retrieval_key(e: MemoryEntryView, query_lower: Seq<char>, now: i64) -> (i64, i128) {
    (e.importance_milli, retrieval_bonus(e, query_lower, now) as i128)
}

/// The keys of a sequence of entries.
pub open spec fn scores(s: Seq<MemoryEntryView>, query_lower: Seq<char>, now: i64) -> Seq<(i64, i128)> {
    s.map_values(|e: MemoryEntryView| retrieval_key(e, query_lower, now))
}

/// What retrieval returns: the retrievable entries by descending importance, equal
/// importance by descending bonus and then in stored order, at most `limit` of them.
pub open spec fn retrieved(
    s: Seq<MemoryEntryView>,
    query: Seq<char>,
    limit: nat,
    now: i64,
    r: Seq<MemoryEntryView>,
) -> bool {
    let c = retrievable(s);
    exists|p: Seq<usize>|
        #![trigger is_stable_desc_pair_order(scores(c, lowercase(query), now), p)]
        is_stable_desc_pair_order(scores(c, lowercase(query), now), p) && r == p.take(
            if limit < c.len() {
                limit as int
            } else {
                c.len() as int
            },
        ).map_values(|j: usize| c[j as int])
}

/// Retrieval returns entries by descending importance: no entry comes before one of higher
/// importance.
pub proof fn law_retrieved_by_importance(
    s: Seq<MemoryEntryView>,
    query: Seq<char>,
    limit: nat,
    now: i64,
    r: Seq<MemoryEntryView>,
)
    requires
        retrieved(s, query, limit, now, r),
    ensures
        forall|i: int, j: int|
            0 <= i < j < r.len() ==> (#[trigger] r[i]).importance_milli >= (#[trigger] r[j]).importance_milli,
{
    let c = retrievable(s);
    let q = lowercase(query);
    let keys = scores(c, q, now);
    let p = choose|p: Seq<usize>|
        #![trigger is_stable_desc_pair_order(scores(c, q, now), p)]
        is_stable_desc_pair_order(scores(c, q, now), p) && r == p.take(
            if limit < c.len() {
                limit as int
            } else {
                c.len() as int
            },
        ).map_values(|j: usize| c[j as int]);
    assert forall|i: int, j: int| 0 <= i < j < r.len() implies (#[trigger] r[i]).importance_milli
        >= (#[trigger] r[j]).importance_milli by {
        let a = p[i] as int;
        let b = p[j] as int;
        assert(r[i] == c[a]);
        assert(r[j] == c[b]);
        assert(pair_precedes(keys, a, b));
        assert(keys[a].0 == c[a].importance_milli);
        assert(keys[b].0 == c[b].importance_milli);
    }
}

/// The entries that pruning keeps: all but those with importance below 0.2 recorded
/// before `cutoff`.
pub open spec fn kept_after_prune(s: Seq<MemoryEntryView>, cutoff: i64) -> Seq<MemoryEntryView> {
    s.filter(|e: MemoryEntryView| !(e.importance_milli < 200 && e.timestamp < cutoff))
}

/// Pruning twice at the same cutoff keeps what pruning once keeps.
pub proof fn law_prune_idempotent(s: Seq<MemoryEntryView>, cutoff: i64)
    ensures
        kept_after_prune(kept_after_prune(s, cutoff), cutoff) == kept_after_prune(s, cutoff),
{
    let f = |e: MemoryEntryView| !(e.importance_milli < 200 && e.timestamp < cutoff);
    let k = s.filter(f);
    assert forall|i: int| 0 <= i < k.len() implies f(#[trigger] k[i]) by {
        s.lemma_filter_pred(f, i);
    }
    crate::seqs::lemma_filter_all(k, f);
}

/// Entries kept on disk, with the path of their file.
pub struct LongTermMemory {
    file_path: String,
    entries: Vec<MemoryEntry>,
}

impl View for LongTermMemory {
    type V = Seq<MemoryEntryView>;

    closed spec fn view(&self) -> Seq<MemoryEntryView> {
        entry_views(self.entries@)
    }
}

impl LongTermMemory {
    /// The file the entries are stored in.
    pub closed spec fn path(&self) -> Seq<char> {
        self.file_path@
    }

    /// The memory for `file_path`, holding what was read from it: `parsed` is `None` when
    /// the file could not be read or parsed, which gives an empty memory.
    pub fn load(file_path: String, parsed: Option<Vec<MemoryEntry>>) -> (m: Self)
        ensures
            m.path() == file_path@,
            m@ == match parsed {
                Some(v) => entry_views(v@),
                None => Seq::<MemoryEntryView>::empty(),
            },
    {
        let entries = match parsed {
            Some(v) => v,
            None => {
                let v: Vec<MemoryEntry> = Vec::new();
                assert(entry_views(v@) =~= Seq::<MemoryEntryView>::empty());
                v
            },
        };
        LongTermMemory { file_path, entries }
    }

    /// The file the entries are stored in.
    pub fn file_path(&self) -> (p: &String)
        ensures
            p@ == self.path(),
    {
        &self.file_path
    }

    /// Adds an entry at the end (the caller writes the file afterwards).
    pub fn insert(&mut self, entry: MemoryEntry)
        ensures
            final(self)@ == old(self)@.push(entry@),
            final(self).path() == old(self).path(),
    {
        let ghost e = entry@;
        self.entries.push(entry);
        assert(entry_views(self.entries@) =~= entry_views(old(self).entries@).push(e));
    }

    /// The best `limit` entries for `query`, scored at the system clock's time.
    pub fn retrieve(&self, query: &str, limit: usize) -> (r: Vec<MemoryEntry>)
        ensures
            exists|now: i64| retrieved(self@, query@, limit as nat, now, entry_views(r@)),
    {
        let now = crate::clock::utc_now_millis();
        self.retrieve_at(query, limit, now)
    }

    /// The best `limit` entries for `query` at time `now`: entries with positive importance,
    /// by descending importance; equal importance by descending bonus (keyword hit, recency),
    /// then in stored order.
    pub fn retrieve_at(&self, query: &str, limit: usize, now: i64) -> (r: Vec<MemoryEntry>)
        ensures
            retrieved(self@, query@, limit as nat, now, entry_views(r@)),
    {
        let query_lower = to_lowercase(query);
        let long_query = query_lower.as_str().len() > 1;
        let ghost all = entry_views(self.entries@);
        let ghost f = |e: MemoryEntryView| e.importance_milli > 0;
        let mut cand: Vec<&MemoryEntry> = Vec::new();
        let mut keys: Vec<(i64, i128)> = Vec::new();
        let mut i: usize = 0;
        while i < self.entries.len()
            invariant
                all == entry_views(self.entries@),
                f == (|e: MemoryEntryView| e.importance_milli > 0),
                i <= self.entries@.len(),
                query_lower@ == lowercase(query@),
                long_query == ((byte_len(query_lower@) as usize) > 1),
                cand@.map_values(|e: &MemoryEntry| e@) == all.take(i as int).filter(f),
                keys@ == scores(all.take(i as int).filter(f), query_lower@, now),
            decreases self.entries@.len() - i,
        {
            let e = &self.entries[i];
            proof {
                lemma_filter_push(all.take(i as int), f, all[i as int]);
                assert(all.take(i + 1) =~= all.take(i as int).push(all[i as int]));
            }
            if e.importance_milli > 0 {
                let mut bonus: i128 = 0;
                if long_query {
                    let content_lower = to_lowercase(e.content.as_str());
                    if contains_exec(content_lower.as_str(), query_lower.as_str()) {
                        bonus = 300 * (WEEK_MS as i128);
                    }
                }
                let age = sat_sub_i64_exec(now, e.timestamp);
                if age < WEEK_MS {
                    bonus = bonus + 200 * (WEEK_MS as i128 - age as i128);
                }
                assert(bonus as int == retrieval_bonus(e@, query_lower@, now));
                let score: (i64, i128) = (e.importance_milli, bonus);
                assert(score == retrieval_key(e@, query_lower@, now));
                let ghost before_c = cand@;
                let ghost before_k = keys@;
                cand.push(e);
                keys.push(score);
                assert(cand@.map_values(|e: &MemoryEntry| e@) =~= before_c.map_values(
                    |e: &MemoryEntry| e@,
                ).push(e@));
                assert(keys@ =~= scores(all.take(i + 1).filter(f), query_lower@, now));
            }
            i = i + 1;
        }
        assert(all.take(self.entries@.len() as int) =~= all);
        let ghost c = retrievable(self@);
        assert(c == all.filter(f));
        let p = stable_desc_pair_order(&keys);
        let n = if limit < p.len() {
            limit
        } else {
            p.len()
        };
        let mut r: Vec<MemoryEntry> = Vec::new();
        let mut j: usize = 0;
        while j < n
            invariant
                n <= p.len(),
                p.len() == cand.len(),
                c.len() == cand.len(),
                cand@.map_values(|e: &MemoryEntry| e@) == c,
                is_stable_desc_pair_order(keys@, p@),
                j <= n,
                entry_views(r@) == p@.take(j as int).map_values(|k: usize| c[k as int]),
            decreases n - j,
        {
            let k = p[j];
            let ghost before = r@;
            r.push(cand[k].duplicate());
            assert(cand@[k as int]@ == c[k as int]);
            assert(entry_views(r@) =~= entry_views(before).push(c[k as int]));
            assert(p@.take(j + 1) =~= p@.take(j as int).push(k));
            assert(p@.take(j + 1).map_values(|k: usize| c[k as int]) =~= p@.take(
                j as int,
            ).map_values(|k: usize| c[k as int]).push(c[k as int]));
            j = j + 1;
        }
        assert(keys@ == scores(c, lowercase(query@), now));
        r
    }

    /// Forgets unimportant old entries at the system clock's time.
    pub fn prune(&mut self)
        ensures
            exists|now: i64| final(self)@ == kept_after_prune(old(self)@, sat_sub_i64(now, MONTH_MS)),
            final(self).path() == old(self).path(),
    {
        let now = crate::clock::utc_now_millis();
        self.prune_at(now);
    }

    /// Forgets the entries with importance below 0.2 recorded more than thirty days before
    /// `now` (the caller writes the file afterwards).
    pub fn prune_at(&mut self, now: i64)
        ensures
            final(self)@ == kept_after_prune(old(self)@, sat_sub_i64(now, MONTH_MS)),
            final(self).path() == old(self).path(),
    {
        let cutoff = sat_sub_i64_exec(now, MONTH_MS);
        let ghost all = entry_views(self.entries@);
        let ghost f = |e: MemoryEntryView| !(e.importance_milli < 200 && e.timestamp < cutoff);
        let mut kept: Vec<MemoryEntry> = Vec::new();
        let mut i: usize = 0;
        while i < self.entries.len()
            invariant
                all == entry_views(self.entries@),
                f == (|e: MemoryEntryView| !(e.importance_milli < 200 && e.timestamp < cutoff)),
                i <= self.entries@.len(),
                entry_views(kept@) == all.take(i as int).filter(f),
            decreases self.entries@.len() - i,
        {
            let e = &self.entries[i];
            proof {
                lemma_filter_push(all.take(i as int), f, all[i as int]);
                assert(all.take(i + 1) =~= all.take(i as int).push(all[i as int]));
            }
            if !(e.importance_milli < 200 && e.timestamp < cutoff) {
                let ghost before = kept@;
                kept.push(e.duplicate());
                assert(entry_views(kept@) =~= entry_views(before).push(e@));
            }
            i = i + 1;
        }
        assert(all.take(self.entries@.len() as int) =~= all);
        self.entries = kept;
    }

    /// All entries, in stored order.
    pub fn all(&self) -> (r: &[MemoryEntry])
        ensures
            entry_views(r@) == self@,
    {
        self.entries.as_slice()
    }
}

} // verus!
