//! The memory context injected into prompts.
use super::long_term::{retrieved, LongTermMemory};
use super::short_term::{kind_line, kind_line_exec, only_kind, other_kinds, summary_text, ShortTermMemory};
use super::types::{entry_views, MemoryEntry, MemoryEntryView, MemoryKind};
use crate::text::{decimal, digit, digit_char, fmt_u64, join, join_exec, owned, push_char, push_str, views};
use vstd::prelude::*;

verus! {

/// The last ten entries (all of them when there are fewer), in order.
pub open spec fn last_ten(s: Seq<MemoryEntryView>) -> Seq<MemoryEntryView> {
    s.subrange(if s.len() > 10 { s.len() - 10 } else { 0 }, s.len() as int)
}

/// Whether a value of `m` thousandths halfway between two tenths rounds up under `{:.1}`
/// of the nearest `f32`: within 0–1 it does for 0.05, 0.15, 0.55 and 0.85 (whose nearest
/// `f32` lies above them) and for 0.75 (exact, rounded to even); elsewhere a halfway value
/// rounds to even.
pub open spec fn tie_rounds_up(m: nat) -> bool {
    if m < 1000 {
        m == 50 || m == 150 || m == 550 || m == 750 || m == 850
    } else {
        (m / 100) % 2 == 1
    }
}

/// Thousandths rounded to tenths: to the nearer tenth, halfway values as `tie_rounds_up`
/// says.
pub open spec fn tenths(m: nat) -> nat {
    let q = m / 100;
    let r = m % 100;
    if r > 50 || (r == 50 && tie_rounds_up(m)) {
        q + 1
    } else {
        q
    }
}

/// `{:.1}` of a non-negative value given in thousandths.
pub open spec fn one_decimal(m: nat) -> Seq<char> {
    let t = tenths(m);
    decimal(t / 10) + "."@ + seq![digit(t % 10)]
}

/// The line of a long-term memory: `- content (重要性: x.y)`.
pub open spec fn memory_line(e: MemoryEntryView) -> Seq<char> {
    "- "@ + e.content + " (重要性: "@ + (if e.importance_milli >= 0 {
        one_decimal(e.importance_milli as nat)
    } else {
        "-"@ + one_decimal((-e.importance_milli) as nat)
    }) + ")"@
}

/// The line of a conversation: `- content`.
pub open spec fn conversation_line(e: MemoryEntryView) -> Seq<char> {
    "- "@ + e.content
}

/// The line of an entry in a section: 0 for conversations, 1 for events, 2 for memories.
pub open spec fn section_line(line: u8, e: MemoryEntryView) -> Seq<char> {
    if line == 0 {
        conversation_line(e)
    } else if line == 1 {
        kind_line(e)
    } else {
        memory_line(e)
    }
}

/// A heading followed by one line per entry.
pub open spec fn section(heading: Seq<char>, entries: Seq<MemoryEntryView>, line: u8) -> Seq<Seq<char>> {
    seq![heading] + entries.map_values(|e: MemoryEntryView| section_line(line, e))
}

/// A section when there are entries, else nothing.
pub open spec fn section_if_any(heading: Seq<char>, entries: Seq<MemoryEntryView>, line: u8) -> Seq<Seq<char>> {
    if entries.len() > 0 {
        section(heading, entries, line)
    } else {
        Seq::empty()
    }
}

/// The parts of the context: the last ten conversations, the last ten other events, and the
/// relevant long-term memories, each section present only when it has entries.
pub open spec fn context_parts(stm: Seq<MemoryEntryView>, relevant: Seq<MemoryEntryView>) -> Seq<Seq<char>> {
    section_if_any("最近对话："@, last_ten(only_kind(stm, MemoryKind::Conversation)), 0)
        + section_if_any("\n最近事件："@, last_ten(other_kinds(stm, MemoryKind::Conversation)), 1)
        + section_if_any("\n关于用户的记忆："@, relevant, 2)
}

/// The context text: `(暂无记忆上下文)` when there is nothing, else the parts framed by
/// `[记忆上下文]` and `[/记忆上下文]`.
pub open spec fn context_text(stm: Seq<MemoryEntryView>, relevant: Seq<MemoryEntryView>) -> Seq<char> {
    let parts = context_parts(stm, relevant);
    if parts.len() == 0 {
        "(暂无记忆上下文)"@
    } else {
        "[记忆上下文]\n"@ + join(parts, "\n"@) + "\n[/记忆上下文]"@
    }
}

/// The relevant long-term memories: the top five for the short-term summary as query.
pub open spec fn relevant_for(stm: Seq<MemoryEntryView>, ltm: Seq<MemoryEntryView>, now: i64, r: Seq<MemoryEntryView>) -> bool {
    retrieved(ltm, summary_text(stm), 5, now, r)
}

/// `s` is the memory context of these memories at time `now`.
pub open spec fn is_context(stm: Seq<MemoryEntryView>, ltm: Seq<MemoryEntryView>, now: i64, s: Seq<char>) -> bool {
    exists|rel: Seq<MemoryEntryView>| relevant_for(stm, ltm, now, rel) && s == context_text(stm, rel)
}

/// `{:.1}` of a non-negative value given in thousandths.
pub fn fmt_one_decimal(m: u64) -> (s: String)
    ensures
        s@ == one_decimal(m as nat),
{
    let q = m / 100;
    let r = m % 100;
    let tie_up = if m < 1000 {
        m == 50 || m == 150 || m == 550 || m == 750 || m == 850
    } else {
        q % 2 == 1
    };
    let t = if r > 50 || (r == 50 && tie_up) {
        q + 1
    } else {
        q
    };
    let mut s = fmt_u64(t / 10);
    push_str(&mut s, ".");
    push_char(&mut s, digit_char(t % 10));
    s
}

/// The line of a long-term memory.
pub fn memory_line_exec(e: &MemoryEntry) -> (s: String)
    ensures
        s@ == memory_line(e@),
{
    let mut s = owned("- ");
    push_str(&mut s, e.content.as_str());
    push_str(&mut s, " (重要性: ");
    if e.importance_milli >= 0 {
        let d = fmt_one_decimal(e.importance_milli as u64);
        push_str(&mut s, d.as_str());
    } else {
        push_str(&mut s, "-");
        let m: u64 = if e.importance_milli == i64::MIN {
            9223372036854775808u64
        } else {
            (-e.importance_milli) as u64
        };
        let d = fmt_one_decimal(m);
        push_str(&mut s, d.as_str());
    }
    push_str(&mut s, ")");
    s
}

/// Appends a heading and one line per entry of `v[lo..]` in the format `line`.
fn push_section(parts: &mut Vec<String>, heading: &str, v: &Vec<MemoryEntry>, lo: usize, line: u8)
    requires
        lo <= v.len(),
    ensures
        views(final(parts)@) == views(old(parts)@) + section(
            heading@,
            entry_views(v@).subrange(lo as int, v@.len() as int),
            line,
        ),
{
    let ghost fmt = |e: MemoryEntryView| section_line(line, e);
    let ghost start = views(parts@) + seq![heading@];
    parts.push(owned(heading));
    assert(views(parts@) =~= start);
    let ghost src = entry_views(v@).subrange(lo as int, v@.len() as int);
    let mut i = lo;
    while i < v.len()
        invariant
            lo <= i <= v.len(),
            src == entry_views(v@).subrange(lo as int, v@.len() as int),
            fmt == (|e: MemoryEntryView| section_line(line, e)),
            views(parts@) == start + src.take(i - lo).map_values(fmt),
        decreases v.len() - i,
    {
        let e = &v[i];
        let text = if line == 0 {
            let mut t = owned("- ");
            push_str(&mut t, e.content.as_str());
            t
        } else if line == 1 {
            kind_line_exec(e)
        } else {
            memory_line_exec(e)
        };
        assert(text@ == fmt(e@));
        let ghost before = views(parts@);
        parts.push(text);
        assert(views(parts@) =~= before.push(fmt(e@)));
        assert(src.take(i - lo + 1) =~= src.take(i - lo).push(e@));
        assert(src.take(i - lo + 1).map_values(fmt) =~= src.take(i - lo).map_values(fmt).push(fmt(e@)));
        i = i + 1;
    }
    assert(src.take(v.len() - lo) =~= src);
    assert(views(parts@) =~= views(old(parts)@) + section(heading@, src, line));
}

/// The memory context for prompts, with long-term memories scored at the system clock's time.
pub fn build_memory_context(stm: &ShortTermMemory, ltm: &LongTermMemory) -> (s: String)
    ensures
        exists|now: i64| #[trigger] is_context(stm@, ltm@, now, s@),
{
    let now = crate::clock::utc_now_millis();
    build_memory_context_at(stm, ltm, now)
}

/// The memory context for prompts at time `now`.
pub fn build_memory_context_at(stm: &ShortTermMemory, ltm: &LongTermMemory, now: i64) -> (s: String)
    ensures
        is_context(stm@, ltm@, now, s@),
{
    let mut parts: Vec<String> = Vec::new();
    assert(views(parts@) =~= Seq::<Seq<char>>::empty());
    let convos = stm.conversations();
    let ghost s1 = section_if_any("最近对话："@, last_ten(only_kind(stm@, MemoryKind::Conversation)), 0);
    if convos.len() > 0 {
        let lo = if convos.len() > 10 {
            convos.len() - 10
        } else {
            0
        };
        push_section(&mut parts, "最近对话：", &convos, lo, 0);
    }
    assert(views(parts@) =~= s1);
    let events = stm.non_conversations();
    let ghost s2 = section_if_any("\n最近事件："@, last_ten(other_kinds(stm@, MemoryKind::Conversation)), 1);
    if events.len() > 0 {
        let lo = if events.len() > 10 {
            events.len() - 10
        } else {
            0
        };
        push_section(&mut parts, "\n最近事件：", &events, lo, 1);
    }
    assert(views(parts@) =~= s1 + s2);
    let query = stm.summary();
    let relevant = ltm.retrieve_at(query.as_str(), 5, now);
    let ghost rel = entry_views(relevant@);
    let ghost s3 = section_if_any("\n关于用户的记忆："@, rel, 2);
    if relevant.len() > 0 {
        push_section(&mut parts, "\n关于用户的记忆：", &relevant, 0, 2);
        assert(entry_views(relevant@).subrange(0, relevant@.len() as int) =~= rel);
    }
    assert(views(parts@) =~= s1 + s2 + s3);
    assert(relevant_for(stm@, ltm@, now, rel));
    if parts.len() == 0 {
        let s = owned("(暂无记忆上下文)");
        assert(s@ == context_text(stm@, rel));
        return s;
    }
    let body = join_exec(&parts, "\n");
    let mut s = owned("[记忆上下文]\n");
    push_str(&mut s, body.as_str());
    push_str(&mut s, "\n[/记忆上下文]");
    assert(s@ == context_text(stm@, rel));
    s
}

} // verus!
