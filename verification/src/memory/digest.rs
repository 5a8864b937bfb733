//! Digestion: when to summarise recent memories, the prompt that asks for it, and the
//! reflection entry made from the answer.
use super::types::{entry_views, kind_name, MemoryEntry, MemoryEntryView, MemoryKind, Metadata, MetadataView};
use crate::text::{decimal, digit, digit_char, fmt_u64, join, join_exec, owned, push_char, push_str, views};
use vstd::prelude::*;

verus! {

/// The digestion prompt before the event list.
pub const DIGEST_PROMPT_HEAD: &'static str = "你是宠物记忆系统。以下是你最近观察到的事件，请总结：\n- 用户做了什么？\n- 宠物做了什么？\n- 有什么值得记住的重要信息？\n\n事件列表：\n";

/// The digestion prompt after the event list.
pub const DIGEST_PROMPT_TAIL: &'static str = "\n\n返回 JSON：{\"summary\":\"...\", \"key_facts\":[\"...\"], \"importance\":0.0-1.0}";

/// Digestion is due: enough new entries, or a previous digestion at least `min_interval_ms` ago.
pub open spec fn digest_due(
    entries_since_last: usize,
    last_digest_at: i64,
    min_entries: usize,
    min_interval_ms: i64,
    now: i64,
) -> bool {
    entries_since_last >= min_entries || (last_digest_at > 0 && now - last_digest_at >= min_interval_ms)
}

/// Whether digestion is due, by the system clock.
pub fn should_digest(
    entries_since_last: usize,
    last_digest_at: i64,
    min_entries: usize,
    min_interval_ms: i64,
) -> (b: bool)
    ensures
        exists|now: i64| b == #[trigger] digest_due(entries_since_last, last_digest_at, min_entries, min_interval_ms, now),
{
    let now = crate::clock::utc_now_millis();
    should_digest_at(entries_since_last, last_digest_at, min_entries, min_interval_ms, now)
}

/// Whether digestion is due at time `now`.
pub fn should_digest_at(
    entries_since_last: usize,
    last_digest_at: i64,
    min_entries: usize,
    min_interval_ms: i64,
    now: i64,
) -> (b: bool)
    ensures
        b == digest_due(entries_since_last, last_digest_at, min_entries, min_interval_ms, now),
{
    if entries_since_last >= min_entries {
        return true;
    }
    if last_digest_at > 0 {
        if (now as i128) - (last_digest_at as i128) >= min_interval_ms as i128 {
            return true;
        }
    }
    false
}

/// The fractional digits of thousandths without trailing zeros (`frac` is below 1000).
pub open spec fn fraction_digits(frac: nat) -> Seq<char> {
    let d1 = frac / 100;
    let d2 = (frac / 10) % 10;
    let d3 = frac % 10;
    if d3 != 0 {
        seq![digit(d1), digit(d2), digit(d3)]
    } else if d2 != 0 {
        seq![digit(d1), digit(d2)]
    } else {
        seq![digit(d1)]
    }
}

/// `{}` of a non-negative value given in thousandths: the shortest decimal text
/// (`0.5`, `0.25`, `1`).
pub open spec fn plain_decimal(m: nat) -> Seq<char> {
    if m % 1000 == 0 {
        decimal(m / 1000)
    } else {
        decimal(m / 1000) + "."@ + fraction_digits(m % 1000)
    }
}

/// `{}` of a value given in thousandths.
pub open spec fn importance_text(m: i64) -> Seq<char> {
    if m >= 0 {
        plain_decimal(m as nat)
    } else {
        "-"@ + plain_decimal((-m) as nat)
    }
}

/// One event line of the digestion prompt.
pub open spec fn digest_line(e: MemoryEntryView) -> Seq<char> {
    "- ["@ + kind_name(e.kind) + "] "@ + e.content + " (重要性:"@ + importance_text(e.importance_milli) + ")"@
}

/// The digestion prompt for a batch of entries.
pub open spec fn digestion_prompt(entries: Seq<MemoryEntryView>) -> Seq<char> {
    DIGEST_PROMPT_HEAD@ + join(entries.map_values(|e: MemoryEntryView| digest_line(e)), "\n"@) + DIGEST_PROMPT_TAIL@
}

/// `{}` of a non-negative value given in thousandths.
pub fn fmt_plain_decimal(m: u64) -> (s: String)
    ensures
        s@ == plain_decimal(m as nat),
{
    let mut s = fmt_u64(m / 1000);
    let frac = m % 1000;
    if frac != 0 {
        push_str(&mut s, ".");
        let d1 = frac / 100;
        let d2 = (frac / 10) % 10;
        let d3 = frac % 10;
        let ghost before = s@;
        push_char(&mut s, digit_char(d1));
        if d3 != 0 {
            push_char(&mut s, digit_char(d2));
            push_char(&mut s, digit_char(d3));
        } else if d2 != 0 {
            push_char(&mut s, digit_char(d2));
        }
        assert(s@ =~= before + fraction_digits(frac as nat));
    }
    s
}

/// The event line of the digestion prompt.
pub fn digest_line_exec(e: &MemoryEntry) -> (s: String)
    ensures
        s@ == digest_line(e@),
{
    let mut s = owned("- [");
    push_str(&mut s, e.kind.as_str());
    push_str(&mut s, "] ");
    push_str(&mut s, e.content.as_str());
    push_str(&mut s, " (重要性:");
    if e.importance_milli >= 0 {
        let d = fmt_plain_decimal(e.importance_milli as u64);
        push_str(&mut s, d.as_str());
    } else {
        push_str(&mut s, "-");
        let m: u64 = if e.importance_milli == i64::MIN {
            9223372036854775808u64
        } else {
            (-e.importance_milli) as u64
        };
        let d = fmt_plain_decimal(m);
        push_str(&mut s, d.as_str());
    }
    push_str(&mut s, ")");
    s
}

/// The prompt that asks the model to digest a batch of entries.
pub fn build_digestion_prompt(entries: &[MemoryEntry]) -> (s: String)
    ensures
        s@ == digestion_prompt(entry_views(entries@)),
{
    let ghost ev = entry_views(entries@);
    let ghost lines = ev.map_values(|e: MemoryEntryView| digest_line(e));
    let mut out: Vec<String> = Vec::new();
    let mut i: usize = 0;
    while i < entries.len()
        invariant
            ev == entry_views(entries@),
            lines == ev.map_values(|e: MemoryEntryView| digest_line(e)),
            i <= entries@.len(),
            views(out@) == lines.take(i as int),
        decreases entries@.len() - i,
    {
        let ghost before = out@;
        out.push(digest_line_exec(&entries[i]));
        assert(views(out@) =~= views(before).push(lines[i as int]));
        assert(lines.take(i + 1) =~= lines.take(i as int).push(lines[i as int]));
        i = i + 1;
    }
    assert(lines.take(entries@.len() as int) =~= lines);
    let body = join_exec(&out, "\n");
    let mut s = owned(DIGEST_PROMPT_HEAD);
    push_str(&mut s, body.as_str());
    push_str(&mut s, DIGEST_PROMPT_TAIL);
    s
}

/// The fields of a digestion answer. `importance_milli` is the importance in thousandths,
/// `None` when the answer gives no number.
pub struct DigestReply {
    pub summary: String,
    pub key_facts: Vec<String>,
    pub importance_milli: Option<i64>,
}

/// The importance of a reflection: the given one clamped to 0–1, 0.5 when none is given.
pub open spec fn reflection_importance(v: Option<i64>) -> i64 {
    match v {
        Some(m) => if m < 0 {
            0
        } else if m > 1000 {
            1000
        } else {
            m
        },
        None => 500,
    }
}

/// A reflection's importance lies between 0 and 1, whatever the answer says.
pub proof fn law_reflection_importance_range(v: Option<i64>)
    ensures
        0 <= reflection_importance(v) <= 1000,
        v matches Some(m) ==> (0 <= m <= 1000 ==> reflection_importance(v) == m),
{
}

/// The reflection entry made from a digestion answer at time `now`, or the parse error.
pub open spec fn reflection_entry(reply: Result<DigestReply, String>, entry_id: Seq<char>, now: i64) -> Result<MemoryEntryView, Seq<char>> {
    match reply {
        Ok(r) => Ok(
            MemoryEntryView {
                id: entry_id,
                timestamp: now,
                kind: MemoryKind::Reflection,
                content: r.summary@,
                importance_milli: reflection_importance(r.importance_milli),
                metadata: MetadataView::KeyFacts(views(r.key_facts@)),
            },
        ),
        Err(e) => Err("parse error: "@ + e@),
    }
}

/// The result agrees with the expected entry or error.
pub open spec fn agrees(r: Result<MemoryEntry, String>, expected: Result<MemoryEntryView, Seq<char>>) -> bool {
    match (r, expected) {
        (Ok(e), Ok(v)) => e@ == v,
        (Err(m), Err(v)) => m@ == v,
        _ => false,
    }
}

/// Makes the reflection entry from a decoded digestion answer (`Err` holds the decoder's
/// message), stamped with the system clock's time.
pub fn parse_digestion_response(reply: Result<DigestReply, String>, entry_id: &str) -> (r: Result<MemoryEntry, String>)
    ensures
        exists|now: i64| #[trigger] agrees(r, reflection_entry(reply, entry_id@, now)),
{
    let now = crate::clock::utc_now_millis();
    let ghost spec_r = reflection_entry(reply, entry_id@, now);
    match reply {
        Ok(d) => {
            let importance = match d.importance_milli {
                Some(m) => if m < 0 {
                    0
                } else if m > 1000 {
                    1000
                } else {
                    m
                },
                None => 500,
            };
            let e = MemoryEntry {
                id: owned(entry_id),
                timestamp: now,
                kind: MemoryKind::Reflection,
                content: d.summary,
                importance_milli: importance,
                metadata: Metadata::KeyFacts(d.key_facts),
            };
            assert(agrees(Ok(e), spec_r));
            Ok(e)
        },
        Err(msg) => {
            let mut m = owned("parse error: ");
            push_str(&mut m, msg.as_str());
            assert(agrees(Err(m), spec_r));
            Err(m)
        },
    }
}

} // verus!
