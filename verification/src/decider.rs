//! What the pet does next: the checks before the model is asked, the memory context it is
//! given, and what is made of its answer.
use crate::llm::{user_prompt_text, LlmError, LlmStaticConfig, EMPTY_MEMORY_CONTEXT};
use crate::memory::long_term::{retrievable, scores};
use crate::memory::retrieval::{context_parts, context_text, last_ten, relevant_for};
use crate::memory::short_term::{only_kind, other_kinds, summary_text};
use crate::memory::types::MemoryEntryView;
use crate::sort::is_stable_desc_pair_order;
use crate::text::{first_non_ws_from, last_non_ws_end, lowercase, trim};
use crate::memory::retrieval::is_context;
use crate::memory::types::MemoryKind;
use crate::memory::{fresh_entry, recorded, MemoryManager};
use crate::registry::{animation_ids, is_known_animation};
use crate::text::{decimal, fmt_u64, owned, push_str};
use crate::types::{AnimationEntry, AppError, AppErrorCode, Decision, DecisionContext, DecisionView};
use vstd::prelude::*;

verus! {

/// The importance, in thousandths, with which a decision is remembered.
pub const DECISION_IMPORTANCE_MILLI: i64 = 300;

/// The context carries a non-empty API key of its own.
pub open spec fn has_runtime_key(ctx: DecisionContext) -> bool {
    ctx.llm_api_key matches Some(k) && k@.len() > 0
}

/// The model is not asked: the context turns it off, or the static configuration is
/// disabled and the context brings no key.
pub open spec fn model_off(ctx: DecisionContext, config: LlmStaticConfig) -> bool {
    ctx.llm_enabled == Some(false) || (!config.enabled && !has_runtime_key(ctx))
}

/// Checks a decision context before the model is asked: a zero ticker interval is refused;
/// when the model is off the answer is `Stay` at once (`Some`); else `None`, go on.
pub fn check_decision_context(ctx: &DecisionContext, config: &LlmStaticConfig) -> (r: Result<Option<Decision>, AppError>)
    ensures
        ctx.ticker_interval_ms == 0 ==> (r matches Err(e) && e.code == AppErrorCode::EInvalidContext
            && e.message@ == "ticker_interval_ms must be > 0"@),
        ctx.ticker_interval_ms > 0 && model_off(*ctx, *config) ==> (r matches Ok(Some(d)) && d@
            == DecisionView::Stay),
        ctx.ticker_interval_ms > 0 && !model_off(*ctx, *config) ==> r matches Ok(None),
{
    if ctx.ticker_interval_ms == 0 {
        return Err(AppError::invalid_context(owned("ticker_interval_ms must be > 0")));
    }
    let enabled = match ctx.llm_enabled {
        Some(b) => b,
        None => true,
    };
    if !enabled {
        return Ok(Some(Decision::Stay));
    }
    let has_key = match &ctx.llm_api_key {
        Some(k) => k.as_str().unicode_len() > 0,
        None => false,
    };
    if !config.enabled && !has_key {
        return Ok(Some(Decision::Stay));
    }
    Ok(None)
}

/// Gives the context the memory context at time `now`.
pub fn attach_memory_context_at(ctx: &mut DecisionContext, mgr: &MemoryManager, now: i64)
    ensures
        final(ctx).memory_context matches Some(s) && is_context(mgr.stm()@, mgr.ltm()@, now, s@),
        *final(ctx) == (DecisionContext { memory_context: final(ctx).memory_context, ..*old(ctx) }),
{
    let s = mgr.build_context_at(now);
    ctx.memory_context = Some(s);
}

/// Gives the context the memory context at the system clock's time.
pub fn attach_memory_context(ctx: &mut DecisionContext, mgr: &MemoryManager)
    ensures
        final(ctx).memory_context matches Some(s) && exists|now: i64| #[trigger] is_context(mgr.stm()@, mgr.ltm()@, now, s@),
        *final(ctx) == (DecisionContext { memory_context: final(ctx).memory_context, ..*old(ctx) }),
{
    let now = crate::clock::utc_now_millis();
    attach_memory_context_at(ctx, mgr, now);
}

/// An empty memory adds nothing to the decision prompt: its context is the no-memory
/// marker, which the prompt leaves out.
pub proof fn law_empty_memory_adds_nothing(ctx: DecisionContext, now: u64, at: i64)
    requires
        ctx.memory_context matches Some(m) && is_context(Seq::empty(), Seq::empty(), at, m@),
    ensures
        user_prompt_text(ctx, now) == user_prompt_text(DecisionContext { memory_context: None, ..ctx }, now),
{
    let m = ctx.memory_context->0@;
    let empty = Seq::<MemoryEntryView>::empty();
    let rel = choose|rel: Seq<MemoryEntryView>| relevant_for(empty, empty, at, rel) && m == context_text(empty, rel);
    let c = retrievable(empty);
    assert(c =~= empty);
    let p = choose|p: Seq<usize>|
        #![trigger is_stable_desc_pair_order(scores(c, lowercase(summary_text(empty)), at), p)]
        is_stable_desc_pair_order(scores(c, lowercase(summary_text(empty)), at), p) && rel == p.take(
            if 5 < c.len() {
                5
            } else {
                c.len() as int
            },
        ).map_values(|j: usize| c[j as int]);
    assert(rel =~= empty);
    assert(only_kind(empty, MemoryKind::Conversation) =~= empty);
    assert(other_kinds(empty, MemoryKind::Conversation) =~= empty);
    assert(last_ten(empty) =~= empty);
    assert(context_parts(empty, empty) =~= Seq::<Seq<char>>::empty());
    reveal_strlit("(暂无记忆上下文)");
    assert(m == EMPTY_MEMORY_CONTEXT@);
    assert(first_non_ws_from(m, 0) == 0);
    assert(last_non_ws_end(m, 0, m.len() as int) == m.len());
    assert(trim(m) =~= m);
}

/// The reason text of a decision, `?` when none is given.
pub open spec fn reason_text(r: Option<Seq<char>>) -> Seq<char> {
    match r {
        Some(s) => s,
        None => "?"@,
    }
}

/// How a decision is written down in memory.
pub open spec fn decision_text(d: DecisionView) -> Seq<char> {
    match d {
        DecisionView::Stay => "stay"@,
        DecisionView::Switch { to, reason } => "switch to "@ + to + " (reason: "@ + reason_text(reason) + ")"@,
        DecisionView::Speak { message, .. } => "主动对话: "@ + message,
        DecisionView::EnterIdle => "enter_idle"@,
        DecisionView::ExitIdle => "exit_idle"@,
        DecisionView::Wait { duration_ms, reason } => "wait "@ + decimal(duration_ms as nat) + "ms (reason: "@
            + reason_text(reason) + ")"@,
        DecisionView::SetReminder { message, delay_seconds } => "set_reminder: "@ + message + " ("@ + decimal(
            delay_seconds as nat,
        ) + "s后)"@,
    }
}

/// The reason text of a decision, `?` when none is given.
fn push_reason(s: &mut String, r: &Option<String>)
    ensures
        final(s)@ == old(s)@ + reason_text(crate::types::opt_str(*r)),
{
    match r {
        Some(x) => push_str(s, x.as_str()),
        None => push_str(s, "?"),
    }
}

/// How a decision is written down in memory.
pub fn decision_record_text(d: &Decision) -> (s: String)
    ensures
        s@ == decision_text(d@),
{
    match d {
        Decision::Stay => owned("stay"),
        Decision::Switch { to, reason } => {
            let mut s = owned("switch to ");
            push_str(&mut s, to.as_str());
            push_str(&mut s, " (reason: ");
            push_reason(&mut s, reason);
            push_str(&mut s, ")");
            s
        },
        Decision::Speak { message, .. } => {
            let mut s = owned("主动对话: ");
            push_str(&mut s, message.as_str());
            s
        },
        Decision::EnterIdle => owned("enter_idle"),
        Decision::ExitIdle => owned("exit_idle"),
        Decision::Wait { duration_ms, reason } => {
            let mut s = owned("wait ");
            let n = fmt_u64(*duration_ms as u64);
            push_str(&mut s, n.as_str());
            push_str(&mut s, "ms (reason: ");
            push_reason(&mut s, reason);
            push_str(&mut s, ")");
            s
        },
        Decision::SetReminder { message, delay_seconds } => {
            let mut s = owned("set_reminder: ");
            push_str(&mut s, message.as_str());
            push_str(&mut s, " (");
            let n = fmt_u64(*delay_seconds as u64);
            push_str(&mut s, n.as_str());
            push_str(&mut s, "s后)");
            s
        },
    }
}

/// The decision that is carried out: a switch to an unknown animation becomes `Stay`.
pub open spec fn validated(d: DecisionView, ids: Seq<Seq<char>>) -> DecisionView {
    match d {
        DecisionView::Switch { to, .. } => if ids.contains(to) {
            d
        } else {
            DecisionView::Stay
        },
        _ => d,
    }
}

/// The pet only ever switches to a known animation.
pub proof fn law_switch_is_known(d: DecisionView, ids: Seq<Seq<char>>)
    ensures
        validated(d, ids) matches DecisionView::Switch { to, .. } ==> ids.contains(to),
        !(d is Switch) ==> validated(d, ids) == d,
{
}

/// Makes the pet's decision from the model's answer at time `now`: a failed request gives
/// `Stay` and leaves the memory alone; an answer is remembered as a decision (importance 0.3,
/// under `id`) and then checked against the known animations.
pub fn settle_decision_at(
    mgr: &mut MemoryManager,
    answer: Result<Decision, LlmError>,
    animations: &[AnimationEntry],
    id: String,
    now: i64,
) -> (d: Decision)
    ensures
        answer is Err ==> d@ == DecisionView::Stay && *final(mgr) == *old(mgr),
        answer matches Ok(a) ==> {
            &&& recorded(
                *old(mgr),
                *final(mgr),
                fresh_entry(id@, now, MemoryKind::Decision, decision_text(a@), DECISION_IMPORTANCE_MILLI),
                now,
            )
            &&& d@ == validated(a@, animation_ids(animations@))
            &&& final(mgr).ltm().path() == old(mgr).ltm().path()
            &&& final(mgr).stm().capacity() == old(mgr).stm().capacity()
            &&& final(mgr).stm().max_age() == old(mgr).stm().max_age()
        },
{
    match answer {
        Err(_) => Decision::Stay,
        Ok(a) => {
            let text = decision_record_text(&a);
            mgr.record_at(id, now, MemoryKind::Decision, text, DECISION_IMPORTANCE_MILLI);
            match &a {
                Decision::Switch { to, .. } => {
                    if !is_known_animation(animations, to.as_str()) {
                        return Decision::Stay;
                    }
                },
                _ => {},
            }
            a
        },
    }
}

/// Makes the pet's decision from the model's answer, with a fresh identifier and the system
/// clock's time for the memory entry (see `settle_decision_at`).
pub fn settle_decision(mgr: &mut MemoryManager, answer: Result<Decision, LlmError>, animations: &[AnimationEntry]) -> (d: Decision)
    ensures
        answer is Err ==> d@ == DecisionView::Stay && *final(mgr) == *old(mgr),
        answer matches Ok(a) ==> {
            &&& exists|id: Seq<char>, now: i64|
                #[trigger] recorded(
                    *old(mgr),
                    *final(mgr),
                    fresh_entry(id, now, MemoryKind::Decision, decision_text(a@), DECISION_IMPORTANCE_MILLI),
                    now,
                )
            &&& d@ == validated(a@, animation_ids(animations@))
            &&& final(mgr).ltm().path() == old(mgr).ltm().path()
        },
{
    let id = crate::clock::new_entry_id();
    let now = crate::clock::utc_now_millis();
    settle_decision_at(mgr, answer, animations, id, now)
}

} // verus!
