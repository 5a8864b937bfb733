//! What the front-end commands do besides talking to the model: greeting, memory records of
//! interactions, chat and agent runs, the chat history, and the clipboard watch.
use crate::agent::{result_is, AgentResult};
use crate::decider::{model_off, reason_text, validated};
use crate::llm::LlmStaticConfig;
use crate::memory::types::{entry_views, ChatMessage, MemoryEntry, MemoryEntryView, MemoryKind};
use crate::memory::{fresh_entry, listed, newest_first, recorded, MemoryManager};
use crate::registry::{animation_ids, is_known_animation};
use crate::text::{byte_len, decimal, fmt_u64, owned, push_str, starts_with, starts_with_exec, str_eq, strip_prefix, trim, trim_exec, views};
use crate::types::{AnimationEntry, Decision, DecisionContext, DecisionView};
use vstd::prelude::*;

verus! {

/// The importance, in thousandths, of recorded interactions and chat lines.
pub const INTERACTION_IMPORTANCE_MILLI: i64 = 500;

/// The importance, in thousandths, of an agent's decision.
pub const AGENT_DECISION_IMPORTANCE_MILLI: i64 = 300;

/// The longest clipboard text, in bytes (exclusive), that opens the translation panel.
pub const CLIPBOARD_MAX_BYTES: usize = 500;

/// The greeting for `name`.
pub open spec fn greeting(name: Seq<char>) -> Seq<char> {
    "Hello, "@ + name + "! You've been greeted from Rust!"@
}

/// Greets `name`.
pub fn greet(name: &str) -> (s: String)
    ensures
        s@ == greeting(name@),
{
    let mut s = owned("Hello, ");
    push_str(&mut s, name);
    push_str(&mut s, "! You've been greeted from Rust!");
    s
}

/// A conversation line without its speaker prefix `用户: ` or `宠物: `.
pub open spec fn without_speaker(c: Seq<char>) -> Seq<char> {
    if starts_with(c, "用户: "@) {
        c.skip(("用户: "@).len() as int)
    } else if starts_with(c, "宠物: "@) {
        c.skip(("宠物: "@).len() as int)
    } else {
        c
    }
}

/// Removes the speaker prefix `用户: ` or `宠物: ` of a conversation line.
pub fn strip_conversation_prefix(content: &str) -> (s: String)
    ensures
        s@ == without_speaker(content@),
{
    match strip_prefix(content, "用户: ") {
        Some(rest) => {
            return rest;
        },
        None => {},
    }
    match strip_prefix(content, "宠物: ") {
        Some(rest) => {
            return rest;
        },
        None => {},
    }
    owned(content)
}

/// The conversation line the user's message is recorded as.
pub open spec fn user_line(text: Seq<char>) -> Seq<char> {
    "用户: "@ + text
}

/// The conversation line the pet's answer is recorded as.
pub open spec fn pet_line(text: Seq<char>) -> Seq<char> {
    "宠物: "@ + text
}

/// The kind named by a front-end label; an unknown label is an interaction.
pub open spec fn kind_from_label(label: Seq<char>) -> MemoryKind {
    if label == "observation"@ {
        MemoryKind::Observation
    } else if label == "interaction"@ {
        MemoryKind::Interaction
    } else if label == "decision"@ {
        MemoryKind::Decision
    } else if label == "conversation"@ {
        MemoryKind::Conversation
    } else {
        MemoryKind::Interaction
    }
}

/// The kind named by a front-end label (see `kind_from_label`).
pub fn memory_kind_from_label(label: &str) -> (k: MemoryKind)
    ensures
        k == kind_from_label(label@),
{
    proof {
        reveal_strlit("observation");
        reveal_strlit("interaction");
        reveal_strlit("decision");
        reveal_strlit("conversation");
    }
    if str_eq(label, "observation") {
        MemoryKind::Observation
    } else if str_eq(label, "interaction") {
        MemoryKind::Interaction
    } else if str_eq(label, "decision") {
        MemoryKind::Decision
    } else if str_eq(label, "conversation") {
        MemoryKind::Conversation
    } else {
        MemoryKind::Interaction
    }
}

/// A kind's own name labels it again, but for reflections: `reflection` is not a label the
/// front end may use, and counts as an interaction.
pub proof fn law_kind_label_roundtrip(k: MemoryKind)
    ensures
        k != MemoryKind::Reflection ==> kind_from_label(crate::memory::types::kind_name(k)) == k,
        kind_from_label(crate::memory::types::kind_name(MemoryKind::Reflection)) == MemoryKind::Interaction,
{
    reveal_strlit("observation");
    reveal_strlit("interaction");
    reveal_strlit("decision");
    reveal_strlit("conversation");
    reveal_strlit("reflection");
    assert(("observation"@)[0] == 'o' && ("interaction"@)[0] == 'i' && ("decision"@)[0] == 'd');
    assert(("conversation"@)[0] == 'c' && ("reflection"@)[0] == 'r');
}

/// Records an interaction the front end reports, of the kind its label names, with
/// importance 0.5, under `id` at time `now`.
pub fn record_interaction_at(mgr: &mut MemoryManager, kind: &str, content: String, id: String, now: i64)
    ensures
        recorded(
            *old(mgr),
            *final(mgr),
            fresh_entry(id@, now, kind_from_label(kind@), content@, INTERACTION_IMPORTANCE_MILLI),
            now,
        ),
        final(mgr).ltm().path() == old(mgr).ltm().path(),
{
    let k = memory_kind_from_label(kind);
    mgr.record_at(id, now, k, content, INTERACTION_IMPORTANCE_MILLI);
}

/// Records an interaction the front end reports, with a fresh identifier at the system
/// clock's time (see `record_interaction_at`).
pub fn record_interaction(mgr: &mut MemoryManager, kind: &str, content: String)
    ensures
        exists|id: Seq<char>, now: i64|
            #[trigger] recorded(
                *old(mgr),
                *final(mgr),
                fresh_entry(id, now, kind_from_label(kind@), content@, INTERACTION_IMPORTANCE_MILLI),
                now,
            ),
        final(mgr).ltm().path() == old(mgr).ltm().path(),
{
    let id = crate::clock::new_entry_id();
    let now = crate::clock::utc_now_millis();
    record_interaction_at(mgr, kind, content, id, now);
}

/// Records the user's chat message as a conversation line of importance 0.5.
pub fn record_user_message_at(mgr: &mut MemoryManager, text: &str, id: String, now: i64)
    ensures
        recorded(
            *old(mgr),
            *final(mgr),
            fresh_entry(id@, now, MemoryKind::Conversation, user_line(text@), INTERACTION_IMPORTANCE_MILLI),
            now,
        ),
        final(mgr).ltm().path() == old(mgr).ltm().path(),
{
    let mut line = owned("用户: ");
    push_str(&mut line, text);
    mgr.record_at(id, now, MemoryKind::Conversation, line, INTERACTION_IMPORTANCE_MILLI);
}

/// Records the pet's chat answer as a conversation line of importance 0.5.
pub fn record_pet_reply_at(mgr: &mut MemoryManager, message: &str, id: String, now: i64)
    ensures
        recorded(
            *old(mgr),
            *final(mgr),
            fresh_entry(id@, now, MemoryKind::Conversation, pet_line(message@), INTERACTION_IMPORTANCE_MILLI),
            now,
        ),
        final(mgr).ltm().path() == old(mgr).ltm().path(),
{
    let mut line = owned("宠物: ");
    push_str(&mut line, message);
    mgr.record_at(id, now, MemoryKind::Conversation, line, INTERACTION_IMPORTANCE_MILLI);
}

/// Records the user's chat message, with a fresh identifier at the system clock's time.
pub fn record_user_message(mgr: &mut MemoryManager, text: &str)
    ensures
        exists|id: Seq<char>, now: i64|
            #[trigger] recorded(
                *old(mgr),
                *final(mgr),
                fresh_entry(id, now, MemoryKind::Conversation, user_line(text@), INTERACTION_IMPORTANCE_MILLI),
                now,
            ),
        final(mgr).ltm().path() == old(mgr).ltm().path(),
{
    let id = crate::clock::new_entry_id();
    let now = crate::clock::utc_now_millis();
    record_user_message_at(mgr, text, id, now);
}

/// Records the pet's chat answer, with a fresh identifier at the system clock's time.
pub fn record_pet_reply(mgr: &mut MemoryManager, message: &str)
    ensures
        exists|id: Seq<char>, now: i64|
            #[trigger] recorded(
                *old(mgr),
                *final(mgr),
                fresh_entry(id, now, MemoryKind::Conversation, pet_line(message@), INTERACTION_IMPORTANCE_MILLI),
                now,
            ),
        final(mgr).ltm().path() == old(mgr).ltm().path(),
{
    let id = crate::clock::new_entry_id();
    let now = crate::clock::utc_now_millis();
    record_pet_reply_at(mgr, message, id, now);
}

/// The chat message a conversation memory shows: the user's when the line starts with
/// `用户:`, else the pet's (`assistant`), without the speaker prefix.
pub open spec fn shown_as(m: ChatMessage, e: MemoryEntryView) -> bool {
    &&& m.role@ == (if starts_with(e.content, "用户:"@) {
        "user"@
    } else {
        "assistant"@
    })
    &&& m.content@ == without_speaker(e.content)
    &&& m.timestamp == e.timestamp
    &&& m.animation_triggered is None
}

/// The chat messages for conversation memories given newest first: oldest first.
pub open spec fn history_of(entries: Seq<MemoryEntryView>, r: Seq<ChatMessage>) -> bool {
    r.len() == entries.len() && forall|i: int|
        0 <= i < r.len() ==> shown_as(#[trigger] r[i], entries[entries.len() - 1 - i])
}

/// The chat messages for conversation memories given newest first, oldest first.
pub fn history_from_memories(entries: &Vec<MemoryEntry>) -> (r: Vec<ChatMessage>)
    ensures
        history_of(entry_views(entries@), r@),
{
    proof {
        reveal_strlit("用户:");
    }
    let mut r: Vec<ChatMessage> = Vec::new();
    let mut k: usize = entries.len();
    while k > 0
        invariant
            k <= entries@.len(),
            r@.len() == entries@.len() - k,
            forall|i: int|
                0 <= i < r@.len() ==> shown_as(#[trigger] r@[i], entry_views(entries@)[entries@.len() - 1 - i]),
        decreases k,
    {
        let e = &entries[k - 1];
        let role = if starts_with_exec(e.content.as_str(), "用户:") {
            owned("user")
        } else {
            owned("assistant")
        };
        let m = ChatMessage {
            role,
            content: strip_conversation_prefix(e.content.as_str()),
            timestamp: e.timestamp,
            animation_triggered: None,
        };
        r.push(m);
        k = k - 1;
    }
    r
}

/// A chat line comes back from memory as it was said: the user's message as the user's,
/// the pet's answer as the assistant's, each without its speaker prefix.
pub proof fn law_chat_line_roundtrip(text: Seq<char>, m: ChatMessage, e: MemoryEntryView)
    ensures
        e.content == user_line(text) && shown_as(m, e) ==> m.role@ == "user"@ && m.content@ == text,
        e.content == pet_line(text) && shown_as(m, e) ==> m.role@ == "assistant"@ && m.content@ == text,
{
    reveal_strlit("用户: ");
    reveal_strlit("宠物: ");
    reveal_strlit("用户:");
    let u = user_line(text);
    let q = pet_line(text);
    assert(u.subrange(0, 4) =~= "用户: "@);
    assert(u.skip(4) =~= text);
    assert(u.subrange(0, 3) =~= "用户:"@);
    assert(q.subrange(0, 4) =~= "宠物: "@);
    assert(q.skip(4) =~= text);
    if starts_with(q, "用户: "@) {
        assert(q.subrange(0, 4)[0] == u.subrange(0, 4)[0]);
    }
    if starts_with(q, "用户:"@) {
        assert(q.subrange(0, 3)[0] == '用');
    }
}

/// The chat history: up to `limit` conversation memories, the newest ones, oldest first.
pub fn chat_history(mgr: &MemoryManager, limit: usize) -> (r: Vec<ChatMessage>)
    ensures
        exists|es: Seq<MemoryEntryView>|
            #[trigger] newest_first(listed(mgr.stm()@ + mgr.ltm()@, Some("conversation"@)), limit as nat, es)
                && history_of(es, r@),
{
    let convos = mgr.get_memories(Some("conversation"), limit);
    history_from_memories(&convos)
}

/// How an agent's decision is written down in memory.
pub open spec fn agent_decision_text(d: DecisionView) -> Seq<char> {
    match d {
        DecisionView::Stay => "stay (agent)"@,
        DecisionView::Switch { to, reason } => "switch to "@ + to + " (reason: "@ + reason_text(reason) + ")"@,
        DecisionView::Speak { message, .. } => "主动对话(agent): "@ + message,
        DecisionView::EnterIdle => "enter_idle (agent)"@,
        DecisionView::ExitIdle => "exit_idle (agent)"@,
        DecisionView::Wait { duration_ms, reason } => "wait "@ + decimal(duration_ms as nat) + "ms (reason: "@
            + reason_text(reason) + ")"@,
        DecisionView::SetReminder { message, delay_seconds } => "set_reminder(agent): "@ + message + " ("@
            + decimal(delay_seconds as nat) + "s后)"@,
    }
}

/// Appends the reason text.
fn push_reason(s: &mut String, r: &Option<String>)
    ensures
        final(s)@ == old(s)@ + reason_text(crate::types::opt_str(*r)),
{
    match r {
        Some(x) => push_str(s, x.as_str()),
        None => push_str(s, "?"),
    }
}

/// How an agent's decision is written down in memory.
pub fn agent_decision_record_text(d: &Decision) -> (s: String)
    ensures
        s@ == agent_decision_text(d@),
{
    match d {
        Decision::Stay => owned("stay (agent)"),
        Decision::Switch { to, reason } => {
            let mut s = owned("switch to ");
            push_str(&mut s, to.as_str());
            push_str(&mut s, " (reason: ");
            push_reason(&mut s, reason);
            push_str(&mut s, ")");
            s
        },
        Decision::Speak { message, .. } => {
            let mut s = owned("主动对话(agent): ");
            push_str(&mut s, message.as_str());
            s
        },
        Decision::EnterIdle => owned("enter_idle (agent)"),
        Decision::ExitIdle => owned("exit_idle (agent)"),
        Decision::Wait { duration_ms, reason } => {
            let mut s = owned("wait ");
            let n = fmt_u64(*duration_ms as u64);
            push_str(&mut s, n.as_str());
            push_str(&mut s, "ms (reason: ");
            push_reason(&mut s, reason);
            push_str(&mut s, ")");
            s
        },
        Decision::SetReminder { message, delay_seconds } => {
            let mut s = owned("set_reminder(agent): ");
            push_str(&mut s, message.as_str());
            push_str(&mut s, " (");
            let n = fmt_u64(*delay_seconds as u64);
            push_str(&mut s, n.as_str());
            push_str(&mut s, "s后)");
            s
        },
    }
}

/// Before an agent run: when the model is off, the run ends at once with `Stay`, no steps
/// and no tool calls.
pub fn check_agent_context(ctx: &DecisionContext, config: &LlmStaticConfig) -> (r: Option<AgentResult>)
    ensures
        model_off(*ctx, *config) ==> (r matches Some(res) && result_is(res, DecisionView::Stay, 0, Seq::empty())),
        !model_off(*ctx, *config) ==> r is None,
{
    let enabled = match ctx.llm_enabled {
        Some(b) => b,
        None => true,
    };
    let has_key = match &ctx.llm_api_key {
        Some(k) => k.as_str().unicode_len() > 0,
        None => false,
    };
    if !enabled || (!config.enabled && !has_key) {
        let made: Vec<String> = Vec::new();
        assert(views(made@) =~= Seq::<Seq<char>>::empty());
        Some(AgentResult { decision: Decision::Stay, steps_used: 0, tool_calls_made: made })
    } else {
        None
    }
}

/// Finishes an agent run at time `now`: the decision is remembered (importance 0.3, under
/// `id`), then a switch to an unknown animation becomes `Stay`; steps and tool calls stay.
pub fn settle_agent_result_at(
    mgr: &mut MemoryManager,
    result: AgentResult,
    animations: &[AnimationEntry],
    id: String,
    now: i64,
) -> (r: AgentResult)
    ensures
        recorded(
            *old(mgr),
            *final(mgr),
            fresh_entry(id@, now, MemoryKind::Decision, agent_decision_text(result.decision@), AGENT_DECISION_IMPORTANCE_MILLI),
            now,
        ),
        final(mgr).ltm().path() == old(mgr).ltm().path(),
        result_is(r, validated(result.decision@, animation_ids(animations@)), result.steps_used, views(result.tool_calls_made@)),
{
    let text = agent_decision_record_text(&result.decision);
    mgr.record_at(id, now, MemoryKind::Decision, text, AGENT_DECISION_IMPORTANCE_MILLI);
    let unknown = match &result.decision {
        Decision::Switch { to, .. } => !is_known_animation(animations, to.as_str()),
        _ => false,
    };
    if unknown {
        AgentResult { decision: Decision::Stay, steps_used: result.steps_used, tool_calls_made: result.tool_calls_made }
    } else {
        result
    }
}

/// Finishes an agent run with a fresh identifier at the system clock's time (see
/// `settle_agent_result_at`).
pub fn settle_agent_result(mgr: &mut MemoryManager, result: AgentResult, animations: &[AnimationEntry]) -> (r: AgentResult)
    ensures
        exists|id: Seq<char>, now: i64|
            #[trigger] recorded(
                *old(mgr),
                *final(mgr),
                fresh_entry(id, now, MemoryKind::Decision, agent_decision_text(result.decision@), AGENT_DECISION_IMPORTANCE_MILLI),
                now,
            ),
        final(mgr).ltm().path() == old(mgr).ltm().path(),
        result_is(r, validated(result.decision@, animation_ids(animations@)), result.steps_used, views(result.tool_calls_made@)),
{
    let id = crate::clock::new_entry_id();
    let now = crate::clock::utc_now_millis();
    settle_agent_result_at(mgr, result, animations, id, now)
}

/// What a clipboard reading does: its trimmed text, when not empty and different from the
/// last one, becomes the last one, and opens the translation panel when shorter than 500
/// bytes.
pub open spec fn clipboard_next(last: Seq<char>, text: Seq<char>) -> (Seq<char>, Option<Seq<char>>) {
    let t = trim(text);
    if t.len() > 0 && t != last {
        (t, if (byte_len(t) as usize) < CLIPBOARD_MAX_BYTES {
            Some(t)
        } else {
            None
        })
    } else {
        (last, None)
    }
}

/// The clipboard watch: the last text seen.
pub struct ClipboardWatch {
    last: String,
}

impl ClipboardWatch {
    /// The last text seen.
    pub closed spec fn last(&self) -> Seq<char> {
        self.last@
    }

    /// A watch that has seen nothing.
    pub fn new() -> (w: Self)
        ensures
            w.last() == Seq::<char>::empty(),
    {
        ClipboardWatch { last: String::new() }
    }

    /// Takes a clipboard reading (see `clipboard_next`); returns the text to show, if any.
    pub fn on_clipboard(&mut self, text: &str) -> (shown: Option<String>)
        ensures
            final(self).last() == clipboard_next(old(self).last(), text@).0,
            match clipboard_next(old(self).last(), text@).1 {
                Some(t) => (shown matches Some(s) && s@ == t),
                None => shown is None,
            },
    {
        let t = trim_exec(text);
        if t.as_str().unicode_len() > 0 && !str_eq(t.as_str(), self.last.as_str()) {
            self.last = t.clone();
            if t.as_str().len() < CLIPBOARD_MAX_BYTES {
                Some(t)
            } else {
                None
            }
        } else {
            None
        }
    }
}

} // verus!
