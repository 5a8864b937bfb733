//! The agent loop: the model observes, calls tools and acts, within a budget. The loop is a
//! state machine; its driver performs each request and hands back the outcome.
pub mod budget;
pub mod events;

use crate::clock::LocalTime;
use crate::exchange::{
    item_views, override_or, reply_text_to_decode, resolve_session, run_calls, run_tool_calls,
    session_for, trimmed_content, ChatItem, ChatItemView, LlmReply, ReplyOutcome, RequestShape,
    Sampling, Session, ToolSet,
};
use crate::llm::{
    build_system_prompt, build_user_prompt_at, opt_view, system_prompt_text, user_prompt_text,
    LlmStaticConfig,
};
use crate::text::{owned, push_str, views};
use crate::tools::{ToolDef, ToolRegistry};
use crate::types::{opt_str, AppError, AppErrorCode, Decision, DecisionContext, DecisionView};
use budget::{keep_in_window, AgentBudget};
use events::{events_summary, format_events_summary, PetEvent};
use vstd::prelude::*;

verus! {

/// The message that asks the model to answer with a tool call after a plain-text reply.
pub const CORRECTION: &'static str = "请调用工具来做出决策，不要直接返回文字。";

/// The outcome of an agent run.
#[derive(Debug)]
pub struct AgentResult {
    pub decision: Decision,
    pub steps_used: u32,
    pub tool_calls_made: Vec<String>,
}

/// The loop's state as mathematical values.
pub struct LoopState {
    pub messages: Seq<ChatItemView>,
    pub steps: u32,
    pub failures: u32,
    pub made: Seq<Seq<char>>,
}

/// What a reply leads to: a final decision with the tool names called so far, or the next
/// state of the loop.
pub enum Progress {
    Finish(DecisionView, Seq<Seq<char>>),
    Continue(LoopState),
}

/// One more failed step: a second failure in a row ends the run with `Stay`.
pub open spec fn failed(st: LoopState) -> Progress {
    if st.failures + 1 >= 2 {
        Progress::Finish(DecisionView::Stay, st.made)
    } else {
        Progress::Continue(LoopState { failures: (st.failures + 1) as u32, ..st })
    }
}

/// The decision in a reply's text: none when the trimmed content is empty or does not decode.
pub open spec fn text_decision(r: LlmReply) -> Option<DecisionView> {
    if trimmed_content(r).len() == 0 {
        None
    } else {
        match r.decision {
            Ok(d) => Some(d@),
            Err(_) => None,
        }
    }
}

/// What the loop makes of a request's outcome (tools run at local time `t`).
pub open spec fn after_outcome(st: LoopState, outcome: ReplyOutcome, tools: Seq<ToolDef>, t: LocalTime) -> Progress {
    match outcome {
        ReplyOutcome::Failed(_) => failed(st),
        ReplyOutcome::BadJson(_) => failed(st),
        ReplyOutcome::Reply(r) => match r.tool_calls {
            Some(calls) => if calls@.len() == 0 {
                match text_decision(r) {
                    Some(d) => Progress::Finish(d, st.made),
                    None => failed(st),
                }
            } else {
                let res = run_calls(calls@, tools, t, st.messages.push(ChatItemView::Assistant(r.raw@)), st.made);
                match res.2 {
                    Some(d) => Progress::Finish(d, res.1),
                    None => Progress::Continue(LoopState { messages: res.0, steps: st.steps, failures: 0, made: res.1 }),
                }
            },
            None => match text_decision(r) {
                Some(d) => Progress::Finish(d, st.made),
                None => match failed(st) {
                    Progress::Continue(s2) => Progress::Continue(
                        LoopState {
                            messages: s2.messages.push(ChatItemView::Assistant(r.raw@)).push(ChatItemView::User(CORRECTION@)),
                            ..s2
                        },
                    ),
                    p => p,
                },
            },
        },
    }
}

/// Running calls only adds to the conversation and to the calls made.
proof fn lemma_run_calls_grow(calls: Seq<crate::exchange::ToolCall>, tools: Seq<ToolDef>, t: LocalTime, msgs: Seq<ChatItemView>, made: Seq<Seq<char>>)
    ensures
        made.is_prefix_of(run_calls(calls, tools, t, msgs, made).1),
        msgs.is_prefix_of(run_calls(calls, tools, t, msgs, made).0),
    decreases calls.len(),
{
    if calls.len() > 0 {
        let c = calls[0];
        let made2 = made.push(crate::exchange::call_name(c));
        let m2 = msgs.push(
            ChatItemView::Tool {
                call_id: crate::exchange::call_id(c),
                output: crate::exchange::fed_back(crate::tools::tool_result(tools, crate::exchange::call_name(c), c.args, t)),
            },
        );
        lemma_run_calls_grow(calls.drop_first(), tools, t, m2, made2);
        let r = run_calls(calls.drop_first(), tools, t, m2, made2);
        assert(made.is_prefix_of(made2));
        assert(msgs.is_prefix_of(m2));
        assert(made2.is_prefix_of(r.1) ==> made.is_prefix_of(r.1)) by {
            if made2.is_prefix_of(r.1) {
                assert forall|i: int| 0 <= i < made.len() implies made[i] == r.1[i] by {
                    assert(made2[i] == made[i]);
                }
            }
        }
        assert(m2.is_prefix_of(r.0) ==> msgs.is_prefix_of(r.0)) by {
            if m2.is_prefix_of(r.0) {
                assert forall|i: int| 0 <= i < msgs.len() implies msgs[i] == r.0[i] by {
                    assert(m2[i] == msgs[i]);
                }
            }
        }
    }
}

/// A reply never changes the step count, never leaves two failures in a row standing, and
/// the tool calls made so far are never forgotten.
pub proof fn law_outcome_keeps_steps(st: LoopState, o: ReplyOutcome, tools: Seq<ToolDef>, t: LocalTime)
    ensures
        match after_outcome(st, o, tools, t) {
            Progress::Continue(s2) => {
                &&& s2.steps == st.steps
                &&& s2.failures < 2
                &&& st.made.is_prefix_of(s2.made)
            },
            Progress::Finish(_, made) => st.made.is_prefix_of(made),
        },
{
    if let ReplyOutcome::Reply(r) = o {
        if let Some(calls) = r.tool_calls {
            lemma_run_calls_grow(calls@, tools, t, st.messages.push(ChatItemView::Assistant(r.raw@)), st.made);
        }
    }
    assert(st.made.is_prefix_of(st.made));
}

/// A failed request is forgiven once: the first failure in a row leaves the conversation as
/// it was and goes on, the second ends the run with `Stay` and the tool calls made so far.
pub proof fn law_second_failure_ends(st: LoopState, e: crate::llm::LlmError, tools: Seq<ToolDef>, t: LocalTime)
    requires
        st.failures <= 1,
    ensures
        st.failures == 0 ==> (after_outcome(st, ReplyOutcome::Failed(e), tools, t) matches Progress::Continue(s2)
            && s2.failures == 1 && s2.messages == st.messages && s2.made == st.made),
        st.failures == 1 ==> after_outcome(st, ReplyOutcome::Failed(e), tools, t) == Progress::Finish(
            DecisionView::Stay,
            st.made,
        ),
{
}

/// A reply that calls tools, none of which decides, lets the run go on with no failure
/// counted, whatever failures came before it.
pub proof fn law_tool_round_clears_failures(st: LoopState, r: LlmReply, tools: Seq<ToolDef>, t: LocalTime)
    requires
        r.tool_calls matches Some(calls) && calls@.len() > 0 && run_calls(
            calls@,
            tools,
            t,
            st.messages.push(ChatItemView::Assistant(r.raw@)),
            st.made,
        ).2 is None,
    ensures
        after_outcome(st, ReplyOutcome::Reply(r), tools, t) matches Progress::Continue(s2) && s2.failures == 0
            && s2.steps == st.steps,
{
}

/// A failure, then a round of tool calls that decides nothing, then a plain-text reply that
/// is no decision: the failure before the tool round does not count with the later one, so
/// the run goes on, with the reply and the correction added to the conversation.
pub proof fn law_failure_forgiven_after_tool_round(
    st: LoopState,
    e: crate::llm::LlmError,
    r1: LlmReply,
    r2: LlmReply,
    tools: Seq<ToolDef>,
    t1: LocalTime,
    t2: LocalTime,
)
    requires
        st.failures == 0,
        r1.tool_calls matches Some(calls) && calls@.len() > 0 && run_calls(
            calls@,
            tools,
            t1,
            st.messages.push(ChatItemView::Assistant(r1.raw@)),
            st.made,
        ).2 is None,
        r2.tool_calls is None,
        text_decision(r2) is None,
    ensures
        match after_outcome(st, ReplyOutcome::Failed(e), tools, t1) {
            Progress::Continue(s1) => match after_outcome(s1, ReplyOutcome::Reply(r1), tools, t1) {
                Progress::Continue(s2) => match after_outcome(s2, ReplyOutcome::Reply(r2), tools, t2) {
                    Progress::Continue(s3) => s3.failures == 1 && s3.messages == s2.messages.push(
                        ChatItemView::Assistant(r2.raw@),
                    ).push(ChatItemView::User(CORRECTION@)),
                    Progress::Finish(_, _) => false,
                },
                Progress::Finish(_, _) => false,
            },
            Progress::Finish(_, _) => false,
        },
{
    let s1 = LoopState { failures: 1, ..st };
    assert(after_outcome(st, ReplyOutcome::Failed(e), tools, t1) == Progress::Continue(s1));
    law_tool_round_clears_failures(s1, r1, tools, t1);
}

/// The request shape of every agent step: all tools, configured sampling.
pub open spec fn agent_shape() -> RequestShape {
    RequestShape { tools: ToolSet::All, sampling: Sampling::Configured, json_object: false }
}

/// The events text appended to the user prompt: the front end's summary when it sent one,
/// else the summary of the events.
pub open spec fn events_text(ctx: DecisionContext, events: Seq<PetEvent>) -> Seq<char> {
    match ctx.events_summary {
        Some(s) => s@,
        None => events_summary(events),
    }
}

/// The agent's user prompt at time `now`: the decision prompt, then the events text after a
/// blank line when there is one.
pub open spec fn agent_user_prompt(ctx: DecisionContext, events: Seq<PetEvent>, now: u64) -> Seq<char> {
    let es = events_text(ctx, events);
    if es.len() > 0 {
        user_prompt_text(ctx, now) + "\n\n"@ + es
    } else {
        user_prompt_text(ctx, now)
    }
}

/// The conversation an agent run starts with.
pub open spec fn initial_messages(config: LlmStaticConfig, ctx: DecisionContext, events: Seq<PetEvent>, now: u64) -> Seq<ChatItemView> {
    seq![
        ChatItemView::System(system_prompt_text(config.system_prompt@, opt_str(ctx.pet_personality), opt_str(ctx.pet_name))),
        ChatItemView::User(agent_user_prompt(ctx, events, now)),
    ]
}

/// A loop in progress.
pub struct AgentLoop {
    messages: Vec<ChatItem>,
    steps: u32,
    failures: u32,
    made: Vec<String>,
    session: Session,
}

/// How an agent run starts: already decided, or ready for its first request.
pub enum AgentStart {
    Done(AgentResult),
    Ready(AgentLoop),
}

/// What the driver does next: send the conversation, or stop with the result.
pub enum AgentStep {
    Request(RequestShape),
    Finished(AgentResult),
}

/// The result carries this decision, step count and call list.
pub open spec fn result_is(r: AgentResult, d: DecisionView, steps: u32, made: Seq<Seq<char>>) -> bool {
    r.decision@ == d && r.steps_used == steps && views(r.tool_calls_made@) == made
}

impl AgentLoop {
    /// The state of the loop.
    pub closed spec fn state(&self) -> LoopState {
        LoopState {
            messages: item_views(self.messages@),
            steps: self.steps,
            failures: self.failures,
            made: views(self.made@),
        }
    }

    /// The session requests go to.
    pub closed spec fn session_spec(&self) -> Session {
        self.session
    }

    /// The conversation to send.
    pub fn messages(&self) -> (m: &[ChatItem])
        ensures
            item_views(m@) == self.state().messages,
    {
        self.messages.as_slice()
    }

    /// The session requests go to.
    pub fn session(&self) -> (s: &Session)
        ensures
            *s == self.session_spec(),
    {
        &self.session
    }

    /// Asks for the next request while steps remain (recording the call in the budget at
    /// `now`), else ends with `Stay`.
    pub fn next_at(&mut self, budget: &mut AgentBudget, now: u64) -> (step: AgentStep)
        ensures
            final(self).session_spec() == old(self).session_spec(),
            old(self).state().steps < old(budget).max_steps ==> {
                &&& step == AgentStep::Request(agent_shape())
                &&& final(self).state() == LoopState { steps: (old(self).state().steps + 1) as u32, ..old(self).state() }
                &&& final(budget).calls_timestamps@ == keep_in_window(old(budget).calls_timestamps@.push(now), now)
            },
            old(self).state().steps >= old(budget).max_steps ==> {
                &&& step matches AgentStep::Finished(r) && result_is(r, DecisionView::Stay, old(self).state().steps, old(self).state().made)
                &&& final(self).state() == old(self).state()
                &&& final(budget).calls_timestamps@ == old(budget).calls_timestamps@
            },
            final(budget).max_steps == old(budget).max_steps,
            final(budget).max_calls_per_minute == old(budget).max_calls_per_minute,
            final(budget).min_call_interval_ms == old(budget).min_call_interval_ms,
    {
        if self.steps < budget.max_steps {
            self.steps = self.steps + 1;
            budget.consume_at(now);
            AgentStep::Request(RequestShape { tools: ToolSet::All, sampling: Sampling::Configured, json_object: false })
        } else {
            AgentStep::Finished(AgentResult { decision: Decision::Stay, steps_used: self.steps, tool_calls_made: copy_names(&self.made) })
        }
    }

    /// Asks for the next request, by the system clock.
    pub fn next(&mut self, budget: &mut AgentBudget) -> (step: AgentStep)
        ensures
            final(self).session_spec() == old(self).session_spec(),
            old(self).state().steps < old(budget).max_steps ==> {
                &&& step == AgentStep::Request(agent_shape())
                &&& final(self).state() == LoopState { steps: (old(self).state().steps + 1) as u32, ..old(self).state() }
                &&& exists|now: u64| final(budget).calls_timestamps@ == #[trigger] keep_in_window(old(budget).calls_timestamps@.push(now), now)
            },
            old(self).state().steps >= old(budget).max_steps ==> {
                &&& step matches AgentStep::Finished(r) && result_is(r, DecisionView::Stay, old(self).state().steps, old(self).state().made)
                &&& final(self).state() == old(self).state()
                &&& final(budget).calls_timestamps@ == old(budget).calls_timestamps@
            },
            final(budget).max_steps == old(budget).max_steps,
            final(budget).max_calls_per_minute == old(budget).max_calls_per_minute,
            final(budget).min_call_interval_ms == old(budget).min_call_interval_ms,
    {
        let now = crate::clock::now_millis();
        self.next_at(budget, now)
    }
}

/// The decision in a reply's text, decoded from its trimmed content.
pub fn reply_decision(r: &LlmReply) -> (d: Option<Decision>)
    ensures
        match text_decision(*r) {
            Some(x) => (d matches Some(y) && y@ == x),
            None => d is None,
        },
{
    let text = reply_text_to_decode(&r.content);
    if text.as_str().unicode_len() == 0 {
        None
    } else {
        match &r.decision {
            Ok(d) => Some(d.duplicate()),
            Err(_) => None,
        }
    }
}

impl AgentLoop {
    /// The result with this decision, the steps taken and the calls made.
    fn finish(&self, d: Decision) -> (r: AgentResult)
        ensures
            result_is(r, d@, self.state().steps, self.state().made),
    {
        AgentResult { decision: d, steps_used: self.steps, tool_calls_made: copy_names(&self.made) }
    }

    /// Counts a failed step; the second failure in a row ends the run with `Stay`.
    fn fail(&mut self) -> (r: Option<AgentResult>)
        ensures
            final(self).session_spec() == old(self).session_spec(),
            match failed(old(self).state()) {
                Progress::Finish(d, made) => (r matches Some(res) && result_is(res, d, old(self).state().steps, made)),
                Progress::Continue(s2) => r is None && final(self).state() == s2,
            },
    {
        if self.failures >= 1 {
            Some(self.finish(Decision::Stay))
        } else {
            self.failures = self.failures + 1;
            None
        }
    }

    /// Takes the outcome of the last request at local time `t` (for the tools that read the
    /// clock), as `after_outcome` says: the run ends with its result, or goes on.
    pub fn on_outcome_at(&mut self, outcome: ReplyOutcome, tools: &ToolRegistry, t: &LocalTime) -> (r: Option<AgentResult>)
        ensures
            final(self).session_spec() == old(self).session_spec(),
            match after_outcome(old(self).state(), outcome, tools@, *t) {
                Progress::Finish(d, made) => (r matches Some(res) && result_is(res, d, old(self).state().steps, made)),
                Progress::Continue(s2) => r is None && final(self).state() == s2,
            },
    {
        match outcome {
            ReplyOutcome::Failed(_) => self.fail(),
            ReplyOutcome::BadJson(_) => self.fail(),
            ReplyOutcome::Reply(r) => {
                let decoded = reply_decision(&r);
                match &r.tool_calls {
                    Some(calls) => {
                        if calls.len() == 0 {
                            match decoded {
                                Some(d) => Some(self.finish(d)),
                                None => self.fail(),
                            }
                        } else {
                            let ghost msgs0 = self.messages@;
                            self.messages.push(ChatItem::Assistant(r.raw.clone()));
                            proof {
                                assert(item_views(self.messages@) =~= item_views(msgs0).push(ChatItemView::Assistant(r.raw@)));
                            }
                            self.failures = 0;
                            match run_tool_calls(&mut self.messages, &mut self.made, calls, tools, t) {
                                Some(d) => Some(self.finish(d)),
                                None => None,
                            }
                        }
                    },
                    None => match decoded {
                        Some(d) => Some(self.finish(d)),
                        None => {
                            if self.failures >= 1 {
                                Some(self.finish(Decision::Stay))
                            } else {
                                self.failures = self.failures + 1;
                                let ghost msgs0 = self.messages@;
                                self.messages.push(ChatItem::Assistant(r.raw.clone()));
                                self.messages.push(ChatItem::User(owned(CORRECTION)));
                                proof {
                                    assert(item_views(self.messages@) =~= item_views(msgs0).push(ChatItemView::Assistant(r.raw@)).push(
                                        ChatItemView::User(CORRECTION@),
                                    ));
                                }
                                None
                            }
                        },
                    },
                }
            },
        }
    }
}

/// Why an agent run cannot start: no events, or no API key.
pub open spec fn start_error(config: LlmStaticConfig, ctx: DecisionContext, events: Seq<PetEvent>, e: AppError) -> bool {
    if events.len() == 0 {
        e.code == AppErrorCode::EInvalidContext && e.message@ == "events must not be empty"@
    } else {
        e.code == AppErrorCode::EInternal && e.message@ == "No API key configured"@
    }
}

/// How a run started at time `now` begins: it fails without events; it ends at once with
/// `Stay` when the budget refuses a call; it fails when no API key is configured; else the
/// loop starts with the system prompt and the user prompt (with the events text), no steps,
/// and the session of the context.
pub open spec fn started(
    config: LlmStaticConfig,
    ctx: DecisionContext,
    events: Seq<PetEvent>,
    budget: AgentBudget,
    now: u64,
    r: Result<AgentStart, AppError>,
) -> bool {
    if events.len() == 0 {
        r matches Err(e) && start_error(config, ctx, events, e)
    } else if !budget.allows(now) {
        r matches Ok(AgentStart::Done(res)) && result_is(res, DecisionView::Stay, 0, Seq::empty())
    } else if override_or(ctx.llm_api_key, config.api_key@).len() == 0 {
        r matches Err(e) && start_error(config, ctx, events, e)
    } else {
        r matches Ok(AgentStart::Ready(l)) && l.state() == (LoopState {
            messages: initial_messages(config, ctx, events, now),
            steps: 0,
            failures: 0,
            made: Seq::empty(),
        }) && session_for(config, ctx, l.session_spec())
    }
}

/// Starts an agent run at time `now`. It fails without events; it ends at once with `Stay`
/// when the budget refuses a call; it fails when no API key is configured; else the loop
/// starts with the system prompt and the user prompt (with the events text), no steps, and
/// the session of the context.
pub fn start_agent_loop_at(
    config: &LlmStaticConfig,
    ctx: &DecisionContext,
    events: &[PetEvent],
    budget: &AgentBudget,
    now: u64,
) -> (r: Result<AgentStart, AppError>)
    ensures
        started(*config, *ctx, events@, *budget, now, r),
{
    if events.len() == 0 {
        return Err(AppError::invalid_context(owned("events must not be empty")));
    }
    if !budget.check_at(now) {
        let made: Vec<String> = Vec::new();
        proof {
            assert(views(made@) =~= Seq::<Seq<char>>::empty());
        }
        return Ok(AgentStart::Done(AgentResult { decision: Decision::Stay, steps_used: 0, tool_calls_made: made }));
    }
    let system_prompt = build_system_prompt(config, crate::types::as_str_opt(&ctx.pet_personality), crate::types::as_str_opt(&ctx.pet_name));
    let mut user_prompt = build_user_prompt_at(ctx, now);
    let summary = match &ctx.events_summary {
        Some(s) => s.clone(),
        None => format_events_summary(events),
    };
    if summary.as_str().unicode_len() > 0 {
        push_str(&mut user_prompt, "\n\n");
        push_str(&mut user_prompt, summary.as_str());
    }
    let session = resolve_session(config, ctx);
    if session.api_key.as_str().unicode_len() == 0 {
        return Err(AppError::internal(owned("No API key configured")));
    }
    let mut messages: Vec<ChatItem> = Vec::new();
    messages.push(ChatItem::System(system_prompt));
    messages.push(ChatItem::User(user_prompt));
    let made: Vec<String> = Vec::new();
    proof {
        assert(item_views(messages@) =~= initial_messages(*config, *ctx, events@, now));
        assert(views(made@) =~= Seq::<Seq<char>>::empty());
    }
    Ok(AgentStart::Ready(AgentLoop { messages, steps: 0, failures: 0, made, session }))
}

/// Starts an agent run by the system clock (see `start_agent_loop_at`).
pub fn start_agent_loop(
    config: &LlmStaticConfig,
    ctx: &DecisionContext,
    events: &[PetEvent],
    budget: &AgentBudget,
) -> (r: Result<AgentStart, AppError>)
    ensures
        exists|now: u64| #[trigger] started(*config, *ctx, events@, *budget, now, r),
{
    let now = crate::clock::now_millis();
    start_agent_loop_at(config, ctx, events, budget, now)
}

impl AgentLoop {
    /// Takes the outcome of the last request, reading the local clock for the tools that
    /// need it (see `on_outcome_at`).
    pub fn on_outcome(&mut self, outcome: ReplyOutcome, tools: &ToolRegistry) -> (r: Option<AgentResult>)
        ensures
            final(self).session_spec() == old(self).session_spec(),
            exists|t: LocalTime| match #[trigger] after_outcome(old(self).state(), outcome, tools@, t) {
                Progress::Finish(d, made) => (r matches Some(res) && result_is(res, d, old(self).state().steps, made)),
                Progress::Continue(s2) => r is None && final(self).state() == s2,
            },
    {
        let t = crate::clock::local_now();
        self.on_outcome_at(outcome, tools, &t)
    }
}

/// Copies of the strings.
fn copy_names(v: &Vec<String>) -> (r: Vec<String>)
    ensures
        views(r@) == views(v@),
{
    let mut r: Vec<String> = Vec::new();
    let mut i: usize = 0;
    while i < v.len()
        invariant
            i <= v.len(),
            views(r@) == views(v@.take(i as int)),
        decreases v.len() - i,
    {
        let c = v[i].clone();
        proof {
            let old_r = r@;
            assert(c@ == v@[i as int]@);
            assert(v@.take(i + 1) =~= v@.take(i as int).push(v@[i as int]));
            assert(views(old_r.push(c)) =~= views(old_r).push(c@));
            assert(views(v@.take(i as int).push(v@[i as int])) =~= views(v@.take(i as int)).push(v@[i as int]@));
        }
        r.push(c);
        i = i + 1;
    }
    assert(v@.take(v.len() as int) =~= v@);
    r
}

} // verus!
