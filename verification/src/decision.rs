//! One decision request: the model is asked with every tool; when it only used information
//! tools, it is asked once more with their results. A driver performs the HTTP exchanges and
//! hands each outcome back.
use crate::clock::LocalTime;
use crate::exchange::{
    item_views, override_or, reply_text_to_decode, resolve_session, run_calls, run_tool_calls,
    session_for, trimmed_content, ChatItem, ChatItemView, LlmReply, ReplyOutcome, RequestShape,
    Sampling, Session, ToolCall, ToolSet, call_name,
};
use crate::llm::{
    build_system_prompt, build_user_prompt_at, first_chars, system_prompt_text, user_prompt_text,
    LlmError, LlmErrorView, LlmStaticConfig,
};
use crate::text::{push_str, take_chars};
use crate::tools::{terminal_decision, ToolDef, ToolRegistry};
use crate::types::{opt_str, Decision, DecisionContext, DecisionView};
use vstd::prelude::*;

verus! {

/// The reply of a request, or the error that ended it (a body that is not JSON is a parse
/// error with the decoder's message).
pub open spec fn reply_of(o: ReplyOutcome) -> Result<LlmReply, LlmErrorView> {
    match o {
        ReplyOutcome::Failed(e) => Err(e@),
        ReplyOutcome::BadJson(m) => Err(LlmErrorView::Parse(m@)),
        ReplyOutcome::Reply(r) => Ok(r),
    }
}

/// The decision in a reply's content, or a parse error with the decoder's message and the
/// first 150 characters of the trimmed content.
pub open spec fn content_decision(r: LlmReply) -> Result<DecisionView, LlmErrorView> {
    match r.decision {
        Ok(d) => Ok(d@),
        Err(m) => Err(LlmErrorView::Parse(m@ + " | raw='"@ + first_chars(trimmed_content(r), 150) + "'"@)),
    }
}

/// The decision of the first call to a terminal tool, if any.
pub open spec fn first_terminal(calls: Seq<ToolCall>, tools: Seq<ToolDef>) -> Option<DecisionView>
    decreases calls.len(),
{
    if calls.len() == 0 {
        None
    } else {
        match terminal_decision(tools, call_name(calls[0]), calls[0].args) {
            Some(d) => Some(d),
            None => first_terminal(calls.drop_first(), tools),
        }
    }
}

/// What the first reply leads to: the answer, or a second request with this conversation.
pub enum FirstRound {
    Decided(Result<DecisionView, LlmErrorView>),
    AskAgain(Seq<ChatItemView>),
}

/// The first round (tools run at local time `t`): an error ends the request; no tool calls
/// means `Stay`; an empty call list means the content's decision; else the calls run in
/// order after the assistant message, and a terminal tool's decision is the answer, or the
/// model is asked again with the results.
pub open spec fn first_round(o: ReplyOutcome, tools: Seq<ToolDef>, t: LocalTime, msgs: Seq<ChatItemView>) -> FirstRound {
    match reply_of(o) {
        Err(e) => FirstRound::Decided(Err(e)),
        Ok(r) => match r.tool_calls {
            None => FirstRound::Decided(Ok(DecisionView::Stay)),
            Some(calls) => if calls@.len() == 0 {
                FirstRound::Decided(content_decision(r))
            } else {
                let res = run_calls(calls@, tools, t, msgs.push(ChatItemView::Assistant(r.raw@)), Seq::empty());
                match res.2 {
                    Some(d) => FirstRound::Decided(Ok(d)),
                    None => FirstRound::AskAgain(res.0),
                }
            },
        },
    }
}

/// The second round: an error ends the request; else the first terminal call decides, and
/// without one the content's decision.
pub open spec fn second_round(o: ReplyOutcome, tools: Seq<ToolDef>) -> Result<DecisionView, LlmErrorView> {
    match reply_of(o) {
        Err(e) => Err(e),
        Ok(r) => match r.tool_calls {
            Some(calls) => match first_terminal(calls@, tools) {
                Some(d) => Ok(d),
                None => content_decision(r),
            },
            None => content_decision(r),
        },
    }
}

/// The result carries this decision or error.
pub open spec fn answer_is(r: Result<Decision, LlmError>, v: Result<DecisionView, LlmErrorView>) -> bool {
    match (r, v) {
        (Ok(d), Ok(x)) => d@ == x,
        (Err(e), Err(x)) => e@ == x,
        _ => false,
    }
}

/// The request shape of both rounds: every tool, configured sampling.
pub open spec fn decision_shape() -> RequestShape {
    RequestShape { tools: ToolSet::All, sampling: Sampling::Configured, json_object: false }
}

/// A decision request is refused when the context turns the model off or no API key is
/// configured.
pub open spec fn request_refused(config: LlmStaticConfig, ctx: DecisionContext) -> bool {
    ctx.llm_enabled == Some(false) || override_or(ctx.llm_api_key, config.api_key@).len() == 0
}

/// The conversation a decision request starts with at time `now`.
pub open spec fn decision_messages(config: LlmStaticConfig, ctx: DecisionContext, now: u64) -> Seq<ChatItemView> {
    seq![
        ChatItemView::System(system_prompt_text(config.system_prompt@, opt_str(ctx.pet_personality), opt_str(ctx.pet_name))),
        ChatItemView::User(user_prompt_text(ctx, now)),
    ]
}

/// A decision request in progress.
pub struct DecisionRequest {
    messages: Vec<ChatItem>,
    session: Session,
}

/// How a request started at time `now` begins: refused with `Disabled`, or with its
/// conversation and the session of the context.
pub open spec fn request_started(config: LlmStaticConfig, ctx: DecisionContext, now: u64, r: Result<DecisionRequest, LlmError>) -> bool {
    if request_refused(config, ctx) {
        r matches Err(e) && e@ == LlmErrorView::Disabled
    } else {
        r matches Ok(q) && q.conversation() == decision_messages(config, ctx, now) && session_for(
            config,
            ctx,
            q.session_spec(),
        )
    }
}

/// Starts a decision request at time `now` (see `request_started`).
pub fn start_decision_request_at(config: &LlmStaticConfig, ctx: &DecisionContext, now: u64) -> (r: Result<DecisionRequest, LlmError>)
    ensures
        request_started(*config, *ctx, now, r),
{
    let enabled = match ctx.llm_enabled {
        Some(b) => b,
        None => true,
    };
    if !enabled {
        return Err(LlmError::Disabled);
    }
    let session = resolve_session(config, ctx);
    if session.api_key.as_str().unicode_len() == 0 {
        return Err(LlmError::Disabled);
    }
    let system_prompt = build_system_prompt(
        config,
        crate::types::as_str_opt(&ctx.pet_personality),
        crate::types::as_str_opt(&ctx.pet_name),
    );
    let user_prompt = build_user_prompt_at(ctx, now);
    let mut messages: Vec<ChatItem> = Vec::new();
    messages.push(ChatItem::System(system_prompt));
    messages.push(ChatItem::User(user_prompt));
    let q = DecisionRequest { messages, session };
    assert(q.conversation() =~= decision_messages(*config, *ctx, now));
    Ok(q)
}

/// Starts a decision request by the system clock.
pub fn start_decision_request(config: &LlmStaticConfig, ctx: &DecisionContext) -> (r: Result<DecisionRequest, LlmError>)
    ensures
        exists|now: u64| #[trigger] request_started(*config, *ctx, now, r),
{
    let now = crate::clock::now_millis();
    start_decision_request_at(config, ctx, now)
}

/// The decision in a reply's content, or the parse error.
fn content_decision_exec(r: &LlmReply) -> (d: Result<Decision, LlmError>)
    ensures
        answer_is(d, content_decision(*r)),
{
    match &r.decision {
        Ok(d) => Ok(d.duplicate()),
        Err(m) => {
            let trimmed = reply_text_to_decode(&r.content);
            let raw = take_chars(trimmed.as_str(), 150);
            assert(trimmed@.take(trimmed@.len() as int) =~= trimmed@);
            let mut s = m.clone();
            push_str(&mut s, " | raw='");
            push_str(&mut s, raw.as_str());
            push_str(&mut s, "'");
            Err(LlmError::Parse(s))
        },
    }
}

/// The reply, or the error that ended the request.
fn reply_or_error(o: ReplyOutcome) -> (r: Result<LlmReply, LlmError>)
    ensures
        match (r, reply_of(o)) {
            (Ok(a), Ok(b)) => a == b,
            (Err(e), Err(v)) => e@ == v,
            _ => false,
        },
{
    match o {
        ReplyOutcome::Failed(e) => Err(e),
        ReplyOutcome::BadJson(m) => Err(LlmError::Parse(m)),
        ReplyOutcome::Reply(r) => Ok(r),
    }
}

impl DecisionRequest {
    /// The conversation to send.
    pub closed spec fn conversation(&self) -> Seq<ChatItemView> {
        item_views(self.messages@)
    }

    /// The session requests go to.
    pub closed spec fn session_spec(&self) -> Session {
        self.session
    }

    /// The conversation to send.
    pub fn messages(&self) -> (m: &[ChatItem])
        ensures
            item_views(m@) == self.conversation(),
    {
        self.messages.as_slice()
    }

    /// The session requests go to.
    pub fn session(&self) -> (s: &Session)
        ensures
            *s == self.session_spec(),
    {
        &self.session
    }

    /// The shape of each request of a decision.
    pub fn shape(&self) -> (s: RequestShape)
        ensures
            s == decision_shape(),
    {
        RequestShape { tools: ToolSet::All, sampling: Sampling::Configured, json_object: false }
    }

    /// Takes the first reply, running tools at local time `t` (see `first_round`): the
    /// answer, or `None` when a second request is due with the extended conversation.
    pub fn on_first_reply_at(&mut self, outcome: ReplyOutcome, tools: &ToolRegistry, t: &LocalTime) -> (r: Option<Result<Decision, LlmError>>)
        ensures
            final(self).session_spec() == old(self).session_spec(),
            match first_round(outcome, tools@, *t, old(self).conversation()) {
                FirstRound::Decided(v) => (r matches Some(x) && answer_is(x, v)),
                FirstRound::AskAgain(m) => r is None && final(self).conversation() == m,
            },
    {
        let reply = match reply_or_error(outcome) {
            Ok(x) => x,
            Err(e) => {
                return Some(Err(e));
            },
        };
        match &reply.tool_calls {
            None => Some(Ok(Decision::Stay)),
            Some(calls) => {
                if calls.len() == 0 {
                    Some(content_decision_exec(&reply))
                } else {
                    let ghost msgs0 = self.messages@;
                    self.messages.push(ChatItem::Assistant(reply.raw.clone()));
                    assert(item_views(self.messages@) =~= item_views(msgs0).push(ChatItemView::Assistant(reply.raw@)));
                    let mut made: Vec<String> = Vec::new();
                    assert(crate::text::views(made@) =~= Seq::<Seq<char>>::empty());
                    match run_tool_calls(&mut self.messages, &mut made, calls, tools, t) {
                        Some(d) => Some(Ok(d)),
                        None => None,
                    }
                }
            },
        }
    }

    /// Takes the first reply, reading the local clock for the tools that need it.
    pub fn on_first_reply(&mut self, outcome: ReplyOutcome, tools: &ToolRegistry) -> (r: Option<Result<Decision, LlmError>>)
        ensures
            final(self).session_spec() == old(self).session_spec(),
            exists|t: LocalTime| match #[trigger] first_round(outcome, tools@, t, old(self).conversation()) {
                FirstRound::Decided(v) => (r matches Some(x) && answer_is(x, v)),
                FirstRound::AskAgain(m) => r is None && final(self).conversation() == m,
            },
    {
        let t = crate::clock::local_now();
        self.on_first_reply_at(outcome, tools, &t)
    }

    /// Takes the second reply (see `second_round`).
    pub fn on_second_reply(&self, outcome: ReplyOutcome, tools: &ToolRegistry) -> (r: Result<Decision, LlmError>)
        ensures
            answer_is(r, second_round(outcome, tools@)),
    {
        let reply = match reply_or_error(outcome) {
            Ok(x) => x,
            Err(e) => {
                return Err(e);
            },
        };
        match &reply.tool_calls {
            Some(calls) => {
                let mut i: usize = 0;
                assert(calls@.skip(0) =~= calls@);
                while i < calls.len()
                    invariant
                        i <= calls@.len(),
                        first_terminal(calls@.skip(i as int), tools@) == first_terminal(calls@, tools@),
                        reply_of(outcome) == Ok::<LlmReply, LlmErrorView>(reply),
                        reply.tool_calls == Some(*calls),
                    decreases calls.len() - i,
                {
                    let c = &calls[i];
                    proof {
                        assert(calls@.skip(i as int)[0] == calls@[i as int]);
                        assert(calls@.skip(i as int).drop_first() =~= calls@.skip(i + 1));
                    }
                    let name = crate::exchange::call_name_exec(c);
                    match tools.decide(name.as_str(), &c.args) {
                        Some(d) => {
                            return Ok(d);
                        },
                        None => {},
                    }
                    i = i + 1;
                }
                content_decision_exec(&reply)
            },
            None => content_decision_exec(&reply),
        }
    }
}

} // verus!
