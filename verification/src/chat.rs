//! Chat with the pet. The model answers with a JSON object; a malformed answer is sent
//! back with a correction, after a growing pause, up to three times; a request for the
//! information tools is answered with their results. A driver performs the HTTP exchanges
//! and the pauses, and hands each outcome back.
use crate::clock::LocalTime;
use crate::exchange::{
    call_id, call_id_exec, call_name, call_name_exec, fed_back, item_views, override_or,
    reply_text_to_decode, resolve_session, session_for, trimmed_content, ChatItem, ChatItemView,
    LlmReply, ReplyOutcome, RequestShape, Sampling, Session, ToolCall, ToolSet,
};
use crate::llm::{llm_error_text, nonempty, LlmStaticConfig};
use crate::memory::types::{ChatMessage, ChatResponse};
use crate::text::{join, join_exec, owned, push_str, str_eq, views};
use crate::tools::{schema_of, tool_result, ToolDef, ToolOutput, ToolRegistry};
use crate::types::{opt_str, AppError, AppErrorCode, DecisionContext};
use vstd::prelude::*;

verus! {

/// How many times a malformed answer is sent back for correction.
pub const MAX_PARSE_RETRIES: u32 = 3;

/// The pause before the first correction; each further one doubles it.
pub const FIRST_BACKOFF_MS: u64 = 600;

/// The animation value that stands for "the model asked for tools".
pub const TOOL_CALLS_MARKER: &'static str = "__tool_calls__";

/// What stands for an answer with no text.
pub const EMPTY_RESPONSE: &'static str = "(empty response)";

/// The correction sent after a malformed answer.
pub const CHAT_CORRECTION: &'static str = "你上次返回的不是合法 JSON。请严格按照 {\"message\":\"回复内容\",\"animation\":null} 格式返回，不要返回任何其他文字。";

/// The personality when none is given.
pub const DEFAULT_CHAT_PERSONALITY: &'static str = "好奇心旺盛、偶尔偷懒、喜欢吸引用户注意";

/// The system prompt after the identity line, before the personality.
pub const CHAT_PERSONALITY_HEAD: &'static str = "\n\n你的性格：";

/// Between the personality and the memory context.
pub const CHAT_MEMORY_HEAD: &'static str = "。\n\n";

/// The system prompt after the memory context.
pub const CHAT_PROMPT_TAIL: &'static str = "\n\n你可以使用 get_current_time 工具查询当前精确时间（如果用户的问题涉及时间，必须先查询再回答）。\n\n请自然地回复用户。你可以：\n- 用可爱的语气聊天（简短，3句话以内）\n- 分享你观察到的事情（如果有记忆上下文的话）\n- 偶尔建议切换动画来表达情绪（touch_nose/think/poop）\n- 回答时间类问题时，先调用 get_current_time 工具，再基于准确时间回复\n\n最终你必须返回一个 JSON 对象，格式如下：\n{\"message\": \"回复内容\", \"animation\": null}\n\nanimation 字段为 null 或动画 ID（touch_nose/think/poop）。不要返回任何其他文字。";

/// The chat system prompt: who the pet is (its name when given), its personality (the
/// default one when none is given), the memory context and the answer format.
pub open spec fn chat_system_prompt(personality: Option<Seq<char>>, pet_name: Option<Seq<char>>, memory: Seq<char>) -> Seq<char> {
    let p = match nonempty(personality) {
        Some(x) => x,
        None => DEFAULT_CHAT_PERSONALITY@,
    };
    let identity = match nonempty(pet_name) {
        Some(n) => "你叫「"@ + n + "」，是一只可爱的桌面宠物。用户正在和你对话。"@,
        None => "你是一只可爱的桌面宠物。用户正在和你对话。"@,
    };
    identity + CHAT_PERSONALITY_HEAD@ + p + CHAT_MEMORY_HEAD@ + memory + CHAT_PROMPT_TAIL@
}

/// Builds the chat system prompt.
pub fn build_chat_system_prompt(personality: Option<&str>, pet_name: Option<&str>, memory_context: &str) -> (s: String)
    ensures
        s@ == chat_system_prompt(crate::llm::opt_view(personality), crate::llm::opt_view(pet_name), memory_context@),
{
    let mut s = match pet_name {
        Some(n) => if n.unicode_len() > 0 {
            let mut id = owned("你叫「");
            push_str(&mut id, n);
            push_str(&mut id, "」，是一只可爱的桌面宠物。用户正在和你对话。");
            id
        } else {
            owned("你是一只可爱的桌面宠物。用户正在和你对话。")
        },
        None => owned("你是一只可爱的桌面宠物。用户正在和你对话。"),
    };
    push_str(&mut s, CHAT_PERSONALITY_HEAD);
    let p = match personality {
        Some(x) => if x.unicode_len() > 0 {
            x
        } else {
            DEFAULT_CHAT_PERSONALITY
        },
        None => DEFAULT_CHAT_PERSONALITY,
    };
    push_str(&mut s, p);
    push_str(&mut s, CHAT_MEMORY_HEAD);
    push_str(&mut s, memory_context);
    push_str(&mut s, CHAT_PROMPT_TAIL);
    s
}

/// The last five messages of the history, in order.
pub open spec fn last_five(h: Seq<ChatMessage>) -> Seq<ChatMessage> {
    if h.len() > 5 {
        h.skip(h.len() - 5)
    } else {
        h
    }
}

/// One history line: who spoke (the user, or else the pet) and what was said.
pub open spec fn history_line(m: ChatMessage) -> Seq<char> {
    "- "@ + (if m.role@ == "user"@ {
        "用户"@
    } else {
        "宠物"@
    }) + ": "@ + m.content@
}

/// The history lines, framed, when there is a history.
pub open spec fn history_part(h: Seq<ChatMessage>) -> Seq<Seq<char>> {
    if h.len() == 0 {
        Seq::empty()
    } else {
        seq!["最近对话历史："@] + last_five(h).map_values(|m: ChatMessage| history_line(m)) + seq!["---"@]
    }
}

/// The selected text and the request to answer about it, when text was selected.
pub open spec fn context_part(c: Option<Seq<char>>) -> Seq<Seq<char>> {
    match c {
        Some(x) => if x.len() > 0 {
            seq!["用户选中了这段文字：「"@ + x + "」"@, "请基于这段文字和用户的消息进行回复。"@]
        } else {
            Seq::empty()
        },
        None => Seq::empty(),
    }
}

/// The chat user prompt: the history, the selected text, then the message, one per line.
pub open spec fn chat_user_prompt(message: Seq<char>, context: Option<Seq<char>>, history: Seq<ChatMessage>) -> Seq<char> {
    join(history_part(history) + context_part(context) + seq!["用户说："@ + message], "\n"@)
}

/// One history line.
fn history_line_exec(m: &ChatMessage) -> (s: String)
    ensures
        s@ == history_line(*m),
{
    proof {
        reveal_strlit("user");
    }
    let mut s = owned("- ");
    if str_eq(m.role.as_str(), "user") {
        push_str(&mut s, "用户");
    } else {
        push_str(&mut s, "宠物");
    }
    push_str(&mut s, ": ");
    push_str(&mut s, m.content.as_str());
    s
}

/// Builds the chat user prompt.
pub fn build_chat_user_prompt(message: &str, context_text: Option<&str>, history: &[ChatMessage]) -> (s: String)
    ensures
        s@ == chat_user_prompt(message@, crate::llm::opt_view(context_text), history@),
{
    let mut parts: Vec<String> = Vec::new();
    if history.len() > 0 {
        parts.push(owned("最近对话历史："));
        let start: usize = if history.len() > 5 {
            history.len() - 5
        } else {
            0
        };
        let ghost lines = last_five(history@).map_values(|m: ChatMessage| history_line(m));
        assert(last_five(history@) =~= history@.skip(start as int));
        let mut i: usize = start;
        while i < history.len()
            invariant
                start <= i <= history@.len(),
                lines == history@.skip(start as int).map_values(|m: ChatMessage| history_line(m)),
                views(parts@) == seq!["最近对话历史："@] + lines.take(i - start),
            decreases history.len() - i,
        {
            let ghost before = parts@;
            parts.push(history_line_exec(&history[i]));
            assert(views(parts@) =~= views(before).push(history_line(history@[i as int])));
            assert(lines.take(i + 1 - start) =~= lines.take(i - start).push(lines[i - start]));
            i = i + 1;
        }
        assert(lines.take(history@.len() - start) =~= lines);
        let ghost before = parts@;
        parts.push(owned("---"));
        assert(views(parts@) =~= views(before).push("---"@));
    }
    let ghost after_history = views(parts@);
    assert(after_history =~= history_part(history@));
    match context_text {
        Some(c) => if c.unicode_len() > 0 {
            let mut l = owned("用户选中了这段文字：「");
            push_str(&mut l, c);
            push_str(&mut l, "」");
            parts.push(l);
            parts.push(owned("请基于这段文字和用户的消息进行回复。"));
        },
        None => {},
    }
    assert(views(parts@) =~= history_part(history@) + context_part(crate::llm::opt_view(context_text)));
    let mut last = owned("用户说：");
    push_str(&mut last, message);
    let ghost before = parts@;
    parts.push(last);
    assert(views(parts@) =~= views(before).push("用户说："@ + message@));
    assert(views(parts@) =~= history_part(history@) + context_part(crate::llm::opt_view(context_text)) + seq![
        "用户说："@ + message@,
    ]);
    join_exec(&parts, "\n")
}

/// Where a chat stands: the first answer, fetching the tool calls, or the final answer.
#[derive(Clone, Copy, Debug, PartialEq, Eq, Structural)]
pub enum ChatPhase {
    FirstAnswer,
    ToolFetch,
    FinalAnswer,
}

/// A chat's state as mathematical values.
pub struct ChatState {
    pub messages: Seq<ChatItemView>,
    pub phase: ChatPhase,
    pub attempt: u32,
    pub backoff_ms: u64,
    pub has_tools: bool,
}

/// An answer as mathematical values.
pub struct ChatResponseView {
    pub message: Seq<char>,
    pub animation: Option<Seq<char>>,
}

/// The view of an answer.
pub open spec fn response_view(c: ChatResponse) -> ChatResponseView {
    ChatResponseView { message: c.message@, animation: opt_str(c.animation) }
}

/// What a chat goes on with: the next request after a pause of `delay` milliseconds, or
/// the answer (an `Err` holds the message of an internal error).
pub enum ChatNext {
    Again(ChatState, u64),
    Finish(Result<ChatResponseView, Seq<char>>),
}

/// The answer in a reply: the tool-calls marker when the model called tools, else the
/// decoded content; `Err` holds what goes back as malformed: `(empty response)` for an
/// empty content, else the trimmed content.
pub open spec fn parsed_answer(r: LlmReply) -> Result<ChatResponseView, Seq<char>> {
    if r.tool_calls matches Some(calls) && calls@.len() > 0 {
        Ok(ChatResponseView { message: Seq::empty(), animation: Some(TOOL_CALLS_MARKER@) })
    } else if trimmed_content(r).len() == 0 {
        Err(EMPTY_RESPONSE@)
    } else {
        match r.chat {
            Some(c) => Ok(response_view(c)),
            None => Err(trimmed_content(r)),
        }
    }
}

/// An answer ends the chat, except a first answer carrying the tool-calls marker, which
/// leads to fetching the tool calls.
pub open spec fn answered(st: ChatState, res: ChatResponseView) -> ChatNext {
    if st.phase == ChatPhase::FirstAnswer && res.animation == Some(TOOL_CALLS_MARKER@) {
        ChatNext::Again(ChatState { phase: ChatPhase::ToolFetch, ..st }, 0)
    } else {
        ChatNext::Finish(Ok(res))
    }
}

/// Twice the pause, at most `u64::MAX`.
pub open spec fn doubled(b: u64) -> u64 {
    if b > u64::MAX / 2 {
        u64::MAX
    } else {
        (b * 2) as u64
    }
}

/// Every call's result appended to the conversation, in order.
pub open spec fn all_tool_results(calls: Seq<ToolCall>, tools: Seq<ToolDef>, t: LocalTime, msgs: Seq<ChatItemView>) -> Seq<ChatItemView>
    decreases calls.len(),
{
    if calls.len() == 0 {
        msgs
    } else {
        let c = calls[0];
        all_tool_results(
            calls.drop_first(),
            tools,
            t,
            msgs.push(ChatItemView::Tool { call_id: call_id(c), output: fed_back(tool_result(tools, call_name(c), c.args, t)) }),
        )
    }
}

/// What a reply leads to (tools run at local time `t`). A failed request or a body that is
/// not JSON ends the chat with an internal error. When fetching tool calls, a reply without
/// them is an error; else the assistant message and every call's result are appended and
/// the final answer is asked for, without tools. Otherwise an answer is taken as `answered`
/// says; a malformed one is sent back with the correction after the current pause (which
/// then doubles), and after three corrections its text is the answer.
pub open spec fn chat_next(st: ChatState, o: ReplyOutcome, tools: Seq<ToolDef>, t: LocalTime) -> ChatNext {
    match o {
        ReplyOutcome::Failed(e) => ChatNext::Finish(Err(llm_error_text(e))),
        ReplyOutcome::BadJson(m) => ChatNext::Finish(Err(m@)),
        ReplyOutcome::Reply(r) => if st.phase == ChatPhase::ToolFetch {
            match r.tool_calls {
                None => ChatNext::Finish(Err("expected tool_calls but none found"@)),
                Some(calls) => ChatNext::Again(
                    ChatState {
                        messages: all_tool_results(calls@, tools, t, st.messages.push(ChatItemView::Assistant(r.raw@))),
                        phase: ChatPhase::FinalAnswer,
                        attempt: 0,
                        backoff_ms: FIRST_BACKOFF_MS,
                        has_tools: false,
                    },
                    0,
                ),
            }
        } else {
            match parsed_answer(r) {
                Ok(res) => answered(st, res),
                Err(raw) => if st.attempt < MAX_PARSE_RETRIES {
                    ChatNext::Again(
                        ChatState {
                            messages: st.messages.push(ChatItemView::Assistant(r.raw@)).push(ChatItemView::User(CHAT_CORRECTION@)),
                            attempt: (st.attempt + 1) as u32,
                            backoff_ms: doubled(st.backoff_ms),
                            ..st
                        },
                        st.backoff_ms,
                    )
                } else {
                    ChatNext::Finish(Ok(ChatResponseView { message: raw, animation: None }))
                },
            }
        },
    }
}

/// Corrections are bounded: while an answer is awaited, each malformed reply counts one
/// attempt, never more than three, and is retried after the current pause, which then
/// doubles.
pub proof fn law_chat_retries(st: ChatState, o: ReplyOutcome, tools: Seq<ToolDef>, t: LocalTime)
    requires
        st.phase != ChatPhase::ToolFetch,
        st.attempt <= MAX_PARSE_RETRIES,
    ensures
        match chat_next(st, o, tools, t) {
            ChatNext::Again(s2, d) => s2.phase == st.phase ==> {
                &&& s2.attempt == st.attempt + 1
                &&& s2.attempt <= MAX_PARSE_RETRIES
                &&& d == st.backoff_ms
                &&& s2.backoff_ms == doubled(st.backoff_ms)
            },
            ChatNext::Finish(_) => true,
        },
{
}

/// The shape of the next request: the tool fetch offers the information tools; answers are
/// asked without tools, as a JSON object when tools exist or after a correction; all at
/// temperature 0.8 with at most 512 tokens.
pub open spec fn chat_shape(st: ChatState) -> RequestShape {
    if st.phase == ChatPhase::ToolFetch {
        RequestShape { tools: ToolSet::InfoOnly, sampling: Sampling::Fixed { temperature_tenths: 8, max_tokens: 512 }, json_object: false }
    } else {
        RequestShape {
            tools: ToolSet::NoTools,
            sampling: Sampling::Fixed { temperature_tenths: 8, max_tokens: 512 },
            json_object: st.has_tools || st.attempt > 0,
        }
    }
}

/// A chat in progress.
pub struct ChatExchange {
    messages: Vec<ChatItem>,
    session: Session,
    phase: ChatPhase,
    attempt: u32,
    backoff_ms: u64,
    has_tools: bool,
}

/// What the driver does next: wait this many milliseconds and send the next request, or
/// stop with the answer.
pub enum ChatStep {
    Next(u64),
    Done(Result<ChatResponse, AppError>),
}

/// How a chat begins: refused when the context turns the model off or no API key is
/// configured; else with the two prompts, the first phase, and the session of the context.
pub open spec fn chat_started(
    config: LlmStaticConfig,
    ctx: DecisionContext,
    message: Seq<char>,
    context_text: Option<Seq<char>>,
    history: Seq<ChatMessage>,
    memory_context: Seq<char>,
    tools: Seq<ToolDef>,
    r: Result<ChatExchange, AppError>,
) -> bool {
    if ctx.llm_enabled == Some(false) {
        r matches Err(e) && e.code == AppErrorCode::EInternal && e.message@ == "LLM disabled"@
    } else if override_or(ctx.llm_api_key, config.api_key@).len() == 0 {
        r matches Err(e) && e.code == AppErrorCode::EInternal && e.message@ == "No API key configured"@
    } else {
        r matches Ok(x) && x.state() == (ChatState {
            messages: seq![
                ChatItemView::System(chat_system_prompt(opt_str(ctx.pet_personality), opt_str(ctx.pet_name), memory_context)),
                ChatItemView::User(chat_user_prompt(message, context_text, history)),
            ],
            phase: ChatPhase::FirstAnswer,
            attempt: 0,
            backoff_ms: FIRST_BACKOFF_MS,
            has_tools: schema_of(tools, true).len() > 0,
        }) && session_for(config, ctx, x.session_spec())
    }
}

/// Starts a chat (see `chat_started`).
pub fn start_chat(
    config: &LlmStaticConfig,
    ctx: &DecisionContext,
    message: &str,
    context_text: Option<&str>,
    history: &[ChatMessage],
    memory_context: &str,
    tools: &ToolRegistry,
) -> (r: Result<ChatExchange, AppError>)
    ensures
        chat_started(*config, *ctx, message@, crate::llm::opt_view(context_text), history@, memory_context@, tools@, r),
{
    let enabled = match ctx.llm_enabled {
        Some(b) => b,
        None => true,
    };
    if !enabled {
        return Err(AppError::internal(owned("LLM disabled")));
    }
    let session = resolve_session(config, ctx);
    if session.api_key.as_str().unicode_len() == 0 {
        return Err(AppError::internal(owned("No API key configured")));
    }
    let system_prompt = build_chat_system_prompt(
        crate::types::as_str_opt(&ctx.pet_personality),
        crate::types::as_str_opt(&ctx.pet_name),
        memory_context,
    );
    let user_prompt = build_chat_user_prompt(message, context_text, history);
    let schema = tools.info_schema();
    let mut messages: Vec<ChatItem> = Vec::new();
    messages.push(ChatItem::System(system_prompt));
    messages.push(ChatItem::User(user_prompt));
    let x = ChatExchange {
        messages,
        session,
        phase: ChatPhase::FirstAnswer,
        attempt: 0,
        backoff_ms: FIRST_BACKOFF_MS,
        has_tools: schema.len() > 0,
    };
    assert(item_views(x.messages@) =~= seq![
        ChatItemView::System(chat_system_prompt(opt_str(ctx.pet_personality), opt_str(ctx.pet_name), memory_context@)),
        ChatItemView::User(chat_user_prompt(message@, crate::llm::opt_view(context_text), history@)),
    ]);
    Ok(x)
}

/// An exact copy of an answer.
fn copy_response(c: &ChatResponse) -> (r: ChatResponse)
    ensures
        response_view(r) == response_view(*c),
{
    ChatResponse { message: c.message.clone(), animation: crate::types::clone_opt(&c.animation) }
}

/// The answer in a reply (see `parsed_answer`).
fn parse_answer(r: &LlmReply) -> (a: Result<ChatResponse, String>)
    ensures
        match parsed_answer(*r) {
            Ok(v) => (a matches Ok(c) && response_view(c) == v),
            Err(m) => (a matches Err(s) && s@ == m),
        },
{
    match &r.tool_calls {
        Some(calls) => if calls.len() > 0 {
            return Ok(ChatResponse { message: String::new(), animation: Some(owned(TOOL_CALLS_MARKER)) });
        },
        None => {},
    }
    let text = reply_text_to_decode(&r.content);
    if text.as_str().unicode_len() == 0 {
        return Err(owned(EMPTY_RESPONSE));
    }
    match &r.chat {
        Some(c) => Ok(copy_response(c)),
        None => Err(text),
    }
}

/// Appends every call's result to the conversation (see `all_tool_results`).
fn push_tool_results(messages: &mut Vec<ChatItem>, calls: &Vec<ToolCall>, tools: &ToolRegistry, t: &LocalTime)
    ensures
        item_views(final(messages)@) == all_tool_results(calls@, tools@, *t, item_views(old(messages)@)),
{
    let ghost goal = all_tool_results(calls@, tools@, *t, item_views(messages@));
    let mut i: usize = 0;
    assert(calls@.skip(0) =~= calls@);
    while i < calls.len()
        invariant
            i <= calls@.len(),
            goal == all_tool_results(calls@, tools@, *t, item_views(old(messages)@)),
            all_tool_results(calls@.skip(i as int), tools@, *t, item_views(messages@)) == goal,
        decreases calls.len() - i,
    {
        let c = &calls[i];
        proof {
            assert(calls@.skip(i as int)[0] == calls@[i as int]);
            assert(calls@.skip(i as int).drop_first() =~= calls@.skip(i + 1));
        }
        let name = call_name_exec(c);
        let output = match tools.execute_at(name.as_str(), &c.args, t) {
            Ok(o) => o,
            Err(e) => ToolOutput::Text(e),
        };
        let id = call_id_exec(c);
        let ghost before = messages@;
        messages.push(ChatItem::Tool { call_id: id, output });
        assert(item_views(messages@) =~= item_views(before).push(
            ChatItemView::Tool { call_id: call_id(calls@[i as int]), output: fed_back(tool_result(tools@, call_name(calls@[i as int]), calls@[i as int].args, *t)) },
        ));
        i = i + 1;
    }
    assert(calls@.skip(calls@.len() as int) =~= Seq::<ToolCall>::empty());
}

impl ChatExchange {
    /// The state of the chat.
    pub closed spec fn state(&self) -> ChatState {
        ChatState {
            messages: item_views(self.messages@),
            phase: self.phase,
            attempt: self.attempt,
            backoff_ms: self.backoff_ms,
            has_tools: self.has_tools,
        }
    }

    /// The session requests go to.
    pub closed spec fn session_spec(&self) -> Session {
        self.session
    }

    /// The conversation to send.
    pub fn messages(&self) -> (m: &[ChatItem])
        ensures
            item_views(m@) == self.state().messages,
    {
        self.messages.as_slice()
    }

    /// The session requests go to.
    pub fn session(&self) -> (s: &Session)
        ensures
            *s == self.session_spec(),
    {
        &self.session
    }

    /// The shape of the next request (see `chat_shape`).
    pub fn shape(&self) -> (s: RequestShape)
        ensures
            s == chat_shape(self.state()),
    {
        let sampling = Sampling::Fixed { temperature_tenths: 8, max_tokens: 512 };
        if self.phase == ChatPhase::ToolFetch {
            RequestShape { tools: ToolSet::InfoOnly, sampling, json_object: false }
        } else {
            RequestShape { tools: ToolSet::NoTools, sampling, json_object: self.has_tools || self.attempt > 0 }
        }
    }

    /// Ends the chat with this answer, unless it is a first answer with the tool-calls
    /// marker (see `answered`).
    fn take_answer(&mut self, res: ChatResponse) -> (step: ChatStep)
        ensures
            final(self).session_spec() == old(self).session_spec(),
            match answered(old(self).state(), response_view(res)) {
                ChatNext::Again(s2, d) => step == ChatStep::Next(d) && final(self).state() == s2,
                ChatNext::Finish(Ok(v)) => (step matches ChatStep::Done(Ok(c)) && response_view(c) == v),
                ChatNext::Finish(Err(_)) => false,
            },
    {
        proof {
            reveal_strlit("__tool_calls__");
        }
        let marker = match &res.animation {
            Some(a) => str_eq(a.as_str(), TOOL_CALLS_MARKER),
            None => false,
        };
        if self.phase == ChatPhase::FirstAnswer && marker {
            self.phase = ChatPhase::ToolFetch;
            ChatStep::Next(0)
        } else {
            ChatStep::Done(Ok(res))
        }
    }

    /// Takes the outcome of the last request, running tools at local time `t` (see
    /// `chat_next`).
    pub fn on_reply_at(&mut self, outcome: ReplyOutcome, tools: &ToolRegistry, t: &LocalTime) -> (step: ChatStep)
        ensures
            final(self).session_spec() == old(self).session_spec(),
            match chat_next(old(self).state(), outcome, tools@, *t) {
                ChatNext::Again(s2, d) => step == ChatStep::Next(d) && final(self).state() == s2,
                ChatNext::Finish(Ok(v)) => (step matches ChatStep::Done(Ok(c)) && response_view(c) == v),
                ChatNext::Finish(Err(m)) => (step matches ChatStep::Done(Err(e)) && e.code == AppErrorCode::EInternal
                    && e.message@ == m),
            },
    {
        match outcome {
            ReplyOutcome::Failed(e) => ChatStep::Done(Err(AppError::internal(e.to_message()))),
            ReplyOutcome::BadJson(m) => ChatStep::Done(Err(AppError::internal(m))),
            ReplyOutcome::Reply(r) => {
                if self.phase == ChatPhase::ToolFetch {
                    match &r.tool_calls {
                        None => ChatStep::Done(Err(AppError::internal(owned("expected tool_calls but none found")))),
                        Some(calls) => {
                            let ghost before = self.messages@;
                            self.messages.push(ChatItem::Assistant(r.raw.clone()));
                            assert(item_views(self.messages@) =~= item_views(before).push(ChatItemView::Assistant(r.raw@)));
                            push_tool_results(&mut self.messages, calls, tools, t);
                            self.phase = ChatPhase::FinalAnswer;
                            self.attempt = 0;
                            self.backoff_ms = FIRST_BACKOFF_MS;
                            self.has_tools = false;
                            ChatStep::Next(0)
                        },
                    }
                } else {
                    match parse_answer(&r) {
                        Ok(res) => self.take_answer(res),
                        Err(raw) => {
                            if self.attempt < MAX_PARSE_RETRIES {
                                let delay = self.backoff_ms;
                                let ghost before = self.messages@;
                                self.messages.push(ChatItem::Assistant(r.raw.clone()));
                                self.messages.push(ChatItem::User(owned(CHAT_CORRECTION)));
                                assert(item_views(self.messages@) =~= item_views(before).push(ChatItemView::Assistant(r.raw@)).push(
                                    ChatItemView::User(CHAT_CORRECTION@),
                                ));
                                self.attempt = self.attempt + 1;
                                self.backoff_ms = if self.backoff_ms > u64::MAX / 2 {
                                    u64::MAX
                                } else {
                                    self.backoff_ms * 2
                                };
                                ChatStep::Next(delay)
                            } else {
                                ChatStep::Done(Ok(ChatResponse { message: raw, animation: None }))
                            }
                        },
                    }
                }
            },
        }
    }

    /// Takes the outcome of the last request, reading the local clock for the tools that
    /// need it.
    pub fn on_reply(&mut self, outcome: ReplyOutcome, tools: &ToolRegistry) -> (step: ChatStep)
        ensures
            final(self).session_spec() == old(self).session_spec(),
            exists|t: LocalTime| match #[trigger] chat_next(old(self).state(), outcome, tools@, t) {
                ChatNext::Again(s2, d) => step == ChatStep::Next(d) && final(self).state() == s2,
                ChatNext::Finish(Ok(v)) => (step matches ChatStep::Done(Ok(c)) && response_view(c) == v),
                ChatNext::Finish(Err(m)) => (step matches ChatStep::Done(Err(e)) && e.code == AppErrorCode::EInternal
                    && e.message@ == m),
            },
    {
        let t = crate::clock::local_now();
        self.on_reply_at(outcome, tools, &t)
    }
}

} // verus!
