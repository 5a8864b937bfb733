//! What is exchanged with the chat-completions API: the conversation, the requests, and the
//! replies as the driver decodes them.
use crate::llm::{endpoint_text, normalize_endpoint, timeout_for, timeout_ms, LlmError, LlmStaticConfig};
use crate::memory::types::ChatResponse;
use crate::clock::LocalTime;
use crate::text::{owned, trim, views};
use crate::tools::{
    find_tool, kind_is_terminal, tool_decision, tool_result, ToolArgs, ToolDef, ToolOutput, ToolOutputView,
    ToolRegistry,
};
use crate::types::{Decision, DecisionContext, DecisionView};
use vstd::prelude::*;

verus! {

/// One message of the conversation sent to the model.
#[derive(Debug)]
pub enum ChatItem {
    System(String),
    User(String),
    /// An assistant message, re-sent as the model returned it (its JSON text).
    Assistant(String),
    /// The result of a tool call.
    Tool { call_id: String, output: ToolOutput },
}

/// A conversation message as mathematical values.
pub enum ChatItemView {
    System(Seq<char>),
    User(Seq<char>),
    Assistant(Seq<char>),
    Tool { call_id: Seq<char>, output: ToolOutputView },
}

impl View for ChatItem {
    type V = ChatItemView;

    open spec fn view(&self) -> ChatItemView {
        match self {
            ChatItem::System(s) => ChatItemView::System(s@),
            ChatItem::User(s) => ChatItemView::User(s@),
            ChatItem::Assistant(s) => ChatItemView::Assistant(s@),
            ChatItem::Tool { call_id, output } => ChatItemView::Tool { call_id: call_id@, output: output@ },
        }
    }
}

/// The views of a conversation.
pub open spec fn item_views(s: Seq<ChatItem>) -> Seq<ChatItemView> {
    s.map_values(|m: ChatItem| m@)
}

/// A function call the model asked for; `None` where the JSON lacks the field.
#[derive(Debug)]
pub struct ToolCall {
    pub id: Option<String>,
    pub name: Option<String>,
    pub args: ToolArgs,
}

/// The identifier of a call, `?` when missing.
pub open spec fn call_id(c: ToolCall) -> Seq<char> {
    match c.id {
        Some(s) => s@,
        None => "?"@,
    }
}

/// The tool name of a call, `?` when missing.
pub open spec fn call_name(c: ToolCall) -> Seq<char> {
    match c.name {
        Some(s) => s@,
        None => "?"@,
    }
}

/// The first choice's message of a decoded reply. `content` is present when it is a string,
/// `tool_calls` when it is an array. `raw` is the message's JSON text. `decision` and
/// `chat` are the trimmed content decoded as a decision and as a chat answer (`Err` holds
/// the decoder's message).
#[derive(Debug)]
pub struct LlmReply {
    pub content: Option<String>,
    pub tool_calls: Option<Vec<ToolCall>>,
    pub raw: String,
    pub decision: Result<Decision, String>,
    pub chat: Option<ChatResponse>,
}

/// The content text, empty when missing.
pub open spec fn content_text(r: LlmReply) -> Seq<char> {
    match r.content {
        Some(s) => s@,
        None => Seq::empty(),
    }
}

/// The trimmed content, the text the decoders read.
pub open spec fn trimmed_content(r: LlmReply) -> Seq<char> {
    trim(content_text(r))
}

/// How a request ended: the transport failed, the body was not JSON (with the decoder's
/// message), or a reply came back.
#[derive(Debug)]
pub enum ReplyOutcome {
    Failed(LlmError),
    BadJson(String),
    Reply(LlmReply),
}

/// Which tool schemas go with a request.
#[derive(Clone, Copy, Debug, PartialEq, Eq, Structural)]
pub enum ToolSet {
    NoTools,
    All,
    InfoOnly,
}

/// Sampling settings: the configured temperature and token limit, or fixed ones (the
/// temperature in tenths).
#[derive(Clone, Copy, Debug, PartialEq, Eq, Structural)]
pub enum Sampling {
    Configured,
    Fixed { temperature_tenths: u32, max_tokens: u32 },
}

/// Everything about a request besides the conversation and the session.
#[derive(Clone, Copy, Debug, PartialEq, Eq, Structural)]
pub struct RequestShape {
    pub tools: ToolSet,
    pub sampling: Sampling,
    pub json_object: bool,
}

/// Where and how requests go: endpoint, key, model and timeout.
#[derive(Debug)]
pub struct Session {
    pub endpoint: String,
    pub api_key: String,
    pub model: String,
    pub timeout_ms: u64,
}

/// A non-empty override, else the fallback.
pub open spec fn override_or(o: Option<String>, fallback: Seq<char>) -> Seq<char> {
    match o {
        Some(s) => if s@.len() > 0 {
            s@
        } else {
            fallback
        },
        None => fallback,
    }
}

/// The session for a context: runtime overrides win over the static configuration, the
/// endpoint is completed, and the timeout follows the ticker interval.
pub open spec fn session_for(config: LlmStaticConfig, ctx: DecisionContext, s: Session) -> bool {
    &&& s.endpoint@ == endpoint_text(override_or(ctx.llm_api_endpoint, config.endpoint@))
    &&& s.api_key@ == override_or(ctx.llm_api_key, config.api_key@)
    &&& s.model@ == override_or(ctx.llm_model, config.model@)
    &&& s.timeout_ms == timeout_for(ctx.ticker_interval_ms)
}

/// A non-empty override, else the fallback.
pub fn override_or_exec(o: &Option<String>, fallback: &String) -> (s: String)
    ensures
        s@ == override_or(*o, fallback@),
{
    match o {
        Some(x) => if x.as_str().unicode_len() > 0 {
            x.clone()
        } else {
            fallback.clone()
        },
        None => fallback.clone(),
    }
}

/// Resolves the session for a context.
pub fn resolve_session(config: &LlmStaticConfig, ctx: &DecisionContext) -> (s: Session)
    ensures
        session_for(*config, *ctx, s),
{
    let ep = override_or_exec(&ctx.llm_api_endpoint, &config.endpoint);
    Session {
        endpoint: normalize_endpoint(ep.as_str()),
        api_key: override_or_exec(&ctx.llm_api_key, &config.api_key),
        model: override_or_exec(&ctx.llm_model, &config.model),
        timeout_ms: timeout_ms(ctx.ticker_interval_ms),
    }
}

/// The text the reply decoders read: the content, trimmed.
pub fn reply_text_to_decode(content: &Option<String>) -> (s: String)
    ensures
        s@ == trim(match *content {
            Some(c) => c@,
            None => Seq::empty(),
        }),
{
    match content {
        Some(c) => crate::text::trim_exec(c.as_str()),
        None => String::new(),
    }
}

/// What a non-terminal tool call feeds back: its text, or the error text.
pub open spec fn fed_back(r: Result<ToolOutputView, Seq<char>>) -> ToolOutputView {
    match r {
        Ok(o) => o,
        Err(e) => ToolOutputView::Text(e),
    }
}

/// Runs the calls in order: each name is recorded; a terminal tool ends the run with its
/// decision; any other tool's result is appended to the conversation.
pub open spec fn run_calls(
    calls: Seq<ToolCall>,
    tools: Seq<ToolDef>,
    t: LocalTime,
    msgs: Seq<ChatItemView>,
    made: Seq<Seq<char>>,
) -> (Seq<ChatItemView>, Seq<Seq<char>>, Option<DecisionView>)
    decreases calls.len(),
{
    if calls.len() == 0 {
        (msgs, made, None)
    } else {
        let c = calls[0];
        let made2 = made.push(call_name(c));
        match find_tool(tools, call_name(c)) {
            Some(d) => if kind_is_terminal(d.kind) {
                (msgs, made2, Some(tool_decision(d.kind, c.args)))
            } else {
                run_calls(
                    calls.drop_first(),
                    tools,
                    t,
                    msgs.push(ChatItemView::Tool { call_id: call_id(c), output: fed_back(tool_result(tools, call_name(c), c.args, t)) }),
                    made2,
                )
            },
            None => run_calls(
                calls.drop_first(),
                tools,
                t,
                msgs.push(ChatItemView::Tool { call_id: call_id(c), output: fed_back(tool_result(tools, call_name(c), c.args, t)) }),
                made2,
            ),
        }
    }
}

/// The name of a call, `?` when missing.
pub fn call_name_exec(c: &ToolCall) -> (s: String)
    ensures
        s@ == call_name(*c),
{
    match &c.name {
        Some(n) => n.clone(),
        None => owned("?"),
    }
}

/// The identifier of a call, `?` when missing.
pub fn call_id_exec(c: &ToolCall) -> (s: String)
    ensures
        s@ == call_id(*c),
{
    match &c.id {
        Some(n) => n.clone(),
        None => owned("?"),
    }
}

/// Runs the calls in order, as `run_calls` says; a terminal tool's decision is returned.
pub fn run_tool_calls(
    messages: &mut Vec<ChatItem>,
    made: &mut Vec<String>,
    calls: &Vec<ToolCall>,
    tools: &ToolRegistry,
    t: &LocalTime,
) -> (d: Option<Decision>)
    ensures
        ({
            let res = run_calls(calls@, tools@, *t, item_views(old(messages)@), views(old(made)@));
            &&& item_views(final(messages)@) == res.0
            &&& views(final(made)@) == res.1
            &&& match d {
                Some(x) => res.2 == Some(x@),
                None => res.2 is None,
            }
        }),
{
    let ghost goal = run_calls(calls@, tools@, *t, item_views(messages@), views(made@));
    let mut i: usize = 0;
    assert(calls@.skip(0) =~= calls@);
    while i < calls.len()
        invariant
            i <= calls@.len(),
            goal == run_calls(calls@, tools@, *t, item_views(old(messages)@), views(old(made)@)),
            run_calls(calls@.skip(i as int), tools@, *t, item_views(messages@), views(made@)) == goal,
        decreases calls.len() - i,
    {
        let c = &calls[i];
        proof {
            assert(calls@.skip(i as int)[0] == calls@[i as int]);
            assert(calls@.skip(i as int).drop_first() =~= calls@.skip(i + 1));
        }
        let name = call_name_exec(c);
        let ghost made0 = made@;
        made.push(name.clone());
        proof {
            assert(views(made@) =~= views(made0).push(name@));
        }
        let r = tools.execute_at(name.as_str(), &c.args, t);
        if tools.is_terminal(name.as_str()) {
            match r {
                Ok(ToolOutput::Decision(d)) => {
                    return Some(d);
                },
                _ => {
                    return Some(Decision::Stay);
                },
            }
        }
        let output = match r {
            Ok(o) => o,
            Err(e) => ToolOutput::Text(e),
        };
        let id = call_id_exec(c);
        let ghost msgs0 = messages@;
        messages.push(ChatItem::Tool { call_id: id, output });
        proof {
            assert(item_views(messages@) =~= item_views(msgs0).push(
                ChatItemView::Tool { call_id: call_id(calls@[i as int]), output: fed_back(tool_result(tools@, call_name(calls@[i as int]), calls@[i as int].args, *t)) },
            ));
        }
        i = i + 1;
    }
    None
}

} // verus!
