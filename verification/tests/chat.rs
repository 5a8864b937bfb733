use desktop_pet::chat::{build_chat_system_prompt, build_chat_user_prompt, start_chat, ChatStep, CHAT_CORRECTION};
use desktop_pet::clock::LocalTime;
use desktop_pet::exchange::{ChatItem, LlmReply, ReplyOutcome, Sampling, ToolCall, ToolSet};
use desktop_pet::llm::{load_static_config, LlmEnv, LlmError, LlmStaticConfig};
use desktop_pet::memory::types::{ChatMessage, ChatResponse};
use desktop_pet::tools::{ToolArgs, ToolOutput, ToolRegistry};
use desktop_pet::types::{AnimationState, AppErrorCode, Decision, DecisionContext, Phase};

fn config(key: &str) -> LlmStaticConfig {
    load_static_config(&LlmEnv { api_key: Some(key.to_string()), system_prompt: None, enabled: None, endpoint: None, model: None, max_tokens: None })
}

fn context() -> DecisionContext {
    DecisionContext {
        current_state: AnimationState { phase: Phase::Playing, current: "think".to_string(), iteration: 1, transition: None },
        last_interaction_at: 0,
        ticker_interval_ms: 30000,
        time_of_day: None,
        recent_history: None,
        llm_enabled: None,
        pet_personality: None,
        pet_name: None,
        llm_api_endpoint: None,
        llm_api_key: None,
        llm_model: None,
        events_summary: None,
        memory_context: None,
    }
}

fn msg(role: &str, content: &str) -> ChatMessage {
    ChatMessage { role: role.to_string(), content: content.to_string(), timestamp: 0, animation_triggered: None }
}

fn answer(content: &str, chat: Option<ChatResponse>) -> ReplyOutcome {
    ReplyOutcome::Reply(LlmReply { content: Some(content.to_string()), tool_calls: None, raw: "{\"content\":\"..\"}".to_string(), decision: Err("x".to_string()), chat })
}

fn with_calls(calls: Vec<ToolCall>) -> ReplyOutcome {
    ReplyOutcome::Reply(LlmReply { content: None, tool_calls: Some(calls), raw: "{\"tool_calls\":[]}".to_string(), decision: Err("x".to_string()), chat: None })
}

fn resp(m: &str, a: Option<&str>) -> ChatResponse {
    ChatResponse { message: m.to_string(), animation: a.map(String::from) }
}

fn t() -> LocalTime {
    LocalTime { year: 2024, month: 2, day: 29, hour: 8, minute: 30, second: 0, weekday: 4 }
}

fn no_args() -> ToolArgs {
    ToolArgs { to: None, reason: None, message: None, animation: None, duration_seconds: None, delay_seconds: None }
}

#[test]
fn system_prompt() {
    let p = build_chat_system_prompt(None, None, "(暂无记忆上下文)");
    assert!(p.starts_with("你是一只可爱的桌面宠物。用户正在和你对话。\n\n你的性格：好奇心旺盛、偶尔偷懒、喜欢吸引用户注意。\n\n(暂无记忆上下文)\n\n你可以使用 get_current_time"));
    assert!(p.ends_with("不要返回任何其他文字。"));
    assert!(p.contains("{\"message\": \"回复内容\", \"animation\": null}"));
    let named = build_chat_system_prompt(Some("高冷"), Some("咪咪"), "M");
    assert!(named.starts_with("你叫「咪咪」，是一只可爱的桌面宠物。用户正在和你对话。\n\n你的性格：高冷。\n\nM\n\n"));
    let blank = build_chat_system_prompt(Some(""), Some(""), "");
    assert!(blank.starts_with("你是一只可爱的桌面宠物。用户正在和你对话。\n\n你的性格：好奇心旺盛"));
}

#[test]
fn user_prompt() {
    assert_eq!(build_chat_user_prompt("你好", None, &[]), "用户说：你好");
    assert_eq!(build_chat_user_prompt("你好", Some(""), &[]), "用户说：你好");
    assert_eq!(
        build_chat_user_prompt("什么意思", Some("hello"), &[]),
        "用户选中了这段文字：「hello」\n请基于这段文字和用户的消息进行回复。\n用户说：什么意思"
    );
    let history: Vec<ChatMessage> = (1..=7).map(|i| msg(if i % 2 == 1 { "user" } else { "assistant" }, &format!("m{}", i))).collect();
    assert_eq!(
        build_chat_user_prompt("嗯", None, &history),
        "最近对话历史：\n- 用户: m3\n- 宠物: m4\n- 用户: m5\n- 宠物: m6\n- 用户: m7\n---\n用户说：嗯"
    );
}

#[test]
fn start_refusals() {
    let tools = ToolRegistry::new();
    let mut ctx = context();
    ctx.llm_enabled = Some(false);
    match start_chat(&config("k"), &ctx, "hi", None, &[], "", &tools) {
        Err(e) => {
            assert_eq!(e.code, AppErrorCode::EInternal);
            assert_eq!(e.message, "LLM disabled");
        }
        Ok(_) => panic!(),
    }
    match start_chat(&config(""), &context(), "hi", None, &[], "", &tools) {
        Err(e) => assert_eq!(e.message, "No API key configured"),
        Ok(_) => panic!(),
    }
}

#[test]
fn direct_answer() {
    let tools = ToolRegistry::new();
    let mut c = start_chat(&config("k"), &context(), "hi", None, &[], "", &tools).unwrap();
    let s = c.shape();
    assert_eq!(s.tools, ToolSet::NoTools);
    assert_eq!(s.sampling, Sampling::Fixed { temperature_tenths: 8, max_tokens: 512 });
    assert!(s.json_object);
    match c.on_reply_at(answer("{\"message\":\"喵\",\"animation\":\"think\"}", Some(resp("喵", Some("think")))), &tools, &t()) {
        ChatStep::Done(Ok(r)) => {
            assert_eq!(r.message, "喵");
            assert_eq!(r.animation.as_deref(), Some("think"));
        }
        _ => panic!("expected the answer"),
    }
}

#[test]
fn malformed_answers_are_corrected_with_backoff() {
    let tools = ToolRegistry::new();
    let mut c = start_chat(&config("k"), &context(), "hi", None, &[], "", &tools).unwrap();
    let mut delays = Vec::new();
    for _ in 0..3 {
        match c.on_reply_at(answer(" 不是JSON ", None), &tools, &t()) {
            ChatStep::Next(d) => delays.push(d),
            ChatStep::Done(_) => panic!("gave up too early"),
        }
        assert!(c.shape().json_object);
    }
    assert_eq!(delays, vec![600, 1200, 2400]);
    assert_eq!(c.messages().len(), 8);
    match &c.messages()[3] {
        ChatItem::User(u) => assert_eq!(u, CHAT_CORRECTION),
        _ => panic!(),
    }
    match c.on_reply_at(answer(" 不是JSON ", None), &tools, &t()) {
        ChatStep::Done(Ok(r)) => {
            assert_eq!(r.message, "不是JSON");
            assert!(r.animation.is_none());
        }
        _ => panic!("expected the raw text"),
    }
}

#[test]
fn empty_answer_falls_back_to_marker_text() {
    let tools = ToolRegistry::new();
    let mut c = start_chat(&config("k"), &context(), "hi", None, &[], "", &tools).unwrap();
    for _ in 0..3 {
        assert!(matches!(c.on_reply_at(answer("   ", None), &tools, &t()), ChatStep::Next(_)));
    }
    match c.on_reply_at(answer("", None), &tools, &t()) {
        ChatStep::Done(Ok(r)) => assert_eq!(r.message, "(empty response)"),
        _ => panic!(),
    }
}

#[test]
fn tool_round_trip() {
    let tools = ToolRegistry::new();
    let mut c = start_chat(&config("k"), &context(), "几点了", None, &[], "", &tools).unwrap();
    let calls = vec![ToolCall { id: Some("c1".to_string()), name: Some("get_current_time".to_string()), args: no_args() }];
    assert!(matches!(c.on_reply_at(with_calls(calls), &tools, &t()), ChatStep::Next(0)));
    let s = c.shape();
    assert_eq!(s.tools, ToolSet::InfoOnly);
    assert!(!s.json_object);
    let calls = vec![
        ToolCall { id: Some("c1".to_string()), name: Some("get_current_time".to_string()), args: no_args() },
        ToolCall { id: Some("c2".to_string()), name: Some("switch_animation".to_string()), args: ToolArgs { to: Some("poop".to_string()), ..no_args() } },
    ];
    assert!(matches!(c.on_reply_at(with_calls(calls), &tools, &t()), ChatStep::Next(0)));
    let m = c.messages();
    assert_eq!(m.len(), 5);
    match &m[3] {
        ChatItem::Tool { call_id, output: ToolOutput::Text(s) } => {
            assert_eq!(call_id, "c1");
            assert_eq!(s, "2024年02月29日 08:30:00 (星期四)");
        }
        _ => panic!(),
    }
    match &m[4] {
        ChatItem::Tool { output: ToolOutput::Decision(Decision::Switch { to, .. }), .. } => assert_eq!(to, "poop"),
        _ => panic!(),
    }
    // The final answer is asked without tools and, no tools being offered, without JSON mode.
    assert!(!c.shape().json_object);
    match c.on_reply_at(answer("{}", Some(resp("八点半啦", None))), &tools, &t()) {
        ChatStep::Done(Ok(r)) => assert_eq!(r.message, "八点半啦"),
        _ => panic!(),
    }
}

#[test]
fn tool_fetch_without_calls_is_an_error() {
    let tools = ToolRegistry::new();
    let mut c = start_chat(&config("k"), &context(), "hi", None, &[], "", &tools).unwrap();
    assert!(matches!(c.on_reply_at(answer("{}", Some(resp("", Some("__tool_calls__")))), &tools, &t()), ChatStep::Next(0)));
    match c.on_reply_at(answer("{}", None), &tools, &t()) {
        ChatStep::Done(Err(e)) => assert_eq!(e.message, "expected tool_calls but none found"),
        _ => panic!(),
    }
}

#[test]
fn request_errors_end_the_chat() {
    let tools = ToolRegistry::new();
    let mut c = start_chat(&config("k"), &context(), "hi", None, &[], "", &tools).unwrap();
    match c.on_reply_at(ReplyOutcome::Failed(LlmError::Timeout(0)), &tools, &t()) {
        ChatStep::Done(Err(e)) => {
            assert_eq!(e.code, AppErrorCode::EInternal);
            assert_eq!(e.message, "timeout after 0ms");
        }
        _ => panic!(),
    }
}
