use desktop_pet::clock::LocalTime;
use desktop_pet::decider::{attach_memory_context_at, check_decision_context, decision_record_text, settle_decision_at};
use desktop_pet::decision::start_decision_request_at;
use desktop_pet::exchange::{ChatItem, LlmReply, ReplyOutcome, Sampling, ToolCall, ToolSet};
use desktop_pet::llm::{load_static_config, LlmEnv, LlmError, LlmStaticConfig};
use desktop_pet::memory::long_term::LongTermMemory;
use desktop_pet::memory::types::MemoryKind;
use desktop_pet::memory::MemoryManager;
use desktop_pet::registry::{list_animations, SheetFile};
use desktop_pet::tools::{ToolArgs, ToolOutput, ToolRegistry};
use desktop_pet::types::{AnimationEntry, AnimationState, AppErrorCode, Decision, DecisionContext, Phase};

fn config(key: &str) -> LlmStaticConfig {
    load_static_config(&LlmEnv { api_key: Some(key.to_string()), system_prompt: None, enabled: None, endpoint: None, model: None, max_tokens: None })
}

fn context() -> DecisionContext {
    DecisionContext {
        current_state: AnimationState { phase: Phase::Playing, current: "think".to_string(), iteration: 1, transition: None },
        last_interaction_at: 0,
        ticker_interval_ms: 5000,
        time_of_day: None,
        recent_history: None,
        llm_enabled: None,
        pet_personality: None,
        pet_name: None,
        llm_api_endpoint: None,
        llm_api_key: None,
        llm_model: None,
        events_summary: None,
        memory_context: None,
    }
}

fn no_args() -> ToolArgs {
    ToolArgs { to: None, reason: None, message: None, animation: None, duration_seconds: None, delay_seconds: None }
}

fn call(name: &str, args: ToolArgs) -> ToolCall {
    ToolCall { id: Some(format!("id-{}", name)), name: Some(name.to_string()), args }
}

fn reply(content: Option<&str>, calls: Option<Vec<ToolCall>>, decision: Result<Decision, String>) -> ReplyOutcome {
    ReplyOutcome::Reply(LlmReply { content: content.map(String::from), tool_calls: calls, raw: "{}".to_string(), decision, chat: None })
}

fn t() -> LocalTime {
    LocalTime { year: 2024, month: 1, day: 2, hour: 3, minute: 4, second: 5, weekday: 2 }
}

fn animations() -> Vec<AnimationEntry> {
    let mut h = vec![0x89, b'P', b'N', b'G', 0x0d, 0x0a, 0x1a, 0x0a, 0, 0, 0, 13, b'I', b'H', b'D', b'R'];
    h.extend_from_slice(&[0, 0, 0, 10, 0, 0, 0, 10]);
    list_animations(&[SheetFile { name: "think_sheet.png".to_string(), header: h }]).unwrap()
}

#[test]
fn refused_requests() {
    let mut ctx = context();
    ctx.llm_enabled = Some(false);
    assert!(matches!(start_decision_request_at(&config("k"), &ctx, 0), Err(LlmError::Disabled)));
    assert!(matches!(start_decision_request_at(&config(""), &context(), 0), Err(LlmError::Disabled)));
    let mut ctx = context();
    ctx.llm_api_key = Some(String::new());
    assert!(matches!(start_decision_request_at(&config(""), &ctx, 0), Err(LlmError::Disabled)));
}

#[test]
fn request_uses_overrides() {
    let mut ctx = context();
    ctx.llm_api_key = Some("runtime".to_string());
    ctx.llm_model = Some("m2".to_string());
    ctx.llm_api_endpoint = Some("http://x/".to_string());
    ctx.pet_name = Some("豆豆".to_string());
    let q = start_decision_request_at(&config(""), &ctx, 0).unwrap();
    assert_eq!(q.session().api_key, "runtime");
    assert_eq!(q.session().model, "m2");
    assert_eq!(q.session().endpoint, "http://x/v1/chat/completions");
    assert_eq!(q.session().timeout_ms, 10000);
    let shape = q.shape();
    assert_eq!(shape.tools, ToolSet::All);
    assert_eq!(shape.sampling, Sampling::Configured);
    match &q.messages()[0] {
        ChatItem::System(s) => assert!(s.starts_with("你叫「豆豆」")),
        _ => panic!(),
    }
}

#[test]
fn first_round_outcomes() {
    let tools = ToolRegistry::new();
    let mut q = start_decision_request_at(&config("k"), &context(), 0).unwrap();
    // No tool calls at all: Stay.
    assert!(matches!(q.on_first_reply_at(reply(Some("hi"), None, Err("x".to_string())), &tools, &t()), Some(Ok(Decision::Stay))));
    // An empty call list: the content decides.
    let mut q = start_decision_request_at(&config("k"), &context(), 0).unwrap();
    assert!(matches!(q.on_first_reply_at(reply(Some("{}"), Some(vec![]), Ok(Decision::ExitIdle)), &tools, &t()), Some(Ok(Decision::ExitIdle))));
    let mut q = start_decision_request_at(&config("k"), &context(), 0).unwrap();
    let content = format!("  {}  ", "x".repeat(200));
    match q.on_first_reply_at(reply(Some(&content), Some(vec![]), Err("expected value at line 1".to_string())), &tools, &t()) {
        Some(Err(LlmError::Parse(m))) => assert_eq!(m, format!("expected value at line 1 | raw='{}'", "x".repeat(150))),
        _ => panic!("expected a parse error"),
    }
    // Transport errors pass through.
    let mut q = start_decision_request_at(&config("k"), &context(), 0).unwrap();
    assert!(matches!(
        q.on_first_reply_at(ReplyOutcome::Failed(LlmError::Http(500, "oops".to_string())), &tools, &t()),
        Some(Err(LlmError::Http(500, _)))
    ));
    let mut q = start_decision_request_at(&config("k"), &context(), 0).unwrap();
    match q.on_first_reply_at(ReplyOutcome::BadJson("EOF".to_string()), &tools, &t()) {
        Some(Err(LlmError::Parse(m))) => assert_eq!(m, "EOF"),
        _ => panic!(),
    }
}

#[test]
fn terminal_call_in_first_round() {
    let tools = ToolRegistry::new();
    let mut q = start_decision_request_at(&config("k"), &context(), 0).unwrap();
    let calls = vec![call("speak_to_user", ToolArgs { message: Some("早".to_string()), ..no_args() }), call("wait", no_args())];
    match q.on_first_reply_at(reply(None, Some(calls), Err("x".to_string())), &tools, &t()) {
        Some(Ok(Decision::Speak { message, animation })) => {
            assert_eq!(message, "早");
            assert!(animation.is_none());
        }
        _ => panic!("expected speech"),
    }
}

#[test]
fn second_round_after_information() {
    let tools = ToolRegistry::new();
    let mut q = start_decision_request_at(&config("k"), &context(), 0).unwrap();
    let calls = vec![call("get_current_time", no_args()), call("dance", no_args())];
    assert!(q.on_first_reply_at(reply(None, Some(calls), Err("x".to_string())), &tools, &t()).is_none());
    let m = q.messages();
    assert_eq!(m.len(), 5);
    match &m[3] {
        ChatItem::Tool { call_id, output: ToolOutput::Text(s) } => {
            assert_eq!(call_id, "id-get_current_time");
            assert_eq!(s, "2024年01月02日 03:04:05 (星期二)");
        }
        _ => panic!(),
    }
    match &m[4] {
        ChatItem::Tool { output: ToolOutput::Text(s), .. } => assert_eq!(s, "unknown tool: dance"),
        _ => panic!(),
    }
    // Second round: the first terminal call decides; information calls are skipped.
    let calls = vec![call("get_current_time", no_args()), call("switch_animation", ToolArgs { to: Some("think".to_string()), ..no_args() })];
    match q.on_second_reply(reply(None, Some(calls), Err("x".to_string())), &tools) {
        Ok(Decision::Switch { to, .. }) => assert_eq!(to, "think"),
        _ => panic!("expected a switch"),
    }
    // Without a terminal call the content decides.
    let calls = vec![call("get_current_time", no_args())];
    assert!(matches!(q.on_second_reply(reply(Some("{}"), Some(calls), Ok(Decision::EnterIdle)), &tools), Ok(Decision::EnterIdle)));
    assert!(matches!(q.on_second_reply(reply(Some(""), None, Err("EOF".to_string())), &tools), Err(LlmError::Parse(_))));
}

#[test]
fn context_checks() {
    let c = config("k");
    let mut ctx = context();
    ctx.ticker_interval_ms = 0;
    match check_decision_context(&ctx, &c) {
        Err(e) => {
            assert_eq!(e.code, AppErrorCode::EInvalidContext);
            assert_eq!(e.message, "ticker_interval_ms must be > 0");
        }
        Ok(_) => panic!(),
    }
    let mut ctx = context();
    ctx.llm_enabled = Some(false);
    assert!(matches!(check_decision_context(&ctx, &c), Ok(Some(Decision::Stay))));
    assert!(matches!(check_decision_context(&context(), &config("")), Ok(Some(Decision::Stay))));
    let mut ctx = context();
    ctx.llm_api_key = Some("k2".to_string());
    assert!(matches!(check_decision_context(&ctx, &config("")), Ok(None)));
    assert!(matches!(check_decision_context(&context(), &c), Ok(None)));
}

#[test]
fn memory_context_is_attached() {
    let mut mgr = MemoryManager::new(LongTermMemory::load("m.json".to_string(), None));
    let mut ctx = context();
    attach_memory_context_at(&mut ctx, &mgr, 0);
    assert_eq!(ctx.memory_context.as_deref(), Some("(暂无记忆上下文)"));
    mgr.record_at("1".to_string(), 1000, MemoryKind::Conversation, "用户: 在吗".to_string(), 500);
    attach_memory_context_at(&mut ctx, &mgr, 1000);
    assert!(ctx.memory_context.unwrap().contains("- 用户: 在吗"));
}

#[test]
fn decision_texts() {
    assert_eq!(decision_record_text(&Decision::Stay), "stay");
    assert_eq!(decision_record_text(&Decision::Switch { to: "poop".to_string(), reason: None }), "switch to poop (reason: ?)");
    assert_eq!(decision_record_text(&Decision::Speak { message: "嗨".to_string(), animation: None }), "主动对话: 嗨");
    assert_eq!(decision_record_text(&Decision::Wait { duration_ms: 15000, reason: Some("困".to_string()) }), "wait 15000ms (reason: 困)");
    assert_eq!(decision_record_text(&Decision::SetReminder { message: "喝水".to_string(), delay_seconds: 60 }), "set_reminder: 喝水 (60s后)");
    assert_eq!(decision_record_text(&Decision::EnterIdle), "enter_idle");
}

#[test]
fn settling_records_and_validates() {
    let mut mgr = MemoryManager::new(LongTermMemory::load("m.json".to_string(), None));
    let anims = animations();
    let d = settle_decision_at(&mut mgr, Ok(Decision::Switch { to: "dance".to_string(), reason: None }), &anims, "a".to_string(), 1000);
    assert!(matches!(d, Decision::Stay));
    let d = settle_decision_at(&mut mgr, Ok(Decision::Switch { to: "think".to_string(), reason: None }), &anims, "b".to_string(), 2000);
    assert!(matches!(d, Decision::Switch { .. }));
    let d = settle_decision_at(&mut mgr, Err(LlmError::Disabled), &anims, "c".to_string(), 3000);
    assert!(matches!(d, Decision::Stay));
    let mem = mgr.get_memories(None, 10);
    let texts: Vec<&str> = mem.iter().map(|e| e.content.as_str()).collect();
    assert_eq!(texts, vec!["switch to think (reason: ?)", "switch to dance (reason: ?)"]);
    assert_eq!(mem[0].importance_milli, 300);
    assert_eq!(mem[0].kind, MemoryKind::Decision);
    assert!(mgr.long_term().all().is_empty());
}
