use desktop_pet::agent::budget::AgentBudget;
use desktop_pet::agent::events::{format_events_summary, format_timestamp, PetEvent};
use desktop_pet::agent::{start_agent_loop_at, AgentResult, AgentStart, AgentStep, CORRECTION};
use desktop_pet::clock::LocalTime;
use desktop_pet::exchange::{ChatItem, LlmReply, ReplyOutcome, Sampling, ToolCall, ToolSet};
use desktop_pet::llm::{load_static_config, LlmEnv, LlmError, LlmStaticConfig};
use desktop_pet::tools::{ToolArgs, ToolOutput, ToolRegistry};
use desktop_pet::types::{AnimationState, AppErrorCode, Decision, DecisionContext, Phase};

fn config(key: &str) -> LlmStaticConfig {
    load_static_config(&LlmEnv {
        api_key: Some(key.to_string()),
        system_prompt: None,
        enabled: None,
        endpoint: Some("http://localhost:9".to_string()),
        model: None,
        max_tokens: None,
    })
}

fn context() -> DecisionContext {
    DecisionContext {
        current_state: AnimationState { phase: Phase::Idle, current: "think".to_string(), iteration: 0, transition: None },
        last_interaction_at: 0,
        ticker_interval_ms: 30000,
        time_of_day: None,
        recent_history: None,
        llm_enabled: None,
        pet_personality: None,
        pet_name: None,
        llm_api_endpoint: None,
        llm_api_key: None,
        llm_model: None,
        events_summary: None,
        memory_context: None,
    }
}

fn tick(ts: u64) -> PetEvent {
    PetEvent::TimerTick { timestamp: ts }
}

fn no_args() -> ToolArgs {
    ToolArgs { to: None, reason: None, message: None, animation: None, duration_seconds: None, delay_seconds: None }
}

fn call(id: &str, name: &str, args: ToolArgs) -> ToolCall {
    ToolCall { id: Some(id.to_string()), name: Some(name.to_string()), args }
}

fn reply(content: Option<&str>, calls: Option<Vec<ToolCall>>, decision: Result<Decision, String>) -> ReplyOutcome {
    ReplyOutcome::Reply(LlmReply {
        content: content.map(|c| c.to_string()),
        tool_calls: calls,
        raw: "{\"role\":\"assistant\"}".to_string(),
        decision,
        chat: None,
    })
}

fn noon() -> LocalTime {
    LocalTime { year: 2024, month: 5, day: 6, hour: 12, minute: 0, second: 0, weekday: 1 }
}

fn ready(budget: &AgentBudget) -> desktop_pet::agent::AgentLoop {
    match start_agent_loop_at(&config("k"), &context(), &[tick(1000)], budget, 100_000) {
        Ok(AgentStart::Ready(l)) => l,
        _ => panic!("loop did not start"),
    }
}

#[test]
fn budget_defaults_and_spacing() {
    let mut b = AgentBudget::new();
    assert_eq!(b.max_steps, 5);
    assert_eq!(b.max_calls_per_minute, 3);
    assert_eq!(b.min_call_interval_ms, 15000);
    assert!(b.check_at(0));
    b.consume_at(100_000);
    assert!(!b.check_at(100_000));
    assert!(!b.check_at(114_999));
    assert!(b.check_at(115_000));
}

#[test]
fn budget_window_limit() {
    let mut b = AgentBudget::new();
    b.consume_at(100_000);
    b.consume_at(115_000);
    b.consume_at(130_000);
    // Three calls within the last minute: refused even though 15 s have passed.
    assert!(!b.check_at(145_000));
    // The first call leaves the window at 160 000.
    assert!(b.check_at(160_000));
    b.consume_at(200_000);
    assert_eq!(b.calls_timestamps, vec![200_000]);
}

#[test]
fn event_texts() {
    assert_eq!(format_timestamp(0), "00:00:00");
    assert_eq!(format_timestamp(3_723_000), "01:02:03");
    assert_eq!(format_timestamp(90_000_000), "01:00:00");
    assert_eq!(format_timestamp(1_700_000_000_000), "22:13:20");
    let e = PetEvent::WindowFocusChanged { focused: false, timestamp: 61_000 };
    assert_eq!(e.timestamp(), 61_000);
    assert_eq!(e.label(), "window_focus_changed(unfocused)");
    assert_eq!(format_events_summary(&[]), "最近事件：\n（无新事件）");
    let events = vec![
        PetEvent::UserInteraction { interaction: "click".to_string(), timestamp: 1000 },
        PetEvent::AnimationCompleted { animation_id: "poop".to_string(), timestamp: 62_000 },
        PetEvent::ReminderTriggered { message: "喝水".to_string(), timestamp: 3_600_000 },
    ];
    assert_eq!(
        format_events_summary(&events),
        "最近事件：\n- [00:00:01] user_interaction(click)\n- [00:01:02] animation_completed(poop)\n- [01:00:00] reminder_triggered(message: \"喝水\")"
    );
}

#[test]
fn start_requires_events() {
    let b = AgentBudget::new();
    match start_agent_loop_at(&config("k"), &context(), &[], &b, 0) {
        Err(e) => {
            assert_eq!(e.code, AppErrorCode::EInvalidContext);
            assert_eq!(e.message, "events must not be empty");
        }
        Ok(_) => panic!("started without events"),
    }
}

#[test]
fn start_when_rate_limited_is_stay() {
    let mut b = AgentBudget::new();
    b.consume_at(99_000);
    match start_agent_loop_at(&config("k"), &context(), &[tick(1)], &b, 100_000) {
        Ok(AgentStart::Done(r)) => {
            assert!(matches!(r.decision, Decision::Stay));
            assert_eq!(r.steps_used, 0);
            assert!(r.tool_calls_made.is_empty());
        }
        _ => panic!("expected an immediate Stay"),
    }
}

#[test]
fn start_needs_a_key() {
    let b = AgentBudget::new();
    match start_agent_loop_at(&config(""), &context(), &[tick(1)], &b, 0) {
        Err(e) => {
            assert_eq!(e.code, AppErrorCode::EInternal);
            assert_eq!(e.message, "No API key configured");
        }
        Ok(_) => panic!("started without a key"),
    }
    let mut ctx = context();
    ctx.llm_api_key = Some("runtime".to_string());
    assert!(matches!(start_agent_loop_at(&config(""), &ctx, &[tick(1)], &b, 0), Ok(AgentStart::Ready(_))));
}

#[test]
fn start_builds_the_conversation() {
    let b = AgentBudget::new();
    let l = ready(&b);
    let m = l.messages();
    assert_eq!(m.len(), 2);
    match (&m[0], &m[1]) {
        (ChatItem::System(s), ChatItem::User(u)) => {
            assert!(s.starts_with("你是一只可爱的桌面宠物"));
            assert!(u.ends_with("决定下一步动作。\n\n最近事件：\n- [00:00:01] timer_tick"));
        }
        _ => panic!("unexpected messages"),
    }
    assert_eq!(l.session().endpoint, "http://localhost:9/v1/chat/completions");
    assert_eq!(l.session().timeout_ms, 24000);
}

#[test]
fn front_end_summary_replaces_the_events() {
    let b = AgentBudget::new();
    let mut ctx = context();
    ctx.events_summary = Some("用户戳了一下".to_string());
    match start_agent_loop_at(&config("k"), &ctx, &[tick(1)], &b, 0) {
        Ok(AgentStart::Ready(l)) => match &l.messages()[1] {
            ChatItem::User(u) => assert!(u.ends_with("决定下一步动作。\n\n用户戳了一下")),
            _ => panic!(),
        },
        _ => panic!(),
    }
}

#[test]
fn terminal_tool_ends_the_run() {
    let mut b = AgentBudget::new();
    let mut l = ready(&b);
    match l.next_at(&mut b, 100_000) {
        AgentStep::Request(shape) => {
            assert_eq!(shape.tools, ToolSet::All);
            assert_eq!(shape.sampling, Sampling::Configured);
            assert!(!shape.json_object);
        }
        AgentStep::Finished(_) => panic!("no request"),
    }
    assert_eq!(b.calls_timestamps, vec![100_000]);
    let tools = ToolRegistry::new();
    let calls = vec![
        call("c1", "get_current_time", no_args()),
        call("c2", "switch_animation", ToolArgs { to: Some("poop".to_string()), reason: Some("".to_string()), ..no_args() }),
        call("c3", "speak_to_user", no_args()),
    ];
    let r: AgentResult = l.on_outcome_at(reply(None, Some(calls), Err("x".to_string())), &tools, &noon()).unwrap();
    match r.decision {
        Decision::Switch { to, reason } => {
            assert_eq!(to, "poop");
            assert_eq!(reason, None);
        }
        _ => panic!("expected a switch"),
    }
    assert_eq!(r.steps_used, 1);
    assert_eq!(r.tool_calls_made, vec!["get_current_time", "switch_animation"]);
}

#[test]
fn information_tools_feed_back() {
    let mut b = AgentBudget::new();
    let mut l = ready(&b);
    let _ = l.next_at(&mut b, 100_000);
    let tools = ToolRegistry::new();
    let calls = vec![call("c1", "get_current_time", no_args()), ToolCall { id: None, name: None, args: no_args() }];
    assert!(l.on_outcome_at(reply(None, Some(calls), Err("x".to_string())), &tools, &noon()).is_none());
    let m = l.messages();
    assert_eq!(m.len(), 5);
    assert!(matches!(&m[2], ChatItem::Assistant(_)));
    match &m[3] {
        ChatItem::Tool { call_id, output: ToolOutput::Text(t) } => {
            assert_eq!(call_id, "c1");
            assert_eq!(t, "2024年05月06日 12:00:00 (星期一)");
        }
        _ => panic!("expected the time"),
    }
    match &m[4] {
        ChatItem::Tool { call_id, output: ToolOutput::Text(t) } => {
            assert_eq!(call_id, "?");
            assert_eq!(t, "unknown tool: ?");
        }
        _ => panic!("expected an error text"),
    }
}

#[test]
fn two_failures_in_a_row_give_stay() {
    let mut b = AgentBudget::new();
    let mut l = ready(&b);
    let tools = ToolRegistry::new();
    let _ = l.next_at(&mut b, 100_000);
    assert!(l.on_outcome_at(ReplyOutcome::Failed(LlmError::Network("down".to_string())), &tools, &noon()).is_none());
    let _ = l.next_at(&mut b, 120_000);
    let r = l.on_outcome_at(ReplyOutcome::BadJson("eof".to_string()), &tools, &noon()).unwrap();
    assert!(matches!(r.decision, Decision::Stay));
    assert_eq!(r.steps_used, 2);
}

#[test]
fn text_reply_is_corrected_then_accepted() {
    let mut b = AgentBudget::new();
    let mut l = ready(&b);
    let tools = ToolRegistry::new();
    let _ = l.next_at(&mut b, 100_000);
    assert!(l.on_outcome_at(reply(Some("我想想"), None, Err("expected value".to_string())), &tools, &noon()).is_none());
    let m = l.messages();
    assert_eq!(m.len(), 4);
    match &m[3] {
        ChatItem::User(u) => assert_eq!(u, CORRECTION),
        _ => panic!("expected the correction"),
    }
    let _ = l.next_at(&mut b, 120_000);
    let r = l
        .on_outcome_at(reply(Some(" {\"type\":\"enter_idle\"} "), None, Ok(Decision::EnterIdle)), &tools, &noon())
        .unwrap();
    assert!(matches!(r.decision, Decision::EnterIdle));
    assert_eq!(r.steps_used, 2);
}

#[test]
fn empty_call_list_with_blank_content_fails() {
    let mut b = AgentBudget::new();
    let mut l = ready(&b);
    let tools = ToolRegistry::new();
    let _ = l.next_at(&mut b, 100_000);
    assert!(l.on_outcome_at(reply(Some("   "), Some(vec![]), Ok(Decision::Stay)), &tools, &noon()).is_none());
    // A failure adds nothing to the conversation when the reply had a call list.
    assert_eq!(l.messages().len(), 2);
}

#[test]
fn steps_run_out() {
    let mut b = AgentBudget { max_steps: 1, ..AgentBudget::new() };
    let mut l = ready(&b);
    let tools = ToolRegistry::new();
    assert!(matches!(l.next_at(&mut b, 100_000), AgentStep::Request(_)));
    let calls = vec![call("c1", "get_current_time", no_args())];
    assert!(l.on_outcome_at(reply(None, Some(calls), Err("x".to_string())), &tools, &noon()).is_none());
    match l.next_at(&mut b, 200_000) {
        AgentStep::Finished(r) => {
            assert!(matches!(r.decision, Decision::Stay));
            assert_eq!(r.steps_used, 1);
            assert_eq!(r.tool_calls_made, vec!["get_current_time"]);
        }
        AgentStep::Request(_) => panic!("went past the step limit"),
    }
    assert_eq!(b.calls_timestamps, vec![100_000]);
}
