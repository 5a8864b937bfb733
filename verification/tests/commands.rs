use desktop_pet::agent::AgentResult;
use desktop_pet::commands::{
    agent_decision_record_text, chat_history, check_agent_context, greet, history_from_memories, memory_kind_from_label,
    record_interaction_at, record_pet_reply_at, record_user_message_at, settle_agent_result_at, strip_conversation_prefix,
    ClipboardWatch,
};
use desktop_pet::llm::{load_static_config, LlmEnv};
use desktop_pet::memory::long_term::LongTermMemory;
use desktop_pet::memory::types::MemoryKind;
use desktop_pet::memory::MemoryManager;
use desktop_pet::types::{AnimationState, Decision, DecisionContext, Phase};

fn manager() -> MemoryManager {
    MemoryManager::new(LongTermMemory::load("m.json".to_string(), None))
}

fn context() -> DecisionContext {
    DecisionContext {
        current_state: AnimationState { phase: Phase::Idle, current: "think".to_string(), iteration: 0, transition: None },
        last_interaction_at: 0,
        ticker_interval_ms: 1000,
        time_of_day: None,
        recent_history: None,
        llm_enabled: None,
        pet_personality: None,
        pet_name: None,
        llm_api_endpoint: None,
        llm_api_key: None,
        llm_model: None,
        events_summary: None,
        memory_context: None,
    }
}

#[test]
fn greeting() {
    assert_eq!(greet("Tauri"), "Hello, Tauri! You've been greeted from Rust!");
}

#[test]
fn speaker_prefixes() {
    assert_eq!(strip_conversation_prefix("用户: 你好"), "你好");
    assert_eq!(strip_conversation_prefix("宠物: 喵"), "喵");
    assert_eq!(strip_conversation_prefix("用户:没有空格"), "用户:没有空格");
    assert_eq!(strip_conversation_prefix("其他"), "其他");
}

#[test]
fn labels() {
    assert_eq!(memory_kind_from_label("observation"), MemoryKind::Observation);
    assert_eq!(memory_kind_from_label("decision"), MemoryKind::Decision);
    assert_eq!(memory_kind_from_label("conversation"), MemoryKind::Conversation);
    assert_eq!(memory_kind_from_label("reflection"), MemoryKind::Interaction);
    assert_eq!(memory_kind_from_label("Observation"), MemoryKind::Interaction);
    for k in [MemoryKind::Observation, MemoryKind::Interaction, MemoryKind::Decision, MemoryKind::Conversation] {
        assert_eq!(memory_kind_from_label(k.as_str()), k);
    }
}

#[test]
fn chat_lines_come_back_as_said() {
    let mut m = manager();
    record_user_message_at(&mut m, "在吗", "1".to_string(), 1000);
    record_pet_reply_at(&mut m, "在的", "2".to_string(), 2000);
    record_interaction_at(&mut m, "interaction", "摸头".to_string(), "3".to_string(), 3000);
    record_interaction_at(&mut m, "conversation", "用户:直接写的".to_string(), "4".to_string(), 4000);
    let h = chat_history(&m, 20);
    let lines: Vec<(String, String)> = h.iter().map(|c| (c.role.clone(), c.content.clone())).collect();
    // Conversations of importance 0.5 are kept in both memories, so each appears twice.
    assert_eq!(
        lines,
        vec![
            ("user".to_string(), "在吗".to_string()),
            ("user".to_string(), "在吗".to_string()),
            ("assistant".to_string(), "在的".to_string()),
            ("assistant".to_string(), "在的".to_string()),
            ("user".to_string(), "用户:直接写的".to_string()),
            ("user".to_string(), "用户:直接写的".to_string()),
        ]
    );
    assert_eq!(h[0].timestamp, 1000);
    assert!(h[0].animation_triggered.is_none());
    let newest_two = chat_history(&m, 2);
    assert_eq!(newest_two.len(), 2);
    assert_eq!(newest_two[0].content, "用户:直接写的");
    assert!(history_from_memories(&vec![]).is_empty());
}

#[test]
fn agent_precheck() {
    let on = load_static_config(&LlmEnv { api_key: Some("k".to_string()), system_prompt: None, enabled: None, endpoint: None, model: None, max_tokens: None });
    let off = load_static_config(&LlmEnv { api_key: None, system_prompt: None, enabled: None, endpoint: None, model: None, max_tokens: None });
    assert!(check_agent_context(&context(), &on).is_none());
    let r = check_agent_context(&context(), &off).unwrap();
    assert!(matches!(r.decision, Decision::Stay));
    assert_eq!(r.steps_used, 0);
    let mut ctx = context();
    ctx.llm_api_key = Some("runtime".to_string());
    assert!(check_agent_context(&ctx, &off).is_none());
    ctx.llm_enabled = Some(false);
    assert!(check_agent_context(&ctx, &on).is_some());
}

#[test]
fn agent_texts_and_settling() {
    assert_eq!(agent_decision_record_text(&Decision::Stay), "stay (agent)");
    assert_eq!(agent_decision_record_text(&Decision::Speak { message: "嗨".to_string(), animation: None }), "主动对话(agent): 嗨");
    assert_eq!(agent_decision_record_text(&Decision::ExitIdle), "exit_idle (agent)");
    assert_eq!(
        agent_decision_record_text(&Decision::SetReminder { message: "站起来".to_string(), delay_seconds: 1800 }),
        "set_reminder(agent): 站起来 (1800s后)"
    );
    let mut m = manager();
    let result = AgentResult {
        decision: Decision::Switch { to: "moonwalk".to_string(), reason: Some("开心".to_string()) },
        steps_used: 3,
        tool_calls_made: vec!["get_current_time".to_string(), "switch_animation".to_string()],
    };
    let r = settle_agent_result_at(&mut m, result, &[], "x".to_string(), 5000);
    assert!(matches!(r.decision, Decision::Stay));
    assert_eq!(r.steps_used, 3);
    assert_eq!(r.tool_calls_made.len(), 2);
    let mem = m.get_memories(Some("decision"), 5);
    assert_eq!(mem.len(), 1);
    assert_eq!(mem[0].content, "switch to moonwalk (reason: 开心)");
    assert_eq!(mem[0].importance_milli, 300);
}

#[test]
fn clipboard_watch() {
    let mut w = ClipboardWatch::new();
    assert_eq!(w.on_clipboard("  hello \n"), Some("hello".to_string()));
    assert_eq!(w.on_clipboard("hello"), None);
    assert_eq!(w.on_clipboard("   "), None);
    assert_eq!(w.on_clipboard("hello"), None);
    let long = "汉".repeat(167);
    assert_eq!(w.on_clipboard(&long), None);
    assert_eq!(w.on_clipboard(&long), None);
    assert_eq!(w.on_clipboard("hello"), Some("hello".to_string()));
    let just_under = "字".repeat(166);
    assert_eq!(w.on_clipboard(&just_under), Some(just_under.clone()));
}
