use desktop_pet::llm::{
    build_system_prompt, build_user_prompt_at, check_http_response, load_static_config,
    normalize_endpoint, parse_u32, serde_phase, timeout_ms, transport_error, LlmEnv, LlmError,
    LlmStaticConfig, DEFAULT_SYSTEM_PROMPT,
};
use desktop_pet::types::{AnimationState, DecisionContext, Phase};

fn env() -> LlmEnv {
    LlmEnv { api_key: None, system_prompt: None, enabled: None, endpoint: None, model: None, max_tokens: None }
}

fn config() -> LlmStaticConfig {
    load_static_config(&LlmEnv { api_key: Some("sk-test".to_string()), ..env() })
}

fn context() -> DecisionContext {
    DecisionContext {
        current_state: AnimationState {
            phase: Phase::Playing,
            current: "think".to_string(),
            iteration: 2,
            transition: None,
        },
        last_interaction_at: 0,
        ticker_interval_ms: 30000,
        time_of_day: None,
        recent_history: None,
        llm_enabled: None,
        pet_personality: None,
        pet_name: None,
        llm_api_endpoint: None,
        llm_api_key: None,
        llm_model: None,
        events_summary: None,
        memory_context: None,
    }
}

#[test]
fn endpoint_completion() {
    assert_eq!(normalize_endpoint("https://api.example.com"), "https://api.example.com/v1/chat/completions");
    assert_eq!(normalize_endpoint("https://api.example.com///"), "https://api.example.com/v1/chat/completions");
    assert_eq!(
        normalize_endpoint("https://api.example.com/v1/chat/completions"),
        "https://api.example.com/v1/chat/completions"
    );
    assert_eq!(normalize_endpoint("http://h/x/chat/completions?a=1"), "http://h/x/chat/completions?a=1");
    assert_eq!(normalize_endpoint("https://api.openai.com/v1"), "https://api.openai.com/v1/chat/completions");
    assert_eq!(normalize_endpoint("http://x/v1/"), "http://x/v1/chat/completions");
    assert_eq!(normalize_endpoint("http://x/v10"), "http://x/v10/v1/chat/completions");
}

#[test]
fn endpoint_completion_is_idempotent() {
    for u in ["", "/", "http://localhost:8080/", "https://a.b/chat/completions", "https://api.openai.com/v1", "http://x/v1//"] {
        let once = normalize_endpoint(u);
        assert_eq!(normalize_endpoint(&once), once);
    }
}

#[test]
fn timeout_floor_and_ratio() {
    assert_eq!(timeout_ms(0), 10000);
    assert_eq!(timeout_ms(10000), 10000);
    assert_eq!(timeout_ms(12500), 10000);
    assert_eq!(timeout_ms(12501), 10000);
    assert_eq!(timeout_ms(12506), 10004);
    assert_eq!(timeout_ms(60000), 48000);
    assert_eq!(timeout_ms(u32::MAX), (u32::MAX as u64) * 4 / 5);
    for x in [0u32, 7, 12345, 99999, 3_000_001, u32::MAX] {
        assert_eq!(timeout_ms(x), 10_000u64.max((x as f64 * 0.8) as u64));
    }
}

#[test]
fn parse_u32_like_std() {
    for s in ["0", "42", "+7", "4294967295", "4294967296", "", "+", "-1", "12a", " 1", "00012"] {
        assert_eq!(parse_u32(s), s.parse::<u32>().ok(), "input {:?}", s);
    }
}

#[test]
fn static_config_defaults() {
    let c = load_static_config(&env());
    assert_eq!(c.api_key, "");
    assert!(!c.enabled);
    assert_eq!(c.endpoint, "https://api.openai.com/v1/chat/completions");
    assert_eq!(c.model, "gpt-4o-mini");
    assert_eq!(c.max_tokens, 256);
    assert_eq!(c.system_prompt, DEFAULT_SYSTEM_PROMPT);
}

#[test]
fn static_config_values() {
    let c = load_static_config(&LlmEnv {
        api_key: Some("k".to_string()),
        system_prompt: Some("自定义".to_string()),
        enabled: Some("TRUE".to_string()),
        endpoint: Some("http://e".to_string()),
        model: Some("m".to_string()),
        max_tokens: Some("1024".to_string()),
    });
    assert!(c.enabled);
    assert_eq!(c.system_prompt, "自定义");
    assert_eq!(c.endpoint, "http://e");
    assert_eq!(c.model, "m");
    assert_eq!(c.max_tokens, 1024);
    let off = load_static_config(&LlmEnv { api_key: Some("k".to_string()), enabled: Some("yes".to_string()), ..env() });
    assert!(!off.enabled);
    let one = load_static_config(&LlmEnv { api_key: Some("k".to_string()), enabled: Some("1".to_string()), ..env() });
    assert!(one.enabled);
    let bad = load_static_config(&LlmEnv { max_tokens: Some("lots".to_string()), system_prompt: Some(String::new()), ..env() });
    assert_eq!(bad.max_tokens, 256);
    assert_eq!(bad.system_prompt, DEFAULT_SYSTEM_PROMPT);
}

#[test]
fn system_prompt_name_and_personality() {
    let c = config();
    let plain = build_system_prompt(&c, None, None);
    assert_eq!(plain, DEFAULT_SYSTEM_PROMPT);
    let named = build_system_prompt(&c, None, Some("小白"));
    assert!(named.starts_with("你叫「小白」，是一只可爱的桌面宠物。你住在用户的桌面上，"));
    let p = build_system_prompt(&c, Some("安静"), Some(""));
    assert!(p.contains("你的性格：安静。"));
    assert!(!p.contains("好奇心旺盛"));
    assert!(!p.contains("⚠️"));
    let talk = build_system_prompt(&c, Some("喜欢聊天"), None);
    assert!(talk.ends_with("不要一直沉默。"));
}

#[test]
fn user_prompt_without_memory() {
    let ctx = context();
    assert_eq!(
        build_user_prompt_at(&ctx, 5000),
        "当前状态：\n- 动画：think、阶段：playing、已循环：2 次\n- 最近动画：无\n- 距上次互动：N/A 秒\n- 当前时间：未知\n\n决定下一步动作。"
    );
}

#[test]
fn user_prompt_with_history_time_and_memory() {
    let mut ctx = context();
    ctx.last_interaction_at = 1000;
    ctx.recent_history = Some(vec!["think".to_string(), "poop".to_string()]);
    ctx.time_of_day = Some("夜晚".to_string());
    ctx.memory_context = Some("  [记忆上下文]\n- x\n[/记忆上下文] ".to_string());
    ctx.current_state.phase = Phase::Transitioning;
    assert_eq!(
        build_user_prompt_at(&ctx, 66_999),
        "当前状态：\n- 动画：think、阶段：transitioning、已循环：2 次\n- 最近动画：think → poop\n- 距上次互动：65 秒\n- 当前时间：夜晚\n\n[记忆上下文]\n- x\n[/记忆上下文]\n\n决定下一步动作。"
    );
}

#[test]
fn empty_memory_marker_is_left_out() {
    let mut ctx = context();
    let base = build_user_prompt_at(&ctx, 0);
    ctx.memory_context = Some("(暂无记忆上下文)".to_string());
    assert_eq!(build_user_prompt_at(&ctx, 0), base);
    ctx.memory_context = Some("   ".to_string());
    assert_eq!(build_user_prompt_at(&ctx, 0), base);
}

#[test]
fn interaction_in_the_future_counts_as_zero() {
    let mut ctx = context();
    ctx.last_interaction_at = 10_000;
    assert!(build_user_prompt_at(&ctx, 5_000).contains("距上次互动：0 秒"));
}

#[test]
fn phases_by_name() {
    assert_eq!(serde_phase(&Phase::Idle), "idle");
    assert_eq!(serde_phase(&Phase::Playing), "playing");
}

#[test]
fn http_responses() {
    assert_eq!(check_http_response(200, "ok".to_string()).unwrap(), "ok");
    let long: String = "é".repeat(250);
    match check_http_response(500, long) {
        Err(LlmError::Http(500, body)) => assert_eq!(body.chars().count(), 200),
        other => panic!("unexpected {:?}", other),
    }
    match check_http_response(404, "missing".to_string()) {
        Err(e) => assert_eq!(e.to_message(), "HTTP 404: missing"),
        Ok(_) => panic!("404 accepted"),
    }
}

#[test]
fn error_texts() {
    assert_eq!(transport_error(true, "x".to_string()).to_message(), "timeout after 0ms");
    assert_eq!(transport_error(false, "refused".to_string()).to_message(), "network error: refused");
    assert_eq!(LlmError::Parse("bad".to_string()).to_message(), "parse error: bad");
    assert_eq!(LlmError::Disabled.to_message(), "LLM disabled");
}
