use desktop_pet::exchange::{ChatItem, LlmReply, ReplyOutcome, Sampling, ToolSet};
use desktop_pet::llm::{load_static_config, LlmEnv, LlmError, LlmStaticConfig};
use desktop_pet::translate::{count_cjk, finish_translation, language_name, prepare_translation};
use desktop_pet::types::AppErrorCode;

fn config(key: &str) -> LlmStaticConfig {
    load_static_config(&LlmEnv { api_key: Some(key.to_string()), system_prompt: None, enabled: None, endpoint: None, model: None, max_tokens: None })
}

fn refusal(text: &str, key: &str) -> (AppErrorCode, String) {
    match prepare_translation(text, None, None, None, None, None, &config(key)) {
        Err(e) => (e.code, e.message),
        Ok(_) => panic!("accepted {:?}", text),
    }
}

#[test]
fn language_names() {
    assert_eq!(language_name("EN"), "英文 (English)");
    assert_eq!(language_name("Japanese"), "日文 (Japanese)");
    assert_eq!(language_name("zh"), "中文 (Chinese)");
    assert_eq!(language_name("it"), "意大利文 (Italian)");
    assert_eq!(language_name("Klingon"), "Klingon");
}

#[test]
fn refused_texts() {
    assert_eq!(refusal("   ", "k"), (AppErrorCode::EInvalidContext, "empty text".to_string()));
    assert_eq!(refusal(" call: foo", "k"), (AppErrorCode::EInvalidContext, "not translatable content".to_string()));
    assert_eq!(refusal("{\"a\":1}", "k"), (AppErrorCode::EInvalidContext, "not translatable content".to_string()));
    assert_eq!(refusal("function f() {}", "k"), (AppErrorCode::EInvalidContext, "not translatable content".to_string()));
    assert_eq!(refusal("() => 1", "k"), (AppErrorCode::EInvalidContext, "not translatable content".to_string()));
    assert_eq!(refusal("你好世界", "k"), (AppErrorCode::EInvalidContext, "already Chinese".to_string()));
    assert_eq!(refusal("hello", ""), (AppErrorCode::EInternal, "No API key configured".to_string()));
}

#[test]
fn cjk_threshold() {
    assert_eq!(count_cjk("a中b㐀c"), 2);
    let already = (AppErrorCode::EInvalidContext, "already Chinese".to_string());
    // 2 ideographs among 10 characters: 2 > 5 is false.
    assert!(prepare_translation("中文abcdefgh", None, None, None, None, None, &config("k")).is_ok());
    // 2 ideographs among 4 characters: 2 > 2 is false.
    assert!(prepare_translation("中文ab", None, None, None, None, None, &config("k")).is_ok());
    // 2 ideographs among 3 characters: 2 > 1.
    assert_eq!(refusal("中文a", "k"), already);
    // 1 ideograph alone: 1 > 0.
    assert_eq!(refusal("中", "k"), already);
}

#[test]
fn request_contents() {
    let q = prepare_translation(" Good morning ", Some("en"), Some("ja"), Some(""), Some("http://t/"), Some("tm"), &config("k")).unwrap();
    assert_eq!(q.session.api_key, "k");
    assert_eq!(q.session.endpoint, "http://t/v1/chat/completions");
    assert_eq!(q.session.model, "tm");
    assert_eq!(q.session.timeout_ms, 10000);
    assert_eq!(q.shape.tools, ToolSet::NoTools);
    assert_eq!(q.shape.sampling, Sampling::Fixed { temperature_tenths: 3, max_tokens: 1024 });
    assert!(!q.shape.json_object);
    match (&q.messages[0], &q.messages[1]) {
        (ChatItem::System(s), ChatItem::User(u)) => {
            assert!(s.starts_with("你是一个专业的翻译引擎。你的任务是将文本从英文 (English)翻译成日文 (Japanese)。\n\n翻译规则："));
            assert_eq!(u, "翻译以下文本：\n Good morning ");
        }
        _ => panic!(),
    }
    let q = prepare_translation("hi", None, None, Some("own"), None, None, &config("")).unwrap();
    assert_eq!(q.session.api_key, "own");
    assert_eq!(q.session.model, "gpt-4o-mini");
    match &q.messages[0] {
        ChatItem::System(s) => assert!(s.contains("将文本从英文 (English)翻译成中文 (Chinese)。")),
        _ => panic!(),
    }
}

#[test]
fn reading_the_result() {
    let r = ReplyOutcome::Reply(LlmReply { content: Some("  早上好 \n".to_string()), tool_calls: None, raw: String::new(), decision: Err(String::new()), chat: None });
    assert_eq!(finish_translation(r).unwrap(), "早上好");
    let none = ReplyOutcome::Reply(LlmReply { content: None, tool_calls: None, raw: String::new(), decision: Err(String::new()), chat: None });
    assert_eq!(finish_translation(none).unwrap(), "");
    match finish_translation(ReplyOutcome::Failed(LlmError::Http(401, "bad key".to_string()))) {
        Err(e) => {
            assert_eq!(e.code, AppErrorCode::EInternal);
            assert_eq!(e.message, "HTTP 401: bad key");
        }
        Ok(_) => panic!(),
    }
    match finish_translation(ReplyOutcome::BadJson("expected value".to_string())) {
        Err(e) => assert_eq!(e.message, "expected value"),
        Ok(_) => panic!(),
    }
}
