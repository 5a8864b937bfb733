use desktop_pet::memory::digest::{build_digestion_prompt, parse_digestion_response, should_digest_at, DigestReply};
use desktop_pet::memory::long_term::LongTermMemory;
use desktop_pet::memory::retrieval::build_memory_context_at;
use desktop_pet::memory::short_term::ShortTermMemory;
use desktop_pet::memory::types::{MemoryEntry, MemoryKind, Metadata};
use desktop_pet::memory::MemoryManager;

const DAY: i64 = 86_400_000;

fn entry(id: &str, ts: i64, kind: MemoryKind, content: &str, importance_milli: i64) -> MemoryEntry {
    MemoryEntry { id: id.to_string(), timestamp: ts, kind, content: content.to_string(), importance_milli, metadata: Metadata::Null }
}

fn empty_manager() -> MemoryManager {
    MemoryManager::new(LongTermMemory::load("memory.json".to_string(), None))
}

#[test]
fn kinds_by_name() {
    assert_eq!(MemoryKind::Reflection.as_str(), "reflection");
    assert_eq!(MemoryKind::Conversation.as_str(), "conversation");
}

#[test]
fn load_keeps_what_was_read() {
    let l = LongTermMemory::load("a.json".to_string(), Some(vec![entry("x", 1, MemoryKind::Observation, "c", 500)]));
    assert_eq!(l.file_path(), "a.json");
    assert_eq!(l.all().len(), 1);
    assert!(LongTermMemory::load("b.json".to_string(), None).all().is_empty());
}

#[test]
fn retrieval_orders_by_importance() {
    let now = 100 * DAY;
    let mut l = LongTermMemory::load("m.json".to_string(), None);
    l.insert(entry("old-important", now - 30 * DAY, MemoryKind::Decision, "用户喜欢猫", 800));
    l.insert(entry("fresh", now, MemoryKind::Conversation, "今天下雨", 500));
    l.insert(entry("keyword", now - 10 * DAY, MemoryKind::Conversation, "用户说 Hello 世界", 400));
    l.insert(entry("zero", now, MemoryKind::Observation, "无关", 0));
    l.insert(entry("older", now - 20 * DAY, MemoryKind::Observation, "旧事", 600));
    let r = l.retrieve_at("hello", 10, now);
    let ids: Vec<&str> = r.iter().map(|e| e.id.as_str()).collect();
    // Importance decides: a fresh 0.5 (bonus 0.2) stays behind an old 0.6 without bonus.
    assert_eq!(ids, vec!["old-important", "older", "fresh", "keyword"]);
    assert_eq!(l.retrieve_at("hello", 1, now).len(), 1);
    assert_eq!(l.retrieve_at("hello", 0, now).len(), 0);
    let r = l.retrieve_at("h", 10, now);
    let ids: Vec<&str> = r.iter().map(|e| e.id.as_str()).collect();
    assert_eq!(ids, vec!["old-important", "older", "fresh", "keyword"]);
}

#[test]
fn retrieval_bonus_breaks_ties() {
    let now = 100 * DAY;
    let mut l = LongTermMemory::load("m.json".to_string(), None);
    l.insert(entry("plain", now - 10 * DAY, MemoryKind::Observation, "天气", 500));
    l.insert(entry("recent", now - DAY, MemoryKind::Observation, "散步", 500));
    l.insert(entry("keyword", now - 10 * DAY, MemoryKind::Observation, "喜欢猫咪", 500));
    // keyword: 0.3; recent: 0.2 × 6/7 ≈ 0.171; plain: nothing.
    let r = l.retrieve_at("猫咪", 10, now);
    let ids: Vec<&str> = r.iter().map(|e| e.id.as_str()).collect();
    assert_eq!(ids, vec!["keyword", "recent", "plain"]);
    // Without the keyword, the recent one leads and the others keep their stored order.
    let r = l.retrieve_at("zz", 10, now);
    let ids: Vec<&str> = r.iter().map(|e| e.id.as_str()).collect();
    assert_eq!(ids, vec!["recent", "plain", "keyword"]);
}

#[test]
fn recency_bonus_is_exact() {
    let now = 100 * DAY;
    let week = 7 * DAY;
    let mut l = LongTermMemory::load("m.json".to_string(), None);
    // One millisecond apart, both just under 0.1: the newer one still comes first.
    l.insert(entry("older", now - week / 2 - 2, MemoryKind::Observation, "a", 300));
    l.insert(entry("newer", now - week / 2 - 1, MemoryKind::Observation, "b", 300));
    // Exactly half a week old: 0.1.
    l.insert(entry("half", now - week / 2, MemoryKind::Observation, "c", 300));
    // The same time as "half": a true tie, kept in stored order.
    l.insert(entry("half-too", now - week / 2, MemoryKind::Observation, "d", 300));
    let r = l.retrieve_at("zz", 10, now);
    let ids: Vec<&str> = r.iter().map(|e| e.id.as_str()).collect();
    assert_eq!(ids, vec!["half", "half-too", "newer", "older"]);
}

#[test]
fn prune_drops_old_unimportant_entries() {
    let now = 100 * DAY;
    let mut l = LongTermMemory::load("m.json".to_string(), None);
    l.insert(entry("old-low", now - 31 * DAY, MemoryKind::Observation, "a", 100));
    l.insert(entry("old-high", now - 31 * DAY, MemoryKind::Observation, "b", 200));
    l.insert(entry("new-low", now - 29 * DAY, MemoryKind::Observation, "c", 100));
    l.prune_at(now);
    let ids: Vec<&str> = l.all().iter().map(|e| e.id.as_str()).collect();
    assert_eq!(ids, vec!["old-high", "new-low"]);
    l.prune_at(now);
    assert_eq!(l.all().len(), 2);
}

#[test]
fn record_promotes_important_conversations_and_decisions() {
    let mut m = empty_manager();
    assert!(!m.record_at("1".to_string(), 1000, MemoryKind::Conversation, "用户: 嗨".to_string(), 299));
    assert!(m.record_at("2".to_string(), 2000, MemoryKind::Conversation, "用户: 你好".to_string(), 300));
    assert!(!m.record_at("3".to_string(), 3000, MemoryKind::Decision, "stay".to_string(), 300));
    assert!(m.record_at("4".to_string(), 4000, MemoryKind::Decision, "switch".to_string(), 500));
    assert!(!m.record_at("5".to_string(), 5000, MemoryKind::Observation, "看".to_string(), 1000));
    let ltm: Vec<&str> = m.long_term().all().iter().map(|e| e.id.as_str()).collect();
    assert_eq!(ltm, vec!["2", "4"]);
}

#[test]
fn memories_newest_first() {
    let mut m = empty_manager();
    m.record_at("1".to_string(), 1000, MemoryKind::Conversation, "用户: a".to_string(), 500);
    m.record_at("2".to_string(), 2000, MemoryKind::Observation, "b".to_string(), 500);
    m.record_at("3".to_string(), 3000, MemoryKind::Conversation, "宠物: c".to_string(), 500);
    let all = m.get_memories(None, 10);
    let ids: Vec<&str> = all.iter().map(|e| e.id.as_str()).collect();
    // Conversations of importance 0.5 are in both memories; ties keep short-term first.
    assert_eq!(ids, vec!["3", "3", "2", "1", "1"]);
    let convos = m.get_memories(Some("conversation"), 2);
    let ids: Vec<&str> = convos.iter().map(|e| e.id.as_str()).collect();
    assert_eq!(ids, vec!["3", "3"]);
    assert!(m.get_memories(Some("reflection"), 10).is_empty());
}

#[test]
fn context_of_an_empty_memory() {
    let m = empty_manager();
    assert_eq!(m.build_context_at(0), "(暂无记忆上下文)");
}

#[test]
fn context_sections() {
    let now = 10 * DAY;
    let mut stm = ShortTermMemory::new(100, 7_200_000);
    stm.push(entry("1", now, MemoryKind::Conversation, "用户: 你好", 500));
    stm.push(entry("2", now, MemoryKind::Interaction, "摸头", 500));
    let mut ltm = LongTermMemory::load("m.json".to_string(), None);
    ltm.insert(entry("9", now - 30 * DAY, MemoryKind::Decision, "喜欢晚上聊天", 850));
    assert_eq!(
        build_memory_context_at(&stm, &ltm, now),
        "[记忆上下文]\n最近对话：\n- 用户: 你好\n\n最近事件：\n- [interaction] 摸头\n\n关于用户的记忆：\n- 喜欢晚上聊天 (重要性: 0.9)\n[/记忆上下文]"
    );
}

#[test]
fn importance_rounds_like_one_decimal() {
    let mut ltm = LongTermMemory::load("m.json".to_string(), None);
    let stm = ShortTermMemory::new(10, 1000);
    ltm.insert(entry("a", 0, MemoryKind::Decision, "x", 250));
    ltm.insert(entry("b", 0, MemoryKind::Decision, "y", 350));
    ltm.insert(entry("c", 0, MemoryKind::Decision, "z", 1000));
    let s = build_memory_context_at(&stm, &ltm, 100 * DAY);
    assert!(s.contains("- z (重要性: 1.0)"));
    assert!(s.contains("- y (重要性: 0.3)"));
    assert!(s.contains("- x (重要性: 0.2)"));
    for (m, f) in [
        (250i64, 0.25f32), (350, 0.35), (1000, 1.0), (50, 0.05), (150, 0.15), (450, 0.45), (550, 0.55), (650, 0.65),
        (750, 0.75), (850, 0.85), (950, 0.95), (849, 0.849), (851, 0.851), (300, 0.3), (500, 0.5),
    ] {
        let mut l = LongTermMemory::load("m.json".to_string(), None);
        l.insert(entry("q", 0, MemoryKind::Decision, "q", m));
        let s = build_memory_context_at(&ShortTermMemory::new(1, 1), &l, 100 * DAY);
        assert!(s.contains(&format!("(重要性: {:.1})", f)), "{} gives {}", m, s);
    }
}

#[test]
fn digestion() {
    assert!(should_digest_at(20, 0, 20, 1_800_000, 0));
    assert!(!should_digest_at(19, 0, 20, 1_800_000, i64::MAX));
    assert!(should_digest_at(0, 1000, 20, 1_800_000, 1_801_000));
    assert!(!should_digest_at(0, 1000, 20, 1_800_000, 1_800_999));
    let entries = vec![entry("1", 0, MemoryKind::Interaction, "摸头", 500), entry("2", 0, MemoryKind::Decision, "stay", 250)];
    let p = build_digestion_prompt(&entries);
    assert!(p.starts_with("你是宠物记忆系统。"));
    assert!(p.contains("事件列表：\n- [interaction] 摸头 (重要性:0.5)\n- [decision] stay (重要性:0.25)\n\n返回 JSON："));
    assert!(p.ends_with("\"importance\":0.0-1.0}"));
}

#[test]
fn digestion_reply() {
    let ok = parse_digestion_response(
        Ok(DigestReply { summary: "用户很友好".to_string(), key_facts: vec!["喜欢猫".to_string()], importance_milli: Some(1500) }),
        "r1",
    )
    .unwrap();
    assert_eq!(ok.id, "r1");
    assert_eq!(ok.kind, MemoryKind::Reflection);
    assert_eq!(ok.content, "用户很友好");
    assert_eq!(ok.importance_milli, 1000);
    assert!(ok.timestamp > 0);
    match ok.metadata {
        Metadata::KeyFacts(f) => assert_eq!(f, vec!["喜欢猫"]),
        _ => panic!("expected key facts"),
    }
    let dflt = parse_digestion_response(Ok(DigestReply { summary: String::new(), key_facts: vec![], importance_milli: None }), "r2").unwrap();
    assert_eq!(dflt.importance_milli, 500);
    let neg = parse_digestion_response(Ok(DigestReply { summary: String::new(), key_facts: vec![], importance_milli: Some(-3) }), "r3").unwrap();
    assert_eq!(neg.importance_milli, 0);
    assert_eq!(parse_digestion_response(Err("EOF".to_string()), "r4").unwrap_err(), "parse error: EOF");
}

#[test]
fn commit_digest_restarts_the_count() {
    let mut m = empty_manager();
    m.record_at("1".to_string(), 1000, MemoryKind::Observation, "a".to_string(), 500);
    assert_eq!(m.entries_since_last_digest().len(), 1);
    m.commit_digest_at(entry("d", 2000, MemoryKind::Reflection, "sum", 500), 2000);
    assert_eq!(m.long_term().all().len(), 1);
    assert_eq!(m.entries_since_last_digest().len(), 0);
    m.record_entry(entry("e", 3000, MemoryKind::Observation, "b", 500));
    assert_eq!(m.entries_since_last_digest().len(), 1);
}

#[test]
fn now_based_operations_run() {
    let mut m = empty_manager();
    assert!(m.record(MemoryKind::Conversation, "用户: hi".to_string(), 500));
    let all = m.get_memories(None, 10);
    assert_eq!(all.len(), 2);
    assert!(!all[0].id.is_empty());
    assert!(all[0].timestamp > 1_600_000_000_000);
    assert!(m.build_context().contains("用户: hi"));
    m.prune();
    assert!(!m.should_digest());
}
