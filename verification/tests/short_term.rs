use desktop_pet::memory::short_term::ShortTermMemory;
use desktop_pet::memory::types::{MemoryEntry, MemoryKind, Metadata};

fn make_entry(id: &str, ts: i64, content: &str) -> MemoryEntry {
    MemoryEntry {
        id: id.to_string(),
        timestamp: ts,
        kind: MemoryKind::Observation,
        content: content.to_string(),
        importance_milli: 500,
        metadata: Metadata::Null,
    }
}

fn entry_of(kind: MemoryKind, ts: i64, content: &str) -> MemoryEntry {
    MemoryEntry {
        id: format!("e{}", ts),
        timestamp: ts,
        kind,
        content: content.to_string(),
        importance_milli: 500,
        metadata: Metadata::Null,
    }
}

#[test]
fn test_push_and_recent() {
    let mut stm = ShortTermMemory::new(100, 7_200_000);
    stm.push(make_entry("1", 1000, "a"));
    stm.push(make_entry("2", 2000, "b"));
    stm.push(make_entry("3", 3000, "c"));
    let recent = stm.recent(2);
    assert_eq!(recent.len(), 2);
    assert_eq!(recent[0].content, "b");
    assert_eq!(recent[1].content, "c");
}

#[test]
fn test_capacity_eviction() {
    let mut stm = ShortTermMemory::new(3, 7_200_000);
    for i in 0..5 {
        stm.push(make_entry(&format!("{}", i), i as i64 * 1000, "x"));
    }
    assert_eq!(stm.len(), 3);
    assert_eq!(stm.all()[0].id, "2");
}

#[test]
fn expired_entries_leave_from_the_front() {
    let mut stm = ShortTermMemory::new(10, 1000);
    stm.push(make_entry("old", 0, "a"));
    stm.push(make_entry("mid", 500, "b"));
    // 2500 - 1000 = 1500: both earlier entries are now older than the limit.
    stm.push(make_entry("new", 2500, "c"));
    let all = stm.all();
    assert_eq!(all.len(), 1);
    assert_eq!(all[0].id, "new");
}

#[test]
fn expiry_stops_at_the_first_fresh_entry() {
    let mut stm = ShortTermMemory::new(10, 1000);
    stm.push(make_entry("a", 2000, "a"));
    stm.push(make_entry("b", 100, "b"));
    stm.push(make_entry("c", 2500, "c"));
    // Only the front is checked: "b" is older than the cutoff but stays behind "a".
    let ids: Vec<String> = stm.all().into_iter().map(|e| e.id).collect();
    assert_eq!(ids, vec!["a", "b", "c"]);
}

#[test]
fn newest_entry_survives_a_zero_age_limit() {
    let mut stm = ShortTermMemory::new(2, 0);
    stm.push(make_entry("a", 10, "a"));
    stm.push(make_entry("b", 20, "b"));
    let all = stm.all();
    assert_eq!(all.len(), 1);
    assert_eq!(all[0].id, "b");
}

#[test]
fn recent_with_more_than_held() {
    let mut stm = ShortTermMemory::new(10, 7_200_000);
    stm.push(make_entry("1", 1, "a"));
    assert_eq!(stm.recent(5).len(), 1);
    assert_eq!(stm.recent(0).len(), 0);
}

#[test]
fn conversations_since_and_summary() {
    let mut stm = ShortTermMemory::new(10, 7_200_000);
    assert_eq!(stm.summary(), "(空)");
    stm.push(entry_of(MemoryKind::Conversation, 1000, "用户: 你好"));
    stm.push(entry_of(MemoryKind::Observation, 2000, "看到了猫"));
    stm.push(entry_of(MemoryKind::Conversation, 3000, "宠物: 喵"));
    let convos = stm.conversations();
    assert_eq!(convos.len(), 2);
    assert_eq!(convos[1].content, "宠物: 喵");
    assert_eq!(stm.non_conversations().len(), 1);
    assert_eq!(stm.since(2000).len(), 2);
    assert_eq!(
        stm.summary(),
        "- [conversation] 用户: 你好\n- [observation] 看到了猫\n- [conversation] 宠物: 喵"
    );
}

#[test]
fn push_at_uses_the_given_present() {
    let mut stm = ShortTermMemory::new(10, 1000);
    stm.push_at(make_entry("a", 0, "a"), 0);
    stm.push_at(make_entry("b", 0, "b"), 5000);
    assert_eq!(stm.len(), 0);
}
