use desktop_pet::clock::LocalTime;
use desktop_pet::tools::{
    current_time_string, fmt_year, get_current_time_tool, set_reminder_tool, wait_tool, ToolArgs, ToolDef, ToolKind,
    ToolOutput, ToolRegistry,
};
use desktop_pet::types::Decision;

fn no_args() -> ToolArgs {
    ToolArgs { to: None, reason: None, message: None, animation: None, duration_seconds: None, delay_seconds: None }
}

fn at(year: i32, weekday: u32) -> LocalTime {
    LocalTime { year, month: 12, day: 31, hour: 23, minute: 59, second: 5, weekday }
}

#[test]
fn built_in_tools() {
    let r = ToolRegistry::new();
    let names: Vec<String> = r.schema().into_iter().map(|s| s.name).collect();
    assert_eq!(names, vec!["get_current_time", "switch_animation", "speak_to_user", "wait", "set_reminder"]);
    let info: Vec<String> = r.info_schema().into_iter().map(|s| s.name).collect();
    assert_eq!(info, vec!["get_current_time"]);
    assert!(!r.is_terminal("get_current_time"));
    assert!(r.is_terminal("switch_animation"));
    assert!(r.is_terminal("wait"));
    assert!(!r.is_terminal("nope"));
}

#[test]
fn time_text() {
    assert_eq!(current_time_string(&at(2024, 7)), "2024年12月31日 23:59:05 (星期日)");
    assert_eq!(current_time_string(&at(33, 3)), "0033年12月31日 23:59:05 (星期三)");
    assert_eq!(current_time_string(&at(2024, 9)), "2024年12月31日 23:59:05 (星期?)");
    assert_eq!(fmt_year(12345), "+12345");
    assert_eq!(fmt_year(-7), "-0007");
}

#[test]
fn execute_tools() {
    let r = ToolRegistry::new();
    let t = at(2025, 1);
    match r.execute_at("get_current_time", &no_args(), &t) {
        Ok(ToolOutput::Text(s)) => assert_eq!(s, "2025年12月31日 23:59:05 (星期一)"),
        _ => panic!("expected time text"),
    }
    match r.execute_at("switch_animation", &no_args(), &t) {
        Ok(ToolOutput::Decision(Decision::Switch { to, reason })) => {
            assert_eq!(to, "touch_nose");
            assert_eq!(reason, None);
        }
        _ => panic!("expected a switch"),
    }
    let args = ToolArgs { message: Some("休息一下".to_string()), animation: Some("think".to_string()), ..no_args() };
    match r.execute_at("speak_to_user", &args, &t) {
        Ok(ToolOutput::Decision(Decision::Speak { message, animation })) => {
            assert_eq!(message, "休息一下");
            assert_eq!(animation.as_deref(), Some("think"));
        }
        _ => panic!("expected speech"),
    }
    match r.execute_at("fly", &no_args(), &t) {
        Err(e) => assert_eq!(e, "unknown tool: fly"),
        Ok(_) => panic!("unknown tool ran"),
    }
}

#[test]
fn wait_and_reminder_are_clamped() {
    let r = ToolRegistry::new();
    let t = at(2025, 1);
    let cases = [(None, 10000u32), (Some(5i64), 10000), (Some(30), 30000), (Some(600), 600000), (Some(601), 600000), (Some(-3), 10000), (Some(i64::MAX), 600000)];
    for (secs, ms) in cases {
        let args = ToolArgs { duration_seconds: secs, reason: Some("累了".to_string()), ..no_args() };
        match r.execute_at("wait", &args, &t) {
            Ok(ToolOutput::Decision(Decision::Wait { duration_ms, reason })) => {
                assert_eq!(duration_ms, ms);
                assert_eq!(reason.as_deref(), Some("累了"));
            }
            _ => panic!("expected a wait"),
        }
    }
    let cases = [(None, 10u32), (Some(9i64), 10), (Some(90), 90), (Some(3600), 3600), (Some(7200), 3600), (Some(i64::MIN), 10)];
    for (secs, d) in cases {
        let args = ToolArgs { delay_seconds: secs, message: Some("喝水".to_string()), ..no_args() };
        match r.decide("set_reminder", &args) {
            Some(Decision::SetReminder { message, delay_seconds }) => {
                assert_eq!(message, "喝水");
                assert_eq!(delay_seconds, d);
            }
            _ => panic!("expected a reminder"),
        }
    }
    assert!(r.decide("get_current_time", &no_args()).is_none());
    assert!(r.decide("nothing", &no_args()).is_none());
}

#[test]
fn register_replaces_by_name() {
    let mut r = ToolRegistry::new();
    let replacement = ToolDef {
        name: "wait".to_string(),
        description: "new".to_string(),
        parameters: "{}".to_string(),
        kind: ToolKind::CurrentTime,
    };
    r.register(replacement);
    let schema = r.schema();
    assert_eq!(schema.len(), 5);
    assert_eq!(schema[3].name, "wait");
    assert_eq!(schema[3].description, "new");
    assert!(!r.is_terminal("wait"));
    assert!(r.is_terminal("set_reminder"));
    let mut extra = get_current_time_tool();
    extra.name = "clock".to_string();
    r.register(extra);
    assert_eq!(r.schema().len(), 6);
    assert_eq!(r.info_schema().len(), 3);
    assert_eq!(wait_tool().kind, ToolKind::Wait);
    assert_eq!(set_reminder_tool().kind, ToolKind::SetReminder);
}

#[test]
fn clock_based_execution() {
    let r = ToolRegistry::new();
    match r.execute("get_current_time", &no_args()) {
        Ok(ToolOutput::Text(s)) => {
            assert!(s.contains('年') && s.contains("星期"));
            assert!(!s.contains('?'));
        }
        _ => panic!("expected time text"),
    }
}
