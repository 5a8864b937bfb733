//! The tools the model can call: their schemas, and what each call returns.
use crate::clock::LocalTime;
use crate::text::{decimal, fmt_pad2, fmt_u64, owned, pad2, push_str, str_eq};
use crate::types::{clone_opt, Decision, DecisionView};
use vstd::prelude::*;

verus! {

/// Which built-in behaviour a tool has.
#[derive(Clone, Copy, Debug, PartialEq, Eq, Structural)]
pub enum ToolKind {
    CurrentTime,
    SwitchAnimation,
    SpeakToUser,
    Wait,
    SetReminder,
}

/// Whether tools of this kind end the turn with a decision (all but `get_current_time`).
pub open spec fn kind_is_terminal(k: ToolKind) -> bool {
    k != ToolKind::CurrentTime
}

/// A tool: its name, description, JSON-schema parameters (as JSON text) and behaviour.
#[derive(Debug)]
pub struct ToolDef {
    pub name: String,
    pub description: String,
    pub parameters: String,
    pub kind: ToolKind,
}

impl ToolDef {
    /// Whether the tool's result is a decision that ends the turn.
    pub open spec fn terminal(&self) -> bool {
        kind_is_terminal(self.kind)
    }

    /// Whether the tool's result is a decision that ends the turn.
    pub fn is_terminal(&self) -> (b: bool)
        ensures
            b == self.terminal(),
    {
        self.kind != ToolKind::CurrentTime
    }
}

/// The arguments of a tool call, read from its JSON arguments: each field is present when
/// the JSON has it with the right type (numbers cut to whole values).
#[derive(Debug)]
pub struct ToolArgs {
    pub to: Option<String>,
    pub reason: Option<String>,
    pub message: Option<String>,
    pub animation: Option<String>,
    pub duration_seconds: Option<i64>,
    pub delay_seconds: Option<i64>,
}

/// What a tool returns: text for the model, or a decision.
#[derive(Debug)]
pub enum ToolOutput {
    Text(String),
    Decision(Decision),
}

/// The function description sent to the model for one tool.
#[derive(Debug)]
pub struct ToolSchema {
    pub name: String,
    pub description: String,
    pub parameters: String,
}

/// The tools, looked up by name.
pub struct ToolRegistry {
    tools: Vec<ToolDef>,
}

impl View for ToolRegistry {
    type V = Seq<ToolDef>;

    closed spec fn view(&self) -> Seq<ToolDef> {
        self.tools@
    }
}

/// The tool registered under `name` (the last one, should there be several).
pub open spec fn find_tool(s: Seq<ToolDef>, name: Seq<char>) -> Option<ToolDef>
    decreases s.len(),
{
    if s.len() == 0 {
        None
    } else if s.last().name@ == name {
        Some(s.last())
    } else {
        find_tool(s.drop_last(), name)
    }
}

/// The index of the tool registered under `name` (the last one), or -1.
pub open spec fn find_index(s: Seq<ToolDef>, name: Seq<char>) -> int
    decreases s.len(),
{
    if s.len() == 0 {
        -1
    } else if s.last().name@ == name {
        s.len() - 1
    } else {
        find_index(s.drop_last(), name)
    }
}

proof fn lemma_find_index(s: Seq<ToolDef>, name: Seq<char>)
    ensures
        -1 <= find_index(s, name) < s.len(),
        find_index(s, name) == -1 <==> find_tool(s, name) is None,
        find_index(s, name) >= 0 ==> find_tool(s, name) == Some(s[find_index(s, name)]) && s[find_index(
            s,
            name,
        )].name@ == name,
        forall|j: int| find_index(s, name) < j < s.len() ==> s[j].name@ != name,
    decreases s.len(),
{
    if s.len() > 0 && s.last().name@ != name {
        lemma_find_index(s.drop_last(), name);
        assert forall|j: int| find_index(s, name) < j < s.len() implies s[j].name@ != name by {
            if j < s.len() - 1 {
                assert(s[j] == s.drop_last()[j]);
            }
        }
    }
}

/// Registering `t` replaces the tool of the same name, else adds it at the end.
pub open spec fn registered(s: Seq<ToolDef>, t: ToolDef) -> Seq<ToolDef> {
    let i = find_index(s, t.name@);
    if i >= 0 {
        s.update(i, t)
    } else {
        s.push(t)
    }
}

/// The tool found under a name is the last one that has it.
proof fn lemma_find_last(s: Seq<ToolDef>, name: Seq<char>, k: int)
    requires
        0 <= k < s.len(),
        s[k].name@ == name,
        forall|j: int| k < j < s.len() ==> s[j].name@ != name,
    ensures
        find_tool(s, name) == Some(s[k]),
    decreases s.len(),
{
    if k < s.len() - 1 {
        assert(s.last() == s[s.len() - 1]);
        lemma_find_last(s.drop_last(), name, k);
    }
}

/// Replacing or adding a tool leaves the lookup of every other name as it was.
proof fn lemma_register_other(s: Seq<ToolDef>, t: ToolDef, name: Seq<char>)
    requires
        name != t.name@,
    ensures
        find_tool(registered(s, t), name) == find_tool(s, name),
    decreases s.len(),
{
    lemma_find_index(s, t.name@);
    let i = find_index(s, t.name@);
    if i >= 0 {
        lemma_update_other(s, i, t, name);
    } else {
        assert(s.push(t).drop_last() =~= s);
    }
}

/// Updating the entry at `i` with a tool of another name leaves the lookup of `name`.
proof fn lemma_update_other(s: Seq<ToolDef>, i: int, t: ToolDef, name: Seq<char>)
    requires
        0 <= i < s.len(),
        s[i].name@ != name,
        t.name@ != name,
    ensures
        find_tool(s.update(i, t), name) == find_tool(s, name),
    decreases s.len(),
{
    let u = s.update(i, t);
    if i == s.len() - 1 {
        assert(u.drop_last() =~= s.drop_last());
    } else {
        assert(u.drop_last() =~= s.drop_last().update(i, t));
        assert(u.last() == s.last());
        if s.last().name@ != name {
            lemma_update_other(s.drop_last(), i, t, name);
        }
    }
}

/// Registering a tool makes it the one found under its name, and every other name finds
/// what it found before.
pub proof fn law_register_lookup(s: Seq<ToolDef>, t: ToolDef, other: Seq<char>)
    ensures
        find_tool(registered(s, t), t.name@) == Some(t),
        other != t.name@ ==> find_tool(registered(s, t), other) == find_tool(s, other),
{
    lemma_find_index(s, t.name@);
    let i = find_index(s, t.name@);
    let r = registered(s, t);
    if i >= 0 {
        assert forall|j: int| i < j < r.len() implies r[j].name@ != t.name@ by {
            assert(r[j] == s[j]);
        }
        lemma_find_last(r, t.name@, i);
    } else {
        lemma_find_last(r, t.name@, s.len() as int);
    }
    if other != t.name@ {
        lemma_register_other(s, t, other);
    }
}

/// A `wait` lasts from ten seconds to ten minutes, and a reminder fires after ten seconds
/// to an hour, whatever the arguments.
pub proof fn law_tool_clamps(args: ToolArgs)
    ensures
        tool_decision(ToolKind::Wait, args) matches DecisionView::Wait { duration_ms, .. } && 10000 <= duration_ms
            <= 600000,
        tool_decision(ToolKind::SetReminder, args) matches DecisionView::SetReminder { delay_seconds, .. } && 10
            <= delay_seconds <= 3600,
{
}

/// A weekday number (Monday = 1) as a Chinese numeral, `?` outside 1–7.
pub open spec fn weekday_text(w: u32) -> Seq<char> {
    if w == 1 {
        "一"@
    } else if w == 2 {
        "二"@
    } else if w == 3 {
        "三"@
    } else if w == 4 {
        "四"@
    } else if w == 5 {
        "五"@
    } else if w == 6 {
        "六"@
    } else if w == 7 {
        "日"@
    } else {
        "?"@
    }
}

/// Weekday `w` (Monday = 1) is written as the `w`-th character of 一二三四五六日, so
/// Friday is 五, Sunday is 日, and no two weekdays share a numeral.
pub proof fn law_weekday_numerals(w: u32, v: u32)
    requires
        1 <= w <= 7,
        1 <= v <= 7,
    ensures
        weekday_text(w) == seq!["一二三四五六日"@[w - 1]],
        w != v ==> weekday_text(w) != weekday_text(v),
{
    reveal_strlit("一二三四五六日");
    reveal_strlit("一");
    reveal_strlit("二");
    reveal_strlit("三");
    reveal_strlit("四");
    reveal_strlit("五");
    reveal_strlit("六");
    reveal_strlit("日");
    let all = "一二三四五六日"@;
    assert forall|k: u32| 1 <= k <= 7 implies #[trigger] weekday_text(k) =~= seq![all[k - 1]] by {}
    if w != v {
        assert(weekday_text(w)[0] == all[w - 1]);
        assert(weekday_text(v)[0] == all[v - 1]);
    }
}

/// `{:04}`-style year as `%Y` prints it: four digits for years 0–9999, a `+` before larger
/// years, a `-` before negative ones.
pub open spec fn year_text(y: i32) -> Seq<char> {
    if 0 <= y <= 9999 {
        pad4(y as nat)
    } else if y > 9999 {
        "+"@ + decimal(y as nat)
    } else {
        "-"@ + pad4((-(y as int)) as nat)
    }
}

/// Zero-padded to at least four digits.
pub open spec fn pad4(n: nat) -> Seq<char> {
    if n < 10 {
        "000"@ + decimal(n)
    } else if n < 100 {
        "00"@ + decimal(n)
    } else if n < 1000 {
        "0"@ + decimal(n)
    } else {
        decimal(n)
    }
}

/// The text of `get_current_time`: `YYYY年MM月DD日 HH:MM:SS (星期X)`.
pub open spec fn current_time_text(t: LocalTime) -> Seq<char> {
    year_text(t.year) + "年"@ + pad2(t.month as nat) + "月"@ + pad2(t.day as nat) + "日 "@ + pad2(
        t.hour as nat,
    ) + ":"@ + pad2(t.minute as nat) + ":"@ + pad2(t.second as nat) + " (星期"@ + weekday_text(
        t.weekday,
    ) + ")"@
}

/// A non-empty reason, else none.
pub open spec fn nonempty_reason(r: Option<String>) -> Option<Seq<char>> {
    match r {
        Some(s) => if s@.len() > 0 {
            Some(s@)
        } else {
            None
        },
        None => None,
    }
}

/// `x` clamped to `[lo, hi]`.
pub open spec fn clamp(x: int, lo: int, hi: int) -> int {
    if x < lo {
        lo
    } else if x > hi {
        hi
    } else {
        x
    }
}

/// The decision a terminal tool of this kind makes from its arguments. `wait` sleeps for the
/// given seconds clamped to 10 s – 10 min; `set_reminder` fires after the given seconds
/// clamped to 10 s – 1 h; a missing number counts as 0.
pub open spec fn tool_decision(kind: ToolKind, args: ToolArgs) -> DecisionView {
    match kind {
        ToolKind::SwitchAnimation => DecisionView::Switch {
            to: match args.to {
                Some(t) => t@,
                None => "touch_nose"@,
            },
            reason: nonempty_reason(args.reason),
        },
        ToolKind::SpeakToUser => DecisionView::Speak {
            message: match args.message {
                Some(m) => m@,
                None => ""@,
            },
            animation: crate::types::opt_str(args.animation),
        },
        ToolKind::Wait => DecisionView::Wait {
            duration_ms: clamp(
                match args.duration_seconds {
                    Some(d) => d as int * 1000,
                    None => 0,
                },
                10000,
                600000,
            ) as u32,
            reason: nonempty_reason(args.reason),
        },
        ToolKind::SetReminder => DecisionView::SetReminder {
            message: match args.message {
                Some(m) => m@,
                None => ""@,
            },
            delay_seconds: clamp(
                match args.delay_seconds {
                    Some(d) => d as int,
                    None => 0,
                },
                10,
                3600,
            ) as u32,
        },
        ToolKind::CurrentTime => DecisionView::Stay,
    }
}

/// What executing `name` returns at local time `t`: an error for an unknown tool, the time
/// text for `get_current_time`, else the tool's decision.
pub open spec fn tool_result(s: Seq<ToolDef>, name: Seq<char>, args: ToolArgs, t: LocalTime) -> Result<ToolOutputView, Seq<char>> {
    match find_tool(s, name) {
        None => Err("unknown tool: "@ + name),
        Some(d) => if d.kind == ToolKind::CurrentTime {
            Ok(ToolOutputView::Text(current_time_text(t)))
        } else {
            Ok(ToolOutputView::Decision(tool_decision(d.kind, args)))
        },
    }
}

/// The decision of the terminal tool named `name` on these arguments; none for an unknown
/// or non-terminal tool.
pub open spec fn terminal_decision(s: Seq<ToolDef>, name: Seq<char>, args: ToolArgs) -> Option<DecisionView> {
    match find_tool(s, name) {
        Some(d) => if kind_is_terminal(d.kind) {
            Some(tool_decision(d.kind, args))
        } else {
            None
        },
        None => None,
    }
}

/// A tool output as mathematical values.
pub enum ToolOutputView {
    Text(Seq<char>),
    Decision(DecisionView),
}

impl View for ToolOutput {
    type V = ToolOutputView;

    open spec fn view(&self) -> ToolOutputView {
        match self {
            ToolOutput::Text(s) => ToolOutputView::Text(s@),
            ToolOutput::Decision(d) => ToolOutputView::Decision(d@),
        }
    }
}

/// The view of an execution result.
pub open spec fn result_view(r: Result<ToolOutput, String>) -> Result<ToolOutputView, Seq<char>> {
    match r {
        Ok(o) => Ok(o@),
        Err(e) => Err(e@),
    }
}

/// The schema entries for the tools, in order: all of them, or only the non-terminal ones.
pub open spec fn schema_of(s: Seq<ToolDef>, info_only: bool) -> Seq<ToolDef> {
    s.filter(|t: ToolDef| !info_only || !t.terminal())
}

/// The schema entry describes the tool.
pub open spec fn describes(sc: ToolSchema, t: ToolDef) -> bool {
    sc.name@ == t.name@ && sc.description@ == t.description@ && sc.parameters@ == t.parameters@
}

/// Zero-padded to at least four digits.
pub fn fmt_pad4(n: u64) -> (s: String)
    ensures
        s@ == pad4(n as nat),
{
    let mut s = if n < 10 {
        owned("000")
    } else if n < 100 {
        owned("00")
    } else if n < 1000 {
        owned("0")
    } else {
        String::new()
    };
    let d = fmt_u64(n);
    push_str(&mut s, d.as_str());
    s
}

/// The year as `%Y` prints it.
pub fn fmt_year(y: i32) -> (s: String)
    ensures
        s@ == year_text(y),
{
    if 0 <= y && y <= 9999 {
        fmt_pad4(y as u64)
    } else if y > 9999 {
        let mut s = owned("+");
        let d = fmt_u64(y as u64);
        push_str(&mut s, d.as_str());
        s
    } else {
        let mut s = owned("-");
        let d = fmt_pad4((-(y as i64)) as u64);
        push_str(&mut s, d.as_str());
        s
    }
}

/// The weekday numeral.
pub fn weekday_str(w: u32) -> (s: &'static str)
    ensures
        s@ == weekday_text(w),
{
    if w == 1 {
        "一"
    } else if w == 2 {
        "二"
    } else if w == 3 {
        "三"
    } else if w == 4 {
        "四"
    } else if w == 5 {
        "五"
    } else if w == 6 {
        "六"
    } else if w == 7 {
        "日"
    } else {
        "?"
    }
}

/// The text of `get_current_time` for a local time.
pub fn current_time_string(t: &LocalTime) -> (s: String)
    ensures
        s@ == current_time_text(*t),
{
    let mut s = fmt_year(t.year);
    push_str(&mut s, "年");
    let x = fmt_pad2(t.month as u64);
    push_str(&mut s, x.as_str());
    push_str(&mut s, "月");
    let x = fmt_pad2(t.day as u64);
    push_str(&mut s, x.as_str());
    push_str(&mut s, "日 ");
    let x = fmt_pad2(t.hour as u64);
    push_str(&mut s, x.as_str());
    push_str(&mut s, ":");
    let x = fmt_pad2(t.minute as u64);
    push_str(&mut s, x.as_str());
    push_str(&mut s, ":");
    let x = fmt_pad2(t.second as u64);
    push_str(&mut s, x.as_str());
    push_str(&mut s, " (星期");
    push_str(&mut s, weekday_str(t.weekday));
    push_str(&mut s, ")");
    s
}

/// A non-empty reason, else none.
fn nonempty_reason_exec(r: &Option<String>) -> (o: Option<String>)
    ensures
        crate::types::opt_str(o) == nonempty_reason(*r),
{
    match r {
        Some(s) => if s.as_str().unicode_len() > 0 {
            Some(s.clone())
        } else {
            None
        },
        None => None,
    }
}

/// The value or a default text.
fn text_or(o: &Option<String>, default: &str) -> (s: String)
    ensures
        s@ == match *o {
            Some(x) => x@,
            None => default@,
        },
{
    match o {
        Some(x) => x.clone(),
        None => owned(default),
    }
}

/// `x` clamped to `[lo, hi]`.
fn clamp_i128(x: i128, lo: i128, hi: i128) -> (r: i128)
    requires
        lo <= hi,
    ensures
        r == clamp(x as int, lo as int, hi as int),
{
    if x < lo {
        lo
    } else if x > hi {
        hi
    } else {
        x
    }
}

/// The decision of a terminal tool.
pub fn tool_decision_exec(kind: ToolKind, args: &ToolArgs) -> (d: Decision)
    requires
        kind != ToolKind::CurrentTime,
    ensures
        d@ == tool_decision(kind, *args),
{
    match kind {
        ToolKind::SwitchAnimation => Decision::Switch {
            to: text_or(&args.to, "touch_nose"),
            reason: nonempty_reason_exec(&args.reason),
        },
        ToolKind::SpeakToUser => Decision::Speak {
            message: text_or(&args.message, ""),
            animation: clone_opt(&args.animation),
        },
        ToolKind::Wait => {
            let ms: i128 = match args.duration_seconds {
                Some(d) => d as i128 * 1000,
                None => 0,
            };
            Decision::Wait {
                duration_ms: clamp_i128(ms, 10000, 600000) as u32,
                reason: nonempty_reason_exec(&args.reason),
            }
        },
        ToolKind::SetReminder => {
            let secs: i128 = match args.delay_seconds {
                Some(d) => d as i128,
                None => 0,
            };
            Decision::SetReminder {
                message: text_or(&args.message, ""),
                delay_seconds: clamp_i128(secs, 10, 3600) as u32,
            }
        },
        ToolKind::CurrentTime => Decision::Stay,
    }
}

/// A tool definition.
fn tool(name: &str, description: &str, parameters: &str, kind: ToolKind) -> (t: ToolDef)
    ensures
        t.name@ == name@,
        t.description@ == description@,
        t.parameters@ == parameters@,
        t.kind == kind,
{
    ToolDef { name: owned(name), description: owned(description), parameters: owned(parameters), kind }
}

/// `get_current_time`: an information tool.
pub fn get_current_time_tool() -> (t: ToolDef)
    ensures
        t.name@ == "get_current_time"@,
        t.kind == ToolKind::CurrentTime,
{
    tool(
        "get_current_time",
        "获取当前精确的日期和时间（包括星期几），用于了解现在是什么时候",
        "{\"type\":\"object\",\"properties\":{},\"required\":[]}",
        ToolKind::CurrentTime,
    )
}

/// `switch_animation`: a terminal tool.
pub fn switch_animation_tool() -> (t: ToolDef)
    ensures
        t.name@ == "switch_animation"@,
        t.kind == ToolKind::SwitchAnimation,
{
    tool(
        "switch_animation",
        "切换宠物的动画。先查询时间再根据情境选择合适的动画，深夜选安静的动作（think/touch_nose），白天可以活泼一些",
        "{\"type\":\"object\",\"properties\":{\"to\":{\"type\":\"string\",\"enum\":[\"touch_nose\",\"think\",\"poop\"],\"description\":\"要切换到的动画 ID\"},\"reason\":{\"type\":\"string\",\"description\":\"切换的原因（简短说明）\"}},\"required\":[\"to\",\"reason\"]}",
        ToolKind::SwitchAnimation,
    )
}

/// `speak_to_user`: a terminal tool.
pub fn speak_to_user_tool() -> (t: ToolDef)
    ensures
        t.name@ == "speak_to_user"@,
        t.kind == ToolKind::SpeakToUser,
{
    tool(
        "speak_to_user",
        "主动给用户发一条消息（弹出对话框显示）。用于问用户在干嘛、提醒休息、表达心情、深夜问候等。先查询时间再决定说话内容",
        "{\"type\":\"object\",\"properties\":{\"message\":{\"type\":\"string\",\"description\":\"要对用户说的话（简短自然，1-2句话）\"},\"animation\":{\"type\":\"string\",\"enum\":[\"touch_nose\",\"think\",\"poop\"],\"description\":\"可选的伴随动画 ID\"}},\"required\":[\"message\"]}",
        ToolKind::SpeakToUser,
    )
}

/// `wait`: a terminal tool.
pub fn wait_tool() -> (t: ToolDef)
    ensures
        t.name@ == "wait"@,
        t.kind == ToolKind::Wait,
{
    tool(
        "wait",
        "让自己安静一段时间，不做任何动作。用于觉得该休息了、深夜不想打扰用户等场景",
        "{\"type\":\"object\",\"properties\":{\"duration_seconds\":{\"type\":\"number\",\"description\":\"想安静的秒数(10-600)\",\"minimum\":10,\"maximum\":600},\"reason\":{\"type\":\"string\",\"description\":\"安静的原因(简短)\"}},\"required\":[\"duration_seconds\"]}",
        ToolKind::Wait,
    )
}

/// `set_reminder`: a terminal tool.
pub fn set_reminder_tool() -> (t: ToolDef)
    ensures
        t.name@ == "set_reminder"@,
        t.kind == ToolKind::SetReminder,
{
    tool(
        "set_reminder",
        "设置一条定时提醒。到时间后你会主动提醒用户。用于用户让你'N分钟后提醒我X'的场景",
        "{\"type\":\"object\",\"properties\":{\"message\":{\"type\":\"string\",\"description\":\"提醒的内容\"},\"delay_seconds\":{\"type\":\"number\",\"description\":\"多少秒后提醒(10-3600)\",\"minimum\":10,\"maximum\":3600}},\"required\":[\"message\",\"delay_seconds\"]}",
        ToolKind::SetReminder,
    )
}

impl ToolRegistry {
    /// The registry with the built-in tools: `get_current_time`, `switch_animation`,
    /// `speak_to_user`, `wait` and `set_reminder`.
    pub fn new() -> (r: Self)
        ensures
            r@.len() == 5,
            r@[0].name@ == "get_current_time"@ && r@[0].kind == ToolKind::CurrentTime,
            r@[1].name@ == "switch_animation"@ && r@[1].kind == ToolKind::SwitchAnimation,
            r@[2].name@ == "speak_to_user"@ && r@[2].kind == ToolKind::SpeakToUser,
            r@[3].name@ == "wait"@ && r@[3].kind == ToolKind::Wait,
            r@[4].name@ == "set_reminder"@ && r@[4].kind == ToolKind::SetReminder,
    {
        let mut tools: Vec<ToolDef> = Vec::new();
        tools.push(get_current_time_tool());
        tools.push(switch_animation_tool());
        tools.push(speak_to_user_tool());
        tools.push(wait_tool());
        tools.push(set_reminder_tool());
        ToolRegistry { tools }
    }

    /// The index of the last tool named `name`, if any.
    fn index_of(&self, name: &str) -> (i: Option<usize>)
        ensures
            match i {
                Some(k) => k as int == find_index(self@, name@),
                None => find_index(self@, name@) == -1,
            },
    {
        let mut k = self.tools.len();
        assert(self.tools@.take(k as int) =~= self.tools@);
        while k > 0
            invariant
                k <= self.tools@.len(),
                find_index(self.tools@, name@) == find_index(self.tools@.take(k as int), name@),
            decreases k,
        {
            let ghost pre = self.tools@.take(k as int);
            assert(pre.drop_last() =~= self.tools@.take(k - 1));
            if str_eq(self.tools[k - 1].name.as_str(), name) {
                return Some(k - 1);
            }
            k = k - 1;
        }
        None
    }

    /// Adds a tool, replacing the one of the same name.
    pub fn register(&mut self, tool: ToolDef)
        ensures
            final(self)@ == registered(old(self)@, tool),
    {
        proof {
            assert(self.tools@.take(self.tools@.len() as int) =~= self.tools@);
        }
        let found = self.index_of(tool.name.as_str());
        match found {
            Some(i) => {
                proof {
                    lemma_find_index(self.tools@, tool.name@);
                }
                self.tools.set(i, tool);
            },
            None => {
                self.tools.push(tool);
            },
        }
    }

    /// The schema entries of the tools, all of them or only the non-terminal ones.
    fn build_schema(&self, info_only: bool) -> (r: Vec<ToolSchema>)
        ensures
            r@.len() == schema_of(self@, info_only).len(),
            forall|i: int| 0 <= i < r@.len() ==> describes(#[trigger] r@[i], schema_of(self@, info_only)[i]),
    {
        let ghost f = |t: ToolDef| !info_only || !t.terminal();
        let mut r: Vec<ToolSchema> = Vec::new();
        let mut i: usize = 0;
        while i < self.tools.len()
            invariant
                i <= self.tools@.len(),
                f == (|t: ToolDef| !info_only || !t.terminal()),
                r@.len() == self.tools@.take(i as int).filter(f).len(),
                forall|j: int| 0 <= j < r@.len() ==> describes(#[trigger] r@[j], self.tools@.take(i as int).filter(f)[j]),
            decreases self.tools@.len() - i,
        {
            let t = &self.tools[i];
            proof {
                crate::seqs::lemma_filter_push(self.tools@.take(i as int), f, self.tools@[i as int]);
                assert(self.tools@.take(i + 1) =~= self.tools@.take(i as int).push(self.tools@[i as int]));
            }
            if !info_only || !t.is_terminal() {
                r.push(ToolSchema {
                    name: t.name.clone(),
                    description: t.description.clone(),
                    parameters: t.parameters.clone(),
                });
            }
            i = i + 1;
        }
        assert(self.tools@.take(self.tools@.len() as int) =~= self.tools@);
        r
    }

    /// The schema of every tool (for decisions).
    pub fn schema(&self) -> (r: Vec<ToolSchema>)
        ensures
            r@.len() == schema_of(self@, false).len(),
            forall|i: int| 0 <= i < r@.len() ==> describes(#[trigger] r@[i], schema_of(self@, false)[i]),
    {
        self.build_schema(false)
    }

    /// The schema of the information tools only (for chat).
    pub fn info_schema(&self) -> (r: Vec<ToolSchema>)
        ensures
            r@.len() == schema_of(self@, true).len(),
            forall|i: int| 0 <= i < r@.len() ==> describes(#[trigger] r@[i], schema_of(self@, true)[i]),
    {
        self.build_schema(true)
    }

    /// Whether the tool named `name` exists and ends the turn.
    pub fn is_terminal(&self, name: &str) -> (b: bool)
        ensures
            b == match find_tool(self@, name@) {
                Some(t) => t.terminal(),
                None => false,
            },
    {
        proof {
            lemma_find_index(self.tools@, name@);
        }
        match self.index_of(name) {
            Some(i) => self.tools[i].is_terminal(),
            None => false,
        }
    }

    /// The decision of the terminal tool named `name`, if it is one.
    pub fn decide(&self, name: &str, args: &ToolArgs) -> (d: Option<Decision>)
        ensures
            match terminal_decision(self@, name@, *args) {
                Some(x) => (d matches Some(y) && y@ == x),
                None => d is None,
            },
    {
        proof {
            lemma_find_index(self.tools@, name@);
        }
        match self.index_of(name) {
            Some(i) => {
                let kind = self.tools[i].kind;
                if kind != ToolKind::CurrentTime {
                    Some(tool_decision_exec(kind, args))
                } else {
                    None
                }
            },
            None => None,
        }
    }

    /// Runs the tool named `name`, reading the local clock for `get_current_time`.
    pub fn execute(&self, name: &str, args: &ToolArgs) -> (r: Result<ToolOutput, String>)
        ensures
            exists|t: LocalTime| result_view(r) == #[trigger] tool_result(self@, name@, *args, t),
    {
        let t = crate::clock::local_now();
        self.execute_at(name, args, &t)
    }

    /// Runs the tool named `name` at local time `t`.
    pub fn execute_at(&self, name: &str, args: &ToolArgs, t: &LocalTime) -> (r: Result<ToolOutput, String>)
        ensures
            result_view(r) == tool_result(self@, name@, *args, *t),
    {
        proof {
            lemma_find_index(self.tools@, name@);
        }
        match self.index_of(name) {
            None => {
                let mut m = owned("unknown tool: ");
                push_str(&mut m, name);
                Err(m)
            },
            Some(i) => {
                let kind = self.tools[i].kind;
                if kind == ToolKind::CurrentTime {
                    Ok(ToolOutput::Text(current_time_string(t)))
                } else {
                    Ok(ToolOutput::Decision(tool_decision_exec(kind, args)))
                }
            },
        }
    }
}

} // verus!
