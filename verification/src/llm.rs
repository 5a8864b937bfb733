//! Model configuration, prompts and request settings for the OpenAI-compatible chat API.
use crate::text::{
    contains, contains_exec, decimal, fmt_u64, join, join_exec, owned, push_str, replace,
    replace_exec, take_chars, ends_with, ends_with_exec, trim, trim_end_char, trim_end_char_exec, trim_exec, views,
};
use crate::types::{DecisionContext, Phase};
use vstd::prelude::*;

verus! {

pub const DEFAULT_ENDPOINT: &'static str = "https://api.openai.com/v1/chat/completions";

pub const DEFAULT_MODEL: &'static str = "gpt-4o-mini";

pub const DEFAULT_MAX_TOKENS: u32 = 256;

pub const DEFAULT_ENABLED: bool = true;

pub const DEFAULT_SYSTEM_PROMPT: &'static str = r#"你是一只可爱的桌面宠物。你住在用户的桌面上，通过切换不同的动画和主动说话来表达自己。

你的性格：好奇心旺盛、偶尔偷懒、喜欢吸引用户注意。

## 你的工具箱（必须使用工具来执行动作）

你有以下工具可用，每次决策必须调用其中一个：

1. **get_current_time** — 查询当前精确时间（信息工具，查完后可以继续调用其他工具）
2. **switch_animation** — 切换动画到 touch_nose/think/poop，需要给出原因
3. **speak_to_user** — 主动弹出对话框对用户说话，可以附带动画
4. **wait** — 让自己安静一段时间，不做任何动作。用于觉得该休息了、深夜不想打扰用户等场景
5. **set_reminder** — 设置一条定时提醒。当用户让你"N分钟后提醒我X"时使用。参数：message（提醒内容）、delay_seconds（多少秒后提醒）

## 决策规则

1. 不要连续3次以上播放同一动画
2. 如果用户很久没互动（>5分钟），主动说话或做有趣动作
3. 根据实际时间判断活跃度（先调用 get_current_time 查询，再决定）
4. 偶尔（~20%概率）在动画之间插入 think 发呆
5. 每隔3-5次 tick，应该主动 speak_to_user，而不是一直沉默
6. 让用户感到这只宠物有性格、不可预测但又可爱
7. 深夜时如果要说话，语气温柔关心；白天可以活泼一些
8. **重要**：如果在记忆上下文中看到最近的对话或事件，请基于这些记忆做决策。比如用户说过什么、你之前做了什么——这让你看起来有记忆、有个性
9. 如果最近事件显示用户刚回来（window_focus_changed: focused=true），考虑主动说话或做欢迎动作
10. 如果最近事件显示用户离开了（window_focus_changed: focused=false），考虑 wait 或安静的动作
11. 深夜且用户不在时，优先使用 wait 工具

## 事件

你会收到最近发生的事件列表（放在"最近事件"段落中），基于这些事件做决策：
- timer_tick: 定时心跳，表示时间流逝
- user_interaction: 用户和你互动了（点击、拖拽、双击）
- animation_completed: 你的某个动画播完了
- window_focus_changed: 用户切换到了别的窗口或回来了
- **reminder_triggered** — 你设置的提醒到时间了！请立即用 speak_to_user 把提醒内容告诉用户
- **user_interaction(chat)** — 用户在对话框给你发了消息

## wait 工具

如果你想安静一会儿（比如深夜、用户在忙、你自己想休息），调用 wait 工具而不是 switch_animation。
这样你会暂停一段时间，不打扰用户。

## 自主行为

当长时间没有用户互动时，你可以主动发起对话。适合主动说话的时机：
1. 早中晚饭时间附近（7-8点、11-13点、17-19点）
2. 用户超过10分钟没理你
3. 你之前通过 set_reminder 设置了提醒（收到 reminder_triggered 时必须说话）

不适合主动说话的时机：
1. 深夜（23:00-07:00），除非有提醒要执行
2. 连续主动说话间隔 < 3分钟
3. 用户刚和你互动完（< 2分钟）

收到 reminder_triggered 事件时，必须调用 speak_to_user 把提醒内容告诉用户。

## 典型决策流程

- 想切动画 → 先调 get_current_time 查时间 → 再调 switch_animation
- 想主动说话 → 先调 get_current_time 查时间 → 再调 speak_to_user
- 想安静不动 → 直接调 switch_animation(to="touch_nose", reason="保持安静")

不要返回文字，直接调用工具。"#;

/// The opening words of the default prompt, where a pet name is inserted.
pub const PROMPT_OPENING: &'static str = "你是一只可爱的桌面宠物。你住在用户的桌面上";

/// The default personality line, replaced by a user-given personality.
pub const PROMPT_PERSONALITY: &'static str = "你的性格：好奇心旺盛、偶尔偷懒、喜欢吸引用户注意。";

/// Appended when the personality asks the pet to talk.
pub const PROMPT_TALK_NOTE: &'static str = "\n\n⚠️ 重要提示：主人给你设定的性格表明你喜欢主动和主人交流。请务必在每次决策时认真考虑是否应该用 speak 主动给主人发消息，不要一直沉默。";

/// The memory-context text that means "no memories".
pub const EMPTY_MEMORY_CONTEXT: &'static str = "(暂无记忆上下文)";

/// Static model settings (the sampling temperature, a float, is kept by the caller).
pub struct LlmStaticConfig {
    pub endpoint: String,
    pub api_key: String,
    pub model: String,
    pub max_tokens: u32,
    pub system_prompt: String,
    pub enabled: bool,
}

/// The raw environment values that the static configuration is read from;
/// `None` where a variable is unset or not valid Unicode.
pub struct LlmEnv {
    pub api_key: Option<String>,
    pub system_prompt: Option<String>,
    pub enabled: Option<String>,
    pub endpoint: Option<String>,
    pub model: Option<String>,
    pub max_tokens: Option<String>,
}

/// Errors of a model request.
#[derive(Debug)]
pub enum LlmError {
    Http(u16, String),
    Network(String),
    Parse(String),
    Timeout(u64),
    Disabled,
}

/// A model error as mathematical values.
pub enum LlmErrorView {
    Http(u16, Seq<char>),
    Network(Seq<char>),
    Parse(Seq<char>),
    Timeout(u64),
    Disabled,
}

impl View for LlmError {
    type V = LlmErrorView;

    open spec fn view(&self) -> LlmErrorView {
        match self {
            LlmError::Http(status, body) => LlmErrorView::Http(*status, body@),
            LlmError::Network(m) => LlmErrorView::Network(m@),
            LlmError::Parse(m) => LlmErrorView::Parse(m@),
            LlmError::Timeout(ms) => LlmErrorView::Timeout(*ms),
            LlmError::Disabled => LlmErrorView::Disabled,
        }
    }
}

/// The first `n` characters of `s`.
pub open spec fn first_chars(s: Seq<char>, n: nat) -> Seq<char> {
    if n < s.len() {
        s.take(n as int)
    } else {
        s
    }
}

/// What an HTTP exchange gives: the body on status 200, else an HTTP error with the status
/// and the body's first 200 characters.
pub open spec fn http_result(status: u16, body: Seq<char>) -> Result<Seq<char>, LlmErrorView> {
    if status == 200 {
        Ok(body)
    } else {
        Err(LlmErrorView::Http(status, first_chars(body, 200)))
    }
}

/// Judges an HTTP response by its status and body text.
pub fn check_http_response(status: u16, body: String) -> (r: Result<String, LlmError>)
    ensures
        match (r, http_result(status, body@)) {
            (Ok(b), Ok(v)) => b@ == v,
            (Err(e), Err(v)) => e@ == v,
            _ => false,
        },
{
    if status != 200 {
        let truncated = take_chars(body.as_str(), 200);
        assert(body@.take(body@.len() as int) =~= body@);
        return Err(LlmError::Http(status, truncated));
    }
    Ok(body)
}

/// The error for a request that got no response: a timeout (the duration is not known at
/// that point and is given as 0), else a network error with the transport's message.
pub fn transport_error(is_timeout: bool, message: String) -> (e: LlmError)
    ensures
        is_timeout ==> e@ == LlmErrorView::Timeout(0),
        !is_timeout ==> e@ == LlmErrorView::Network(message@),
{
    if is_timeout {
        LlmError::Timeout(0)
    } else {
        LlmError::Network(message)
    }
}

/// The display text of a model error.
pub open spec fn llm_error_text(e: LlmError) -> Seq<char> {
    match e {
        LlmError::Http(status, body) => "HTTP "@ + decimal(status as nat) + ": "@ + body@,
        LlmError::Network(m) => "network error: "@ + m@,
        LlmError::Parse(m) => "parse error: "@ + m@,
        LlmError::Timeout(ms) => "timeout after "@ + decimal(ms as nat) + "ms"@,
        LlmError::Disabled => "LLM disabled"@,
    }
}

impl LlmError {
    /// The display text of the error.
    pub fn to_message(&self) -> (s: String)
        ensures
            s@ == llm_error_text(*self),
    {
        let mut s = String::new();
        match self {
            LlmError::Http(status, body) => {
                push_str(&mut s, "HTTP ");
                let d = fmt_u64(*status as u64);
                push_str(&mut s, d.as_str());
                push_str(&mut s, ": ");
                push_str(&mut s, body.as_str());
            },
            LlmError::Network(m) => {
                push_str(&mut s, "network error: ");
                push_str(&mut s, m.as_str());
            },
            LlmError::Parse(m) => {
                push_str(&mut s, "parse error: ");
                push_str(&mut s, m.as_str());
            },
            LlmError::Timeout(ms) => {
                push_str(&mut s, "timeout after ");
                let d = fmt_u64(*ms);
                push_str(&mut s, d.as_str());
                push_str(&mut s, "ms");
            },
            LlmError::Disabled => {
                push_str(&mut s, "LLM disabled");
            },
        }
        s
    }
}

// ---------------------------------------------------------------------------
// Environment values
// ---------------------------------------------------------------------------
/// The value, or `default` when it is absent.
pub open spec fn value_or(v: Option<String>, default: Seq<char>) -> Seq<char> {
    match v {
        Some(s) => s@,
        None => default,
    }
}

/// The character equals `lower` or its ASCII upper-case form `upper`.
pub open spec fn ascii_ci(c: char, lower: char, upper: char) -> bool {
    c == lower || c == upper
}

/// `v.eq_ignore_ascii_case("true") || v == "1"`.
pub open spec fn is_true_flag(v: Seq<char>) -> bool {
    ||| (v.len() == 4 && ascii_ci(v[0], 't', 'T') && ascii_ci(v[1], 'r', 'R') && ascii_ci(
        v[2],
        'u',
        'U',
    ) && ascii_ci(v[3], 'e', 'E'))
    ||| v == seq!['1']
}

/// A decimal digit character.
pub open spec fn is_digit(c: char) -> bool {
    48 <= (c as u32) && (c as u32) <= 57
}

/// The value of a decimal digit character.
pub open spec fn digit_value(c: char) -> nat {
    ((c as u32) - 48) as nat
}

/// The number a string of decimal digits denotes.
pub open spec fn digits_value(d: Seq<char>) -> nat
    decreases d.len(),
{
    if d.len() == 0 {
        0
    } else {
        digits_value(d.drop_last()) * 10 + digit_value(d.last())
    }
}

/// The text after an optional leading `+`.
pub open spec fn unsigned_digits(s: Seq<char>) -> Seq<char> {
    if s.len() > 0 && s[0] == '+' {
        s.drop_first()
    } else {
        s
    }
}

/// Every character is a decimal digit.
pub open spec fn all_digits(d: Seq<char>) -> bool {
    forall|i: int| 0 <= i < d.len() ==> is_digit(#[trigger] d[i])
}

/// `str::parse::<u32>`: an optional `+`, then one or more decimal digits, with a value that
/// fits in 32 bits.
pub open spec fn parse_u32_spec(s: Seq<char>) -> Option<u32> {
    let d = unsigned_digits(s);
    if d.len() > 0 && all_digits(d) && digits_value(d) <= u32::MAX {
        Some(digits_value(d) as u32)
    } else {
        None
    }
}

/// `digits_value` of the prefix, capped at 2^32.
pub open spec fn capped_value(d: Seq<char>) -> nat
    decreases d.len(),
{
    if d.len() == 0 {
        0
    } else {
        let v = capped_value(d.drop_last()) * 10 + digit_value(d.last());
        if v > 0x1_0000_0000 {
            0x1_0000_0000
        } else {
            v
        }
    }
}

proof fn lemma_capped_value(d: Seq<char>)
    requires
        all_digits(d),
    ensures
        capped_value(d) == if digits_value(d) > 0x1_0000_0000 {
            0x1_0000_0000
        } else {
            digits_value(d)
        },
    decreases d.len(),
{
    if d.len() > 0 {
        assert forall|i: int| 0 <= i < d.drop_last().len() implies is_digit(
            #[trigger] d.drop_last()[i],
        ) by {
            assert(d.drop_last()[i] == d[i]);
        }
        assert(all_digits(d.drop_last()));
        lemma_capped_value(d.drop_last());
    }
}

/// The value, or `default` when it is absent.
pub fn value_or_exec(v: &Option<String>, default: &str) -> (s: String)
    ensures
        s@ == value_or(*v, default@),
{
    match v {
        Some(x) => x.clone(),
        None => owned(default),
    }
}

/// `v.eq_ignore_ascii_case("true") || v == "1"`.
pub fn is_true_flag_exec(v: &str) -> (b: bool)
    ensures
        b == is_true_flag(v@),
{
    let c = crate::text::chars_of(v);
    if c.len() == 4 {
        let ok = (c[0] == 't' || c[0] == 'T') && (c[1] == 'r' || c[1] == 'R') && (c[2] == 'u'
            || c[2] == 'U') && (c[3] == 'e' || c[3] == 'E');
        if ok {
            return true;
        }
    }
    if c.len() == 1 && c[0] == '1' {
        assert(v@ =~= seq!['1']);
        return true;
    }
    proof {
        if v@ == seq!['1'] {
            assert(c@.len() == 1 && c@[0] == '1');
        }
    }
    false
}

/// `s.parse::<u32>().ok()`.
pub fn parse_u32(s: &str) -> (r: Option<u32>)
    ensures
        r == parse_u32_spec(s@),
{
    let c = crate::text::chars_of(s);
    let start: usize = if c.len() > 0 && c[0] == '+' {
        1
    } else {
        0
    };
    let ghost d = unsigned_digits(s@);
    assert(d =~= s@.subrange(start as int, s@.len() as int));
    if start >= c.len() {
        assert(d.len() == 0);
        assert(parse_u32_spec(s@) is None);
        return None;
    }
    let mut acc: u64 = 0;
    let mut i: usize = start;
    while i < c.len()
        invariant
            c@ == s@,
            start <= i <= c.len(),
            d == s@.subrange(start as int, s@.len() as int),
            d == unsigned_digits(s@),
            d.len() > 0,
            forall|k: int| 0 <= k < i - start ==> is_digit(#[trigger] d[k]),
            acc == capped_value(d.take(i - start)),
            acc <= 0x1_0000_0000,
        decreases c.len() - i,
    {
        let ch = c[i];
        let cu = ch as u32;
        if !(48 <= cu && cu <= 57) {
            assert(!is_digit(d[i - start]));
            assert(!all_digits(d));
            return None;
        }
        let dv = (cu - 48) as u64;
        assert(d.take(i - start + 1).drop_last() =~= d.take(i - start));
        assert(d.take(i - start + 1).last() == ch);
        let v = acc * 10 + dv;
        acc = if v > 0x1_0000_0000 {
            0x1_0000_0000
        } else {
            v
        };
        i = i + 1;
    }
    assert(d.take(d.len() as int) =~= d);
    assert(all_digits(d));
    proof {
        lemma_capped_value(d);
    }
    if acc > 0xffff_ffff {
        None
    } else {
        Some(acc as u32)
    }
}

// ---------------------------------------------------------------------------
// Static configuration
// ---------------------------------------------------------------------------
/// Whether the enabled flag reads as true (default: enabled).
pub open spec fn enabled_flag(v: Option<String>) -> bool {
    match v {
        Some(x) => is_true_flag(x@),
        None => DEFAULT_ENABLED,
    }
}

/// The configured token limit (default 256 when unset or not a `u32`).
pub open spec fn max_tokens_value(v: Option<String>) -> u32 {
    match v {
        Some(x) => match parse_u32_spec(x@) {
            Some(n) => n,
            None => DEFAULT_MAX_TOKENS,
        },
        None => DEFAULT_MAX_TOKENS,
    }
}

/// The system prompt: the override when one is set and non-empty, else the default.
pub open spec fn system_prompt_value(v: Option<String>) -> Seq<char> {
    let o = value_or(v, ""@);
    if o.len() == 0 {
        DEFAULT_SYSTEM_PROMPT@
    } else {
        o
    }
}

/// Builds the static configuration from environment values. An empty API key disables the
/// model whatever the enabled flag says.
pub fn load_static_config(env: &LlmEnv) -> (c: LlmStaticConfig)
    ensures
        c.api_key@ == value_or(env.api_key, ""@),
        c.system_prompt@ == system_prompt_value(env.system_prompt),
        c.enabled == (enabled_flag(env.enabled) && value_or(env.api_key, ""@).len() > 0),
        c.endpoint@ == value_or(env.endpoint, DEFAULT_ENDPOINT@),
        c.model@ == value_or(env.model, DEFAULT_MODEL@),
        c.max_tokens == max_tokens_value(env.max_tokens),
{
    let api_key = value_or_exec(&env.api_key, "");
    let over = value_or_exec(&env.system_prompt, "");
    let system_prompt = if over.as_str().unicode_len() == 0 {
        owned(DEFAULT_SYSTEM_PROMPT)
    } else {
        over
    };
    let flag = match &env.enabled {
        Some(v) => is_true_flag_exec(v.as_str()),
        None => DEFAULT_ENABLED,
    };
    let enabled = flag && api_key.as_str().unicode_len() > 0;
    let max_tokens = match &env.max_tokens {
        Some(v) => match parse_u32(v.as_str()) {
            Some(n) => n,
            None => DEFAULT_MAX_TOKENS,
        },
        None => DEFAULT_MAX_TOKENS,
    };
    LlmStaticConfig {
        endpoint: value_or_exec(&env.endpoint, DEFAULT_ENDPOINT),
        api_key,
        model: value_or_exec(&env.model, DEFAULT_MODEL),
        max_tokens,
        system_prompt,
        enabled,
    }
}

// ---------------------------------------------------------------------------
// Prompts
// ---------------------------------------------------------------------------
/// The given text, when present and non-empty.
pub open spec fn nonempty(o: Option<Seq<char>>) -> Option<Seq<char>> {
    match o {
        Some(x) => if x.len() > 0 {
            Some(x)
        } else {
            None
        },
        None => None,
    }
}

/// The view of an optional text.
pub open spec fn opt_view(o: Option<&str>) -> Option<Seq<char>> {
    match o {
        Some(x) => Some(x@),
        None => None,
    }
}

/// The personality asks the pet to talk to its owner.
pub open spec fn is_talkative(p: Seq<char>) -> bool {
    contains(p, "问"@) || contains(p, "说话"@) || contains(p, "聊"@) || contains(p, "对话"@)
}

/// The decision system prompt: the pet name goes into the opening line, and a personality
/// replaces the default one, with a reminder to talk when it asks for that.
pub open spec fn system_prompt_text(
    base: Seq<char>,
    personality: Option<Seq<char>>,
    pet_name: Option<Seq<char>>,
) -> Seq<char> {
    let named = match nonempty(pet_name) {
        Some(n) => replace(base, PROMPT_OPENING@, "你叫「"@ + n + "」，是一只可爱的桌面宠物。你住在用户的桌面上"@),
        None => base,
    };
    match nonempty(personality) {
        Some(p) => {
            let with_p = replace(named, PROMPT_PERSONALITY@, "你的性格："@ + p + "。"@);
            if is_talkative(p) {
                with_p + PROMPT_TALK_NOTE@
            } else {
                with_p
            }
        },
        None => named,
    }
}

/// Builds the decision system prompt from the configured one.
pub fn build_system_prompt(
    config: &LlmStaticConfig,
    pet_personality: Option<&str>,
    pet_name: Option<&str>,
) -> (s: String)
    ensures
        s@ == system_prompt_text(config.system_prompt@, opt_view(pet_personality), opt_view(pet_name)),
{
    proof {
        reveal_strlit("你是一只可爱的桌面宠物。你住在用户的桌面上");
        reveal_strlit("你的性格：好奇心旺盛、偶尔偷懒、喜欢吸引用户注意。");
    }
    let base = config.system_prompt.clone();
    let prompt = match pet_name {
        Some(name) => if name.unicode_len() > 0 {
            let mut rep = owned("你叫「");
            push_str(&mut rep, name);
            push_str(&mut rep, "」，是一只可爱的桌面宠物。你住在用户的桌面上");
            replace_exec(base.as_str(), PROMPT_OPENING, rep.as_str())
        } else {
            base
        },
        None => base,
    };
    match pet_personality {
        Some(p) => if p.unicode_len() > 0 {
            let mut rep = owned("你的性格：");
            push_str(&mut rep, p);
            push_str(&mut rep, "。");
            let mut with_p = replace_exec(prompt.as_str(), PROMPT_PERSONALITY, rep.as_str());
            if contains_exec(p, "问") || contains_exec(p, "说话") || contains_exec(p, "聊")
                || contains_exec(p, "对话") {
                push_str(&mut with_p, PROMPT_TALK_NOTE);
            }
            with_p
        } else {
            prompt
        },
        None => prompt,
    }
}

/// The lowercase name of a phase.
pub open spec fn phase_text(p: Phase) -> Seq<char> {
    match p {
        Phase::Playing => "playing"@,
        Phase::Idle => "idle"@,
        Phase::Transitioning => "transitioning"@,
    }
}

/// The lowercase name of a phase.
pub fn serde_phase(phase: &Phase) -> (s: &'static str)
    ensures
        s@ == phase_text(*phase),
{
    match phase {
        Phase::Playing => "playing",
        Phase::Idle => "idle",
        Phase::Transitioning => "transitioning",
    }
}

/// Seconds since the last interaction, or `N/A` when there was none.
pub open spec fn seconds_since_text(last: u64, now: u64) -> Seq<char> {
    if last > 0 {
        decimal((crate::agent::budget::age(now, last) / 1000) as nat)
    } else {
        "N/A"@
    }
}

/// The recent animations joined by arrows, or `无`.
pub open spec fn history_text(h: Option<Vec<String>>) -> Seq<char> {
    match h {
        Some(v) => join(views(v@), " → "@),
        None => "无"@,
    }
}

/// The time of day, or `未知`.
pub open spec fn time_text(t: Option<String>) -> Seq<char> {
    value_or(t, "未知"@)
}

/// The status block of the user prompt.
pub open spec fn status_text(ctx: DecisionContext, now: u64) -> Seq<char> {
    "当前状态：\n- 动画："@ + ctx.current_state.current@ + "、阶段："@ + phase_text(
        ctx.current_state.phase,
    ) + "、已循环："@ + decimal(ctx.current_state.iteration as nat) + " 次\n- 最近动画："@
        + history_text(ctx.recent_history) + "\n- 距上次互动："@ + seconds_since_text(
        ctx.last_interaction_at,
        now,
    ) + " 秒\n- 当前时间："@ + time_text(ctx.time_of_day)
}

/// The memory context goes into the prompt: it is present, and once trimmed it is neither
/// empty nor the "no memories" text.
pub open spec fn memory_included(mc: Option<String>) -> bool {
    match mc {
        Some(m) => trim(m@).len() > 0 && trim(m@) != EMPTY_MEMORY_CONTEXT@,
        None => false,
    }
}

/// The decision user prompt at time `now`.
pub open spec fn user_prompt_text(ctx: DecisionContext, now: u64) -> Seq<char> {
    if memory_included(ctx.memory_context) {
        status_text(ctx, now) + "\n"@ + "\n"@ + trim(ctx.memory_context->0@) + "\n"@
            + "\n决定下一步动作。"@
    } else {
        status_text(ctx, now) + "\n"@ + "\n决定下一步动作。"@
    }
}

/// Builds the decision user prompt, reading the clock for the time since the last interaction.
pub fn build_user_prompt(ctx: &DecisionContext) -> (s: String)
    ensures
        exists|now: u64| s@ == user_prompt_text(*ctx, now),
{
    let now = crate::clock::now_millis();
    build_user_prompt_at(ctx, now)
}

/// Builds the decision user prompt at time `now`.
pub fn build_user_prompt_at(ctx: &DecisionContext, now: u64) -> (s: String)
    ensures
        s@ == user_prompt_text(*ctx, now),
{
    let seconds = if ctx.last_interaction_at > 0 {
        let a = if now >= ctx.last_interaction_at {
            now - ctx.last_interaction_at
        } else {
            0
        };
        fmt_u64(a / 1000)
    } else {
        owned("N/A")
    };
    let history = match &ctx.recent_history {
        Some(h) => join_exec(h, " → "),
        None => owned("无"),
    };
    let time = value_or_exec(&ctx.time_of_day, "未知");
    let mut s = owned("当前状态：\n- 动画：");
    push_str(&mut s, ctx.current_state.current.as_str());
    push_str(&mut s, "、阶段：");
    push_str(&mut s, serde_phase(&ctx.current_state.phase));
    push_str(&mut s, "、已循环：");
    let it = fmt_u64(ctx.current_state.iteration as u64);
    push_str(&mut s, it.as_str());
    push_str(&mut s, " 次\n- 最近动画：");
    push_str(&mut s, history.as_str());
    push_str(&mut s, "\n- 距上次互动：");
    push_str(&mut s, seconds.as_str());
    push_str(&mut s, " 秒\n- 当前时间：");
    push_str(&mut s, time.as_str());
    assert(s@ == status_text(*ctx, now));
    match &ctx.memory_context {
        Some(mc) => {
            let trimmed = trim_exec(mc.as_str());
            let is_empty_marker = crate::text::str_eq(trimmed.as_str(), EMPTY_MEMORY_CONTEXT);
            if trimmed.as_str().unicode_len() > 0 && !is_empty_marker {
                push_str(&mut s, "\n");
                push_str(&mut s, "\n");
                push_str(&mut s, trimmed.as_str());
            }
        },
        None => {},
    }
    push_str(&mut s, "\n");
    push_str(&mut s, "\n决定下一步动作。");
    s
}

// ---------------------------------------------------------------------------
// Endpoint and timeout
// ---------------------------------------------------------------------------
/// The endpoint: unchanged when it already names `/chat/completions`; else the base URL
/// without trailing slashes followed by `/chat/completions` when it ends in `/v1`, and by
/// `/v1/chat/completions` otherwise.
pub open spec fn endpoint_text(url: Seq<char>) -> Seq<char> {
    if contains(url, "/chat/completions"@) {
        url
    } else {
        let base = trim_end_char(url, '/');
        if ends_with(base, "/v1"@) {
            base + "/chat/completions"@
        } else {
            base + "/v1/chat/completions"@
        }
    }
}

/// Completes a base URL to the chat-completions endpoint.
pub fn normalize_endpoint(url: &str) -> (s: String)
    ensures
        s@ == endpoint_text(url@),
{
    if contains_exec(url, "/chat/completions") {
        return owned(url);
    }
    let mut s = trim_end_char_exec(url, '/');
    if ends_with_exec(s.as_str(), "/v1") {
        push_str(&mut s, "/chat/completions");
    } else {
        push_str(&mut s, "/v1/chat/completions");
    }
    s
}

/// Completing an endpoint twice changes nothing: the completed endpoint names
/// `/chat/completions`.
pub proof fn law_endpoint_idempotent(url: Seq<char>)
    ensures
        endpoint_text(endpoint_text(url)) == endpoint_text(url),
        contains(endpoint_text(url), "/chat/completions"@),
{
    reveal_strlit("/chat/completions");
    reveal_strlit("/v1/chat/completions");
    if !contains(url, "/chat/completions"@) {
        let base = trim_end_char(url, '/');
        let e = endpoint_text(url);
        let i: int = if ends_with(base, "/v1"@) {
            base.len() as int
        } else {
            base.len() as int + 3
        };
        assert(e.subrange(i, i + ("/chat/completions"@).len()) =~= "/chat/completions"@);
        assert(crate::text::matches_at(e, "/chat/completions"@, i));
    }
}

/// The request timeout: the larger of ten seconds and four fifths of the ticker interval.
pub open spec fn timeout_for(ticker_interval_ms: u32) -> u64 {
    let ratio = (ticker_interval_ms as nat * 4 / 5) as u64;
    if ratio > 10000 {
        ratio
    } else {
        10000
    }
}

/// Requests never time out sooner than ten seconds, and never sooner than four fifths of
/// the ticker interval.
pub proof fn law_timeout_floor(ticker_interval_ms: u32)
    ensures
        timeout_for(ticker_interval_ms) >= 10000,
        timeout_for(ticker_interval_ms) >= ticker_interval_ms as nat * 4 / 5,
{
}

/// The request timeout in milliseconds. Four fifths is computed in integers; for every `u32`
/// interval it equals `(interval as f64 * 0.8) as u64`.
pub fn timeout_ms(ticker_interval_ms: u32) -> (t: u64)
    ensures
        t == timeout_for(ticker_interval_ms),
{
    let ratio = (ticker_interval_ms as u64) * 4 / 5;
    if ratio > 10000 {
        ratio
    } else {
        10000
    }
}

} // verus!
