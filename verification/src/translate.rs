//! Translation of chat text by the model: which texts are refused, the request that is
//! sent, and the translation read from the reply.
use crate::exchange::{
    content_text, item_views, ChatItem, ChatItemView, ReplyOutcome, RequestShape, Sampling, Session,
    ToolSet,
};
use crate::llm::{endpoint_text, llm_error_text, normalize_endpoint, timeout_for, timeout_ms, LlmStaticConfig};
use crate::text::{
    chars_of, lowercase, owned, push_str, starts_with, starts_with_exec, str_eq,
    to_lowercase, trim, trim_exec,
};
use crate::types::{AppError, AppErrorCode};
use vstd::prelude::*;

verus! {

/// The source language when none is given.
pub const DEFAULT_FROM_LANG: &'static str = "en";

/// The target language when none is given.
pub const DEFAULT_TO_LANG: &'static str = "zh";

/// The system prompt up to the source language's name.
pub const TRANSLATE_PROMPT_HEAD: &'static str = "你是一个专业的翻译引擎。你的任务是将文本从";

/// Between the two language names.
pub const TRANSLATE_PROMPT_MID: &'static str = "翻译成";

/// The rest of the system prompt.
pub const TRANSLATE_PROMPT_TAIL: &'static str = "。\n\n翻译规则：\n1. 只返回翻译结果，不要添加任何解释、评论或额外内容\n2. 保持原文的语气和风格\n3. 对于专有名词或习语，在保持准确的前提下可以适当本地化\n4. 如果文本是口语化的，翻译也应该口语化\n5. 只返回翻译后的文字，不要返回任何其他内容\n\n直接返回翻译结果，不要用引号包裹，不要加任何前缀。";

/// The user message before the text.
pub const TRANSLATE_USER_HEAD: &'static str = "翻译以下文本：\n";

/// A CJK unified ideograph (basic block or extension A).
pub open spec fn is_cjk(c: char) -> bool {
    (0x4E00 <= (c as u32) && (c as u32) <= 0x9FFF) || (0x3400 <= (c as u32) && (c as u32) <= 0x4DBF)
}

/// How many CJK ideographs the text holds.
pub open spec fn cjk_count(s: Seq<char>) -> nat {
    s.filter(|c: char| is_cjk(c)).len()
}

/// Text that looks like code or a tool call rather than prose.
pub open spec fn looks_like_code(t: Seq<char>) -> bool {
    starts_with(t, "call:"@) || starts_with(t, "{\""@) || starts_with(t, "function"@) || starts_with(t, "()"@)
}

/// The refusal of a translation, if any: empty text, code, text that is already mostly
/// Chinese (more ideographs than half its characters), or no API key.
pub open spec fn translation_refusal(text: Seq<char>, api_key: Seq<char>) -> Option<(AppErrorCode, Seq<char>)> {
    let t = trim(text);
    if t.len() == 0 {
        Some((AppErrorCode::EInvalidContext, "empty text"@))
    } else if looks_like_code(t) {
        Some((AppErrorCode::EInvalidContext, "not translatable content"@))
    } else if cjk_count(t) > t.len() / 2 {
        Some((AppErrorCode::EInvalidContext, "already Chinese"@))
    } else if api_key.len() == 0 {
        Some((AppErrorCode::EInternal, "No API key configured"@))
    } else {
        None
    }
}

/// The display name of a language code, matched without regard to case; an unknown code
/// names itself.
pub open spec fn language_name_spec(code: Seq<char>) -> Seq<char> {
    let c = lowercase(code);
    if c == "en"@ || c == "english"@ {
        "英文 (English)"@
    } else if c == "zh"@ || c == "chinese"@ {
        "中文 (Chinese)"@
    } else if c == "ja"@ || c == "japanese"@ {
        "日文 (Japanese)"@
    } else if c == "ko"@ || c == "korean"@ {
        "韩文 (Korean)"@
    } else if c == "fr"@ || c == "french"@ {
        "法文 (French)"@
    } else if c == "de"@ || c == "german"@ {
        "德文 (German)"@
    } else if c == "es"@ || c == "spanish"@ {
        "西班牙文 (Spanish)"@
    } else if c == "ru"@ || c == "russian"@ {
        "俄文 (Russian)"@
    } else if c == "ar"@ || c == "arabic"@ {
        "阿拉伯文 (Arabic)"@
    } else if c == "pt"@ || c == "portuguese"@ {
        "葡萄牙文 (Portuguese)"@
    } else if c == "it"@ || c == "italian"@ {
        "意大利文 (Italian)"@
    } else {
        code
    }
}

/// Each supported language, given by its two-letter code or its English name in any case,
/// is named by its Chinese name followed by its English name in parentheses; any other code
/// names itself.
pub proof fn law_language_names(code: Seq<char>)
    ensures
        ({
            let c = lowercase(code);
            let n = language_name_spec(code);
            &&& (c == "en"@ || c == "english"@) ==> n == "英文 (English)"@
            &&& (c == "zh"@ || c == "chinese"@) ==> n == "中文 (Chinese)"@
            &&& (c == "ja"@ || c == "japanese"@) ==> n == "日文 (Japanese)"@
            &&& (c == "ko"@ || c == "korean"@) ==> n == "韩文 (Korean)"@
            &&& (c == "fr"@ || c == "french"@) ==> n == "法文 (French)"@
            &&& (c == "de"@ || c == "german"@) ==> n == "德文 (German)"@
            &&& (c == "es"@ || c == "spanish"@) ==> n == "西班牙文 (Spanish)"@
            &&& (c == "ru"@ || c == "russian"@) ==> n == "俄文 (Russian)"@
            &&& (c == "ar"@ || c == "arabic"@) ==> n == "阿拉伯文 (Arabic)"@
            &&& (c == "pt"@ || c == "portuguese"@) ==> n == "葡萄牙文 (Portuguese)"@
            &&& (c == "it"@ || c == "italian"@) ==> n == "意大利文 (Italian)"@
            &&& !(c == "en"@ || c == "english"@ || c == "zh"@ || c == "chinese"@ || c == "ja"@
                || c == "japanese"@ || c == "ko"@ || c == "korean"@ || c == "fr"@ || c == "french"@
                || c == "de"@ || c == "german"@ || c == "es"@ || c == "spanish"@ || c == "ru"@
                || c == "russian"@ || c == "ar"@ || c == "arabic"@ || c == "pt"@ || c == "portuguese"@
                || c == "it"@ || c == "italian"@) ==> n == code
        }),
{
    reveal_strlit("en");
    reveal_strlit("english");
    reveal_strlit("zh");
    reveal_strlit("chinese");
    reveal_strlit("ja");
    reveal_strlit("japanese");
    reveal_strlit("ko");
    reveal_strlit("korean");
    reveal_strlit("fr");
    reveal_strlit("french");
    reveal_strlit("de");
    reveal_strlit("german");
    reveal_strlit("es");
    reveal_strlit("spanish");
    reveal_strlit("ru");
    reveal_strlit("russian");
    reveal_strlit("ar");
    reveal_strlit("arabic");
    reveal_strlit("pt");
    reveal_strlit("portuguese");
    reveal_strlit("it");
    reveal_strlit("italian");
    assert(("en"@).len() == 2 && ("en"@)[0] == 'e' && ("en"@)[1] == 'n');
    assert(("english"@).len() == 7 && ("english"@)[0] == 'e' && ("english"@)[1] == 'n');
    assert(("zh"@).len() == 2 && ("zh"@)[0] == 'z' && ("zh"@)[1] == 'h');
    assert(("chinese"@).len() == 7 && ("chinese"@)[0] == 'c' && ("chinese"@)[1] == 'h');
    assert(("ja"@).len() == 2 && ("ja"@)[0] == 'j' && ("ja"@)[1] == 'a');
    assert(("japanese"@).len() == 8 && ("japanese"@)[0] == 'j' && ("japanese"@)[1] == 'a');
    assert(("ko"@).len() == 2 && ("ko"@)[0] == 'k' && ("ko"@)[1] == 'o');
    assert(("korean"@).len() == 6 && ("korean"@)[0] == 'k' && ("korean"@)[1] == 'o');
    assert(("fr"@).len() == 2 && ("fr"@)[0] == 'f' && ("fr"@)[1] == 'r');
    assert(("french"@).len() == 6 && ("french"@)[0] == 'f' && ("french"@)[1] == 'r');
    assert(("de"@).len() == 2 && ("de"@)[0] == 'd' && ("de"@)[1] == 'e');
    assert(("german"@).len() == 6 && ("german"@)[0] == 'g' && ("german"@)[1] == 'e');
    assert(("es"@).len() == 2 && ("es"@)[0] == 'e' && ("es"@)[1] == 's');
    assert(("spanish"@).len() == 7 && ("spanish"@)[0] == 's' && ("spanish"@)[1] == 'p');
    assert(("ru"@).len() == 2 && ("ru"@)[0] == 'r' && ("ru"@)[1] == 'u');
    assert(("russian"@).len() == 7 && ("russian"@)[0] == 'r' && ("russian"@)[1] == 'u');
    assert(("ar"@).len() == 2 && ("ar"@)[0] == 'a' && ("ar"@)[1] == 'r');
    assert(("arabic"@).len() == 6 && ("arabic"@)[0] == 'a' && ("arabic"@)[1] == 'r');
    assert(("pt"@).len() == 2 && ("pt"@)[0] == 'p' && ("pt"@)[1] == 't');
    assert(("portuguese"@).len() == 10 && ("portuguese"@)[0] == 'p' && ("portuguese"@)[1] == 'o');
    assert(("it"@).len() == 2 && ("it"@)[0] == 'i' && ("it"@)[1] == 't');
    assert(("italian"@).len() == 7 && ("italian"@)[0] == 'i' && ("italian"@)[1] == 't');
}

/// The display name of a language code (see `language_name_spec`).
pub fn language_name(code: &str) -> (s: String)
    ensures
        s@ == language_name_spec(code@),
{
    let c = to_lowercase(code);
    let c = c.as_str();
    if str_eq(c, "en") || str_eq(c, "english") {
        owned("英文 (English)")
    } else if str_eq(c, "zh") || str_eq(c, "chinese") {
        owned("中文 (Chinese)")
    } else if str_eq(c, "ja") || str_eq(c, "japanese") {
        owned("日文 (Japanese)")
    } else if str_eq(c, "ko") || str_eq(c, "korean") {
        owned("韩文 (Korean)")
    } else if str_eq(c, "fr") || str_eq(c, "french") {
        owned("法文 (French)")
    } else if str_eq(c, "de") || str_eq(c, "german") {
        owned("德文 (German)")
    } else if str_eq(c, "es") || str_eq(c, "spanish") {
        owned("西班牙文 (Spanish)")
    } else if str_eq(c, "ru") || str_eq(c, "russian") {
        owned("俄文 (Russian)")
    } else if str_eq(c, "ar") || str_eq(c, "arabic") {
        owned("阿拉伯文 (Arabic)")
    } else if str_eq(c, "pt") || str_eq(c, "portuguese") {
        owned("葡萄牙文 (Portuguese)")
    } else if str_eq(c, "it") || str_eq(c, "italian") {
        owned("意大利文 (Italian)")
    } else {
        owned(code)
    }
}

/// The text of an optional argument, else the default.
pub open spec fn arg_or(o: Option<&str>, default: Seq<char>) -> Seq<char> {
    match o {
        Some(s) => s@,
        None => default,
    }
}

/// A non-empty optional argument, else the fallback.
pub open spec fn nonempty_or(o: Option<&str>, fallback: Seq<char>) -> Seq<char> {
    match o {
        Some(s) => if s@.len() > 0 {
            s@
        } else {
            fallback
        },
        None => fallback,
    }
}

/// The system prompt for translating between two languages.
pub open spec fn translate_prompt(from: Seq<char>, to: Seq<char>) -> Seq<char> {
    TRANSLATE_PROMPT_HEAD@ + language_name_spec(from) + TRANSLATE_PROMPT_MID@ + language_name_spec(to)
        + TRANSLATE_PROMPT_TAIL@
}

/// A translation request ready to be sent.
pub struct TranslateRequest {
    pub session: Session,
    pub messages: Vec<ChatItem>,
    pub shape: RequestShape,
}

/// The shape of a translation request: no tools, temperature 0.3, at most 1024 tokens.
pub open spec fn translate_shape() -> RequestShape {
    RequestShape { tools: ToolSet::NoTools, sampling: Sampling::Fixed { temperature_tenths: 3, max_tokens: 1024 }, json_object: false }
}

/// The request for translating `text`: refused as `translation_refusal` says, else the
/// prompts, the session (arguments win over the configuration when not empty, the endpoint
/// is completed, 10 s timeout) and the translation shape.
pub open spec fn translation_request(
    text: Seq<char>,
    from_lang: Option<&str>,
    to_lang: Option<&str>,
    api_key: Option<&str>,
    endpoint: Option<&str>,
    model: Option<&str>,
    config: LlmStaticConfig,
    r: Result<TranslateRequest, AppError>,
) -> bool {
    let key = nonempty_or(api_key, config.api_key@);
    match translation_refusal(text, key) {
        Some((code, msg)) => r matches Err(e) && e.code == code && e.message@ == msg,
        None => r matches Ok(q) && {
            &&& q.session.api_key@ == key
            &&& q.session.endpoint@ == endpoint_text(nonempty_or(endpoint, config.endpoint@))
            &&& q.session.model@ == nonempty_or(model, config.model@)
            &&& q.session.timeout_ms == timeout_for(10000)
            &&& item_views(q.messages@) == seq![
                ChatItemView::System(translate_prompt(arg_or(from_lang, DEFAULT_FROM_LANG@), arg_or(to_lang, DEFAULT_TO_LANG@))),
                ChatItemView::User(TRANSLATE_USER_HEAD@ + text),
            ]
            &&& q.shape == translate_shape()
        },
    }
}

/// How many CJK ideographs the text holds.
pub fn count_cjk(s: &str) -> (n: usize)
    ensures
        n == cjk_count(s@),
{
    let v = chars_of(s);
    let ghost f = |c: char| is_cjk(c);
    let mut n: usize = 0;
    let mut i: usize = 0;
    while i < v.len()
        invariant
            v@ == s@,
            f == (|c: char| is_cjk(c)),
            i <= v.len(),
            n == s@.take(i as int).filter(f).len(),
            n <= i,
        decreases v.len() - i,
    {
        proof {
            crate::seqs::lemma_filter_push(s@.take(i as int), f, s@[i as int]);
            assert(s@.take(i + 1) =~= s@.take(i as int).push(s@[i as int]));
        }
        let code = v[i] as u32;
        if (0x4E00 <= code && code <= 0x9FFF) || (0x3400 <= code && code <= 0x4DBF) {
            n = n + 1;
        }
        i = i + 1;
    }
    assert(s@.take(v.len() as int) =~= s@);
    n
}

/// A non-empty optional argument, else the fallback.
fn nonempty_or_exec(o: Option<&str>, fallback: &String) -> (s: String)
    ensures
        s@ == nonempty_or(o, fallback@),
{
    match o {
        Some(x) => if x.unicode_len() > 0 {
            owned(x)
        } else {
            fallback.clone()
        },
        None => fallback.clone(),
    }
}

/// Prepares the request that translates `text` (see `translation_request`).
pub fn prepare_translation(
    text: &str,
    from_lang: Option<&str>,
    to_lang: Option<&str>,
    api_key: Option<&str>,
    endpoint: Option<&str>,
    model: Option<&str>,
    config: &LlmStaticConfig,
) -> (r: Result<TranslateRequest, AppError>)
    ensures
        translation_request(text@, from_lang, to_lang, api_key, endpoint, model, *config, r),
{
    proof {
        reveal_strlit("call:");
        reveal_strlit("{\"");
        reveal_strlit("function");
        reveal_strlit("()");
    }
    let trimmed = trim_exec(text);
    let t = trimmed.as_str();
    if t.unicode_len() == 0 {
        return Err(AppError::invalid_context(owned("empty text")));
    }
    if starts_with_exec(t, "call:") || starts_with_exec(t, "{\"") || starts_with_exec(t, "function")
        || starts_with_exec(t, "()") {
        return Err(AppError::invalid_context(owned("not translatable content")));
    }
    let cjk = count_cjk(t);
    if cjk > t.unicode_len() / 2 {
        return Err(AppError::invalid_context(owned("already Chinese")));
    }
    let key = nonempty_or_exec(api_key, &config.api_key);
    if key.as_str().unicode_len() == 0 {
        return Err(AppError::internal(owned("No API key configured")));
    }
    let ep = nonempty_or_exec(endpoint, &config.endpoint);
    let md = nonempty_or_exec(model, &config.model);
    let from = match from_lang {
        Some(f) => f,
        None => DEFAULT_FROM_LANG,
    };
    let to = match to_lang {
        Some(x) => x,
        None => DEFAULT_TO_LANG,
    };
    let mut prompt = owned(TRANSLATE_PROMPT_HEAD);
    let fname = language_name(from);
    push_str(&mut prompt, fname.as_str());
    push_str(&mut prompt, TRANSLATE_PROMPT_MID);
    let tname = language_name(to);
    push_str(&mut prompt, tname.as_str());
    push_str(&mut prompt, TRANSLATE_PROMPT_TAIL);
    let mut user = owned(TRANSLATE_USER_HEAD);
    push_str(&mut user, text);
    let mut messages: Vec<ChatItem> = Vec::new();
    messages.push(ChatItem::System(prompt));
    messages.push(ChatItem::User(user));
    let q = TranslateRequest {
        session: Session { endpoint: normalize_endpoint(ep.as_str()), api_key: key, model: md, timeout_ms: timeout_ms(10000) },
        messages,
        shape: RequestShape { tools: ToolSet::NoTools, sampling: Sampling::Fixed { temperature_tenths: 3, max_tokens: 1024 }, json_object: false },
    };
    assert(item_views(q.messages@) =~= seq![
        ChatItemView::System(translate_prompt(arg_or(from_lang, DEFAULT_FROM_LANG@), arg_or(to_lang, DEFAULT_TO_LANG@))),
        ChatItemView::User(TRANSLATE_USER_HEAD@ + text@),
    ]);
    Ok(q)
}

/// The translation a reply gives: its content trimmed (empty when missing); a failed request
/// or a body that is not JSON is an internal error with the error's text.
pub open spec fn translation_of(o: ReplyOutcome) -> Result<Seq<char>, Seq<char>> {
    match o {
        ReplyOutcome::Failed(e) => Err(llm_error_text(e)),
        ReplyOutcome::BadJson(m) => Err(m@),
        ReplyOutcome::Reply(r) => Ok(trim(content_text(r))),
    }
}

/// The translated text carried by the outcome of the request (see `translation_of`).
pub fn finish_translation(outcome: ReplyOutcome) -> (r: Result<String, AppError>)
    ensures
        match (r, translation_of(outcome)) {
            (Ok(s), Ok(v)) => s@ == v,
            (Err(e), Err(v)) => e.code == AppErrorCode::EInternal && e.message@ == v,
            _ => false,
        },
{
    match outcome {
        ReplyOutcome::Failed(e) => Err(AppError::internal(e.to_message())),
        ReplyOutcome::BadJson(m) => Err(AppError::internal(m)),
        ReplyOutcome::Reply(r) => Ok(crate::exchange::reply_text_to_decode(&r.content)),
    }
}

} // verus!
