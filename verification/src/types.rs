//! Pet data shared with the front end: animations, decisions, context and errors.
use vstd::prelude::*;

verus! {

/// Whether an animation repeats.
#[derive(Clone, Copy, Debug, PartialEq, Eq, Structural)]
pub enum LoopMode {
    Infinite,
    Once,
}

/// One sprite-sheet animation.
#[derive(Debug)]
pub struct AnimationEntry {
    pub id: String,
    pub sheet_path: String,
    pub frame_count: u32,
    pub frame_width: u32,
    pub frame_height: u32,
    pub fps: u32,
    pub loop_mode: LoopMode,
}

/// An animation as mathematical values.
pub struct AnimationEntryView {
    pub id: Seq<char>,
    pub sheet_path: Seq<char>,
    pub frame_count: u32,
    pub frame_width: u32,
    pub frame_height: u32,
    pub fps: u32,
    pub loop_mode: LoopMode,
}

impl View for AnimationEntry {
    type V = AnimationEntryView;

    open spec fn view(&self) -> AnimationEntryView {
        AnimationEntryView {
            id: self.id@,
            sheet_path: self.sheet_path@,
            frame_count: self.frame_count,
            frame_width: self.frame_width,
            frame_height: self.frame_height,
            fps: self.fps,
            loop_mode: self.loop_mode,
        }
    }
}

/// What the front end tells the back end when it asks for a decision.
#[derive(Debug)]
pub struct DecisionContext {
    pub current_state: AnimationState,
    pub last_interaction_at: u64,
    pub ticker_interval_ms: u32,
    pub time_of_day: Option<String>,
    pub recent_history: Option<Vec<String>>,
    pub llm_enabled: Option<bool>,
    pub pet_personality: Option<String>,
    pub pet_name: Option<String>,
    pub llm_api_endpoint: Option<String>,
    pub llm_api_key: Option<String>,
    pub llm_model: Option<String>,
    pub events_summary: Option<String>,
    pub memory_context: Option<String>,
}

/// The next thing the pet does.
#[derive(Debug)]
pub enum Decision {
    Stay,
    Switch { to: String, reason: Option<String> },
    Speak { message: String, animation: Option<String> },
    EnterIdle,
    ExitIdle,
    Wait { duration_ms: u32, reason: Option<String> },
    SetReminder { message: String, delay_seconds: u32 },
}

/// A decision as mathematical values.
pub enum DecisionView {
    Stay,
    Switch { to: Seq<char>, reason: Option<Seq<char>> },
    Speak { message: Seq<char>, animation: Option<Seq<char>> },
    EnterIdle,
    ExitIdle,
    Wait { duration_ms: u32, reason: Option<Seq<char>> },
    SetReminder { message: Seq<char>, delay_seconds: u32 },
}

/// The view of an optional string.
pub open spec fn opt_str(o: Option<String>) -> Option<Seq<char>> {
    match o {
        Some(s) => Some(s@),
        None => None,
    }
}

impl View for Decision {
    type V = DecisionView;

    open spec fn view(&self) -> DecisionView {
        match self {
            Decision::Stay => DecisionView::Stay,
            Decision::Switch { to, reason } => DecisionView::Switch { to: to@, reason: opt_str(*reason) },
            Decision::Speak { message, animation } => DecisionView::Speak {
                message: message@,
                animation: opt_str(*animation),
            },
            Decision::EnterIdle => DecisionView::EnterIdle,
            Decision::ExitIdle => DecisionView::ExitIdle,
            Decision::Wait { duration_ms, reason } => DecisionView::Wait {
                duration_ms: *duration_ms,
                reason: opt_str(*reason),
            },
            Decision::SetReminder { message, delay_seconds } => DecisionView::SetReminder {
                message: message@,
                delay_seconds: *delay_seconds,
            },
        }
    }
}

/// The borrowed text of an optional string.
pub fn as_str_opt(o: &Option<String>) -> (r: Option<&str>)
    ensures
        crate::llm::opt_view(r) == opt_str(*o),
{
    match o {
        Some(s) => Some(s.as_str()),
        None => None,
    }
}

/// Clones an optional string exactly.
pub fn clone_opt(o: &Option<String>) -> (r: Option<String>)
    ensures
        r == *o,
{
    match o {
        Some(s) => Some(s.clone()),
        None => None,
    }
}

impl Decision {
    /// An exact copy.
    pub fn duplicate(&self) -> (r: Self)
        ensures
            r == *self,
    {
        match self {
            Decision::Stay => Decision::Stay,
            Decision::Switch { to, reason } => Decision::Switch {
                to: to.clone(),
                reason: clone_opt(reason),
            },
            Decision::Speak { message, animation } => Decision::Speak {
                message: message.clone(),
                animation: clone_opt(animation),
            },
            Decision::EnterIdle => Decision::EnterIdle,
            Decision::ExitIdle => Decision::ExitIdle,
            Decision::Wait { duration_ms, reason } => Decision::Wait {
                duration_ms: *duration_ms,
                reason: clone_opt(reason),
            },
            Decision::SetReminder { message, delay_seconds } => Decision::SetReminder {
                message: message.clone(),
                delay_seconds: *delay_seconds,
            },
        }
    }
}

/// The animation player's state.
#[derive(Debug)]
pub struct AnimationState {
    pub phase: Phase,
    pub current: String,
    pub iteration: u32,
    pub transition: Option<Transition>,
}

/// Phase of the animation player.
#[derive(Clone, Copy, Debug, PartialEq, Eq, Structural)]
pub enum Phase {
    Playing,
    Idle,
    Transitioning,
}

/// A cross-fade between two animations; progress is kept in thousandths (0.5 is 500).
#[derive(Debug)]
pub struct Transition {
    pub from: String,
    pub to: String,
    pub progress_milli: i64,
}

/// Error codes shown to the front end.
#[derive(Clone, Copy, Debug, PartialEq, Eq, Structural)]
pub enum AppErrorCode {
    EAnimNotFound,
    EFramesMissing,
    EInvalidContext,
    EInternal,
}

/// The display text of an error code.
pub open spec fn code_text(c: AppErrorCode) -> Seq<char> {
    match c {
        AppErrorCode::EAnimNotFound => "E_ANIM_NOT_FOUND"@,
        AppErrorCode::EFramesMissing => "E_FRAMES_MISSING"@,
        AppErrorCode::EInvalidContext => "E_INVALID_CONTEXT"@,
        AppErrorCode::EInternal => "E_INTERNAL"@,
    }
}

impl AppErrorCode {
    /// The display text of the code.
    pub fn as_str(&self) -> (s: &'static str)
        ensures
            s@ == code_text(*self),
    {
        match self {
            AppErrorCode::EAnimNotFound => "E_ANIM_NOT_FOUND",
            AppErrorCode::EFramesMissing => "E_FRAMES_MISSING",
            AppErrorCode::EInvalidContext => "E_INVALID_CONTEXT",
            AppErrorCode::EInternal => "E_INTERNAL",
        }
    }
}

/// An error with a code and a message.
#[derive(Debug)]
pub struct AppError {
    pub code: AppErrorCode,
    pub message: String,
}

impl AppError {
    /// `E_ANIM_NOT_FOUND` with the message.
    pub fn anim_not_found(msg: String) -> (e: Self)
        ensures
            e.code == AppErrorCode::EAnimNotFound,
            e.message == msg,
    {
        AppError { code: AppErrorCode::EAnimNotFound, message: msg }
    }

    /// `E_FRAMES_MISSING` with the message.
    pub fn frames_missing(msg: String) -> (e: Self)
        ensures
            e.code == AppErrorCode::EFramesMissing,
            e.message == msg,
    {
        AppError { code: AppErrorCode::EFramesMissing, message: msg }
    }

    /// `E_INVALID_CONTEXT` with the message.
    pub fn invalid_context(msg: String) -> (e: Self)
        ensures
            e.code == AppErrorCode::EInvalidContext,
            e.message == msg,
    {
        AppError { code: AppErrorCode::EInvalidContext, message: msg }
    }

    /// `E_INTERNAL` with the message.
    pub fn internal(msg: String) -> (e: Self)
        ensures
            e.code == AppErrorCode::EInternal,
            e.message == msg,
    {
        AppError { code: AppErrorCode::EInternal, message: msg }
    }
}

} // verus!
