//! Events the pet observes, and their text summary for the model.
use crate::text::{fmt_pad2, join, join_exec, pad2, push_str, views};
use vstd::prelude::*;

verus! {

/// Something that happened around the pet; timestamps are Unix milliseconds.
#[derive(Debug)]
pub enum PetEvent {
    TimerTick { timestamp: u64 },
    UserInteraction { interaction: String, timestamp: u64 },
    AnimationCompleted { animation_id: String, timestamp: u64 },
    WindowFocusChanged { focused: bool, timestamp: u64 },
    ReminderTriggered { message: String, timestamp: u64 },
}

/// The time of an event.
pub open spec fn event_time(e: PetEvent) -> u64 {
    match e {
        PetEvent::TimerTick { timestamp } => timestamp,
        PetEvent::UserInteraction { timestamp, .. } => timestamp,
        PetEvent::AnimationCompleted { timestamp, .. } => timestamp,
        PetEvent::WindowFocusChanged { timestamp, .. } => timestamp,
        PetEvent::ReminderTriggered { timestamp, .. } => timestamp,
    }
}

/// The short description of an event.
pub open spec fn event_label(e: PetEvent) -> Seq<char> {
    match e {
        PetEvent::TimerTick { .. } => "timer_tick"@,
        PetEvent::UserInteraction { interaction, .. } => "user_interaction("@ + interaction@ + ")"@,
        PetEvent::AnimationCompleted { animation_id, .. } => "animation_completed("@
            + animation_id@ + ")"@,
        PetEvent::WindowFocusChanged { focused, .. } => "window_focus_changed("@ + (if focused {
            "focused"@
        } else {
            "unfocused"@
        }) + ")"@,
        PetEvent::ReminderTriggered { message, .. } => "reminder_triggered(message: \""@ + message@ + "\")"@,
    }
}

/// `HH:MM:SS` of a Unix-millisecond time: the UTC time of day, hours wrapped at 24, each
/// field zero-padded to two digits.
pub open spec fn timestamp_text(millis: u64) -> Seq<char> {
    let secs = millis / 1000;
    pad2(((secs / 3600) % 24) as nat) + ":"@ + pad2(((secs % 3600) / 60) as nat) + ":"@ + pad2(
        (secs % 60) as nat,
    )
}

/// One line of the summary.
pub open spec fn event_line(e: PetEvent) -> Seq<char> {
    "- ["@ + timestamp_text(event_time(e)) + "] "@ + event_label(e)
}

/// The summary lines: the heading, then one line per event.
pub open spec fn summary_lines(events: Seq<PetEvent>) -> Seq<Seq<char>> {
    seq!["最近事件："@] + events.map_values(|e: PetEvent| event_line(e))
}

/// What the summary shows when there are no events.
pub const NO_NEW_EVENTS: &'static str = "（无新事件）";

/// The summary text: the heading and the no-new-events marker for no events, else the lines
/// joined by newlines.
pub open spec fn events_summary(events: Seq<PetEvent>) -> Seq<char> {
    if events.len() == 0 {
        "最近事件："@ + "\n"@ + NO_NEW_EVENTS@
    } else {
        join(summary_lines(events), "\n"@)
    }
}

impl PetEvent {
    /// The time of the event.
    pub fn timestamp(&self) -> (t: u64)
        ensures
            t == event_time(*self),
    {
        match self {
            PetEvent::TimerTick { timestamp, .. } => *timestamp,
            PetEvent::UserInteraction { timestamp, .. } => *timestamp,
            PetEvent::AnimationCompleted { timestamp, .. } => *timestamp,
            PetEvent::WindowFocusChanged { timestamp, .. } => *timestamp,
            PetEvent::ReminderTriggered { timestamp, .. } => *timestamp,
        }
    }

    /// The short description of the event.
    pub fn label(&self) -> (s: String)
        ensures
            s@ == event_label(*self),
    {
        let mut s = String::new();
        match self {
            PetEvent::TimerTick { .. } => {
                push_str(&mut s, "timer_tick");
            },
            PetEvent::UserInteraction { interaction, .. } => {
                push_str(&mut s, "user_interaction(");
                push_str(&mut s, interaction.as_str());
                push_str(&mut s, ")");
            },
            PetEvent::AnimationCompleted { animation_id, .. } => {
                push_str(&mut s, "animation_completed(");
                push_str(&mut s, animation_id.as_str());
                push_str(&mut s, ")");
            },
            PetEvent::WindowFocusChanged { focused, .. } => {
                push_str(&mut s, "window_focus_changed(");
                if *focused {
                    push_str(&mut s, "focused");
                } else {
                    push_str(&mut s, "unfocused");
                }
                push_str(&mut s, ")");
            },
            PetEvent::ReminderTriggered { message, .. } => {
                push_str(&mut s, "reminder_triggered(message: \"");
                push_str(&mut s, message.as_str());
                push_str(&mut s, "\")");
            },
        }
        s
    }
}

/// `HH:MM:SS` of a Unix-millisecond time (see `timestamp_text`).
pub fn format_timestamp(millis: u64) -> (s: String)
    ensures
        s@ == timestamp_text(millis),
{
    let secs = millis / 1000;
    let h = (secs / 3600) % 24;
    let m = (secs % 3600) / 60;
    let sec = secs % 60;
    let mut s = fmt_pad2(h);
    push_str(&mut s, ":");
    let mm = fmt_pad2(m);
    push_str(&mut s, mm.as_str());
    push_str(&mut s, ":");
    let ss = fmt_pad2(sec);
    push_str(&mut s, ss.as_str());
    s
}

/// The natural-language summary of a batch of events for the model prompt.
pub fn format_events_summary(events: &[PetEvent]) -> (s: String)
    ensures
        s@ == events_summary(events@),
{
    if events.len() == 0 {
        let mut s = crate::text::owned("最近事件：");
        push_str(&mut s, "\n");
        push_str(&mut s, NO_NEW_EVENTS);
        return s;
    }
    let mut lines: Vec<String> = Vec::new();
    lines.push(crate::text::owned("最近事件："));
    let mut i: usize = 0;
    while i < events.len()
        invariant
            i <= events@.len(),
            views(lines@) == summary_lines(events@.take(i as int)),
        decreases events.len() - i,
    {
        let ev = &events[i];
        let mut line = crate::text::owned("- [");
        let ts = format_timestamp(ev.timestamp());
        push_str(&mut line, ts.as_str());
        push_str(&mut line, "] ");
        let label = ev.label();
        push_str(&mut line, label.as_str());
        let ghost before = lines@;
        lines.push(line);
        assert(views(lines@) == views(before).push(event_line(events@[i as int])));
        assert(events@.take(i + 1) == events@.take(i as int).push(events@[i as int]));
        assert(summary_lines(events@.take(i + 1)) == summary_lines(events@.take(i as int)).push(
            event_line(events@[i as int]),
        ));
        i = i + 1;
    }
    assert(events@.take(events@.len() as int) == events@);
    join_exec(&lines, "\n")
}

} // verus!
