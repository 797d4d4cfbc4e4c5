//! The text the host shows about the entitlement session.
use vstd::prelude::*;

use crate::app_state::EntitlementNoticeLevel;
use crate::entitlement_preflight::EntitlementPreflightAction;
use crate::entitlement_session_host::{
    action_debug_str, action_debug_text, event_debug_str, event_debug_text, reason_debug_str,
    reason_debug_text, EntitlementSessionHostSnapshot, EntitlementSessionTimerArm,
};
use crate::entitlement_session_host_runtime::{spec_timer_effect, EntitlementSessionHostTimerEffect};
use crate::text::{decimal_text, push_decimal, push_str};
use crate::time::duration_since;

verus! {

/// A span as the host writes it: seconds below a minute, minutes below an
/// hour, hours and minutes below a day, else days and hours.
pub open spec fn duration_text(d: int) -> Seq<char> {
    let s = d / 1_000_000_000;
    if s < 60 {
        decimal_text(s as nat) + "s"@
    } else if s < 3_600 {
        decimal_text((s / 60) as nat) + "m"@
    } else if s < 86_400 {
        decimal_text((s / 3_600) as nat) + "h"@ + decimal_text(((s % 3_600) / 60) as nat) + "m"@
    } else {
        decimal_text((s / 86_400) as nat) + "d"@ + decimal_text(((s % 86_400) / 3_600) as nat)
            + "h"@
    }
}

/// Appends a span as the host writes it.
pub fn push_duration(out: &mut String, d: u128)
    ensures
        final(out)@ == old(out)@ + duration_text(d as int),
{
    let seconds = d / 1_000_000_000u128;
    if seconds < 60 {
        push_decimal(out, seconds);
        push_str(out, "s");
    } else if seconds < 3_600 {
        push_decimal(out, seconds / 60);
        push_str(out, "m");
    } else if seconds < 86_400 {
        push_decimal(out, seconds / 3_600);
        push_str(out, "h");
        push_decimal(out, (seconds % 3_600) / 60);
        push_str(out, "m");
    } else {
        push_decimal(out, seconds / 86_400);
        push_str(out, "d");
        push_decimal(out, (seconds % 86_400) / 3_600);
        push_str(out, "h");
    }
    assert(final(out)@ =~= old(out)@ + duration_text(d as int));
}

/// A span as the host writes it.
pub fn format_duration(d: u128) -> (r: String)
    ensures
        r@ == duration_text(d as int),
{
    let mut out = String::new();
    push_duration(&mut out, d);
    assert(out@ =~= duration_text(d as int));
    out
}

/// An instant relative to `now` (in so long, or so long ago) with its Unix
/// seconds (or `before-epoch`).
pub open spec fn system_time_text(t: int, now: int) -> Seq<char> {
    let relative = if t >= now {
        "in "@ + duration_text(t - now)
    } else {
        duration_text(now - t) + " ago"@
    };
    let unix = if t >= 0 {
        decimal_text((t / 1_000_000_000) as nat)
    } else {
        "before-epoch"@
    };
    relative + " (unix="@ + unix + "s)"@
}

/// Appends an instant relative to `now` with its Unix seconds.
pub fn push_system_time(out: &mut String, t: i128, now: i128)
    ensures
        final(out)@ == old(out)@ + system_time_text(t as int, now as int),
{
    match duration_since(t, now) {
        Some(d) => {
            push_str(out, "in ");
            push_duration(out, d);
        },
        None => {
            match duration_since(now, t) {
                Some(d) => push_duration(out, d),
                None => {},
            }
            push_str(out, " ago");
        },
    }
    push_str(out, " (unix=");
    if t >= 0 {
        push_decimal(out, (t as u128) / 1_000_000_000u128);
    } else {
        push_str(out, "before-epoch");
    }
    push_str(out, "s)");
    assert(final(out)@ =~= old(out)@ + system_time_text(t as int, now as int));
}

/// An instant relative to `now` with its Unix seconds.
pub fn format_system_time(t: i128, now: i128) -> (r: String)
    ensures
        r@ == system_time_text(t as int, now as int),
{
    let mut out = String::new();
    push_system_time(&mut out, t, now);
    assert(out@ =~= system_time_text(t as int, now as int));
    out
}

/// An optional instant, or `None`.
pub open spec fn optional_system_time_text(t: Option<i128>, now: int) -> Seq<char> {
    match t {
        Some(t) => system_time_text(t as int, now),
        None => "None"@,
    }
}

/// An optional instant, or `None`.
pub fn format_optional_system_time(t: Option<i128>, now: i128) -> (r: String)
    ensures
        r@ == optional_system_time_text(t, now as int),
{
    match t {
        Some(t) => format_system_time(t, now),
        None => String::from_str("None"),
    }
}

/// `yes` or `no`.
pub open spec fn enabled_text(enabled: bool) -> Seq<char> {
    if enabled {
        "yes"@
    } else {
        "no"@
    }
}

/// `yes` or `no`.
pub fn enabled_label(enabled: bool) -> (r: &'static str)
    ensures
        r@ == enabled_text(enabled),
{
    if enabled {
        "yes"
    } else {
        "no"
    }
}

/// The label of a notice level.
pub open spec fn notice_level_text(level: EntitlementNoticeLevel) -> Seq<char> {
    match level {
        EntitlementNoticeLevel::Info => "info"@,
        EntitlementNoticeLevel::Warning => "warning"@,
        EntitlementNoticeLevel::Error => "error"@,
    }
}

/// The label of a notice level.
pub fn notice_level_label(level: EntitlementNoticeLevel) -> (r: &'static str)
    ensures
        r@ == notice_level_text(level),
{
    match level {
        EntitlementNoticeLevel::Info => "info",
        EntitlementNoticeLevel::Warning => "warning",
        EntitlementNoticeLevel::Error => "error",
    }
}

/// An optional action in `Debug` form, or `None`.
pub open spec fn optional_action_text(action: Option<EntitlementPreflightAction>) -> Seq<char> {
    match action {
        Some(a) => action_debug_text(a),
        None => "None"@,
    }
}

/// An optional action in `Debug` form, or `None`.
pub fn format_optional_debug(action: Option<&EntitlementPreflightAction>) -> (r: String)
    ensures
        r@ == optional_action_text(
            match action {
                Some(a) => Some(*a),
                None => None,
            },
        ),
{
    match action {
        Some(a) => String::from_str(action_debug_str(*a)),
        None => String::from_str("None"),
    }
}

/// A timer as the host writes it: event, due time, delay and reason.
pub open spec fn timer_arm_text(timer: EntitlementSessionTimerArm, now: int) -> Seq<char> {
    event_debug_text(timer.event) + " at "@ + system_time_text(timer.due_at as int, now) + " after "@
        + duration_text(timer.delay as int) + " ("@ + reason_debug_text(timer.reason) + ")"@
}

/// Appends a timer as the host writes it.
pub fn push_timer_arm(out: &mut String, timer: &EntitlementSessionTimerArm, now: i128)
    ensures
        final(out)@ == old(out)@ + timer_arm_text(*timer, now as int),
{
    push_str(out, event_debug_str(timer.event));
    push_str(out, " at ");
    push_system_time(out, timer.due_at, now);
    push_str(out, " after ");
    push_duration(out, timer.delay);
    push_str(out, " (");
    push_str(out, reason_debug_str(timer.reason));
    push_str(out, ")");
    assert(final(out)@ =~= old(out)@ + timer_arm_text(*timer, now as int));
}

/// A timer as the host writes it.
pub fn format_timer_arm(timer: &EntitlementSessionTimerArm, now: i128) -> (r: String)
    ensures
        r@ == timer_arm_text(*timer, now as int),
{
    let mut out = String::new();
    push_timer_arm(&mut out, timer, now);
    assert(out@ =~= timer_arm_text(*timer, now as int));
    out
}

/// A timer effect as the host writes it.
pub open spec fn timer_effect_text(effect: EntitlementSessionHostTimerEffect, now: int) -> Seq<char> {
    match effect {
        EntitlementSessionHostTimerEffect::KeepTimer { timer } => "Keep timer "@ + timer_arm_text(
            timer,
            now,
        ),
        EntitlementSessionHostTimerEffect::ArmTimer { timer } => "Arm timer "@ + timer_arm_text(
            timer,
            now,
        ),
        EntitlementSessionHostTimerEffect::RearmTimer { previous, next } => "Rearm timer "@
            + timer_arm_text(previous, now) + " -> "@ + timer_arm_text(next, now),
        EntitlementSessionHostTimerEffect::ClearTimer { previous } => "Clear timer "@
            + timer_arm_text(previous, now),
    }
}

/// A timer effect as the host writes it.
pub fn format_timer_effect(effect: &EntitlementSessionHostTimerEffect, now: i128) -> (r: String)
    ensures
        r@ == timer_effect_text(*effect, now as int),
{
    let mut out = String::new();
    match *effect {
        EntitlementSessionHostTimerEffect::KeepTimer { timer } => {
            push_str(&mut out, "Keep timer ");
            push_timer_arm(&mut out, &timer, now);
        },
        EntitlementSessionHostTimerEffect::ArmTimer { timer } => {
            push_str(&mut out, "Arm timer ");
            push_timer_arm(&mut out, &timer, now);
        },
        EntitlementSessionHostTimerEffect::RearmTimer { previous, next } => {
            push_str(&mut out, "Rearm timer ");
            push_timer_arm(&mut out, &previous, now);
            push_str(&mut out, " -> ");
            push_timer_arm(&mut out, &next, now);
        },
        EntitlementSessionHostTimerEffect::ClearTimer { previous } => {
            push_str(&mut out, "Clear timer ");
            push_timer_arm(&mut out, &previous, now);
        },
    }
    assert(out@ =~= timer_effect_text(*effect, now as int));
    out
}

/// The text block the host shows.
#[derive(Debug, Clone, PartialEq, Eq)]
pub struct EntitlementSessionHostTextView {
    pub title: &'static str,
    pub lines: Vec<String>,
}

/// The lines the host shows for a snapshot at `now`.
pub open spec fn host_text_lines(snapshot: EntitlementSessionHostSnapshot, now: int) -> Seq<Seq<char>> {
    let schedule = snapshot.state.driver.schedule;
    let first = seq![
        "Next check: "@ + optional_system_time_text(schedule.next_check_at, now),
        "Next sync window: "@ + optional_system_time_text(schedule.next_sync_at, now),
        "Next offline refresh window: "@ + optional_system_time_text(
            schedule.next_offline_refresh_at,
            now,
        ),
        "Recommended action: "@ + optional_action_text(schedule.recommended_action),
        "Recommended reason: "@ + match schedule.recommended_reason {
            Some(r) => r@,
            None => "None"@,
        },
        "Scheduler backoff active: "@ + enabled_text(schedule.blocked_by_backoff),
        "Next timer: "@ + match snapshot.state.next_timer {
            Some(t) => timer_arm_text(t, now),
            None => "None"@,
        },
        "Timer effect: "@ + match snapshot.timer_command {
            Some(c) => timer_effect_text(spec_timer_effect(c), now),
            None => "None"@,
        },
    ];
    match snapshot.state.host_notice {
        Some(notice) => first + seq![
            "Host notice: "@ + notice.title@ + " ["@ + notice_level_text(notice.level) + "]"@,
            "Host notice detail: "@ + notice.message@,
        ],
        None => first.push("Host notice: None"@),
    }
}

fn line_with(prefix: &str, rest: &str) -> (r: String)
    ensures
        r@ == prefix@ + rest@,
{
    let mut out = String::from_str(prefix);
    push_str(&mut out, rest);
    out
}

impl EntitlementSessionHostTextView {
    /// The text block for a snapshot at `now`.
    pub fn from_snapshot(snapshot: &EntitlementSessionHostSnapshot, now: i128) -> (r: Self)
        ensures
            r.title@ == "Entitlement host"@,
            r.lines@.len() == host_text_lines(*snapshot, now as int).len(),
            forall|i: int|
                0 <= i < r.lines@.len() ==> #[trigger] r.lines@[i]@ == host_text_lines(
                    *snapshot,
                    now as int,
                )[i],
    {
        let schedule = &snapshot.state.driver.schedule;
        let mut lines: Vec<String> = Vec::new();
        lines.push(
            line_with("Next check: ", format_optional_system_time(schedule.next_check_at, now).as_str()),
        );
        lines.push(
            line_with(
                "Next sync window: ",
                format_optional_system_time(schedule.next_sync_at, now).as_str(),
            ),
        );
        lines.push(
            line_with(
                "Next offline refresh window: ",
                format_optional_system_time(schedule.next_offline_refresh_at, now).as_str(),
            ),
        );
        lines.push(
            line_with(
                "Recommended action: ",
                format_optional_debug(schedule.recommended_action.as_ref()).as_str(),
            ),
        );
        let reason: &str = match schedule.recommended_reason {
            Some(r) => r,
            None => "None",
        };
        lines.push(line_with("Recommended reason: ", reason));
        lines.push(
            line_with("Scheduler backoff active: ", enabled_label(schedule.blocked_by_backoff)),
        );
        let timer_text = match &snapshot.state.next_timer {
            Some(t) => format_timer_arm(t, now),
            None => String::from_str("None"),
        };
        lines.push(line_with("Next timer: ", timer_text.as_str()));
        let effect_text = match snapshot.timer_effect() {
            Some(e) => format_timer_effect(&e, now),
            None => String::from_str("None"),
        };
        lines.push(line_with("Timer effect: ", effect_text.as_str()));
        match &snapshot.state.host_notice {
            Some(notice) => {
                let mut line = String::from_str("Host notice: ");
                push_str(&mut line, notice.title.as_str());
                push_str(&mut line, " [");
                push_str(&mut line, notice_level_label(notice.level));
                push_str(&mut line, "]");
                lines.push(line);
                lines.push(line_with("Host notice detail: ", notice.message.as_str()));
            },
            None => {
                lines.push(String::from_str("Host notice: None"));
            },
        }
        let ghost expected = host_text_lines(*snapshot, now as int);
        assert(lines@.len() == expected.len());
        assert forall|i: int| 0 <= i < lines@.len() implies #[trigger] lines@[i]@ == expected[i] by {
        }
        EntitlementSessionHostTextView { title: "Entitlement host", lines }
    }
}

impl EntitlementSessionHostSnapshot {
    /// The text block for this snapshot at `now`.
    pub fn text(&self, now: i128) -> (r: EntitlementSessionHostTextView)
        ensures
            r.title@ == "Entitlement host"@,
            r.lines@.len() == host_text_lines(*self, now as int).len(),
            forall|i: int|
                0 <= i < r.lines@.len() ==> #[trigger] r.lines@[i]@ == host_text_lines(
                    *self,
                    now as int,
                )[i],
    {
        EntitlementSessionHostTextView::from_snapshot(self, now)
    }
}

} // verus!
