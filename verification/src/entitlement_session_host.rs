//! The host side of the entitlement session: which timer the window keeps
//! armed, what it tells the user, and how lifecycle events reach the
//! session.
use vstd::prelude::*;

use crate::app_state::{AppState, EntitlementNotice, EntitlementNoticeLevel, EntitlementStatus};
use crate::entitlement_control::{StudioEntitlementAction, StudioEntitlementOutcome};
use crate::entitlement_preflight::{
    snapshot_entitlement_session_schedule, EntitlementPreflightAction,
    EntitlementSessionPolicy, EntitlementSessionSchedule, EntitlementSessionState,
};
use crate::text::{decimal_text, push_decimal, push_signed_decimal, push_str, signed_decimal_text};
use crate::time::duration_since_or_zero;

verus! {

/// Events of the window and login lifecycle that concern the session.
#[derive(Debug, Clone, Copy, PartialEq, Eq, Structural)]
pub enum EntitlementSessionLifecycleEvent {
    SessionStarted,
    LoginCompleted,
    TimerElapsed,
    NetworkRestored,
    WindowForegrounded,
}

/// The outcome of an entitlement command as the panel reports it.
#[derive(Debug, Clone, PartialEq, Eq)]
pub struct StudioEntitlementActionOutcome {
    pub action: StudioEntitlementAction,
    pub outcome: StudioEntitlementOutcome,
    pub entitlement_status: EntitlementStatus,
    pub last_synced_at: Option<i128>,
    pub last_error: Option<String>,
    pub notice: Option<EntitlementNotice>,
}

/// Events the session driver handles.
#[derive(Debug, Clone, PartialEq, Eq)]
pub enum EntitlementSessionEvent {
    SessionStarted,
    LoginCompleted,
    TimerElapsed,
    EntitlementCommandCompleted(StudioEntitlementActionOutcome),
}

/// Why a timer is armed.
#[derive(Debug, Clone, Copy, PartialEq, Eq, Structural)]
pub enum EntitlementSessionTimerReason {
    ImmediateCheck,
    ScheduledCheck,
    BackoffRetry,
}

/// A timer the host should keep armed.
///
/// `delay` is derived from `due_at` and the instant the timer was computed.
#[derive(Debug, Clone, Copy, PartialEq, Eq, Structural)]
pub struct EntitlementSessionTimerArm {
    pub event: EntitlementSessionLifecycleEvent,
    pub due_at: i128,
    pub delay: u128,
    pub reason: EntitlementSessionTimerReason,
}

/// What the host must do with its timer.
#[derive(Debug, Clone, Copy, PartialEq, Eq, Structural)]
pub enum EntitlementSessionTimerCommand {
    Keep { timer: EntitlementSessionTimerArm },
    Schedule { timer: EntitlementSessionTimerArm },
    Reschedule { previous: EntitlementSessionTimerArm, next: EntitlementSessionTimerArm },
    Clear { previous: EntitlementSessionTimerArm },
}

/// The session driver's state: what was attempted and the schedule.
#[derive(Debug, Clone, Copy, PartialEq, Eq)]
pub struct EntitlementSessionDriverState {
    pub session_state: EntitlementSessionState,
    pub schedule: EntitlementSessionSchedule,
}

/// The host's state at one instant.
#[derive(Debug, Clone, PartialEq, Eq)]
pub struct EntitlementSessionHostState {
    pub driver: EntitlementSessionDriverState,
    pub next_timer: Option<EntitlementSessionTimerArm>,
    pub host_notice: Option<EntitlementNotice>,
}

/// The host's state together with the timer command that leads to it.
#[derive(Debug, Clone, PartialEq, Eq)]
pub struct EntitlementSessionHostSnapshot {
    pub state: EntitlementSessionHostState,
    pub timer_command: Option<EntitlementSessionTimerCommand>,
}

/// What the host remembers between snapshots.
#[derive(Debug, Clone, PartialEq, Eq)]
pub struct EntitlementSessionHostContext {
    current_timer: Option<EntitlementSessionTimerArm>,
    last_snapshot: Option<EntitlementSessionHostSnapshot>,
}

/// The session event a lifecycle event stands for: network and window events
/// run the same check as an elapsed timer.
pub open spec fn spec_session_event_of(event: EntitlementSessionLifecycleEvent) -> EntitlementSessionEvent {
    match event {
        EntitlementSessionLifecycleEvent::SessionStarted => EntitlementSessionEvent::SessionStarted,
        EntitlementSessionLifecycleEvent::LoginCompleted => EntitlementSessionEvent::LoginCompleted,
        _ => EntitlementSessionEvent::TimerElapsed,
    }
}

/// The session event a lifecycle event stands for.
pub fn map_lifecycle_event_to_session_event(event: EntitlementSessionLifecycleEvent) -> (r:
    EntitlementSessionEvent)
    ensures
        r == spec_session_event_of(event),
{
    match event {
        EntitlementSessionLifecycleEvent::SessionStarted => EntitlementSessionEvent::SessionStarted,
        EntitlementSessionLifecycleEvent::LoginCompleted => EntitlementSessionEvent::LoginCompleted,
        EntitlementSessionLifecycleEvent::TimerElapsed
        | EntitlementSessionLifecycleEvent::NetworkRestored
        | EntitlementSessionLifecycleEvent::WindowForegrounded => EntitlementSessionEvent::TimerElapsed,
    }
}

/// The timer the schedule calls for at `now`: due at the next check, a
/// backoff retry while blocked, an immediate check when an action is due
/// now, else a scheduled check.
pub open spec fn spec_timer_arm(schedule: EntitlementSessionSchedule, now: i128) -> Option<
    EntitlementSessionTimerArm,
> {
    match schedule.next_check_at {
        None => None,
        Some(due_at) => {
            let delay: u128 = if due_at >= now {
                (due_at - now) as u128
            } else {
                0
            };
            let reason = if schedule.blocked_by_backoff {
                EntitlementSessionTimerReason::BackoffRetry
            } else if schedule.recommended_action is Some && delay == 0 {
                EntitlementSessionTimerReason::ImmediateCheck
            } else {
                EntitlementSessionTimerReason::ScheduledCheck
            };
            Some(
                EntitlementSessionTimerArm {
                    event: EntitlementSessionLifecycleEvent::TimerElapsed,
                    due_at,
                    delay,
                    reason,
                },
            )
        },
    }
}

/// The timer the schedule calls for at `now`.
pub fn timer_arm_from_schedule(schedule: &EntitlementSessionSchedule, now: i128) -> (r: Option<
    EntitlementSessionTimerArm,
>)
    ensures
        r == spec_timer_arm(*schedule, now),
{
    let due_at = match schedule.next_check_at {
        Some(t) => t,
        None => return None,
    };
    let delay = duration_since_or_zero(due_at, now);
    let reason = if schedule.blocked_by_backoff {
        EntitlementSessionTimerReason::BackoffRetry
    } else if schedule.recommended_action.is_some() && delay == 0 {
        EntitlementSessionTimerReason::ImmediateCheck
    } else {
        EntitlementSessionTimerReason::ScheduledCheck
    };
    Some(
        EntitlementSessionTimerArm {
            event: EntitlementSessionLifecycleEvent::TimerElapsed,
            due_at,
            delay,
            reason,
        },
    )
}

/// Two timers stand for the same wake-up: same event, due time and reason.
/// The delay is derived from the instant of computation and is ignored.
pub open spec fn same_timer(a: EntitlementSessionTimerArm, b: EntitlementSessionTimerArm) -> bool {
    a.event == b.event && a.due_at == b.due_at && a.reason == b.reason
}

/// The command that takes the host from timer `current` to timer `next`.
pub open spec fn spec_timer_command(
    current: Option<EntitlementSessionTimerArm>,
    next: Option<EntitlementSessionTimerArm>,
) -> Option<EntitlementSessionTimerCommand> {
    match (current, next) {
        (Some(c), Some(n)) => if same_timer(c, n) {
            Some(EntitlementSessionTimerCommand::Keep { timer: c })
        } else {
            Some(EntitlementSessionTimerCommand::Reschedule { previous: c, next: n })
        },
        (None, Some(n)) => Some(EntitlementSessionTimerCommand::Schedule { timer: n }),
        (Some(c), None) => Some(EntitlementSessionTimerCommand::Clear { previous: c }),
        (None, None) => None,
    }
}

fn same_timer_exec(a: &EntitlementSessionTimerArm, b: &EntitlementSessionTimerArm) -> (r: bool)
    ensures
        r == same_timer(*a, *b),
{
    a.event == b.event && a.due_at == b.due_at && a.reason == b.reason
}

/// Plans the timer command from the armed timer to the one now needed:
/// keep it when it stands for the same wake-up, arm one where none is,
/// re-arm when the wake-up moved, clear it when none is needed.
pub fn plan_entitlement_session_timer_command(
    current: Option<&EntitlementSessionTimerArm>,
    next: Option<&EntitlementSessionTimerArm>,
) -> (r: Option<EntitlementSessionTimerCommand>)
    ensures
        r == spec_timer_command(
            match current {
                Some(c) => Some(*c),
                None => None,
            },
            match next {
                Some(n) => Some(*n),
                None => None,
            },
        ),
{
    match (current, next) {
        (Some(c), Some(n)) => if same_timer_exec(c, n) {
            Some(EntitlementSessionTimerCommand::Keep { timer: *c })
        } else {
            Some(EntitlementSessionTimerCommand::Reschedule { previous: *c, next: *n })
        },
        (None, Some(n)) => Some(EntitlementSessionTimerCommand::Schedule { timer: *n }),
        (Some(c), None) => Some(EntitlementSessionTimerCommand::Clear { previous: *c }),
        (None, None) => None,
    }
}

/// The timer the host holds after carrying out `command` on `current`.
pub open spec fn spec_timer_after(
    current: Option<EntitlementSessionTimerArm>,
    command: Option<EntitlementSessionTimerCommand>,
) -> Option<EntitlementSessionTimerArm> {
    match command {
        None => current,
        Some(EntitlementSessionTimerCommand::Keep { timer }) => Some(timer),
        Some(EntitlementSessionTimerCommand::Schedule { timer }) => Some(timer),
        Some(EntitlementSessionTimerCommand::Reschedule { next, .. }) => Some(next),
        Some(EntitlementSessionTimerCommand::Clear { .. }) => None,
    }
}

/// Carrying out the planned command leaves the host with a timer for the
/// same wake-up as the one needed, or with none where none is needed; a
/// command is planned unless no timer is held and none is needed.
pub proof fn lemma_timer_command_reaches_next(
    current: Option<EntitlementSessionTimerArm>,
    next: Option<EntitlementSessionTimerArm>,
)
    ensures
        ({
            let after = spec_timer_after(current, spec_timer_command(current, next));
            match next {
                Some(n) => after is Some && same_timer(after.unwrap(), n),
                None => after is None,
            }
        }),
        spec_timer_command(current, next) is None <==> (current is None && next is None),
{
}

/// Planning from a timer to itself keeps it; planning never re-arms a timer
/// for the same wake-up.
pub proof fn lemma_timer_command_keeps_same_wake_up(
    current: EntitlementSessionTimerArm,
    next: EntitlementSessionTimerArm,
)
    ensures
        same_timer(current, next) ==> spec_timer_command(Some(current), Some(next)) == Some(
            EntitlementSessionTimerCommand::Keep { timer: current },
        ),
        !same_timer(current, next) ==> spec_timer_command(Some(current), Some(next)) == Some(
            EntitlementSessionTimerCommand::Reschedule { previous: current, next },
        ),
        spec_timer_command(Some(current), Some(current)) == Some(
            EntitlementSessionTimerCommand::Keep { timer: current },
        ),
{
}

/// `Debug` text of a scheduler action.
pub open spec fn action_debug_text(action: EntitlementPreflightAction) -> Seq<char> {
    match action {
        EntitlementPreflightAction::SyncEntitlement => "SyncEntitlement"@,
        EntitlementPreflightAction::RefreshOfflineLease => "RefreshOfflineLease"@,
    }
}

/// `Debug` text of a scheduler action.
pub fn action_debug_str(action: EntitlementPreflightAction) -> (r: &'static str)
    ensures
        r@ == action_debug_text(action),
{
    match action {
        EntitlementPreflightAction::SyncEntitlement => "SyncEntitlement",
        EntitlementPreflightAction::RefreshOfflineLease => "RefreshOfflineLease",
    }
}

/// `Debug` text of a lifecycle event.
pub open spec fn event_debug_text(event: EntitlementSessionLifecycleEvent) -> Seq<char> {
    match event {
        EntitlementSessionLifecycleEvent::SessionStarted => "SessionStarted"@,
        EntitlementSessionLifecycleEvent::LoginCompleted => "LoginCompleted"@,
        EntitlementSessionLifecycleEvent::TimerElapsed => "TimerElapsed"@,
        EntitlementSessionLifecycleEvent::NetworkRestored => "NetworkRestored"@,
        EntitlementSessionLifecycleEvent::WindowForegrounded => "WindowForegrounded"@,
    }
}

/// `Debug` text of a lifecycle event.
pub fn event_debug_str(event: EntitlementSessionLifecycleEvent) -> (r: &'static str)
    ensures
        r@ == event_debug_text(event),
{
    match event {
        EntitlementSessionLifecycleEvent::SessionStarted => "SessionStarted",
        EntitlementSessionLifecycleEvent::LoginCompleted => "LoginCompleted",
        EntitlementSessionLifecycleEvent::TimerElapsed => "TimerElapsed",
        EntitlementSessionLifecycleEvent::NetworkRestored => "NetworkRestored",
        EntitlementSessionLifecycleEvent::WindowForegrounded => "WindowForegrounded",
    }
}

/// `Debug` text of a timer reason.
pub open spec fn reason_debug_text(reason: EntitlementSessionTimerReason) -> Seq<char> {
    match reason {
        EntitlementSessionTimerReason::ImmediateCheck => "ImmediateCheck"@,
        EntitlementSessionTimerReason::ScheduledCheck => "ScheduledCheck"@,
        EntitlementSessionTimerReason::BackoffRetry => "BackoffRetry"@,
    }
}

/// `Debug` text of a timer reason.
pub fn reason_debug_str(reason: EntitlementSessionTimerReason) -> (r: &'static str)
    ensures
        r@ == reason_debug_text(reason),
{
    match reason {
        EntitlementSessionTimerReason::ImmediateCheck => "ImmediateCheck",
        EntitlementSessionTimerReason::ScheduledCheck => "ScheduledCheck",
        EntitlementSessionTimerReason::BackoffRetry => "BackoffRetry",
    }
}

/// `Debug` text of an instant as a Unix `SystemTime` writes it: whole
/// seconds (rounded down) and the nanoseconds past them.
pub open spec fn system_time_debug_text(t: int) -> Seq<char> {
    "SystemTime { tv_sec: "@ + signed_decimal_text(t / 1_000_000_000) + ", tv_nsec: "@
        + decimal_text((t % 1_000_000_000) as nat) + " }"@
}

/// Appends the `Debug` text of an instant.
pub fn push_system_time_debug(s: &mut String, t: i128)
    ensures
        final(s)@ == old(s)@ + system_time_debug_text(t as int),
{
    let (secs, nanos): (i128, u128) = if t >= 0 {
        ((t / 1_000_000_000i128), (t % 1_000_000_000i128) as u128)
    } else {
        let magnitude: u128 = (-(t + 1)) as u128 + 1;
        let q: u128 = magnitude / 1_000_000_000u128;
        let r: u128 = magnitude % 1_000_000_000u128;
        if r == 0 {
            (-(q as i128), 0u128)
        } else {
            (-(q as i128) - 1, 1_000_000_000u128 - r)
        }
    };
    assert(secs == t / 1_000_000_000 && nanos == t % 1_000_000_000);
    push_str(s, "SystemTime { tv_sec: ");
    push_signed_decimal(s, secs);
    push_str(s, ", tv_nsec: ");
    push_decimal(s, nanos);
    push_str(s, " }");
    assert(final(s)@ =~= old(s)@ + system_time_debug_text(t as int));
}

/// The notice the host shows for a schedule and timer: a warning while a
/// backoff blocks the due action, information while a check is merely
/// scheduled, and nothing otherwise. Given as level, title and message.
pub open spec fn spec_host_notice(
    schedule: EntitlementSessionSchedule,
    timer: Option<EntitlementSessionTimerArm>,
) -> Option<(EntitlementNoticeLevel, Seq<char>, Seq<char>)> {
    if schedule.blocked_by_backoff {
        match schedule.backoff {
            None => None,
            Some(b) => Some(
                (
                    EntitlementNoticeLevel::Warning,
                    "Automatic retry scheduled"@,
                    "entitlement session will retry "@ + action_debug_text(b.action)
                        + " after backoff at "@ + system_time_debug_text(b.retry_not_before as int),
                ),
            ),
        }
    } else {
        match timer {
            None => None,
            Some(t) => if t.reason == EntitlementSessionTimerReason::ScheduledCheck {
                Some(
                    (
                        EntitlementNoticeLevel::Info,
                        "Automatic check scheduled"@,
                        "entitlement session will trigger "@ + event_debug_text(t.event) + " at "@
                            + system_time_debug_text(t.due_at as int),
                    ),
                )
            } else {
                None
            },
        }
    }
}

/// Whether a notice is the one described by level, title and message.
pub open spec fn notice_matches(
    r: Option<EntitlementNotice>,
    s: Option<(EntitlementNoticeLevel, Seq<char>, Seq<char>)>,
) -> bool {
    match r {
        Some(n) => s == Some((n.level, n.title@, n.message@)),
        None => s is None,
    }
}

/// The notice the host shows for a schedule and timer.
pub fn host_notice_from_schedule(
    schedule: &EntitlementSessionSchedule,
    timer: Option<&EntitlementSessionTimerArm>,
) -> (r: Option<EntitlementNotice>)
    ensures
        notice_matches(
            r,
            spec_host_notice(
                *schedule,
                match timer {
                    Some(t) => Some(*t),
                    None => None,
                },
            ),
        ),
{
    if schedule.blocked_by_backoff {
        let backoff = match schedule.backoff {
            Some(b) => b,
            None => return None,
        };
        let mut message = String::new();
        push_str(&mut message, "entitlement session will retry ");
        push_str(&mut message, action_debug_str(backoff.action));
        push_str(&mut message, " after backoff at ");
        push_system_time_debug(&mut message, backoff.retry_not_before);
        assert(message@ =~= "entitlement session will retry "@ + action_debug_text(backoff.action)
            + " after backoff at "@ + system_time_debug_text(backoff.retry_not_before as int));
        return Some(
            EntitlementNotice {
                level: EntitlementNoticeLevel::Warning,
                title: String::from_str("Automatic retry scheduled"),
                message,
            },
        );
    }
    let timer = match timer {
        Some(t) => t,
        None => return None,
    };
    if timer.reason == EntitlementSessionTimerReason::ScheduledCheck {
        let mut message = String::new();
        push_str(&mut message, "entitlement session will trigger ");
        push_str(&mut message, event_debug_str(timer.event));
        push_str(&mut message, " at ");
        push_system_time_debug(&mut message, timer.due_at);
        assert(message@ =~= "entitlement session will trigger "@ + event_debug_text(timer.event)
            + " at "@ + system_time_debug_text(timer.due_at as int));
        return Some(
            EntitlementNotice {
                level: EntitlementNoticeLevel::Info,
                title: String::from_str("Automatic check scheduled"),
                message,
            },
        );
    }
    None
}

/// The driver's state at `now`: the session state and its schedule.
pub fn snapshot_entitlement_session_driver_state(
    app_state: &AppState,
    now: i128,
    policy: &EntitlementSessionPolicy,
    session_state: &EntitlementSessionState,
) -> (r: EntitlementSessionDriverState)
    ensures
        r.session_state == *session_state,
        crate::entitlement_preflight::spec_schedule_matches(r.schedule, *app_state, now, *policy, *session_state),
{
    EntitlementSessionDriverState {
        session_state: *session_state,
        schedule: snapshot_entitlement_session_schedule(app_state, now, policy, session_state),
    }
}

/// The host's state at `now`: the driver state, the timer it calls for and
/// the notice for both.
pub fn snapshot_entitlement_session_host_state(
    app_state: &AppState,
    now: i128,
    policy: &EntitlementSessionPolicy,
    session_state: &EntitlementSessionState,
) -> (r: EntitlementSessionHostState)
    ensures
        r.driver.session_state == *session_state,
        crate::entitlement_preflight::spec_schedule_matches(r.driver.schedule, *app_state, now, *policy, *session_state),
        r.next_timer == spec_timer_arm(r.driver.schedule, now),
        notice_matches(r.host_notice, spec_host_notice(r.driver.schedule, r.next_timer)),
{
    let driver = snapshot_entitlement_session_driver_state(app_state, now, policy, session_state);
    let next_timer = timer_arm_from_schedule(&driver.schedule, now);
    let host_notice = host_notice_from_schedule(&driver.schedule, next_timer.as_ref());
    EntitlementSessionHostState { driver, next_timer, host_notice }
}

/// The host snapshot at `now`, with the command that takes the host from
/// `current_timer` to the timer now needed.
pub fn snapshot_entitlement_session_host(
    app_state: &AppState,
    now: i128,
    policy: &EntitlementSessionPolicy,
    session_state: &EntitlementSessionState,
    current_timer: Option<&EntitlementSessionTimerArm>,
) -> (r: EntitlementSessionHostSnapshot)
    ensures
        r.state.driver.session_state == *session_state,
        crate::entitlement_preflight::spec_schedule_matches(r.state.driver.schedule, *app_state, now, *policy, *session_state),
        r.state.next_timer == spec_timer_arm(r.state.driver.schedule, now),
        notice_matches(r.state.host_notice, spec_host_notice(r.state.driver.schedule, r.state.next_timer)),
        r.timer_command == spec_timer_command(
            match current_timer {
                Some(c) => Some(*c),
                None => None,
            },
            r.state.next_timer,
        ),
{
    let state = snapshot_entitlement_session_host_state(app_state, now, policy, session_state);
    let timer_command = plan_entitlement_session_timer_command(current_timer, state.next_timer.as_ref());
    EntitlementSessionHostSnapshot { state, timer_command }
}

impl EntitlementSessionHostContext {
    /// A context with no timer armed and no snapshot recorded.
    pub fn new() -> (r: Self)
        ensures
            r.spec_current_timer() is None,
            r.spec_last_snapshot() is None,
    {
        EntitlementSessionHostContext { current_timer: None, last_snapshot: None }
    }

    /// The timer the host holds.
    pub closed spec fn spec_current_timer(&self) -> Option<EntitlementSessionTimerArm> {
        self.current_timer
    }

    /// The snapshot recorded last.
    pub closed spec fn spec_last_snapshot(&self) -> Option<EntitlementSessionHostSnapshot> {
        self.last_snapshot
    }

    /// The timer the host holds.
    pub fn current_timer(&self) -> (r: Option<&EntitlementSessionTimerArm>)
        ensures
            r == (match self.spec_current_timer() {
                Some(t) => Some(&t),
                None => None::<&EntitlementSessionTimerArm>,
            }),
    {
        self.current_timer.as_ref()
    }

    /// The snapshot recorded last.
    pub fn last_snapshot(&self) -> (r: Option<&EntitlementSessionHostSnapshot>)
        ensures
            r == (match self.spec_last_snapshot() {
                Some(t) => Some(&t),
                None => None::<&EntitlementSessionHostSnapshot>,
            }),
    {
        self.last_snapshot.as_ref()
    }

    /// Records a snapshot: its timer becomes the one the host holds.
    pub fn record_snapshot(&mut self, snapshot: EntitlementSessionHostSnapshot)
        ensures
            final(self).spec_current_timer() == snapshot.state.next_timer,
            final(self).spec_last_snapshot() == Some(snapshot),
    {
        self.current_timer = snapshot.state.next_timer;
        self.last_snapshot = Some(snapshot);
    }
}

/// A copy of a notice.
pub fn copy_notice(notice: &EntitlementNotice) -> (r: EntitlementNotice)
    ensures
        r == *notice,
{
    EntitlementNotice {
        level: notice.level,
        title: notice.title.clone(),
        message: notice.message.clone(),
    }
}

/// The notice the entitlement panel shows: the application's own notice
/// where it has one, which wins over the host's; the host's notice
/// otherwise.
pub fn panel_notice_with_host_notice(
    runtime_notice: Option<EntitlementNotice>,
    host_notice: &Option<EntitlementNotice>,
) -> (r: Option<EntitlementNotice>)
    ensures
        runtime_notice is Some ==> r == runtime_notice,
        runtime_notice is None ==> r == *host_notice,
{
    match runtime_notice {
        Some(notice) => Some(notice),
        None => match host_notice {
            Some(notice) => Some(copy_notice(notice)),
            None => None,
        },
    }
}

/// A copy of a host snapshot.
pub fn copy_host_snapshot(snapshot: &EntitlementSessionHostSnapshot) -> (r: EntitlementSessionHostSnapshot)
    ensures
        r == *snapshot,
{
    let host_notice = match &snapshot.state.host_notice {
        Some(n) => Some(copy_notice(n)),
        None => None,
    };
    EntitlementSessionHostSnapshot {
        state: EntitlementSessionHostState {
            driver: snapshot.state.driver,
            next_timer: snapshot.state.next_timer,
            host_notice,
        },
        timer_command: snapshot.timer_command,
    }
}

/// Takes a host snapshot against the context's timer and records it.
pub fn snapshot_entitlement_session_host_with_context(
    app_state: &AppState,
    now: i128,
    policy: &EntitlementSessionPolicy,
    session_state: &EntitlementSessionState,
    context: &mut EntitlementSessionHostContext,
) -> (r: EntitlementSessionHostSnapshot)
    ensures
        r.state.driver.session_state == *session_state,
        crate::entitlement_preflight::spec_schedule_matches(r.state.driver.schedule, *app_state, now, *policy, *session_state),
        r.state.next_timer == spec_timer_arm(r.state.driver.schedule, now),
        notice_matches(r.state.host_notice, spec_host_notice(r.state.driver.schedule, r.state.next_timer)),
        r.timer_command == spec_timer_command(old(context).spec_current_timer(), r.state.next_timer),
        final(context).spec_current_timer() == r.state.next_timer,
        final(context).spec_last_snapshot() == Some(r),
{
    let snapshot = snapshot_entitlement_session_host(
        app_state,
        now,
        policy,
        session_state,
        context.current_timer(),
    );
    context.record_snapshot(copy_host_snapshot(&snapshot));
    snapshot
}

} // verus!
