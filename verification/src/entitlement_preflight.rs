//! When the entitlement session should synchronize or refresh, and how
//! failures push the next attempt back.
use vstd::prelude::*;

use crate::app_state::{
    has_authenticated_session, snapshot_unavailable, spec_has_authenticated_session,
    spec_snapshot_unavailable, AppState, EntitlementStatus,
};
use crate::entitlement_control::{
    is_transient_reason, StudioEntitlementAction, StudioEntitlementFailureReason,
    StudioEntitlementOutcome,
};
use crate::time::{
    checked_add_time, duration_from_secs, duration_since_or_zero, earliest_system_time,
    max_duration, saturating_sub_system_time, spec_earliest, time_in_range,
};

verus! {

/// What the scheduler asks the entitlement panel to run.
#[derive(Debug, Clone, Copy, PartialEq, Eq, Structural)]
pub enum EntitlementPreflightAction {
    SyncEntitlement,
    RefreshOfflineLease,
}

/// An action together with the reason it is due.
#[derive(Debug, Clone, PartialEq, Eq)]
pub struct EntitlementPreflightDecision {
    pub action: EntitlementPreflightAction,
    pub reason: &'static str,
}

/// How close to the offline lease deadline a refresh becomes due.
#[derive(Debug, Clone, PartialEq, Eq)]
pub struct EntitlementPreflightPolicy {
    pub offline_refresh_window: u128,
}

/// Windows and backoff limits of the entitlement session.
#[derive(Debug, Clone, PartialEq, Eq)]
pub struct EntitlementSessionPolicy {
    pub preflight: EntitlementPreflightPolicy,
    pub entitlement_sync_window: u128,
    pub transient_failure_backoff_base: u128,
    pub permanent_failure_backoff_base: u128,
    pub failure_backoff_max: u128,
}

/// A retry gate left behind by failed attempts of one action.
#[derive(Debug, Clone, Copy, PartialEq, Eq, Structural)]
pub struct EntitlementSessionBackoff {
    pub action: EntitlementPreflightAction,
    pub failure_reason: StudioEntitlementFailureReason,
    pub consecutive_failures: u32,
    pub retry_not_before: i128,
}

/// What the session remembers of its attempts.
#[derive(Debug, Clone, Copy, PartialEq, Eq, Structural)]
pub struct EntitlementSessionState {
    pub last_attempted_action: Option<EntitlementPreflightAction>,
    pub last_attempted_at: Option<i128>,
    pub last_completed_action: Option<EntitlementPreflightAction>,
    pub last_completed_at: Option<i128>,
    pub backoff: Option<EntitlementSessionBackoff>,
}

/// The scheduler's view at one instant.
#[derive(Debug, Clone, Copy, PartialEq, Eq)]
pub struct EntitlementSessionSchedule {
    pub recommended_action: Option<EntitlementPreflightAction>,
    pub recommended_reason: Option<&'static str>,
    pub recommended_at: Option<i128>,
    pub next_sync_at: Option<i128>,
    pub next_offline_refresh_at: Option<i128>,
    pub next_check_at: Option<i128>,
    pub blocked_by_backoff: bool,
    pub backoff: Option<EntitlementSessionBackoff>,
}

impl Default for EntitlementPreflightPolicy {
    /// A refresh becomes due thirty minutes before the offline lease ends.
    fn default() -> (p: Self)
        ensures
            p.offline_refresh_window == 30 * 60 * 1_000_000_000,
    {
        EntitlementPreflightPolicy { offline_refresh_window: duration_from_secs(30 * 60) }
    }
}

impl Default for EntitlementSessionPolicy {
    /// Fifteen minutes of sync window, one minute of transient backoff, ten
    /// minutes of permanent backoff, and at most one hour between retries.
    fn default() -> (p: Self)
        ensures
            p.preflight.offline_refresh_window == 30 * 60 * 1_000_000_000,
            p.entitlement_sync_window == 15 * 60 * 1_000_000_000,
            p.transient_failure_backoff_base == 60 * 1_000_000_000,
            p.permanent_failure_backoff_base == 10 * 60 * 1_000_000_000,
            p.failure_backoff_max == 60 * 60 * 1_000_000_000,
    {
        EntitlementSessionPolicy {
            preflight: EntitlementPreflightPolicy::default(),
            entitlement_sync_window: duration_from_secs(15 * 60),
            transient_failure_backoff_base: duration_from_secs(60),
            permanent_failure_backoff_base: duration_from_secs(10 * 60),
            failure_backoff_max: duration_from_secs(60 * 60),
        }
    }
}

impl Default for EntitlementSessionState {
    /// Nothing attempted, nothing completed, no backoff.
    fn default() -> (s: Self)
        ensures
            s.last_attempted_action is None,
            s.last_attempted_at is None,
            s.last_completed_action is None,
            s.last_completed_at is None,
            s.backoff is None,
    {
        EntitlementSessionState {
            last_attempted_action: None,
            last_attempted_at: None,
            last_completed_action: None,
            last_completed_at: None,
            backoff: None,
        }
    }
}

/// The action the application entry runs before anything else, and why.
pub open spec fn spec_preflight_decision(app: AppState, now: int, window: int) -> Option<
    (EntitlementPreflightAction, Seq<char>),
> {
    if !spec_has_authenticated_session(app) {
        None
    } else if spec_snapshot_unavailable(app.entitlement) {
        Some(
            (
                EntitlementPreflightAction::SyncEntitlement,
                "authenticated session is present but entitlement snapshot is unavailable"@,
            ),
        )
    } else if app.entitlement.status == EntitlementStatus::LeaseExpired {
        Some(
            (
                EntitlementPreflightAction::RefreshOfflineLease,
                "offline lease is already expired and must be refreshed"@,
            ),
        )
    } else {
        match app.entitlement.snapshot.unwrap().offline_lease_expires_at {
            None => None,
            Some(deadline) => if now >= deadline {
                Some(
                    (
                        EntitlementPreflightAction::RefreshOfflineLease,
                        "offline lease deadline has passed"@,
                    ),
                )
            } else if deadline - now <= window {
                Some(
                    (
                        EntitlementPreflightAction::RefreshOfflineLease,
                        "offline lease is approaching expiration and should be refreshed"@,
                    ),
                )
            } else {
                None
            },
        }
    }
}

/// The action the running session starts at `now`, and why: the preflight
/// decision, else a sync when the snapshot has expired or is about to.
pub open spec fn spec_session_decision(
    app: AppState,
    now: int,
    policy: EntitlementSessionPolicy,
) -> Option<(EntitlementPreflightAction, Seq<char>)> {
    let pre = spec_preflight_decision(app, now, policy.preflight.offline_refresh_window as int);
    if pre is Some {
        pre
    } else if !spec_has_authenticated_session(app) {
        None
    } else {
        match app.entitlement.snapshot {
            None => None,
            Some(snapshot) => if now >= snapshot.expires_at {
                Some(
                    (
                        EntitlementPreflightAction::SyncEntitlement,
                        "entitlement snapshot has expired and should be synchronized"@,
                    ),
                )
            } else if snapshot.expires_at - now <= policy.entitlement_sync_window {
                Some(
                    (
                        EntitlementPreflightAction::SyncEntitlement,
                        "entitlement snapshot is approaching expiration and should be synchronized"@,
                    ),
                )
            } else {
                None
            },
        }
    }
}

/// Whether an exec decision answers a spec decision.
pub open spec fn decision_matches(
    r: Option<EntitlementPreflightDecision>,
    s: Option<(EntitlementPreflightAction, Seq<char>)>,
) -> bool {
    match r {
        Some(d) => s == Some((d.action, d.reason@)),
        None => s is None,
    }
}

/// `t - d`, or the epoch where that is no instant.
pub open spec fn spec_saturating_sub(t: int, d: int) -> int {
    if time_in_range(t - d) {
        t - d
    } else {
        0
    }
}

/// When the next entitlement sync falls due.
pub open spec fn spec_recommended_sync_at(app: AppState, policy: EntitlementSessionPolicy) -> Option<
    i128,
> {
    if !spec_has_authenticated_session(app) {
        None
    } else if spec_snapshot_unavailable(app.entitlement) {
        match app.entitlement.last_synced_at {
            Some(t) => Some(t),
            None => app.auth_session.last_authenticated_at,
        }
    } else {
        Some(
            spec_saturating_sub(
                app.entitlement.snapshot.unwrap().expires_at as int,
                policy.entitlement_sync_window as int,
            ) as i128,
        )
    }
}

/// When the next offline lease refresh falls due.
pub open spec fn spec_recommended_offline_refresh_at(
    app: AppState,
    policy: EntitlementSessionPolicy,
) -> Option<i128> {
    if !spec_has_authenticated_session(app) {
        None
    } else if app.entitlement.status == EntitlementStatus::LeaseExpired {
        let lease = match app.entitlement.snapshot {
            Some(s) => s.offline_lease_expires_at,
            None => None,
        };
        match lease {
            Some(t) => Some(t),
            None => match app.entitlement.last_synced_at {
                Some(t) => Some(t),
                None => app.auth_session.last_authenticated_at,
            },
        }
    } else {
        match app.entitlement.snapshot {
            None => None,
            Some(s) => match s.offline_lease_expires_at {
                None => None,
                Some(t) => Some(
                    spec_saturating_sub(
                        t as int,
                        policy.preflight.offline_refresh_window as int,
                    ) as i128,
                ),
            },
        }
    }
}

/// The backoff that still holds `action` back at `now`.
pub open spec fn spec_active_backoff(
    state: EntitlementSessionState,
    action: EntitlementPreflightAction,
    now: int,
) -> Option<EntitlementSessionBackoff> {
    match state.backoff {
        Some(b) => if b.action == action && now < b.retry_not_before {
            Some(b)
        } else {
            None
        },
        None => None,
    }
}

/// The backoff base for a failure: short for transient failures, long for
/// the others.
pub open spec fn spec_backoff_base(
    reason: StudioEntitlementFailureReason,
    policy: EntitlementSessionPolicy,
) -> int {
    match reason {
        StudioEntitlementFailureReason::ConnectionUnavailable
        | StudioEntitlementFailureReason::ServiceUnavailable => policy.transient_failure_backoff_base
            as int,
        _ => policy.permanent_failure_backoff_base as int,
    }
}

/// The doubling exponent after `failures` consecutive failures: one less
/// than the count, capped at thirty.
pub open spec fn spec_backoff_exponent(failures: u32) -> nat {
    if failures == 0 {
        0
    } else if failures - 1 > 30 {
        30
    } else {
        (failures - 1) as nat
    }
}

/// The wait after `failures` consecutive failures: the base doubled per
/// earlier failure (at most thirty times), capped at the policy maximum; a
/// product beyond the largest span counts as the maximum.
pub open spec fn spec_failure_backoff_duration(
    reason: StudioEntitlementFailureReason,
    failures: u32,
    policy: EntitlementSessionPolicy,
) -> int {
    let product = spec_backoff_base(reason, policy) * vstd::arithmetic::power2::pow2(
        spec_backoff_exponent(failures),
    );
    let scaled = if product <= max_duration() {
        product
    } else {
        policy.failure_backoff_max as int
    };
    if scaled > policy.failure_backoff_max {
        policy.failure_backoff_max as int
    } else {
        scaled
    }
}

/// The failure count after one more failure of `action`.
pub open spec fn spec_next_failure_count(
    backoff: Option<EntitlementSessionBackoff>,
    action: EntitlementPreflightAction,
) -> u32 {
    match backoff {
        Some(b) => if b.action == action {
            if b.consecutive_failures == u32::MAX {
                u32::MAX
            } else {
                (b.consecutive_failures + 1) as u32
            }
        } else {
            1
        },
        None => 1,
    }
}

/// The session state after `action` ended with `outcome` at `now`.
pub open spec fn spec_apply_outcome(
    state: EntitlementSessionState,
    action: EntitlementPreflightAction,
    outcome: StudioEntitlementOutcome,
    now: i128,
    policy: EntitlementSessionPolicy,
) -> EntitlementSessionState {
    match outcome {
        StudioEntitlementOutcome::Failed(failure) => {
            let failures = spec_next_failure_count(state.backoff, action);
            let wait = spec_failure_backoff_duration(failure.reason, failures, policy);
            let retry = if time_in_range(now + wait) {
                (now + wait) as i128
            } else {
                now
            };
            EntitlementSessionState {
                last_attempted_action: Some(action),
                last_attempted_at: Some(now),
                backoff: Some(
                    EntitlementSessionBackoff {
                        action,
                        failure_reason: failure.reason,
                        consecutive_failures: failures,
                        retry_not_before: retry,
                    },
                ),
                ..state
            }
        },
        _ => EntitlementSessionState {
            last_attempted_action: Some(action),
            last_attempted_at: Some(now),
            last_completed_action: Some(action),
            last_completed_at: Some(now),
            backoff: None,
        },
    }
}

/// The preflight action due at `now`, if any (an authenticated session is
/// needed; a missing snapshot asks for a sync; an expired or nearly expired
/// offline lease asks for a refresh).
pub fn decide_entitlement_preflight_action(
    app_state: &AppState,
    now: i128,
    policy: &EntitlementPreflightPolicy,
) -> (r: Option<EntitlementPreflightDecision>)
    ensures
        decision_matches(
            r,
            spec_preflight_decision(*app_state, now as int, policy.offline_refresh_window as int),
        ),
{
    if !has_authenticated_session(app_state) {
        return None;
    }
    let entitlement = &app_state.entitlement;
    if snapshot_unavailable(entitlement) {
        return Some(
            EntitlementPreflightDecision {
                action: EntitlementPreflightAction::SyncEntitlement,
                reason: "authenticated session is present but entitlement snapshot is unavailable",
            },
        );
    }
    if matches!(entitlement.status, EntitlementStatus::LeaseExpired) {
        return Some(
            EntitlementPreflightDecision {
                action: EntitlementPreflightAction::RefreshOfflineLease,
                reason: "offline lease is already expired and must be refreshed",
            },
        );
    }
    let offline_lease_expires_at = match &entitlement.snapshot {
        Some(snapshot) => match snapshot.offline_lease_expires_at {
            Some(t) => t,
            None => return None,
        },
        None => return None,
    };
    if now >= offline_lease_expires_at {
        return Some(
            EntitlementPreflightDecision {
                action: EntitlementPreflightAction::RefreshOfflineLease,
                reason: "offline lease deadline has passed",
            },
        );
    }
    let remaining = duration_since_or_zero(offline_lease_expires_at, now);
    if remaining <= policy.offline_refresh_window {
        return Some(
            EntitlementPreflightDecision {
                action: EntitlementPreflightAction::RefreshOfflineLease,
                reason: "offline lease is approaching expiration and should be refreshed",
            },
        );
    }
    None
}

/// The action the running session starts at `now`, if any.
pub fn decide_entitlement_session_action(
    app_state: &AppState,
    now: i128,
    policy: &EntitlementSessionPolicy,
) -> (r: Option<EntitlementPreflightDecision>)
    ensures
        decision_matches(r, spec_session_decision(*app_state, now as int, *policy)),
{
    let pre = decide_entitlement_preflight_action(app_state, now, &policy.preflight);
    if pre.is_some() {
        return pre;
    }
    if !has_authenticated_session(app_state) {
        return None;
    }
    let expires_at = match &app_state.entitlement.snapshot {
        Some(snapshot) => snapshot.expires_at,
        None => return None,
    };
    if now >= expires_at {
        return Some(
            EntitlementPreflightDecision {
                action: EntitlementPreflightAction::SyncEntitlement,
                reason: "entitlement snapshot has expired and should be synchronized",
            },
        );
    }
    let remaining = duration_since_or_zero(expires_at, now);
    if remaining <= policy.entitlement_sync_window {
        return Some(
            EntitlementPreflightDecision {
                action: EntitlementPreflightAction::SyncEntitlement,
                reason: "entitlement snapshot is approaching expiration and should be synchronized",
            },
        );
    }
    None
}

/// When the next entitlement sync falls due.
pub fn recommended_sync_at(app_state: &AppState, policy: &EntitlementSessionPolicy) -> (r: Option<
    i128,
>)
    ensures
        r == spec_recommended_sync_at(*app_state, *policy),
{
    if !has_authenticated_session(app_state) {
        return None;
    }
    let entitlement = &app_state.entitlement;
    if snapshot_unavailable(entitlement) {
        return match entitlement.last_synced_at {
            Some(t) => Some(t),
            None => app_state.auth_session.last_authenticated_at,
        };
    }
    match &entitlement.snapshot {
        Some(snapshot) => Some(
            saturating_sub_system_time(snapshot.expires_at, policy.entitlement_sync_window),
        ),
        None => None,
    }
}

/// When the next offline lease refresh falls due.
pub fn recommended_offline_refresh_at(
    app_state: &AppState,
    policy: &EntitlementSessionPolicy,
) -> (r: Option<i128>)
    ensures
        r == spec_recommended_offline_refresh_at(*app_state, *policy),
{
    if !has_authenticated_session(app_state) {
        return None;
    }
    let entitlement = &app_state.entitlement;
    let lease = match &entitlement.snapshot {
        Some(snapshot) => snapshot.offline_lease_expires_at,
        None => None,
    };
    if matches!(entitlement.status, EntitlementStatus::LeaseExpired) {
        return match lease {
            Some(t) => Some(t),
            None => match entitlement.last_synced_at {
                Some(t) => Some(t),
                None => app_state.auth_session.last_authenticated_at,
            },
        };
    }
    match lease {
        Some(t) => Some(saturating_sub_system_time(t, policy.preflight.offline_refresh_window)),
        None => None,
    }
}

/// The backoff that still holds `action` back at `now`, if any.
pub fn active_backoff_for_action(
    session_state: &EntitlementSessionState,
    action: EntitlementPreflightAction,
    now: i128,
) -> (r: Option<EntitlementSessionBackoff>)
    ensures
        r == spec_active_backoff(*session_state, action, now as int),
{
    match session_state.backoff {
        Some(backoff) => if backoff.action == action && now < backoff.retry_not_before {
            Some(backoff)
        } else {
            None
        },
        None => None,
    }
}

/// Whether `s` is the scheduler's view at `now`: the action due now and its
/// reason, when sync and refresh fall due, the backoff holding the due action
/// back, and the next check (the retry time while blocked, `now` while an
/// action is due, else the earlier of the two due times).
pub open spec fn spec_schedule_matches(
    s: EntitlementSessionSchedule,
    app: AppState,
    now: i128,
    policy: EntitlementSessionPolicy,
    session: EntitlementSessionState,
) -> bool {
    let immediate = spec_session_decision(app, now as int, policy);
    let backoff = match immediate {
        Some(d) => spec_active_backoff(session, d.0, now as int),
        None => None,
    };
    let next_sync = spec_recommended_sync_at(app, policy);
    let next_refresh = spec_recommended_offline_refresh_at(app, policy);
    &&& s.recommended_action == (match immediate {
        Some(d) => Some(d.0),
        None => None::<EntitlementPreflightAction>,
    })
    &&& (match s.recommended_reason {
        Some(reason) => immediate is Some && reason@ == immediate.unwrap().1,
        None => immediate is None,
    })
    &&& s.recommended_at == (if immediate is Some {
        Some(now)
    } else {
        None::<i128>
    })
    &&& s.next_sync_at == next_sync
    &&& s.next_offline_refresh_at == next_refresh
    &&& s.backoff == backoff
    &&& s.blocked_by_backoff == backoff is Some
    &&& s.next_check_at == (match backoff {
        Some(b) => Some(b.retry_not_before),
        None => if immediate is Some {
            Some(now)
        } else {
            spec_earliest(next_sync, next_refresh)
        },
    })
}

/// The scheduler's view at `now`: the action due now (unless a backoff holds
/// it back), when sync and refresh fall due, and when to check next.
pub fn snapshot_entitlement_session_schedule(
    app_state: &AppState,
    now: i128,
    policy: &EntitlementSessionPolicy,
    session_state: &EntitlementSessionState,
) -> (s: EntitlementSessionSchedule)
    ensures
        spec_schedule_matches(s, *app_state, now, *policy, *session_state),
{
    let immediate = decide_entitlement_session_action(app_state, now, policy);
    let next_sync_at = recommended_sync_at(app_state, policy);
    let next_offline_refresh_at = recommended_offline_refresh_at(app_state, policy);
    let next_scheduled_check_at = earliest_system_time(next_sync_at, next_offline_refresh_at);
    match immediate {
        Some(decision) => {
            let backoff = active_backoff_for_action(session_state, decision.action, now);
            let next_check_at = match backoff {
                Some(b) => Some(b.retry_not_before),
                None => Some(now),
            };
            EntitlementSessionSchedule {
                recommended_action: Some(decision.action),
                recommended_reason: Some(decision.reason),
                recommended_at: Some(now),
                next_sync_at,
                next_offline_refresh_at,
                next_check_at,
                blocked_by_backoff: backoff.is_some(),
                backoff,
            }
        },
        None => EntitlementSessionSchedule {
            recommended_action: None,
            recommended_reason: None,
            recommended_at: None,
            next_sync_at,
            next_offline_refresh_at,
            next_check_at: next_scheduled_check_at,
            blocked_by_backoff: false,
            backoff: None,
        },
    }
}

/// `d * k` as a span, or `None` where the product is no span
/// (`Duration::checked_mul`).
pub fn checked_mul_duration(d: u128, k: u32) -> (r: Option<u128>)
    ensures
        r == (if d * k <= max_duration() {
            Some((d * k) as u128)
        } else {
            None::<u128>
        }),
{
    if k == 0 {
        assert(d * k == 0) by (nonlinear_arith)
            requires
                k == 0,
        ;
        return Some(0);
    }
    if d > 18_446_744_073_709_551_615_999_999_999u128 {
        assert(d * k >= d) by (nonlinear_arith)
            requires
                k >= 1,
        ;
        return None;
    }
    assert(d * k <= 18_446_744_073_709_551_615_999_999_999 * 4_294_967_295) by (nonlinear_arith)
        requires
            d <= 18_446_744_073_709_551_615_999_999_999,
            k <= 4_294_967_295,
    ;
    let product = d * (k as u128);
    if product <= 18_446_744_073_709_551_615_999_999_999u128 {
        Some(product)
    } else {
        None
    }
}

/// How long to wait after `consecutive_failures` failures for `reason`.
pub fn failure_backoff_duration(
    reason: StudioEntitlementFailureReason,
    consecutive_failures: u32,
    policy: &EntitlementSessionPolicy,
) -> (r: u128)
    ensures
        r == spec_failure_backoff_duration(reason, consecutive_failures, *policy),
{
    let base = match reason {
        StudioEntitlementFailureReason::ConnectionUnavailable
        | StudioEntitlementFailureReason::ServiceUnavailable => policy.transient_failure_backoff_base,
        StudioEntitlementFailureReason::AuthenticationRequired
        | StudioEntitlementFailureReason::AccessDenied
        | StudioEntitlementFailureReason::InvalidResponse
        | StudioEntitlementFailureReason::LocalStateInvalid => policy.permanent_failure_backoff_base,
    };
    let earlier: u32 = if consecutive_failures == 0 {
        0
    } else {
        consecutive_failures - 1
    };
    let exponent: u32 = if earlier > 30 {
        30
    } else {
        earlier
    };
    proof {
        vstd::bits::lemma_u32_pow2_no_overflow(exponent as nat);
        vstd::bits::lemma_u32_shl_is_mul(1u32, exponent);
    }
    let factor: u32 = 1u32 << exponent;
    assert(exponent as nat == spec_backoff_exponent(consecutive_failures));
    let scaled = match checked_mul_duration(base, factor) {
        Some(product) => product,
        None => policy.failure_backoff_max,
    };
    if scaled > policy.failure_backoff_max {
        policy.failure_backoff_max
    } else {
        scaled
    }
}

/// Records that `action` ended with `outcome` at `now`: success completes it
/// and lifts any backoff; failure counts the failure and sets the next retry.
pub fn apply_entitlement_session_outcome(
    session_state: &mut EntitlementSessionState,
    action: EntitlementPreflightAction,
    outcome: &StudioEntitlementOutcome,
    now: i128,
    policy: &EntitlementSessionPolicy,
)
    ensures
        *final(session_state) == spec_apply_outcome(*old(session_state), action, *outcome, now, *policy),
{
    session_state.last_attempted_action = Some(action);
    session_state.last_attempted_at = Some(now);
    match outcome {
        StudioEntitlementOutcome::Failed(failure) => {
            let consecutive_failures: u32 = match session_state.backoff {
                Some(backoff) => if backoff.action == action {
                    if backoff.consecutive_failures == u32::MAX {
                        u32::MAX
                    } else {
                        backoff.consecutive_failures + 1
                    }
                } else {
                    1
                },
                None => 1,
            };
            let backoff_duration = failure_backoff_duration(
                failure.reason,
                consecutive_failures,
                policy,
            );
            let retry_not_before = match checked_add_time(now, backoff_duration) {
                Some(t) => t,
                None => now,
            };
            session_state.backoff = Some(
                EntitlementSessionBackoff {
                    action,
                    failure_reason: failure.reason,
                    consecutive_failures,
                    retry_not_before,
                },
            );
        },
        _ => {
            session_state.last_completed_action = Some(action);
            session_state.last_completed_at = Some(now);
            session_state.backoff = None;
        },
    }
}

/// The scheduler action that corresponds to an entitlement command.
pub open spec fn spec_preflight_action_of(action: StudioEntitlementAction) -> EntitlementPreflightAction {
    match action {
        StudioEntitlementAction::SyncEntitlement => EntitlementPreflightAction::SyncEntitlement,
        StudioEntitlementAction::RefreshOfflineLease => EntitlementPreflightAction::RefreshOfflineLease,
    }
}

/// Records a manually dispatched entitlement command into the session state.
pub fn record_entitlement_session_dispatch(
    session_state: &mut EntitlementSessionState,
    action: StudioEntitlementAction,
    outcome: &StudioEntitlementOutcome,
    now: i128,
    policy: &EntitlementSessionPolicy,
)
    ensures
        *final(session_state) == spec_apply_outcome(
            *old(session_state),
            spec_preflight_action_of(action),
            *outcome,
            now,
            *policy,
        ),
{
    let action = match action {
        StudioEntitlementAction::SyncEntitlement => EntitlementPreflightAction::SyncEntitlement,
        StudioEntitlementAction::RefreshOfflineLease => EntitlementPreflightAction::RefreshOfflineLease,
    };
    apply_entitlement_session_outcome(session_state, action, outcome, now, policy);
}

} // verus!

verus! {

/// The action the session tick runs at `now`: the session decision, unless
/// a backoff still holds that action back.
pub open spec fn spec_tick_decision(
    app: AppState,
    now: int,
    policy: EntitlementSessionPolicy,
    session: EntitlementSessionState,
) -> Option<(EntitlementPreflightAction, Seq<char>)> {
    match spec_session_decision(app, now, policy) {
        Some(d) => if spec_active_backoff(session, d.0, now) is Some {
            None
        } else {
            Some(d)
        },
        None => None,
    }
}

/// The action a session tick dispatches at `now`, if any.
pub fn plan_entitlement_session_tick(
    app_state: &AppState,
    now: i128,
    policy: &EntitlementSessionPolicy,
    session_state: &EntitlementSessionState,
) -> (r: Option<EntitlementPreflightDecision>)
    ensures
        decision_matches(r, spec_tick_decision(*app_state, now as int, *policy, *session_state)),
{
    match decide_entitlement_session_action(app_state, now, policy) {
        Some(decision) => if active_backoff_for_action(session_state, decision.action, now).is_some() {
            None
        } else {
            Some(decision)
        },
        None => None,
    }
}

/// Without an authenticated session nothing is due and nothing is
/// scheduled.
pub proof fn lemma_unauthenticated_session_is_idle(
    app: AppState,
    now: int,
    policy: EntitlementSessionPolicy,
)
    requires
        !spec_has_authenticated_session(app),
    ensures
        spec_preflight_decision(app, now, policy.preflight.offline_refresh_window as int) is None,
        spec_session_decision(app, now, policy) is None,
        spec_recommended_sync_at(app, policy) is None,
        spec_recommended_offline_refresh_at(app, policy) is None,
{
}

/// An authenticated session without a usable snapshot always asks for a
/// sync first.
pub proof fn lemma_missing_snapshot_asks_for_sync(
    app: AppState,
    now: int,
    policy: EntitlementSessionPolicy,
)
    requires
        spec_has_authenticated_session(app),
        spec_snapshot_unavailable(app.entitlement),
    ensures
        spec_preflight_decision(app, now, policy.preflight.offline_refresh_window as int) matches Some(
            d,
        ) && d.0 == EntitlementPreflightAction::SyncEntitlement,
        spec_session_decision(app, now, policy) matches Some(d) && d.0
            == EntitlementPreflightAction::SyncEntitlement,
{
}

/// With a usable snapshot, an expired offline lease (by status or deadline)
/// asks for a refresh.
pub proof fn lemma_expired_lease_asks_for_refresh(
    app: AppState,
    now: int,
    policy: EntitlementSessionPolicy,
)
    requires
        spec_has_authenticated_session(app),
        !spec_snapshot_unavailable(app.entitlement),
        app.entitlement.status == EntitlementStatus::LeaseExpired || (
        app.entitlement.snapshot.unwrap().offline_lease_expires_at matches Some(t) && now >= t),
    ensures
        spec_session_decision(app, now, policy) matches Some(d) && d.0
            == EntitlementPreflightAction::RefreshOfflineLease,
{
}

/// Whatever the preflight decides, the running session decides too.
pub proof fn lemma_session_decision_extends_preflight(
    app: AppState,
    now: int,
    policy: EntitlementSessionPolicy,
)
    ensures
        spec_preflight_decision(app, now, policy.preflight.offline_refresh_window as int) is Some
            ==> spec_session_decision(app, now, policy) == spec_preflight_decision(
            app,
            now,
            policy.preflight.offline_refresh_window as int,
        ),
{
}

/// A successful attempt completes the action and lifts every backoff; a
/// failed one leaves the completion record alone and sets a backoff for
/// the action. Either way the attempt is recorded.
pub proof fn lemma_outcome_updates_session(
    state: EntitlementSessionState,
    action: EntitlementPreflightAction,
    outcome: StudioEntitlementOutcome,
    now: i128,
    policy: EntitlementSessionPolicy,
)
    ensures
        ({
            let next = spec_apply_outcome(state, action, outcome, now, policy);
            &&& next.last_attempted_action == Some(action)
            &&& next.last_attempted_at == Some(now)
            &&& (outcome is Failed) ==> (next.last_completed_action == state.last_completed_action
                && next.last_completed_at == state.last_completed_at && next.backoff is Some
                && next.backoff.unwrap().action == action)
            &&& !(outcome is Failed) ==> (next.last_completed_action == Some(action)
                && next.last_completed_at == Some(now) && next.backoff is None)
        }),
{
}

/// Consecutive failures of one action count up (stopping at the largest
/// count); a failure of another action starts again at one.
pub proof fn lemma_failure_count(
    state: EntitlementSessionState,
    action: EntitlementPreflightAction,
    failure: crate::entitlement_control::StudioEntitlementFailure,
    now: i128,
    policy: EntitlementSessionPolicy,
)
    ensures
        ({
            let next = spec_apply_outcome(
                state,
                action,
                StudioEntitlementOutcome::Failed(failure),
                now,
                policy,
            );
            let count = next.backoff.unwrap().consecutive_failures;
            match state.backoff {
                Some(b) => if b.action == action {
                    count == (if b.consecutive_failures == u32::MAX {
                        u32::MAX as int
                    } else {
                        b.consecutive_failures + 1
                    })
                } else {
                    count == 1
                },
                None => count == 1,
            }
        }),
{
}

/// The wait after failures never exceeds the policy maximum, never falls
/// below the smaller of base and maximum, and never shrinks as failures
/// accumulate.
pub proof fn lemma_backoff_bounded_and_monotone(
    reason: StudioEntitlementFailureReason,
    fewer: u32,
    more: u32,
    policy: EntitlementSessionPolicy,
)
    requires
        fewer <= more,
    ensures
        spec_failure_backoff_duration(reason, more, policy) <= policy.failure_backoff_max,
        spec_failure_backoff_duration(reason, fewer, policy) <= spec_failure_backoff_duration(
            reason,
            more,
            policy,
        ),
        spec_failure_backoff_duration(reason, fewer, policy) >= (if spec_backoff_base(reason, policy)
            <= policy.failure_backoff_max {
            spec_backoff_base(reason, policy)
        } else {
            policy.failure_backoff_max as int
        }),
{
    let ef = spec_backoff_exponent(fewer);
    let em = spec_backoff_exponent(more);
    assert(ef <= em);
    vstd::arithmetic::power2::lemma_pow2_pos(ef);
    vstd::arithmetic::power2::lemma_pow2_pos(em);
    if ef < em {
        vstd::arithmetic::power2::lemma_pow2_strictly_increases(ef, em);
    }
    let base = spec_backoff_base(reason, policy);
    let pf = vstd::arithmetic::power2::pow2(ef);
    let pm = vstd::arithmetic::power2::pow2(em);
    assert(base * pf <= base * pm) by (nonlinear_arith)
        requires
            base >= 0,
            pf <= pm,
    ;
    assert(base * pf >= base) by (nonlinear_arith)
        requires
            base >= 0,
            pf >= 1,
    ;
}

/// A failed attempt holds the same action back from the attempt until its
/// retry instant, and the retry instant is never before the attempt.
pub proof fn lemma_failure_holds_action_back(
    state: EntitlementSessionState,
    action: EntitlementPreflightAction,
    failure: crate::entitlement_control::StudioEntitlementFailure,
    now: i128,
    later: int,
    policy: EntitlementSessionPolicy,
)
    ensures
        ({
            let next = spec_apply_outcome(
                state,
                action,
                StudioEntitlementOutcome::Failed(failure),
                now,
                policy,
            );
            let retry = next.backoff.unwrap().retry_not_before;
            &&& retry >= now
            &&& (now <= later < retry ==> spec_active_backoff(next, action, later) is Some)
            &&& (later >= retry ==> spec_active_backoff(next, action, later) is None)
        }),
{
    let next = spec_apply_outcome(
        state,
        action,
        StudioEntitlementOutcome::Failed(failure),
        now,
        policy,
    );
    let failures = spec_next_failure_count(state.backoff, action);
    lemma_backoff_bounded_and_monotone(failure.reason, failures, failures, policy);
}

/// While a backoff blocks the due action, the schedule's next check is its
/// retry instant, strictly after `now`; an unblocked due action is checked
/// at `now`.
pub proof fn lemma_schedule_next_check(
    s: EntitlementSessionSchedule,
    app: AppState,
    now: i128,
    policy: EntitlementSessionPolicy,
    session: EntitlementSessionState,
)
    requires
        spec_schedule_matches(s, app, now, policy, session),
    ensures
        s.blocked_by_backoff ==> (s.next_check_at is Some && s.next_check_at.unwrap() > now),
        !s.blocked_by_backoff && s.recommended_action is Some ==> s.next_check_at == Some(now),
        s.blocked_by_backoff ==> spec_tick_decision(app, now as int, policy, session) is None,
        !s.blocked_by_backoff ==> spec_tick_decision(app, now as int, policy, session)
            == spec_session_decision(app, now as int, policy),
{
}

/// After an action fails, no tick before its retry instant dispatches that
/// action again, whatever the application state at that tick; from the
/// retry instant on, the backoff no longer holds it back.
pub proof fn lemma_failed_action_waits_for_retry(
    state: EntitlementSessionState,
    action: EntitlementPreflightAction,
    failure: crate::entitlement_control::StudioEntitlementFailure,
    now: i128,
    app: AppState,
    later: int,
    policy: EntitlementSessionPolicy,
)
    ensures
        ({
            let next = spec_apply_outcome(
                state,
                action,
                StudioEntitlementOutcome::Failed(failure),
                now,
                policy,
            );
            let retry = next.backoff.unwrap().retry_not_before;
            &&& (now <= later < retry ==> !(spec_tick_decision(app, later, policy, next) matches Some(
                d,
            ) && d.0 == action))
            &&& (later >= retry ==> spec_tick_decision(app, later, policy, next)
                == spec_session_decision(app, later, policy))
        }),
{
    lemma_failure_holds_action_back(state, action, failure, now, later, policy);
    let next = spec_apply_outcome(
        state,
        action,
        StudioEntitlementOutcome::Failed(failure),
        now,
        policy,
    );
    let retry = next.backoff.unwrap().retry_not_before;
    if later >= retry {
        match spec_session_decision(app, later, policy) {
            Some(d) => {
                assert(spec_active_backoff(next, d.0, later) is None);
            },
            None => {},
        }
    }
}

/// The wait after a failure follows the failure's transience: the first
/// wait is the transient base (capped at the maximum) exactly for transient
/// failures (lost connection, unavailable service), the permanent base
/// (capped) for every other reason; and any later wait is at least the
/// first.
pub proof fn lemma_backoff_follows_transience(
    reason: StudioEntitlementFailureReason,
    failures: u32,
    policy: EntitlementSessionPolicy,
)
    ensures
        ({
            let base = if is_transient_reason(reason) {
                policy.transient_failure_backoff_base
            } else {
                policy.permanent_failure_backoff_base
            };
            base <= max_duration() ==> spec_failure_backoff_duration(reason, 1, policy) == if base
                <= policy.failure_backoff_max {
                base as int
            } else {
                policy.failure_backoff_max as int
            }
        }),
        failures >= 1 ==> spec_failure_backoff_duration(reason, 1, policy)
            <= spec_failure_backoff_duration(reason, failures, policy),
{
    vstd::arithmetic::power2::lemma2_to64();
    assert(spec_backoff_exponent(1) == 0);
    if failures >= 1 {
        lemma_backoff_bounded_and_monotone(reason, 1, failures, policy);
    }
}

} // verus!
