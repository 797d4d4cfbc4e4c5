use radishflow_studio::app_state::{
    AppState, AuthSessionState, AuthenticatedUser, SecureCredentialHandle, TokenLease, EntitlementSnapshot, EntitlementState, EntitlementStatus,
};
use radishflow_studio::entitlement_control::{
    StudioEntitlementAction, StudioEntitlementFailure, StudioEntitlementFailureReason,
    StudioEntitlementOutcome,
};
use radishflow_studio::entitlement_preflight::{
    apply_entitlement_session_outcome, decide_entitlement_preflight_action,
    failure_backoff_duration, plan_entitlement_session_tick, record_entitlement_session_dispatch,
    snapshot_entitlement_session_schedule, EntitlementPreflightAction, EntitlementPreflightPolicy,
    EntitlementSessionBackoff, EntitlementSessionPolicy, EntitlementSessionState,
};
use radishflow_studio::time::{duration_from_secs, time_from_secs};

fn timestamp(seconds: i64) -> i128 {
    time_from_secs(seconds)
}

fn logged_out() -> AppState {
    AppState {
        auth_session: AuthSessionState {
            authenticated: false,
            authority_url: None,
            current_user: None,
            token_lease: None,
            last_authenticated_at: None,
        },
        entitlement: EntitlementState {
            status: EntitlementStatus::Unknown,
            snapshot: None,
            last_synced_at: None,
        },
    }
}

fn complete_login(app_state: &mut AppState) {
    app_state.auth_session = AuthSessionState {
        authenticated: true,
        authority_url: Some("https://id.radish.local".to_string()),
            current_user: Some(AuthenticatedUser {
                subject_id: "user-123".to_string(),
                display_name: "luobo".to_string(),
            }),
            token_lease: Some(TokenLease {
                expires_at: timestamp(500),
                credential_handle: SecureCredentialHandle {
                    service: "radishflow-studio".to_string(),
                    account: "user-123-primary".to_string(),
                },
            }),
        last_authenticated_at: Some(timestamp(120)),
    };
}

fn update_entitlement(app_state: &mut AppState, snapshot: EntitlementSnapshot, synced_at: i128) {
    app_state.entitlement = EntitlementState {
        status: EntitlementStatus::Active,
        snapshot: Some(snapshot),
        last_synced_at: Some(synced_at),
    };
}

fn sample_snapshot(offline_lease_expires_at: i64) -> EntitlementSnapshot {
    EntitlementSnapshot {
        schema_version: 1,
        subject_id: "user-123".to_string(),
        tenant_id: Some("tenant-1".to_string()),
        issued_at: timestamp(100),
        expires_at: timestamp(400),
        offline_lease_expires_at: Some(timestamp(offline_lease_expires_at)),
        features: vec!["desktop-login".to_string()],
        allowed_package_ids: vec!["binary-hydrocarbon-lite-v1".to_string()],
    }
}

fn sample_snapshot_with_expiry(expires_at: i64, offline_lease_expires_at: i64) -> EntitlementSnapshot {
    EntitlementSnapshot {
        expires_at: timestamp(expires_at),
        ..sample_snapshot(offline_lease_expires_at)
    }
}

#[test]
fn preflight_requires_authenticated_session() {
    let app_state = logged_out();

    let decision = decide_entitlement_preflight_action(
        &app_state,
        timestamp(200),
        &EntitlementPreflightPolicy::default(),
    );

    assert_eq!(decision, None);
}

#[test]
fn preflight_syncs_when_snapshot_is_missing() {
    let mut app_state = logged_out();
    complete_login(&mut app_state);

    let decision = decide_entitlement_preflight_action(
        &app_state,
        timestamp(200),
        &EntitlementPreflightPolicy::default(),
    )
    .expect("expected preflight decision");

    assert_eq!(decision.action, EntitlementPreflightAction::SyncEntitlement);
}

#[test]
fn preflight_refreshes_when_offline_lease_is_near_expiry() {
    let mut app_state = logged_out();
    complete_login(&mut app_state);
    update_entitlement(&mut app_state, sample_snapshot(210), timestamp(150));

    let decision = decide_entitlement_preflight_action(
        &app_state,
        timestamp(200),
        &EntitlementPreflightPolicy::default(),
    )
    .expect("expected preflight decision");

    assert_eq!(
        decision.action,
        EntitlementPreflightAction::RefreshOfflineLease
    );
}

#[test]
fn preflight_dispatch_returns_none_when_entitlement_is_fresh() {
    let mut app_state = logged_out();
    complete_login(&mut app_state);
    update_entitlement(&mut app_state, sample_snapshot(5_000), timestamp(150));

    let decision = decide_entitlement_preflight_action(
        &app_state,
        timestamp(200),
        &EntitlementPreflightPolicy::default(),
    );

    assert_eq!(decision, None);
}

#[test]
fn session_schedule_recommends_sync_when_snapshot_is_near_expiry() {
    let mut app_state = logged_out();
    complete_login(&mut app_state);
    update_entitlement(
        &mut app_state,
        sample_snapshot_with_expiry(260, 5_000),
        timestamp(150),
    );

    let schedule = snapshot_entitlement_session_schedule(
        &app_state,
        timestamp(200),
        &EntitlementSessionPolicy::default(),
        &EntitlementSessionState::default(),
    );

    assert_eq!(
        schedule.recommended_action,
        Some(EntitlementPreflightAction::SyncEntitlement)
    );
    assert_eq!(
        schedule.recommended_reason,
        Some("entitlement snapshot is approaching expiration and should be synchronized")
    );
    assert_eq!(schedule.next_check_at, Some(timestamp(200)));
    assert!(!schedule.blocked_by_backoff);
}

#[test]
fn session_tick_records_backoff_after_sync_failure() {
    let mut app_state = logged_out();
    complete_login(&mut app_state);
    let policy = EntitlementSessionPolicy::default();
    let mut session_state = EntitlementSessionState::default();

    let decision = plan_entitlement_session_tick(&app_state, timestamp(200), &policy, &session_state)
        .expect("expected executed session tick");
    assert_eq!(decision.action, EntitlementPreflightAction::SyncEntitlement);
    apply_entitlement_session_outcome(
        &mut session_state,
        decision.action,
        &StudioEntitlementOutcome::Failed(StudioEntitlementFailure {
            reason: StudioEntitlementFailureReason::ConnectionUnavailable,
            message: "offline".to_string(),
        }),
        timestamp(200),
        &policy,
    );
    let schedule =
        snapshot_entitlement_session_schedule(&app_state, timestamp(200), &policy, &session_state);

    assert!(schedule.blocked_by_backoff);
    assert_eq!(schedule.next_check_at, Some(timestamp(260)));
    assert_eq!(
        schedule.backoff.as_ref().map(|backoff| backoff.failure_reason),
        Some(StudioEntitlementFailureReason::ConnectionUnavailable)
    );
    assert_eq!(
        session_state
            .backoff
            .as_ref()
            .map(|backoff| backoff.consecutive_failures),
        Some(1)
    );
    assert_eq!(
        plan_entitlement_session_tick(&app_state, timestamp(200), &policy, &session_state),
        None
    );
}

#[test]
fn session_schedule_uses_backoff_for_manual_entitlement_failures() {
    let mut app_state = logged_out();
    complete_login(&mut app_state);
    update_entitlement(
        &mut app_state,
        sample_snapshot_with_expiry(260, 5_000),
        timestamp(150),
    );
    let policy = EntitlementSessionPolicy::default();
    let mut session_state = EntitlementSessionState::default();
    record_entitlement_session_dispatch(
        &mut session_state,
        StudioEntitlementAction::SyncEntitlement,
        &StudioEntitlementOutcome::Failed(StudioEntitlementFailure {
            reason: StudioEntitlementFailureReason::AuthenticationRequired,
            message: "token expired".to_string(),
        }),
        timestamp(200),
        &policy,
    );

    let schedule =
        snapshot_entitlement_session_schedule(&app_state, timestamp(205), &policy, &session_state);

    assert_eq!(
        schedule.recommended_action,
        Some(EntitlementPreflightAction::SyncEntitlement)
    );
    assert!(schedule.blocked_by_backoff);
    assert_eq!(schedule.next_check_at, Some(timestamp(800)));
    assert_eq!(
        schedule.backoff.as_ref().map(|backoff| backoff.failure_reason),
        Some(StudioEntitlementFailureReason::AuthenticationRequired)
    );
}

#[test]
fn session_tick_clears_backoff_after_successful_refresh() {
    let mut app_state = logged_out();
    complete_login(&mut app_state);
    update_entitlement(&mut app_state, sample_snapshot(210), timestamp(150));
    let policy = EntitlementSessionPolicy::default();
    let mut session_state = EntitlementSessionState {
        backoff: Some(EntitlementSessionBackoff {
            action: EntitlementPreflightAction::RefreshOfflineLease,
            failure_reason: StudioEntitlementFailureReason::ConnectionUnavailable,
            consecutive_failures: 2,
            retry_not_before: timestamp(190),
        }),
        ..EntitlementSessionState::default()
    };

    let decision = plan_entitlement_session_tick(&app_state, timestamp(200), &policy, &session_state)
        .expect("expected executed session tick");
    assert_eq!(
        decision.action,
        EntitlementPreflightAction::RefreshOfflineLease
    );
    apply_entitlement_session_outcome(
        &mut session_state,
        decision.action,
        &StudioEntitlementOutcome::OfflineLeaseRefreshed,
        timestamp(200),
        &policy,
    );
    let schedule =
        snapshot_entitlement_session_schedule(&app_state, timestamp(200), &policy, &session_state);

    assert_eq!(session_state.backoff, None);
    assert!(!schedule.blocked_by_backoff);
    assert_eq!(session_state.last_completed_at, Some(timestamp(200)));
}

#[test]
fn preflight_reports_expired_lease_status_and_passed_deadline() {
    let mut app_state = logged_out();
    complete_login(&mut app_state);
    update_entitlement(&mut app_state, sample_snapshot(5_000), timestamp(150));
    app_state.entitlement.status = EntitlementStatus::LeaseExpired;
    let decision = decide_entitlement_preflight_action(
        &app_state,
        timestamp(200),
        &EntitlementPreflightPolicy::default(),
    )
    .unwrap();
    assert_eq!(decision.reason, "offline lease is already expired and must be refreshed");

    app_state.entitlement.status = EntitlementStatus::Active;
    let decision = decide_entitlement_preflight_action(
        &app_state,
        timestamp(5_000),
        &EntitlementPreflightPolicy::default(),
    )
    .unwrap();
    assert_eq!(decision.reason, "offline lease deadline has passed");

    let decision = decide_entitlement_preflight_action(
        &app_state,
        timestamp(4_000),
        &EntitlementPreflightPolicy::default(),
    )
    .unwrap();
    assert_eq!(
        decision.reason,
        "offline lease is approaching expiration and should be refreshed"
    );
}

#[test]
fn session_decision_syncs_expired_snapshot_and_schedules_windows() {
    let mut app_state = logged_out();
    complete_login(&mut app_state);
    update_entitlement(
        &mut app_state,
        sample_snapshot_with_expiry(3_000, 10_000),
        timestamp(150),
    );
    let policy = EntitlementSessionPolicy::default();
    let schedule = snapshot_entitlement_session_schedule(
        &app_state,
        timestamp(3_000),
        &policy,
        &EntitlementSessionState::default(),
    );
    assert_eq!(
        schedule.recommended_reason,
        Some("entitlement snapshot has expired and should be synchronized")
    );
    assert_eq!(schedule.next_sync_at, Some(timestamp(3_000 - 900)));
    assert_eq!(schedule.next_offline_refresh_at, Some(timestamp(10_000 - 1_800)));

    let quiet = snapshot_entitlement_session_schedule(
        &app_state,
        timestamp(200),
        &policy,
        &EntitlementSessionState::default(),
    );
    assert_eq!(quiet.recommended_action, None);
    assert_eq!(quiet.next_check_at, Some(timestamp(2_100)));
}

#[test]
fn sync_window_before_epoch_saturates_to_epoch() {
    let mut app_state = logged_out();
    complete_login(&mut app_state);
    update_entitlement(&mut app_state, sample_snapshot(5_000), timestamp(150));
    let policy = EntitlementSessionPolicy {
        entitlement_sync_window: duration_from_secs(u64::MAX),
        ..EntitlementSessionPolicy::default()
    };
    let schedule = snapshot_entitlement_session_schedule(
        &app_state,
        timestamp(10_000),
        &policy,
        &EntitlementSessionState::default(),
    );
    assert_eq!(schedule.next_sync_at, Some(0));
}

#[test]
fn backoff_doubles_per_failure_and_stops_at_the_maximum() {
    let policy = EntitlementSessionPolicy::default();
    let reason = StudioEntitlementFailureReason::ServiceUnavailable;
    assert_eq!(failure_backoff_duration(reason, 0, &policy), duration_from_secs(60));
    assert_eq!(failure_backoff_duration(reason, 1, &policy), duration_from_secs(60));
    assert_eq!(failure_backoff_duration(reason, 2, &policy), duration_from_secs(120));
    assert_eq!(failure_backoff_duration(reason, 3, &policy), duration_from_secs(240));
    assert_eq!(failure_backoff_duration(reason, 7, &policy), duration_from_secs(3_600));
    assert_eq!(failure_backoff_duration(reason, u32::MAX, &policy), duration_from_secs(3_600));
    assert_eq!(
        failure_backoff_duration(StudioEntitlementFailureReason::AccessDenied, 1, &policy),
        duration_from_secs(600)
    );
    assert_eq!(
        failure_backoff_duration(StudioEntitlementFailureReason::AccessDenied, 3, &policy),
        duration_from_secs(2_400)
    );
}

#[test]
fn consecutive_failures_count_per_action() {
    let policy = EntitlementSessionPolicy::default();
    let mut state = EntitlementSessionState::default();
    let failed = StudioEntitlementOutcome::Failed(StudioEntitlementFailure {
        reason: StudioEntitlementFailureReason::ConnectionUnavailable,
        message: "offline".to_string(),
    });
    apply_entitlement_session_outcome(
        &mut state,
        EntitlementPreflightAction::SyncEntitlement,
        &failed,
        timestamp(100),
        &policy,
    );
    apply_entitlement_session_outcome(
        &mut state,
        EntitlementPreflightAction::SyncEntitlement,
        &failed,
        timestamp(200),
        &policy,
    );
    let backoff = state.backoff.unwrap();
    assert_eq!(backoff.consecutive_failures, 2);
    assert_eq!(backoff.retry_not_before, timestamp(320));
    assert_eq!(state.last_attempted_at, Some(timestamp(200)));
    assert_eq!(state.last_completed_at, None);

    apply_entitlement_session_outcome(
        &mut state,
        EntitlementPreflightAction::RefreshOfflineLease,
        &failed,
        timestamp(300),
        &policy,
    );
    assert_eq!(state.backoff.unwrap().consecutive_failures, 1);
    assert_eq!(
        state.backoff.unwrap().action,
        EntitlementPreflightAction::RefreshOfflineLease
    );
}

#[test]
fn failed_sync_is_not_retried_until_its_retry_instant() {
    let mut app_state = logged_out();
    complete_login(&mut app_state);
    let policy = EntitlementSessionPolicy::default();
    let mut session_state = EntitlementSessionState::default();
    apply_entitlement_session_outcome(
        &mut session_state,
        EntitlementPreflightAction::SyncEntitlement,
        &StudioEntitlementOutcome::Failed(StudioEntitlementFailure {
            reason: StudioEntitlementFailureReason::ConnectionUnavailable,
            message: "offline".to_string(),
        }),
        timestamp(200),
        &policy,
    );
    for second in [200, 230, 259] {
        assert_eq!(
            plan_entitlement_session_tick(&app_state, timestamp(second), &policy, &session_state),
            None
        );
    }
    let decision = plan_entitlement_session_tick(&app_state, timestamp(260), &policy, &session_state)
        .expect("retry at its instant");
    assert_eq!(decision.action, EntitlementPreflightAction::SyncEntitlement);
}
