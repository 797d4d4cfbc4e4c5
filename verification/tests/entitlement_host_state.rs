use radishflow_studio::app_state::{
    AppState, AuthSessionState, AuthenticatedUser, SecureCredentialHandle, TokenLease, EntitlementSnapshot, EntitlementState, EntitlementStatus,
};
use radishflow_studio::entitlement_control::StudioEntitlementFailureReason;
use radishflow_studio::entitlement_preflight::{
    EntitlementPreflightAction, EntitlementSessionBackoff, EntitlementSessionPolicy,
    EntitlementSessionState,
};
use radishflow_studio::entitlement_session_driver::{
    record_entitlement_session_event, EntitlementSessionEventStep,
};
use radishflow_studio::entitlement_session_host::{
    map_lifecycle_event_to_session_event, EntitlementSessionEvent,
    snapshot_entitlement_session_host, snapshot_entitlement_session_host_state,
    snapshot_entitlement_session_host_with_context, EntitlementSessionHostContext,
    EntitlementSessionLifecycleEvent, EntitlementSessionTimerCommand,
    EntitlementSessionTimerReason,
};
use radishflow_studio::entitlement_session_host_runtime::{
    EntitlementSessionHostRuntime, EntitlementSessionHostTimerEffect,
};
use radishflow_studio::time::{duration_from_secs, time_from_secs};

fn timestamp(seconds: i64) -> i128 {
    time_from_secs(seconds)
}

fn logged_in() -> AppState {
    AppState {
        auth_session: AuthSessionState {
            authenticated: true,
            authority_url: Some("https://id.radish.local".to_string()),
            current_user: Some(AuthenticatedUser {
                subject_id: "user-123".to_string(),
                display_name: "luobo".to_string(),
            }),
            token_lease: Some(TokenLease {
                expires_at: timestamp(500),
                credential_handle: SecureCredentialHandle {
                    service: "radishflow-studio".to_string(),
                    account: "user-123-primary".to_string(),
                },
            }),
            last_authenticated_at: Some(timestamp(120)),
        },
        entitlement: EntitlementState {
            status: EntitlementStatus::Unknown,
            snapshot: None,
            last_synced_at: None,
        },
    }
}

fn update_entitlement(app_state: &mut AppState, snapshot: EntitlementSnapshot, synced_at: i128) {
    app_state.entitlement = EntitlementState {
        status: EntitlementStatus::Active,
        snapshot: Some(snapshot),
        last_synced_at: Some(synced_at),
    };
}

fn sample_snapshot(offline_lease_expires_at: i64) -> EntitlementSnapshot {
    EntitlementSnapshot {
        schema_version: 1,
        subject_id: "user-123".to_string(),
        tenant_id: Some("tenant-1".to_string()),
        issued_at: timestamp(100),
        expires_at: timestamp(400),
        offline_lease_expires_at: Some(timestamp(offline_lease_expires_at)),
        features: vec!["desktop-login".to_string()],
        allowed_package_ids: vec!["binary-hydrocarbon-lite-v1".to_string()],
    }
}

fn sample_snapshot_with_expiry(expires_at: i64, offline_lease_expires_at: i64) -> EntitlementSnapshot {
    EntitlementSnapshot {
        expires_at: timestamp(expires_at),
        ..sample_snapshot(offline_lease_expires_at)
    }
}

fn backoff_session_state() -> EntitlementSessionState {
    EntitlementSessionState {
        backoff: Some(EntitlementSessionBackoff {
            action: EntitlementPreflightAction::RefreshOfflineLease,
            failure_reason: StudioEntitlementFailureReason::ConnectionUnavailable,
            consecutive_failures: 1,
            retry_not_before: timestamp(260),
        }),
        ..EntitlementSessionState::default()
    }
}

#[test]
fn snapshot_host_state_marks_immediate_timer_when_check_is_due_now() {
    let app_state = logged_in();

    let state = snapshot_entitlement_session_host_state(
        &app_state,
        timestamp(200),
        &EntitlementSessionPolicy::default(),
        &EntitlementSessionState::default(),
    );

    let timer = state.next_timer.expect("expected timer arm");
    assert_eq!(timer.delay, 0);
    assert_eq!(timer.reason, EntitlementSessionTimerReason::ImmediateCheck);
    assert_eq!(timer.event, EntitlementSessionLifecycleEvent::TimerElapsed);
    assert!(state.host_notice.is_none());
}

#[test]
fn snapshot_host_state_marks_backoff_retry_when_scheduler_is_blocked() {
    let mut app_state = logged_in();
    update_entitlement(&mut app_state, sample_snapshot(210), timestamp(150));
    let policy = EntitlementSessionPolicy::default();
    let session_state = backoff_session_state();

    let state = snapshot_entitlement_session_host_state(
        &app_state,
        timestamp(200),
        &policy,
        &session_state,
    );

    let timer = state.next_timer.expect("expected timer arm");
    assert_eq!(timer.delay, duration_from_secs(60));
    assert_eq!(timer.reason, EntitlementSessionTimerReason::BackoffRetry);
    assert_eq!(
        state.host_notice.as_ref().map(|notice| notice.title.as_str()),
        Some("Automatic retry scheduled")
    );
}

#[test]
fn snapshot_host_includes_panel_and_timer_command() {
    let mut app_state = logged_in();
    update_entitlement(&mut app_state, sample_snapshot_with_expiry(5_000, 9_000), timestamp(150));

    let snapshot = snapshot_entitlement_session_host(
        &app_state,
        timestamp(200),
        &EntitlementSessionPolicy::default(),
        &EntitlementSessionState::default(),
        None,
    );

    assert_eq!(
        snapshot.state.host_notice.as_ref().map(|notice| notice.title.as_str()),
        Some("Automatic check scheduled")
    );
    assert!(matches!(
        snapshot.timer_command,
        Some(EntitlementSessionTimerCommand::Schedule { .. })
    ));
}

#[test]
fn snapshot_host_text_view_summarizes_schedule_timer_and_notice() {
    let mut app_state = logged_in();
    update_entitlement(&mut app_state, sample_snapshot_with_expiry(5_000, 9_000), timestamp(150));

    let snapshot = snapshot_entitlement_session_host(
        &app_state,
        timestamp(200),
        &EntitlementSessionPolicy::default(),
        &EntitlementSessionState::default(),
        None,
    );
    let text = snapshot.text(timestamp(200));

    assert_eq!(text.title, "Entitlement host");
    assert!(
        text.lines
            .iter()
            .any(|line| { line.starts_with("Next check: ") && line.contains("unix=") }),
        "expected next check line, got {:?}",
        text.lines
    );
    assert!(
        text.lines.iter().any(|line| {
            line.starts_with("Timer effect: Arm timer TimerElapsed")
                && line.contains("ScheduledCheck")
        }),
        "expected timer effect line, got {:?}",
        text.lines
    );
    assert!(
        text.lines
            .iter()
            .any(|line| line == "Host notice: Automatic check scheduled [info]"),
        "expected host notice line, got {:?}",
        text.lines
    );
}

#[test]
fn host_context_records_snapshot_and_advances_current_timer() {
    let mut app_state = logged_in();
    update_entitlement(&mut app_state, sample_snapshot_with_expiry(5_000, 9_000), timestamp(150));
    let mut context = EntitlementSessionHostContext::new();

    let snapshot = snapshot_entitlement_session_host_with_context(
        &app_state,
        timestamp(200),
        &EntitlementSessionPolicy::default(),
        &EntitlementSessionState::default(),
        &mut context,
    );

    assert_eq!(
        context.current_timer().map(|timer| timer.reason),
        Some(EntitlementSessionTimerReason::ScheduledCheck)
    );
    assert_eq!(context.last_snapshot(), Some(&snapshot));
}

#[test]
fn snapshot_host_state_exposes_scheduled_check_notice() {
    let mut app_state = logged_in();
    update_entitlement(&mut app_state, sample_snapshot_with_expiry(5_000, 9_000), timestamp(150));

    let state = snapshot_entitlement_session_host_state(
        &app_state,
        timestamp(200),
        &EntitlementSessionPolicy::default(),
        &EntitlementSessionState::default(),
    );

    let timer = state.next_timer.expect("expected timer arm");
    assert_eq!(timer.reason, EntitlementSessionTimerReason::ScheduledCheck);
    assert_eq!(
        state.host_notice.as_ref().map(|notice| notice.title.as_str()),
        Some("Automatic check scheduled")
    );
}

#[test]
fn runtime_snapshot_emits_arm_timer_effect() {
    let mut app_state = logged_in();
    update_entitlement(&mut app_state, sample_snapshot_with_expiry(5_000, 9_000), timestamp(150));
    let mut runtime = EntitlementSessionHostRuntime::new();

    let output = runtime.snapshot(
        &app_state,
        timestamp(200),
        &EntitlementSessionPolicy::default(),
        &EntitlementSessionState::default(),
    );

    match output.timer_effect {
        Some(EntitlementSessionHostTimerEffect::ArmTimer { timer }) => {
            assert_eq!(timer.reason, EntitlementSessionTimerReason::ScheduledCheck);
        }
        other => panic!("expected arm timer effect, got {other:?}"),
    }
    assert_eq!(
        runtime.current_timer().map(|timer| timer.reason),
        Some(EntitlementSessionTimerReason::ScheduledCheck)
    );
}

#[test]
fn runtime_snapshot_emits_rearm_timer_effect_for_backoff_transition() {
    let mut app_state = logged_in();
    update_entitlement(&mut app_state, sample_snapshot(210), timestamp(150));
    let mut host_runtime = EntitlementSessionHostRuntime::new();
    let _ = host_runtime.snapshot(
        &app_state,
        timestamp(200),
        &EntitlementSessionPolicy::default(),
        &EntitlementSessionState::default(),
    );
    let session_state = backoff_session_state();

    let output = host_runtime.snapshot(
        &app_state,
        timestamp(200),
        &EntitlementSessionPolicy::default(),
        &session_state,
    );

    match output.timer_effect {
        Some(EntitlementSessionHostTimerEffect::RearmTimer { previous, next }) => {
            assert_eq!(previous.reason, EntitlementSessionTimerReason::ImmediateCheck);
            assert_eq!(next.reason, EntitlementSessionTimerReason::BackoffRetry);
        }
        other => panic!("expected rearm timer effect, got {other:?}"),
    }
}

#[test]
fn runtime_snapshot_keeps_timer_when_schedule_is_unchanged() {
    let mut app_state = logged_in();
    update_entitlement(&mut app_state, sample_snapshot_with_expiry(5_000, 9_000), timestamp(150));
    let mut host_runtime = EntitlementSessionHostRuntime::new();
    let _ = host_runtime.snapshot(
        &app_state,
        timestamp(200),
        &EntitlementSessionPolicy::default(),
        &EntitlementSessionState::default(),
    );

    let output = host_runtime.snapshot(
        &app_state,
        timestamp(201),
        &EntitlementSessionPolicy::default(),
        &EntitlementSessionState::default(),
    );

    match output.timer_effect {
        Some(EntitlementSessionHostTimerEffect::KeepTimer { timer }) => {
            assert_eq!(timer.reason, EntitlementSessionTimerReason::ScheduledCheck);
        }
        other => panic!("expected keep timer effect, got {other:?}"),
    }
}

#[test]
fn runtime_remembers_its_last_output() {
    let mut app_state = logged_in();
    update_entitlement(&mut app_state, sample_snapshot_with_expiry(5_000, 9_000), timestamp(150));
    let mut runtime = EntitlementSessionHostRuntime::new();
    assert!(runtime.last_output().is_none());

    let output = runtime.snapshot(
        &app_state,
        timestamp(200),
        &EntitlementSessionPolicy::default(),
        &EntitlementSessionState::default(),
    );

    assert_eq!(runtime.last_output(), Some(output));
}

#[test]
fn lifecycle_events_map_to_session_events_and_ticks() {
    assert_eq!(
        map_lifecycle_event_to_session_event(EntitlementSessionLifecycleEvent::NetworkRestored),
        EntitlementSessionEvent::TimerElapsed
    );
    assert_eq!(
        map_lifecycle_event_to_session_event(EntitlementSessionLifecycleEvent::LoginCompleted),
        EntitlementSessionEvent::LoginCompleted
    );

    let mut state = EntitlementSessionState::default();
    let step = record_entitlement_session_event(
        &EntitlementSessionEvent::TimerElapsed,
        &mut state,
        timestamp(200),
        &EntitlementSessionPolicy::default(),
    );
    assert_eq!(step, EntitlementSessionEventStep::Tick);
    assert_eq!(state, EntitlementSessionState::default());
}
