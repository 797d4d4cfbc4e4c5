use radishflow_studio::app_facade::{
    StudioWorkspaceRunBlocked, StudioWorkspaceRunFailed, StudioWorkspaceRunOutcome,
    describe_simulation_mode, record_workspace_run_log, SimulationMode, StudioAppCommandKind, StudioAppExecutionBoundary,
    StudioAppExecutionLane, blocked_run_log_message, map_workspace_run_blocked, map_workspace_run_failed,
    skipped_run_log_message, StudioWorkspaceRunBlockedReason, StudioWorkspaceRunFailedReason,
    WorkspaceRunDiagnostic, WorkspaceSolveSkipReason,
};
use radishflow_studio::error::ErrorCode;
use radishflow_studio::app_state::EntitlementSnapshot;
use radishflow_studio::bootstrap::{
    bootstrap_auth_cache_index, bootstrap_lifecycle_event, bootstrap_manifest, bootstrap_snapshot, StudioBootstrapEntitlementSeed,
    StudioBootstrapEntitlementSessionEvent,
};
use radishflow_studio::control_plane_client::{
    RadishFlowControlPlaneClientError, RadishFlowControlPlaneClientErrorKind,
};
use radishflow_studio::control_plane_protocol::{
    entitlement_snapshot_from_protocol, property_package_lease_grant_from_protocol,
    property_package_manifest_from_protocol, property_package_manifest_list_from_protocol,
    ProtocolEntitlementSnapshot, ProtocolPropertyPackageClassification,
    ProtocolPropertyPackageLeaseGrant, ProtocolPropertyPackageManifest,
    ProtocolPropertyPackageManifestList, ProtocolPropertyPackageSource,
};
use radishflow_studio::control_plane_sync::validate_manifest_sync_consistency;
use radishflow_studio::entitlement_control::{
    entitlement_failure_effect, log_payload_for_failure, map_client_error_to_failure,
    notice_for_failure, push_log_if_needed, AppLogEntry, AppLogLevel, StudioEntitlementAction,
    StudioEntitlementFailure, StudioEntitlementFailureReason,
};
use radishflow_studio::app_state::EntitlementStatus;
use radishflow_studio::app_state::EntitlementNoticeLevel;
use radishflow_studio::entitlement_session_host::EntitlementSessionLifecycleEvent;
use radishflow_studio::entitlement_session_host_presentation::{
    format_duration, format_system_time,
};
use radishflow_studio::headless::{
    blocked_code, check_project_identity, check_run_request, check_step_id,
    request_edits_kind, RequestEditsKind,
    current_result_verdict, failure, help, parse_headless_arguments, run_verdict, Document,
    HeadlessCommand, select_material_connection, ConnectionCandidate,
    ConnectionSelectionError, identity_of_effect, step_failure,
    BoundIdentity, Bindings, Field, IdentityKind, IdentityReference, Object, ObjectReference,
    Port, PortReference, ReferenceTarget, Section, Status, StepEffect, Target,
    OUTPUT_ERROR_EXIT_CODE,
};
use radishflow_studio::property_package::{
    PropertyPackageClassification, PropertyPackageManifest, PropertyPackageSource,
};
use radishflow_studio::text::{decimal_string, is_blank};
use radishflow_studio::time::{
    checked_add_time, checked_sub_time, duration_from_secs, duration_since,
    earliest_system_time, time_from_secs,
};

fn timestamp(seconds: i64) -> i128 {
    time_from_secs(seconds)
}

fn protocol_snapshot() -> ProtocolEntitlementSnapshot {
    ProtocolEntitlementSnapshot {
        schema_version: 1,
        subject_id: "user-123".to_string(),
        tenant_id: Some("tenant-1".to_string()),
        issued_at: timestamp(100),
        expires_at: timestamp(500),
        offline_lease_expires_at: Some(timestamp(900)),
        features: vec!["desktop-login".to_string()],
        allowed_package_ids: vec!["pkg-1".to_string()],
    }
}

fn protocol_manifest(package_id: &str) -> ProtocolPropertyPackageManifest {
    ProtocolPropertyPackageManifest {
        schema_version: 1,
        package_id: package_id.to_string(),
        version: "2026.03.1".to_string(),
        classification: ProtocolPropertyPackageClassification::Derived,
        source: ProtocolPropertyPackageSource::Download,
        hash: "sha256:pkg-1".to_string(),
        size_bytes: 1024,
        component_ids: vec!["methane".to_string(), "ethane".to_string()],
        lease_required: true,
        expires_at: Some(timestamp(900)),
    }
}

fn runtime_manifest(package_id: &str) -> PropertyPackageManifest {
    PropertyPackageManifest::new(
        package_id.to_string(),
        "2026.03.1".to_string(),
        PropertyPackageSource::RemoteDerivedPackage,
    )
}

fn runtime_snapshot(allowed: &[&str]) -> EntitlementSnapshot {
    EntitlementSnapshot {
        schema_version: 1,
        subject_id: "user-123".to_string(),
        tenant_id: None,
        issued_at: timestamp(100),
        expires_at: timestamp(500),
        offline_lease_expires_at: None,
        features: vec![],
        allowed_package_ids: allowed.iter().map(|s| s.to_string()).collect(),
    }
}

#[test]
fn time_arithmetic_checks_its_range() {
    assert_eq!(timestamp(2), 2_000_000_000);
    assert_eq!(checked_add_time(timestamp(1), duration_from_secs(2)), Some(timestamp(3)));
    assert_eq!(checked_sub_time(timestamp(1), duration_from_secs(2)), Some(timestamp(-1)));
    assert_eq!(checked_add_time(i128::MAX, 1), None);
    assert_eq!(duration_since(timestamp(5), timestamp(3)), Some(duration_from_secs(2)));
    assert_eq!(duration_since(timestamp(3), timestamp(5)), None);
    assert_eq!(earliest_system_time(Some(5), Some(3)), Some(3));
    assert_eq!(earliest_system_time(None, Some(3)), Some(3));
    assert_eq!(earliest_system_time(None, None), None);
}

#[test]
fn decimal_and_blank_text() {
    assert_eq!(decimal_string(0), "0");
    assert_eq!(decimal_string(9071), "9071");
    assert!(is_blank(" \t\n\u{3000}"));
    assert!(!is_blank(" x "));
}

#[test]
fn durations_and_instants_are_written_for_people() {
    assert_eq!(format_duration(duration_from_secs(0)), "0s");
    assert_eq!(format_duration(duration_from_secs(59)), "59s");
    assert_eq!(format_duration(duration_from_secs(60)), "1m");
    assert_eq!(format_duration(duration_from_secs(3_599)), "59m");
    assert_eq!(format_duration(duration_from_secs(3_660)), "1h1m");
    assert_eq!(format_duration(duration_from_secs(90_000)), "1d1h");
    assert_eq!(format_system_time(timestamp(260), timestamp(200)), "in 1m (unix=260s)");
    assert_eq!(format_system_time(timestamp(150), timestamp(200)), "50s ago (unix=150s)");
    assert_eq!(format_system_time(timestamp(-5), timestamp(0)), "5s ago (unix=before-epochs)");
}

#[test]
fn exit_codes_follow_status() {
    assert_eq!(Status::Success.exit_code(), 0);
    assert_eq!(Status::Error.exit_code(), 2);
    assert_eq!(Status::Blocked.exit_code(), 3);
    assert_eq!(Status::Failed.exit_code(), 4);
    assert_eq!(OUTPUT_ERROR_EXIT_CODE, 5);
}

#[test]
fn blocked_codes_name_each_reason() {
    assert_eq!(
        blocked_code(StudioWorkspaceRunBlockedReason::EntitlementMismatch),
        "entitlement_mismatch"
    );
}

#[test]
fn step_messages_quote_step_ids() {
    let mut bindings = Bindings::new();
    bindings.insert("a\"b".to_string(), BoundIdentity::NoIdentity);
    let error = check_step_id(&bindings, "a\"b").expect_err("duplicate");
    assert_eq!(error.message, "step \"a\\\"b\" already completed");
}

#[test]
fn step_ids_must_be_fresh_and_not_blank() {
    let mut bindings = Bindings::new();
    let error = check_step_id(&bindings, "  ").expect_err("expected blank id error");
    assert_eq!(error.code, "empty_step_id");
    assert_eq!(error.stage, "step");

    bindings.insert("feed".to_string(), BoundIdentity::Unit("feed-1".to_string()));
    let error = check_step_id(&bindings, "feed").expect_err("expected duplicate id error");
    assert_eq!(error.code, "duplicate_step_id");
    assert_eq!(error.message, "step \"feed\" already completed");
    assert!(check_step_id(&bindings, "heater").is_ok());
}

#[test]
fn step_references_resolve_to_bound_identities() {
    let mut bindings = Bindings::new();
    bindings.insert(
        "feed".to_string(),
        identity_of_effect(&StepEffect::Created { unit_id: "feed-1".to_string() }),
    );
    assert_eq!(
        bindings.resolve(IdentityReference::Step("feed".to_string()), IdentityKind::Unit),
        Ok("feed-1".to_string())
    );
    assert_eq!(
        bindings.resolve(IdentityReference::Id("raw".to_string()), IdentityKind::Stream),
        Ok("raw".to_string())
    );
    let error = bindings
        .resolve(IdentityReference::Step("feed".to_string()), IdentityKind::Stream)
        .expect_err("expected kind mismatch");
    assert_eq!(error.code, "reference_kind_mismatch");
    let error = bindings
        .resolve(IdentityReference::Step("later".to_string()), IdentityKind::Unit)
        .expect_err("expected unknown step");
    assert_eq!(error.code, "unknown_step_reference");
    assert_eq!(error.message, "step \"later\" has not completed");

    bindings.insert("feed".to_string(), BoundIdentity::Unit("feed-2".to_string()));
    assert_eq!(bindings.get("feed"), Some(BoundIdentity::Unit("feed-2".to_string())));
}

#[test]
fn protocol_snapshot_checks_schema_and_subject() {
    let snapshot = entitlement_snapshot_from_protocol(protocol_snapshot()).expect("snapshot");
    assert_eq!(snapshot.subject_id, "user-123");
    assert_eq!(snapshot.offline_lease_expires_at, Some(timestamp(900)));

    let mut foreign = protocol_snapshot();
    foreign.schema_version = 2;
    let error = entitlement_snapshot_from_protocol(foreign).expect_err("expected schema error");
    assert_eq!(error.kind, RadishFlowControlPlaneClientErrorKind::InvalidResponse);
    assert_eq!(error.message, "unsupported entitlement snapshot schema version `2`");

    let mut blank = protocol_snapshot();
    blank.subject_id = " ".to_string();
    let error = entitlement_snapshot_from_protocol(blank).expect_err("expected subject error");
    assert_eq!(error.message, "entitlement snapshot must contain a non-empty subjectId");
}

#[test]
fn protocol_manifest_checks_source_rules() {
    let manifest = property_package_manifest_from_protocol(protocol_manifest("pkg-1"))
        .expect("manifest");
    assert_eq!(manifest.source, PropertyPackageSource::RemoteDerivedPackage);
    assert_eq!(manifest.classification, PropertyPackageClassification::Derived);
    assert!(manifest.lease_required);
    assert_eq!(manifest.component_ids.len(), 2);

    let mut wrong_class = protocol_manifest("pkg-1");
    wrong_class.classification = ProtocolPropertyPackageClassification::RemoteOnly;
    let error = property_package_manifest_from_protocol(wrong_class).expect_err("class error");
    assert_eq!(
        error.message,
        "property package manifest classification `RemoteOnly` does not match source `RemoteDerivedPackage`"
    );

    let mut wrong_lease = protocol_manifest("pkg-1");
    wrong_lease.lease_required = false;
    let error = property_package_manifest_from_protocol(wrong_lease).expect_err("lease error");
    assert_eq!(
        error.message,
        "property package manifest leaseRequired `false` does not match source `RemoteDerivedPackage`"
    );

    let mut blank_version = protocol_manifest("pkg-1");
    blank_version.version = String::new();
    let error = property_package_manifest_from_protocol(blank_version).expect_err("version");
    assert_eq!(error.message, "property package manifest must contain a non-empty version");

    let list = ProtocolPropertyPackageManifestList {
        schema_version: 1,
        generated_at: timestamp(200),
        packages: vec![protocol_manifest("pkg-1"), protocol_manifest("")],
    };
    let error = property_package_manifest_list_from_protocol(list).expect_err("list error");
    assert_eq!(error.message, "property package manifest must contain a non-empty packageId");
}

#[test]
fn protocol_lease_grant_needs_its_identifiers() {
    let grant = ProtocolPropertyPackageLeaseGrant {
        package_id: "pkg-1".to_string(),
        version: "2026.03.1".to_string(),
        lease_id: "lease-1".to_string(),
        download_url: "https://assets.radish.local/leases/lease-1/download".to_string(),
        hash: "sha256:pkg-1".to_string(),
        size_bytes: 1024,
        expires_at: timestamp(250),
    };
    let runtime = property_package_lease_grant_from_protocol(grant.clone()).expect("grant");
    assert_eq!(runtime.lease_id, "lease-1");
    assert_eq!(runtime.expires_at, timestamp(250));

    let mut blank = grant;
    blank.lease_id = "  ".to_string();
    assert!(property_package_lease_grant_from_protocol(blank).is_err());
}

#[test]
fn sync_rejects_manifest_outside_allowed_packages_and_duplicates() {
    let snapshot = runtime_snapshot(&["pkg-1"]);
    assert!(validate_manifest_sync_consistency(&snapshot, &vec![runtime_manifest("pkg-1")]).is_ok());

    let error = validate_manifest_sync_consistency(
        &snapshot,
        &vec![runtime_manifest("pkg-1"), runtime_manifest("pkg-2")],
    )
    .expect_err("expected outside error");
    assert_eq!(
        error.message,
        "control plane manifest list returned package `pkg-2` outside allowedPackageIds"
    );

    let error = validate_manifest_sync_consistency(
        &snapshot,
        &vec![runtime_manifest("pkg-1"), runtime_manifest("pkg-1")],
    )
    .expect_err("expected duplicate error");
    assert_eq!(
        error.message,
        "control plane manifest list contains duplicate package `pkg-1`"
    );
}

#[test]
fn client_failures_become_notices_and_log_lines() {
    let failure = map_client_error_to_failure(RadishFlowControlPlaneClientError::new(
        RadishFlowControlPlaneClientErrorKind::ConnectionUnavailable,
        "offline".to_string(),
    ));
    assert_eq!(failure.reason, StudioEntitlementFailureReason::ConnectionUnavailable);
    let notice = notice_for_failure(&failure);
    assert_eq!(notice.level, EntitlementNoticeLevel::Warning);
    assert_eq!(notice.title, "Connection unavailable");
    let (level, line) = log_payload_for_failure(StudioEntitlementAction::SyncEntitlement, &failure);
    assert_eq!(level, AppLogLevel::Warning);
    assert_eq!(line, "sync entitlement failed: offline");

    let denied = map_client_error_to_failure(RadishFlowControlPlaneClientError::new(
        RadishFlowControlPlaneClientErrorKind::Forbidden,
        "no".to_string(),
    ));
    assert_eq!(denied.reason, StudioEntitlementFailureReason::AccessDenied);
    assert_eq!(notice_for_failure(&denied).level, EntitlementNoticeLevel::Error);
}

#[test]
fn bootstrap_seeds_one_package_snapshot() {
    let snapshot = bootstrap_snapshot(
        "pkg-1",
        timestamp(1_000),
        StudioBootstrapEntitlementSeed::LeaseExpiringSoon,
    );
    assert_eq!(snapshot.subject_id, "bootstrap-user");
    assert_eq!(snapshot.issued_at, timestamp(940));
    assert_eq!(snapshot.expires_at, timestamp(4_600));
    assert_eq!(snapshot.offline_lease_expires_at, Some(timestamp(1_010)));
    assert_eq!(snapshot.allowed_package_ids, vec!["pkg-1".to_string()]);
    assert_eq!(
        bootstrap_lifecycle_event(StudioBootstrapEntitlementSessionEvent::NetworkRestored),
        EntitlementSessionLifecycleEvent::NetworkRestored
    );
}

#[test]
fn workspace_run_errors_map_to_blocked_and_failed_outcomes() {

    let blocked = map_workspace_run_blocked(
        Some(WorkspaceRunDiagnostic::EntitlementMismatch),
        ErrorCode::InvalidInput,
        "package not allowed".to_string(),
    );
    assert_eq!(blocked.reason, StudioWorkspaceRunBlockedReason::EntitlementMismatch);
    assert_eq!(
        blocked_run_log_message(&blocked),
        "Blocked workspace run because package not allowed"
    );
    assert_eq!(
        map_workspace_run_blocked(None, ErrorCode::MissingEntity, "gone".to_string()).reason,
        StudioWorkspaceRunBlockedReason::CachedPackageMissing
    );
    assert_eq!(
        map_workspace_run_blocked(
            Some(WorkspaceRunDiagnostic::LocalCacheUnavailable),
            ErrorCode::InvalidInput,
            "x".to_string()
        )
        .reason,
        StudioWorkspaceRunBlockedReason::InvalidSelection
    );

    let failed = map_workspace_run_failed(None, true, None, "pkg-1", "diverged");
    assert_eq!(failed.reason, StudioWorkspaceRunFailedReason::SolveFailed);
    assert_eq!(
        failed.message,
        "workspace run with property package `pkg-1` failed: diverged"
    );
    let logged = map_workspace_run_failed(None, true, Some("flash failed".to_string()), "pkg-1", "x");
    assert_eq!(logged.message, "flash failed");
    let cache = map_workspace_run_failed(
        Some(WorkspaceRunDiagnostic::LocalCacheUnavailable),
        true,
        None,
        "pkg-1",
        "missing payload",
    );
    assert_eq!(cache.reason, StudioWorkspaceRunFailedReason::LocalCacheUnavailable);
    assert_eq!(
        cache.message,
        "failed to prepare local property package cache for `pkg-1`: missing payload"
    );
    assert_eq!(
        skipped_run_log_message(WorkspaceSolveSkipReason::HoldMode),
        "Skipped workspace run because simulation mode is Hold"
    );
}

#[test]
fn bootstrap_seeds_auth_cache_and_manifest() {

    let (index, snapshot) = bootstrap_auth_cache_index(
        "pkg-1",
        "sha256:pkg-1",
        1024,
        timestamp(1_000),
        StudioBootstrapEntitlementSeed::Synced,
    );
    assert_eq!(index.subject_id, "bootstrap-user");
    assert_eq!(index.last_synced_at, Some(timestamp(1_000)));
    assert_eq!(
        index.entitlement.as_ref().map(|e| e.allowed_package_ids.clone()),
        Some(vec!["pkg-1".to_string()])
    );
    assert_eq!(index.property_packages.len(), 1);
    assert_eq!(index.property_packages[0].version, "2026.04.2");
    assert_eq!(index.property_packages[0].expires_at, Some(timestamp(4_600)));
    assert_eq!(snapshot.offline_lease_expires_at, Some(timestamp(8_200)));

    let (missing, _) = bootstrap_auth_cache_index(
        "pkg-1",
        "sha256:pkg-1",
        1024,
        timestamp(1_000),
        StudioBootstrapEntitlementSeed::MissingSnapshot,
    );
    assert!(missing.entitlement.is_none());
    assert_eq!(missing.last_synced_at, None);

    let manifest = bootstrap_manifest(
        "pkg-1",
        "sha256:pkg-1",
        1024,
        timestamp(1_000),
        &vec!["methane".to_string(), "ethane".to_string()],
    );
    assert!(manifest.lease_required);
    assert_eq!(manifest.version, "2026.04.2");
    assert_eq!(manifest.expires_at, Some(timestamp(4_600)));
}

#[test]
fn reference_targets_resolve_units_streams_and_ports() {
    let mut bindings = Bindings::new();
    bindings.insert(
        "connect".to_string(),
        identity_of_effect(&StepEffect::Connected {
            stream_id: "s-1".to_string(),
            source: Port { unit_id: "feed-1".to_string(), port: "outlet".to_string() },
            sink: None,
        }),
    );
    bindings.insert("feed".to_string(), BoundIdentity::Unit("feed-1".to_string()));

    let target = Target {
        object: Object::Stream("s-9".to_string()),
        section: Section::Inputs,
        field: Field::Temperature,
    };
    let reference = ReferenceTarget::from_target(target.clone());
    assert_eq!(
        reference.object,
        ObjectReference::Stream(IdentityReference::Id("s-9".to_string()))
    );
    assert_eq!(bindings.resolve_target(reference), Ok(target));

    let by_step = ReferenceTarget {
        object: ObjectReference::Stream(IdentityReference::Step("connect".to_string())),
        section: Section::Results,
        field: Field::MolarFlow,
    };
    let resolved = bindings.resolve_target(by_step).expect("stream step");
    assert_eq!(resolved.object, Object::Stream("s-1".to_string()));

    let wrong_kind = ReferenceTarget {
        object: ObjectReference::Unit(IdentityReference::Step("connect".to_string())),
        section: Section::Inputs,
        field: Field::Name,
    };
    assert_eq!(
        bindings.resolve_target(wrong_kind).expect_err("kind").code,
        "reference_kind_mismatch"
    );

    let port = bindings
        .port(PortReference {
            unit: IdentityReference::Step("feed".to_string()),
            port: "outlet".to_string(),
        })
        .expect("port");
    assert_eq!(port, Port { unit_id: "feed-1".to_string(), port: "outlet".to_string() });

    let error = step_failure(failure("write", "bad_value", "no".to_string()), 3);
    assert_eq!(error.stage, "step");
    assert_eq!(error.code, "bad_value");
    assert_eq!(error.index, Some(3));
}

#[test]
fn commands_run_in_their_lane() {
    assert_eq!(
        StudioAppCommandKind::RunWorkspace.execution_boundary(),
        StudioAppExecutionBoundary::Inline(StudioAppExecutionLane::WorkspaceSolve)
    );
    assert_eq!(
        StudioAppCommandKind::SetWorkspaceSimulationMode.execution_boundary(),
        StudioAppExecutionBoundary::Inline(StudioAppExecutionLane::WorkspaceControl)
    );
    assert_eq!(
        StudioAppCommandKind::RefreshOfflineLease.execution_boundary(),
        StudioAppExecutionBoundary::Inline(StudioAppExecutionLane::EntitlementControl)
    );
    assert_eq!(describe_simulation_mode(SimulationMode::Hold), "Hold");
    assert_eq!(describe_simulation_mode(SimulationMode::Active), "Active");
}

fn port(unit: &str, name: &str) -> Port {
    Port { unit_id: unit.to_string(), port: name.to_string() }
}

#[test]
fn connections_are_chosen_only_when_unique() {
    let candidates = vec![
        ConnectionCandidate {
            stream_id: "s-1".to_string(),
            source: port("feed-1", "outlet"),
            sink: Some(port("heater-1", "inlet")),
        },
        ConnectionCandidate {
            stream_id: "s-2".to_string(),
            source: port("feed-1", "outlet"),
            sink: None,
        },
        ConnectionCandidate {
            stream_id: "s-3".to_string(),
            source: port("feed-1", "outlet"),
            sink: Some(port("heater-1", "inlet")),
        },
    ];
    assert_eq!(
        select_material_connection(&candidates, &port("feed-1", "outlet"), &None, &None),
        Ok(1)
    );
    assert_eq!(
        select_material_connection(
            &candidates,
            &port("feed-1", "outlet"),
            &Some(port("heater-1", "inlet")),
            &None
        ),
        Err(ConnectionSelectionError::AmbiguousConnection)
    );
    assert_eq!(
        select_material_connection(
            &candidates,
            &port("feed-1", "outlet"),
            &Some(port("heater-1", "inlet")),
            &Some("s-3".to_string())
        ),
        Ok(2)
    );
    assert_eq!(
        select_material_connection(&candidates, &port("mixer-1", "outlet"), &None, &None),
        Err(ConnectionSelectionError::ConnectionUnavailable)
    );
}

#[test]
fn headless_arguments_select_a_command() {
    let args = |items: &[&str]| items.iter().map(|s| s.to_string()).collect::<Vec<_>>();
    assert_eq!(parse_headless_arguments(&args(&["--help"])), Ok(HeadlessCommand::Help));
    assert_eq!(
        parse_headless_arguments(&args(&["run", "request.json"])),
        Ok(HeadlessCommand::Run("request.json".to_string()))
    );
    assert_eq!(
        parse_headless_arguments(&args(&["inspect", "demo.rfproj.json"])),
        Ok(HeadlessCommand::Inspect("demo.rfproj.json".to_string()))
    );
    let error = parse_headless_arguments(&args(&[])).expect_err("no arguments");
    assert_eq!(error.stage, "arguments");
    assert_eq!(error.code, "invalid_arguments");
    assert_eq!(error.message, help());
    assert!(help().contains("5 output error"));
}

#[test]
fn run_requests_are_checked_before_loading() {
    assert!(check_run_request(1, "p.json", "cache", "auth.json").is_ok());
    assert_eq!(
        check_run_request(2, "p.json", "cache", "auth.json").expect_err("version").code,
        "unsupported_version"
    );
    assert_eq!(
        check_run_request(1, "p.json", "", "auth.json").expect_err("root").message,
        "cache_root must not be empty"
    );
    let document = Document { id: "doc-1".to_string(), revision: 4 };
    assert!(check_project_identity("doc-1", 4, &document).is_ok());
    assert_eq!(
        check_project_identity("doc-2", 4, &document).expect_err("doc").code,
        "different_document"
    );
    assert_eq!(
        check_project_identity("doc-1", 3, &document).expect_err("revision").message,
        "expected revision 3, found 4"
    );
}

#[test]
fn run_outcomes_set_response_status() {
    assert_eq!(run_verdict(&StudioWorkspaceRunOutcome::Started), None);
    let (status, error) = run_verdict(&StudioWorkspaceRunOutcome::Blocked(StudioWorkspaceRunBlocked {
        reason: StudioWorkspaceRunBlockedReason::PendingInspectorDrafts,
        message: "drafts".to_string(),
    }))
    .expect("blocked");
    assert_eq!(status, Status::Blocked);
    assert_eq!(error.code, "pending_inspector_drafts");
    let (status, error) = run_verdict(&StudioWorkspaceRunOutcome::Failed(StudioWorkspaceRunFailed {
        reason: StudioWorkspaceRunFailedReason::SolveFailed,
        message: "diverged".to_string(),
    }))
    .expect("failed");
    assert_eq!(status, Status::Failed);
    assert_eq!(error.code, "solve_failed");
    let (status, error) =
        run_verdict(&StudioWorkspaceRunOutcome::Skipped(WorkspaceSolveSkipReason::NoPendingRequest))
            .expect("skipped");
    assert_eq!(status, Status::Blocked);
    assert_eq!(error.message, "workspace has no pending request");

    assert_eq!(current_result_verdict(Some((true, 4)), 4), None);
    let (status, error) = current_result_verdict(Some((true, 3)), 4).expect("stale");
    assert_eq!(status, Status::Failed);
    assert_eq!(error.code, "no_current_result");
    assert!(current_result_verdict(None, 4).is_some());
}

#[test]
fn log_entry_is_pushed_unless_it_repeats_the_last_one() {
    let mut entries: Vec<AppLogEntry> = Vec::new();
    push_log_if_needed(&mut entries, AppLogLevel::Info, "synced");
    assert_eq!(entries.len(), 1);
    push_log_if_needed(&mut entries, AppLogLevel::Info, "synced");
    assert_eq!(entries.len(), 1);
    push_log_if_needed(&mut entries, AppLogLevel::Warning, "synced");
    assert_eq!(entries.len(), 2);
    push_log_if_needed(&mut entries, AppLogLevel::Warning, "offline");
    assert_eq!(entries.len(), 3);
    push_log_if_needed(&mut entries, AppLogLevel::Info, "synced");
    assert_eq!(entries.len(), 4);
    assert_eq!(entries[3], AppLogEntry { level: AppLogLevel::Info, message: "synced".to_string() });
    assert_eq!(entries[1].level, AppLogLevel::Warning);
}

#[test]
fn failure_with_snapshot_keeps_status_and_warns() {
    let failure = StudioEntitlementFailure {
        reason: StudioEntitlementFailureReason::ConnectionUnavailable,
        message: "offline".to_string(),
    };
    let effect = entitlement_failure_effect(
        EntitlementStatus::Active,
        true,
        &failure,
        StudioEntitlementAction::SyncEntitlement,
    );
    assert_eq!(effect.kept_status, Some(EntitlementStatus::Active));
    assert_eq!(effect.error_message, "sync entitlement failed: offline");
    assert_eq!(effect.notice.title, "Connection unavailable");
    assert_eq!(effect.notice.level, EntitlementNoticeLevel::Warning);
    assert_eq!(effect.notice.message, "offline");
    assert!(!effect.login_error);
    assert_eq!(effect.log_level, AppLogLevel::Warning);
}

#[test]
fn failure_needing_login_marks_the_session() {
    let failure = StudioEntitlementFailure {
        reason: StudioEntitlementFailureReason::AuthenticationRequired,
        message: "token expired".to_string(),
    };
    let effect = entitlement_failure_effect(
        EntitlementStatus::Unknown,
        false,
        &failure,
        StudioEntitlementAction::RefreshOfflineLease,
    );
    assert_eq!(effect.kept_status, None);
    assert_eq!(effect.error_message, "refresh offline lease failed: token expired");
    assert_eq!(effect.notice.title, "Login required");
    assert_eq!(effect.notice.level, EntitlementNoticeLevel::Error);
    assert!(effect.login_error);
    assert_eq!(effect.log_level, AppLogLevel::Error);
}

#[test]
fn request_versions_select_their_edits() {
    assert_eq!(request_edits_kind(1), Ok(RequestEditsKind::Writes));
    assert_eq!(request_edits_kind(2), Ok(RequestEditsKind::Steps));
    let error = request_edits_kind(3).unwrap_err();
    assert_eq!(error.stage, "request");
    assert_eq!(error.code, "unsupported_version");
    assert_eq!(error.message, "supported schema_version values are 1 and 2");
    assert_eq!(error.index, None);
}

#[test]
fn run_outcomes_leave_their_log_lines_once() {
    let mut entries: Vec<AppLogEntry> = Vec::new();
    record_workspace_run_log(&mut entries, &StudioWorkspaceRunOutcome::Started);
    assert!(entries.is_empty());
    let skipped = StudioWorkspaceRunOutcome::Skipped(WorkspaceSolveSkipReason::HoldMode);
    record_workspace_run_log(&mut entries, &skipped);
    record_workspace_run_log(&mut entries, &skipped);
    assert_eq!(entries.len(), 1);
    assert_eq!(entries[0].level, AppLogLevel::Info);
    assert_eq!(
        entries[0].message,
        "Skipped workspace run because simulation mode is Hold"
    );
    let blocked = StudioWorkspaceRunOutcome::Blocked(StudioWorkspaceRunBlocked {
        reason: StudioWorkspaceRunBlockedReason::PendingInspectorDrafts,
        message: "drafts are pending".to_string(),
    });
    record_workspace_run_log(&mut entries, &blocked);
    assert_eq!(entries[1].level, AppLogLevel::Warning);
    assert_eq!(entries[1].message, "Blocked workspace run because drafts are pending");
    let failed = StudioWorkspaceRunOutcome::Failed(StudioWorkspaceRunFailed {
        reason: StudioWorkspaceRunFailedReason::SolveFailed,
        message: "solver diverged".to_string(),
    });
    record_workspace_run_log(&mut entries, &failed);
    assert_eq!(entries.len(), 3);
    assert_eq!(entries[2], AppLogEntry { level: AppLogLevel::Error, message: "solver diverged".to_string() });
}
