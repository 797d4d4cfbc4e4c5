use std::cell::RefCell;

use radishflow_studio::app_state::EntitlementSnapshot;
use radishflow_studio::bootstrap::BootstrapControlPlaneClient;
use radishflow_studio::auth_cache::{
    StoredAuthCacheIndex, StoredCredentialReference, StoredEntitlementCache,
    StoredPropertyPackageRecord, StoredPropertyPackageSource,
};
use radishflow_studio::control_plane_client::{
    RadishFlowControlPlaneClientError, RadishFlowControlPlaneClientErrorKind,
    RadishFlowControlPlaneResponse, ReqwestRadishFlowControlPlaneHttpTransportOptions,
};
use radishflow_studio::entitlement_control::{
    entitlement_success_report, fetch_entitlement_sync_payload, offline_lease_refresh_outcome,
    refresh_offline_lease_step, OfflineLeaseRefreshStep, StudioEntitlementAction,
    StudioEntitlementFailureReason, StudioEntitlementOutcome,
};
use radishflow_studio::entitlement_session_host::panel_notice_with_host_notice;
use radishflow_studio::control_plane_protocol::protocol_offline_refresh_request_from_runtime;
use radishflow_studio::modeling_actions::{check_modeling_action_request, ModelingActionError};
use radishflow_studio::app_state::{EntitlementNotice, EntitlementNoticeLevel};
use radishflow_studio::control_plane_sync::{
    build_lease_request, ensure_auth_cache_allows_package, ensure_manifest_supports_download,
    RadishFlowControlPlaneClient, RadishFlowControlPlaneSyncService,
};
use radishflow_studio::document_lifecycle::{
    document_lifecycle_outcome, resolve_document_lifecycle_target, saved_project_message,
    StudioDocumentLifecycleAction, StudioDocumentLifecycleCommand,
};
use radishflow_studio::property_package::{
    OfflineLeaseRefreshRequest, OfflineLeaseRefreshResponse, PropertyPackageLeaseGrant,
    PropertyPackageLeaseRequest, PropertyPackageManifest, PropertyPackageManifestList,
    PropertyPackageSource,
};
use radishflow_studio::time::time_from_secs;

const SAMPLE_PACKAGE_ID: &str = "binary-hydrocarbon-lite-v1";
const STALE_PACKAGE_ID: &str = "stale-package-v1";

fn timestamp(seconds: i64) -> i128 {
    time_from_secs(seconds)
}

fn sample_snapshot(package_ids: &[&str]) -> EntitlementSnapshot {
    EntitlementSnapshot {
        schema_version: 1,
        subject_id: "user-123".to_string(),
        tenant_id: Some("tenant-1".to_string()),
        issued_at: timestamp(100),
        expires_at: timestamp(500),
        offline_lease_expires_at: Some(timestamp(900)),
        features: vec!["desktop-login".to_string()],
        allowed_package_ids: package_ids.iter().map(|s| s.to_string()).collect(),
    }
}

fn sample_manifest(package_id: &str) -> PropertyPackageManifest {
    let mut manifest = PropertyPackageManifest::new(
        package_id.to_string(),
        "2026.03.1".to_string(),
        PropertyPackageSource::RemoteDerivedPackage,
    );
    manifest.component_ids = vec!["methane".to_string(), "ethane".to_string()];
    manifest.hash = "sha256:pkg-1".to_string();
    manifest.size_bytes = 1024;
    manifest.expires_at = Some(timestamp(900));
    manifest
}

fn sample_manifest_list(manifests: Vec<PropertyPackageManifest>) -> PropertyPackageManifestList {
    PropertyPackageManifestList {
        schema_version: 1,
        generated_at: timestamp(205),
        packages: manifests,
    }
}

fn sample_offline_refresh_response() -> OfflineLeaseRefreshResponse {
    OfflineLeaseRefreshResponse {
        refreshed_at: timestamp(210),
        snapshot: sample_snapshot(&[SAMPLE_PACKAGE_ID]),
        manifest_list: sample_manifest_list(vec![sample_manifest(SAMPLE_PACKAGE_ID)]),
    }
}

fn sample_auth_cache_index(package_ids: &[&str]) -> StoredAuthCacheIndex {
    let mut index = StoredAuthCacheIndex::new(
        "https://id.radish.local".to_string(),
        "user-123".to_string(),
        StoredCredentialReference::new("radishflow-studio".to_string(), "user-credential".to_string()),
    );
    index.entitlement = Some(StoredEntitlementCache {
        subject_id: "user-123".to_string(),
        tenant_id: Some("tenant-1".to_string()),
        synced_at: timestamp(100),
        issued_at: timestamp(90),
        expires_at: timestamp(500),
        offline_lease_expires_at: Some(timestamp(900)),
        feature_keys: vec!["desktop-login".to_string()],
        allowed_package_ids: package_ids.iter().map(|s| s.to_string()).collect(),
    });
    index
}

fn sample_cached_record(package_id: &str, version: &str, hash: &str, size_bytes: u64) -> StoredPropertyPackageRecord {
    let mut record = StoredPropertyPackageRecord::new(
        package_id.to_string(),
        version.to_string(),
        StoredPropertyPackageSource::RemoteDerivedPackage,
        hash.to_string(),
        size_bytes,
        timestamp(120),
    );
    record.expires_at = Some(timestamp(900));
    record
}

struct ScriptedControlPlaneClient {
    manifests: Vec<PropertyPackageManifest>,
    refresh: Result<
        RadishFlowControlPlaneResponse<OfflineLeaseRefreshResponse>,
        RadishFlowControlPlaneClientError,
    >,
    last_offline_refresh_request: RefCell<Option<OfflineLeaseRefreshRequest>>,
}

impl ScriptedControlPlaneClient {
    fn new(manifests: Vec<PropertyPackageManifest>) -> Self {
        Self {
            manifests,
            refresh: Ok(RadishFlowControlPlaneResponse::new(
                sample_offline_refresh_response(),
                timestamp(230),
            )),
            last_offline_refresh_request: RefCell::new(None),
        }
    }
}

impl RadishFlowControlPlaneClient for ScriptedControlPlaneClient {
    fn fetch_entitlement_snapshot(
        &self,
        _access_token: &str,
    ) -> Result<RadishFlowControlPlaneResponse<EntitlementSnapshot>, RadishFlowControlPlaneClientError>
    {
        Ok(RadishFlowControlPlaneResponse::new(
            sample_snapshot(&[SAMPLE_PACKAGE_ID]),
            timestamp(200),
        ))
    }

    fn fetch_property_package_manifest_list(
        &self,
        _access_token: &str,
    ) -> Result<
        RadishFlowControlPlaneResponse<PropertyPackageManifestList>,
        RadishFlowControlPlaneClientError,
    > {
        Ok(RadishFlowControlPlaneResponse::new(
            sample_manifest_list(self.manifests.clone()),
            timestamp(210),
        ))
    }

    fn request_property_package_lease(
        &self,
        _access_token: &str,
        _package_id: &str,
        _request: &PropertyPackageLeaseRequest,
    ) -> Result<
        RadishFlowControlPlaneResponse<PropertyPackageLeaseGrant>,
        RadishFlowControlPlaneClientError,
    > {
        Err(RadishFlowControlPlaneClientError::new(
            RadishFlowControlPlaneClientErrorKind::OtherPermanent,
            "sync tests do not request leases".to_string(),
        ))
    }

    fn refresh_offline_leases(
        &self,
        _access_token: &str,
        request: &OfflineLeaseRefreshRequest,
    ) -> Result<
        RadishFlowControlPlaneResponse<OfflineLeaseRefreshResponse>,
        RadishFlowControlPlaneClientError,
    > {
        *self.last_offline_refresh_request.borrow_mut() = Some(request.clone());
        self.refresh.clone()
    }
}

fn sample_service(manifests: Vec<PropertyPackageManifest>) -> RadishFlowControlPlaneSyncService<ScriptedControlPlaneClient, ()> {
    RadishFlowControlPlaneSyncService::new(ScriptedControlPlaneClient::new(manifests), ())
}

#[test]
fn refresh_offline_auth_cache_applies_control_plane_response() {
    let service = sample_service(vec![sample_manifest(SAMPLE_PACKAGE_ID)]);
    let mut auth_cache_index = sample_auth_cache_index(&[SAMPLE_PACKAGE_ID, STALE_PACKAGE_ID]);
    auth_cache_index
        .property_packages
        .push(sample_cached_record(SAMPLE_PACKAGE_ID, "2026.03.1", "sha256:pkg-1", 1024));
    auth_cache_index
        .property_packages
        .push(sample_cached_record(STALE_PACKAGE_ID, "2026.03.1", "sha256:stale", 1024));

    let response = service
        .refresh_offline_auth_cache("access-token", &mut auth_cache_index)
        .expect("expected offline refresh");

    assert_eq!(
        response.snapshot.allowed_package_ids,
        vec![SAMPLE_PACKAGE_ID.to_string()]
    );
    assert_eq!(auth_cache_index.property_packages.len(), 1);
    assert_eq!(auth_cache_index.property_packages[0].package_id, SAMPLE_PACKAGE_ID);
    assert_eq!(
        service
            .control_plane_client()
            .last_offline_refresh_request
            .borrow()
            .as_ref()
            .map(|request| request.package_ids.clone()),
        Some(vec![SAMPLE_PACKAGE_ID.to_string(), STALE_PACKAGE_ID.to_string()])
    );
}

#[test]
fn refresh_failure_names_the_operation_and_keeps_the_cache() {
    let mut client = ScriptedControlPlaneClient::new(vec![]);
    client.refresh = Err(RadishFlowControlPlaneClientError::new(
        RadishFlowControlPlaneClientErrorKind::Timeout,
        "slow".to_string(),
    ));
    let service = RadishFlowControlPlaneSyncService::new(client, ());
    let mut index = sample_auth_cache_index(&[SAMPLE_PACKAGE_ID]);
    index
        .property_packages
        .push(sample_cached_record(SAMPLE_PACKAGE_ID, "2026.03.1", "sha256:pkg-1", 1024));
    let before = index.clone();

    let error = service
        .refresh_offline_auth_cache("access-token", &mut index)
        .expect_err("expected refresh failure");

    assert_eq!(error.message, "refresh offline lease failed with timeout error: slow");
    assert_eq!(index, before);
}

#[test]
fn fetch_entitlement_sync_result_uses_later_arrival() {
    let service = sample_service(vec![sample_manifest(SAMPLE_PACKAGE_ID)]);

    let result = service
        .fetch_entitlement_sync_result("access-token")
        .expect("expected entitlement sync");

    assert_eq!(result.synced_at, timestamp(210));
    assert_eq!(result.manifest_list.packages.len(), 1);
}

#[test]
fn fetch_entitlement_sync_result_rejects_manifest_outside_allowed_packages() {
    let service = sample_service(vec![sample_manifest(STALE_PACKAGE_ID)]);

    let error = service
        .fetch_entitlement_sync_result("access-token")
        .expect_err("expected manifest inconsistency");

    assert!(error.message().contains("outside allowedPackageIds"));
}

#[test]
fn lease_request_reuses_cached_hash_of_same_version() {
    let mut index = sample_auth_cache_index(&[SAMPLE_PACKAGE_ID]);
    index
        .property_packages
        .push(sample_cached_record(SAMPLE_PACKAGE_ID, "2026.03.0", "sha256:old", 512));
    index
        .property_packages
        .push(sample_cached_record(SAMPLE_PACKAGE_ID, "2026.03.1", "sha256:cached", 512));

    let request = build_lease_request(
        &index,
        &sample_manifest(SAMPLE_PACKAGE_ID),
        Some("studio-installation-001".to_string()),
    )
    .expect("expected lease request");

    assert_eq!(request.version, "2026.03.1");
    assert_eq!(request.current_hash.as_deref(), Some("sha256:cached"));
    assert_eq!(request.installation_id.as_deref(), Some("studio-installation-001"));

    let mut blank = sample_manifest(SAMPLE_PACKAGE_ID);
    blank.version = " ".to_string();
    let error = build_lease_request(&index, &blank, None).expect_err("expected version error");
    assert_eq!(
        error.message,
        "manifest for package `binary-hydrocarbon-lite-v1` must contain a non-empty version before requesting a lease"
    );
}

#[test]
fn downloads_need_a_synced_cache_and_a_leased_package() {
    let index = sample_auth_cache_index(&[SAMPLE_PACKAGE_ID]);
    assert!(ensure_auth_cache_allows_package(&index, SAMPLE_PACKAGE_ID).is_ok());
    let error = ensure_auth_cache_allows_package(&index, STALE_PACKAGE_ID).expect_err("stale");
    assert_eq!(
        error.message,
        "auth cache index is not synced for package `stale-package-v1`; sync entitlement before downloading"
    );

    assert!(ensure_manifest_supports_download(&sample_manifest(SAMPLE_PACKAGE_ID)).is_ok());
    let bundled = PropertyPackageManifest::new(
        "pkg-b".to_string(),
        "1".to_string(),
        PropertyPackageSource::LocalBundled,
    );
    let error = ensure_manifest_supports_download(&bundled).expect_err("bundled");
    assert_eq!(
        error.message,
        "package `pkg-b` cannot be downloaded because source is `LocalBundled`"
    );
    let mut unleased = sample_manifest(SAMPLE_PACKAGE_ID);
    unleased.lease_required = false;
    let error = ensure_manifest_supports_download(&unleased).expect_err("lease");
    assert_eq!(
        error.message,
        "package `binary-hydrocarbon-lite-v1` must require a lease before download"
    );
}

#[test]
fn save_commands_pick_their_target() {
    assert_eq!(
        resolve_document_lifecycle_target(
            Some("demo.rfproj.json".to_string()),
            StudioDocumentLifecycleCommand::Save
        ),
        Ok((StudioDocumentLifecycleAction::Save, "demo.rfproj.json".to_string()))
    );
    let error = resolve_document_lifecycle_target(None, StudioDocumentLifecycleCommand::Save)
        .expect_err("expected missing path");
    assert_eq!(error.message, "current document has no project path");
    let error = resolve_document_lifecycle_target(
        Some("demo".to_string()),
        StudioDocumentLifecycleCommand::SaveAs { path: String::new() },
    )
    .expect_err("expected empty path");
    assert_eq!(error.message, "save-as project path is empty");

    let outcome = document_lifecycle_outcome(
        StudioDocumentLifecycleAction::SaveAs,
        "copy.rfproj.json".to_string(),
        7,
        Some(7),
    );
    assert!(!outcome.has_unsaved_changes);
    let stale = document_lifecycle_outcome(StudioDocumentLifecycleAction::Save, "a".to_string(), 8, Some(7));
    assert!(stale.has_unsaved_changes);
    assert_eq!(saved_project_message(7, "copy.rfproj.json"), "saved project revision 7 to copy.rfproj.json");
}

#[test]
fn transport_options_default_to_thirty_seconds() {
    let options = ReqwestRadishFlowControlPlaneHttpTransportOptions::for_version("0.1.0");
    assert_eq!(options.request_timeout, 30_000_000_000);
    assert_eq!(options.user_agent, "radishflow-studio/0.1.0");
}

#[test]
fn sync_payload_combines_fetches_or_reports_disagreement() {
    let client = ScriptedControlPlaneClient::new(vec![sample_manifest(SAMPLE_PACKAGE_ID)]);
    let (snapshot, manifests, synced_at) =
        fetch_entitlement_sync_payload(&client, "access-token").expect("expected payload");
    assert_eq!(snapshot.subject_id, "user-123");
    assert_eq!(manifests.packages.len(), 1);
    assert_eq!(synced_at, timestamp(210));

    let duplicate = ScriptedControlPlaneClient::new(vec![
        sample_manifest(SAMPLE_PACKAGE_ID),
        sample_manifest(SAMPLE_PACKAGE_ID),
    ]);
    let error = fetch_entitlement_sync_payload(&duplicate, "access-token").expect_err("duplicate");
    assert_eq!(error.kind, RadishFlowControlPlaneClientErrorKind::InvalidResponse);
    assert_eq!(
        error.message,
        "control plane manifest list contains duplicate package `binary-hydrocarbon-lite-v1`"
    );
}

#[test]
fn bootstrap_client_renews_the_seeded_entitlement() {
    let snapshot = sample_snapshot(&[SAMPLE_PACKAGE_ID]);
    let manifest = sample_manifest(SAMPLE_PACKAGE_ID);
    let client = BootstrapControlPlaneClient::from_seed(&snapshot, &manifest, timestamp(1_000));

    assert_eq!(client.sync_received_at, timestamp(1_300));
    assert_eq!(client.refresh_received_at, timestamp(1_600));

    let fetched = client.fetch_entitlement_snapshot("token").expect("snapshot");
    assert_eq!(fetched.received_at, timestamp(1_300));
    assert_eq!(fetched.value.subject_id, snapshot.subject_id);
    assert_eq!(fetched.value.issued_at, snapshot.issued_at);
    assert_eq!(fetched.value.allowed_package_ids, snapshot.allowed_package_ids);
    assert_eq!(fetched.value.expires_at, timestamp(4_900));
    assert_eq!(fetched.value.offline_lease_expires_at, Some(timestamp(8_500)));

    let list = client.fetch_property_package_manifest_list("token").expect("manifests");
    assert_eq!(list.received_at, timestamp(1_300));
    assert_eq!(list.value.generated_at, timestamp(1_300));
    assert_eq!(list.value.packages, vec![manifest.clone()]);

    let (synced, manifests, synced_at) =
        fetch_entitlement_sync_payload(&client, "token").expect("sync payload");
    assert_eq!(synced, fetched.value);
    assert_eq!(manifests.packages.len(), 1);
    assert_eq!(synced_at, timestamp(1_300));

    let lease = client
        .request_property_package_lease("token", SAMPLE_PACKAGE_ID, &PropertyPackageLeaseRequest::new("2026.03.1".to_string()))
        .expect_err("no leases");
    assert_eq!(lease.kind, RadishFlowControlPlaneClientErrorKind::OtherPermanent);
    assert_eq!(lease.message, "bootstrap control plane client does not issue property package leases");

    let refreshed = client
        .refresh_offline_leases(
            "token",
            &OfflineLeaseRefreshRequest {
                package_ids: vec![SAMPLE_PACKAGE_ID.to_string()],
                current_offline_lease_expires_at: None,
                installation_id: None,
            },
        )
        .expect("refresh");
    assert_eq!(refreshed.received_at, timestamp(1_600));
    assert_eq!(refreshed.value.refreshed_at, timestamp(1_600));
    assert_eq!(refreshed.value.snapshot.expires_at, timestamp(4_900));
    assert_eq!(refreshed.value.snapshot.offline_lease_expires_at, Some(timestamp(8_800)));
    assert_eq!(refreshed.value.manifest_list.generated_at, timestamp(1_600));
    assert_eq!(refreshed.value.manifest_list.packages, vec![manifest]);
}

#[test]
fn offline_lease_refresh_step_applies_the_answer() {
    let client = ScriptedControlPlaneClient::new(vec![]);
    let mut index = sample_auth_cache_index(&[SAMPLE_PACKAGE_ID]);
    index
        .property_packages
        .push(sample_cached_record(SAMPLE_PACKAGE_ID, "2026.03.1", "sha256:pkg-1", 1024));

    let step = refresh_offline_lease_step(&client, &mut index, "access");

    assert!(matches!(step, OfflineLeaseRefreshStep::Applied(_)));
    assert_eq!(index.last_synced_at, Some(timestamp(210)));
    assert_eq!(offline_lease_refresh_outcome(&step), StudioEntitlementOutcome::OfflineLeaseRefreshed);
    let (notice, log) = entitlement_success_report(StudioEntitlementAction::RefreshOfflineLease);
    assert_eq!(notice.title, "Offline lease refreshed");
    assert_eq!(notice.level, EntitlementNoticeLevel::Info);
    assert_eq!(log, "Refreshed offline lease state from control plane");
    let (notice, log) = entitlement_success_report(StudioEntitlementAction::SyncEntitlement);
    assert_eq!(notice.title, "Entitlement synced");
    assert_eq!(log, "Synced entitlement snapshot and property package manifests from control plane");
}

#[test]
fn offline_lease_refresh_failures_choose_their_reason() {
    let mut client = ScriptedControlPlaneClient::new(vec![]);
    client.refresh = Err(RadishFlowControlPlaneClientError::new(
        RadishFlowControlPlaneClientErrorKind::Unauthorized,
        "token expired".to_string(),
    ));
    let mut index = sample_auth_cache_index(&[SAMPLE_PACKAGE_ID]);
    let before = index.clone();
    let step = refresh_offline_lease_step(&client, &mut index, "access");
    assert_eq!(index, before);
    match offline_lease_refresh_outcome(&step) {
        StudioEntitlementOutcome::Failed(failure) => {
            assert_eq!(failure.reason, StudioEntitlementFailureReason::AuthenticationRequired);
            assert_eq!(failure.message, "token expired");
        }
        other => panic!("expected failure, got {other:?}"),
    }

    let client = ScriptedControlPlaneClient::new(vec![]);
    let mut foreign = StoredAuthCacheIndex::new(
        "https://id.radish.local".to_string(),
        "someone-else".to_string(),
        StoredCredentialReference::new("radishflow-studio".to_string(), "other".to_string()),
    );
    let step = refresh_offline_lease_step(&client, &mut foreign, "access");
    assert!(matches!(step, OfflineLeaseRefreshStep::LocalStateRejected(_)));
    match offline_lease_refresh_outcome(&step) {
        StudioEntitlementOutcome::Failed(failure) => {
            assert_eq!(failure.reason, StudioEntitlementFailureReason::LocalStateInvalid);
        }
        other => panic!("expected failure, got {other:?}"),
    }
}

#[test]
fn runtime_notice_wins_over_host_notice() {
    let host = Some(EntitlementNotice {
        level: EntitlementNoticeLevel::Info,
        title: "Automatic check scheduled".to_string(),
        message: "later".to_string(),
    });
    let runtime = EntitlementNotice {
        level: EntitlementNoticeLevel::Info,
        title: "Runtime notice".to_string(),
        message: "runtime notice should win".to_string(),
    };
    assert_eq!(panel_notice_with_host_notice(Some(runtime.clone()), &host), Some(runtime));
    assert_eq!(panel_notice_with_host_notice(None, &host), host);
    assert_eq!(panel_notice_with_host_notice(None, &None), None);
}

#[test]
fn wire_refresh_request_lists_each_package_once_in_order() {
    let request = OfflineLeaseRefreshRequest {
        package_ids: vec!["b".to_string(), "a".to_string(), "b".to_string()],
        current_offline_lease_expires_at: Some(timestamp(900)),
        installation_id: Some("install-1".to_string()),
    };
    let wire = protocol_offline_refresh_request_from_runtime(&request);
    assert_eq!(wire.package_ids, vec!["a".to_string(), "b".to_string()]);
    assert_eq!(wire.current_offline_lease_expires_at, Some(timestamp(900)));
    assert_eq!(wire.installation_id, Some("install-1".to_string()));
}

#[test]
fn modeling_action_guards_come_in_order() {
    assert_eq!(check_modeling_action_request("doc", 3, "doc", 3, false, false), Ok(()));
    assert_eq!(
        check_modeling_action_request("other", 2, "doc", 3, true, true),
        Err(ModelingActionError::DifferentDocument)
    );
    assert_eq!(
        check_modeling_action_request("doc", 2, "doc", 3, true, true),
        Err(ModelingActionError::RevisionConflict { expected: 2, actual: 3 })
    );
    assert_eq!(
        check_modeling_action_request("doc", 3, "doc", 3, true, true),
        Err(ModelingActionError::PendingDrafts)
    );
    assert_eq!(
        check_modeling_action_request("doc", 3, "doc", 3, false, true),
        Err(ModelingActionError::PendingCanvasEdit)
    );
}

#[test]
fn package_lease_is_asked_for_only_after_the_checks() {
    let service = sample_service(vec![]);
    let manifest = sample_manifest(SAMPLE_PACKAGE_ID);

    let unsynced = StoredAuthCacheIndex::new(
        "https://id.radish.local".to_string(),
        "user-123".to_string(),
        StoredCredentialReference::new("radishflow-studio".to_string(), "user-credential".to_string()),
    );
    let error = service
        .request_entitled_package_lease(&unsynced, &manifest, SAMPLE_PACKAGE_ID, "token", None)
        .expect_err("no entitlement");
    assert_eq!(
        error.message,
        "auth cache index must contain entitlement before downloading property packages"
    );

    let index = sample_auth_cache_index(&[SAMPLE_PACKAGE_ID]);
    let mut bundled = sample_manifest(SAMPLE_PACKAGE_ID);
    bundled.source = PropertyPackageSource::LocalBundled;
    assert!(service
        .request_entitled_package_lease(&index, &bundled, SAMPLE_PACKAGE_ID, "token", None)
        .expect_err("not downloadable")
        .message
        .contains("cannot be downloaded"));

    let error = service
        .request_entitled_package_lease(&index, &manifest, SAMPLE_PACKAGE_ID, "token", None)
        .expect_err("scripted client grants nothing");
    assert_eq!(
        error.message,
        "request property package lease failed with other-permanent error: sync tests do not request leases"
    );
}
