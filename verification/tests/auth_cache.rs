use radishflow_studio::app_state::{
    AuthSessionState, AuthenticatedUser, EntitlementSnapshot, EntitlementState, EntitlementStatus,
    SecureCredentialHandle, TokenLease,
};
use radishflow_studio::auth_cache::{
    apply_offline_refresh_to_auth_cache, build_auth_cache_index, build_offline_refresh_request,
    record_downloaded_package, sync_auth_cache_index, StoredAuthCacheIndex,
    StoredCredentialReference, StoredEntitlementCache, StoredPropertyPackageRecord,
    StoredPropertyPackageSource,
};
use radishflow_studio::property_package::{
    OfflineLeaseRefreshResponse, PropertyPackageLeaseGrant, PropertyPackageManifest,
    PropertyPackageManifestList, PropertyPackageSource,
};
use radishflow_studio::time::time_from_secs;

fn timestamp(seconds: i64) -> i128 {
    time_from_secs(seconds)
}

fn strings(items: &[&str]) -> Vec<String> {
    items.iter().map(|s| s.to_string()).collect()
}

fn sample_auth_session(subject_id: &str) -> AuthSessionState {
    AuthSessionState {
        authenticated: true,
        authority_url: Some("https://id.radish.local".to_string()),
        current_user: Some(AuthenticatedUser {
            subject_id: subject_id.to_string(),
            display_name: "user@radish.local".to_string(),
        }),
        token_lease: Some(TokenLease {
            expires_at: timestamp(400),
            credential_handle: SecureCredentialHandle {
                service: "radishflow-studio".to_string(),
                account: "user-credential".to_string(),
            },
        }),
        last_authenticated_at: Some(timestamp(120)),
    }
}

fn sample_entitlement_state(
    subject_id: &str,
    allowed_package_ids: &[&str],
    synced_at: i64,
    offline_lease_expires_at: Option<i64>,
) -> EntitlementState {
    EntitlementState {
        status: EntitlementStatus::Active,
        snapshot: Some(EntitlementSnapshot {
            schema_version: 1,
            subject_id: subject_id.to_string(),
            tenant_id: Some("tenant-1".to_string()),
            issued_at: timestamp(100),
            expires_at: timestamp(500),
            offline_lease_expires_at: offline_lease_expires_at.map(timestamp),
            features: strings(&["desktop-login", "local-thermo-packages"]),
            allowed_package_ids: strings(allowed_package_ids),
        }),
        last_synced_at: Some(timestamp(synced_at)),
    }
}

fn empty_index() -> StoredAuthCacheIndex {
    StoredAuthCacheIndex::new(
        "https://id.radish.local".to_string(),
        "user-123".to_string(),
        StoredCredentialReference::new("radishflow-studio".to_string(), "user-credential".to_string()),
    )
}

fn cached_entitlement(allowed: &[&str], offline_lease_expires_at: i64) -> StoredEntitlementCache {
    StoredEntitlementCache {
        subject_id: "user-123".to_string(),
        tenant_id: Some("tenant-1".to_string()),
        synced_at: timestamp(100),
        issued_at: timestamp(90),
        expires_at: timestamp(500),
        offline_lease_expires_at: Some(timestamp(offline_lease_expires_at)),
        feature_keys: strings(&["desktop-login"]),
        allowed_package_ids: strings(allowed),
    }
}

fn record(package_id: &str, version: &str, hash: &str, size: u64, at: i64) -> StoredPropertyPackageRecord {
    StoredPropertyPackageRecord::new(
        package_id.to_string(),
        version.to_string(),
        StoredPropertyPackageSource::RemoteDerivedPackage,
        hash.to_string(),
        size,
        timestamp(at),
    )
}

fn manifest(package_id: &str, version: &str) -> PropertyPackageManifest {
    PropertyPackageManifest::new(
        package_id.to_string(),
        version.to_string(),
        PropertyPackageSource::RemoteDerivedPackage,
    )
}

fn grant(package_id: &str, version: &str, hash: &str, size: u64) -> PropertyPackageLeaseGrant {
    PropertyPackageLeaseGrant {
        package_id: package_id.to_string(),
        version: version.to_string(),
        lease_id: "lease-1".to_string(),
        download_url: "https://assets.radish.local/lease-1".to_string(),
        hash: hash.to_string(),
        size_bytes: size,
        expires_at: timestamp(210),
    }
}

fn check_build_auth_cache_index() {
    let auth_session = sample_auth_session("user-123");
    let entitlement = sample_entitlement_state("user-123", &["pkg-1"], 140, Some(700));

    let index =
        build_auth_cache_index(&auth_session, &entitlement).expect("expected auth cache index");

    assert_eq!(index.authority_url, "https://id.radish.local");
    assert_eq!(index.subject_id, "user-123");
    assert_eq!(index.credential.service, "radishflow-studio");
    assert_eq!(index.last_synced_at, Some(timestamp(140)));
    assert!(index.property_packages.is_empty());
}

fn check_sync_prunes_and_refreshes() {
    let auth_session = sample_auth_session("user-123");
    let entitlement = sample_entitlement_state("user-123", &["pkg-1"], 150, Some(900));
    let mut index = empty_index();
    let mut kept = record("pkg-1", "2026.03.1", "sha256:pkg-1", 1024, 120);
    kept.expires_at = Some(timestamp(300));
    index.property_packages.push(kept);
    index
        .property_packages
        .push(record("pkg-2", "2026.03.1", "sha256:pkg-2", 2048, 121));

    sync_auth_cache_index(&mut index, &auth_session, &entitlement).expect("expected sync");

    assert_eq!(index.property_packages.len(), 1);
    assert_eq!(index.property_packages[0].package_id, "pkg-1");
    assert_eq!(index.property_packages[0].expires_at, Some(timestamp(900)));
}

fn check_offline_refresh_request() {
    let mut index = empty_index();
    index.entitlement = Some(cached_entitlement(&["pkg-1", "pkg-2"], 700));
    index
        .property_packages
        .push(record("pkg-1", "2026.03.1", "sha256:pkg-1", 1024, 110));
    index
        .property_packages
        .push(record("pkg-2", "2026.03.1", "sha256:pkg-2", 2048, 111));

    let request = build_offline_refresh_request(&index).expect("expected offline refresh request");

    assert_eq!(request.package_ids, strings(&["pkg-1", "pkg-2"]));
    assert_eq!(request.current_offline_lease_expires_at, Some(timestamp(700)));
}

fn check_record_download() {
    let mut index = empty_index();
    index.entitlement = Some(cached_entitlement(&["pkg-1"], 900));
    index
        .property_packages
        .push(record("pkg-1", "2026.03.0", "sha256:old", 512, 80));
    let mut manifest = manifest("pkg-1", "2026.03.1");
    manifest.hash = "sha256:new".to_string();
    manifest.size_bytes = 1024;
    let lease_grant = grant("pkg-1", "2026.03.1", "sha256:new", 1024);

    record_downloaded_package(&mut index, &manifest, &lease_grant, timestamp(200))
        .expect("expected downloaded package record");

    assert_eq!(index.property_packages.len(), 1);
    assert_eq!(index.property_packages[0].version, "2026.03.1");
    assert_eq!(index.property_packages[0].expires_at, Some(timestamp(900)));
}

fn check_apply_offline_refresh() {
    let mut index = empty_index();
    index.entitlement = Some(cached_entitlement(&["pkg-1", "pkg-2"], 700));
    index
        .property_packages
        .push(record("pkg-1", "2026.03.1", "sha256:pkg-1", 1024, 110));
    index
        .property_packages
        .push(record("pkg-2", "2026.03.1", "sha256:stale", 2048, 111));
    let snapshot = EntitlementSnapshot {
        schema_version: 1,
        subject_id: "user-123".to_string(),
        tenant_id: Some("tenant-1".to_string()),
        issued_at: timestamp(200),
        expires_at: timestamp(600),
        offline_lease_expires_at: Some(timestamp(950)),
        features: strings(&["desktop-login", "local-thermo-packages"]),
        allowed_package_ids: strings(&["pkg-1"]),
    };
    let mut manifest = manifest("pkg-1", "2026.03.1");
    manifest.hash = "sha256:pkg-1".to_string();
    manifest.size_bytes = 1024;
    let response = OfflineLeaseRefreshResponse {
        refreshed_at: timestamp(210),
        snapshot,
        manifest_list: PropertyPackageManifestList {
            schema_version: 1,
            generated_at: timestamp(205),
            packages: vec![manifest],
        },
    };

    apply_offline_refresh_to_auth_cache(&mut index, &response).expect("expected offline refresh");

    assert_eq!(index.property_packages.len(), 1);
    assert_eq!(index.property_packages[0].package_id, "pkg-1");
    assert_eq!(index.property_packages[0].expires_at, Some(timestamp(950)));
    assert_eq!(index.last_synced_at, Some(timestamp(210)));
}

#[test]
fn auth_cache_sync_build_auth_cache_index_requires_consistent_authenticated_state() {
    check_build_auth_cache_index();
}

#[test]
fn tests_build_auth_cache_index_requires_consistent_authenticated_state() {
    check_build_auth_cache_index();
}

#[test]
fn auth_cache_sync_sync_auth_cache_index_prunes_disallowed_packages_and_refreshes_expiration() {
    check_sync_prunes_and_refreshes();
}

#[test]
fn tests_sync_auth_cache_index_prunes_disallowed_packages_and_refreshes_expiration() {
    check_sync_prunes_and_refreshes();
}

#[test]
fn auth_cache_sync_build_offline_refresh_request_uses_cached_package_ids() {
    check_offline_refresh_request();
}

#[test]
fn tests_build_offline_refresh_request_uses_cached_package_ids() {
    check_offline_refresh_request();
}

#[test]
fn auth_cache_sync_record_downloaded_package_uses_entitlement_expiration_not_download_url_expiration() {
    check_record_download();
}

#[test]
fn tests_record_downloaded_package_uses_entitlement_expiration_not_download_url_expiration() {
    check_record_download();
}

#[test]
fn auth_cache_sync_apply_offline_refresh_prunes_stale_cached_packages() {
    check_apply_offline_refresh();
}

#[test]
fn tests_apply_offline_refresh_prunes_stale_cached_packages() {
    check_apply_offline_refresh();
}

#[test]
fn sync_refuses_identity_gaps_and_foreign_entitlements() {
    let entitlement = sample_entitlement_state("user-123", &["pkg-1"], 140, None);
    let mut session = sample_auth_session("user-123");
    session.authority_url = Some("  ".to_string());
    let error = build_auth_cache_index(&session, &entitlement).expect_err("authority");
    assert_eq!(error.message, "auth session must contain a non-empty authority_url");

    let mut session = sample_auth_session("user-123");
    session.token_lease = None;
    let error = build_auth_cache_index(&session, &entitlement).expect_err("lease");
    assert_eq!(
        error.message,
        "auth session must contain token_lease before syncing auth cache"
    );

    let session = sample_auth_session("user-999");
    let error = build_auth_cache_index(&session, &entitlement).expect_err("subject");
    assert_eq!(
        error.message,
        "entitlement subject_id `user-123` does not match authenticated user `user-999`"
    );

    let mut entitlement = sample_entitlement_state("user-123", &["pkg-1"], 140, None);
    entitlement.last_synced_at = None;
    let mut index = empty_index();
    index.authority_url = "https://old.radish.local".to_string();
    let error = sync_auth_cache_index(&mut index, &sample_auth_session("user-123"), &entitlement)
        .expect_err("sync instant");
    assert_eq!(
        error.message,
        "entitlement state with snapshot must contain last_synced_at"
    );
    assert_eq!(index.authority_url, "https://id.radish.local");
    assert!(index.entitlement.is_none());
}

#[test]
fn sync_without_offline_lease_uses_entitlement_expiry() {
    let auth_session = sample_auth_session("user-123");
    let entitlement = sample_entitlement_state("user-123", &["pkg-1"], 150, None);
    let mut index = empty_index();
    index
        .property_packages
        .push(record("pkg-1", "2026.03.1", "sha256:pkg-1", 1024, 120));

    sync_auth_cache_index(&mut index, &auth_session, &entitlement).expect("expected sync");
    let once = index.clone();
    sync_auth_cache_index(&mut index, &auth_session, &entitlement).expect("expected sync");

    assert_eq!(index.property_packages[0].expires_at, Some(timestamp(500)));
    assert_eq!(index, once);
}

#[test]
fn record_download_refuses_mismatched_grants_and_keeps_order() {
    let mut index = empty_index();
    index.entitlement = Some(cached_entitlement(&["pkg-a", "pkg-b", "pkg-c"], 900));
    index
        .property_packages
        .push(record("pkg-c", "1", "sha256:c", 3, 80));
    index
        .property_packages
        .push(record("pkg-a", "1", "sha256:a", 1, 81));

    let mut listed = manifest("pkg-b", "2");
    listed.hash = "sha256:b".to_string();
    listed.size_bytes = 2;

    let error = record_downloaded_package(
        &mut index,
        &listed,
        &grant("pkg-b", "3", "sha256:b", 2),
        timestamp(200),
    )
    .expect_err("version");
    assert_eq!(
        error.message,
        "lease grant version `3` does not match manifest version `2`"
    );
    let error = record_downloaded_package(
        &mut index,
        &listed,
        &grant("pkg-b", "2", "sha256:b", 7),
        timestamp(200),
    )
    .expect_err("size");
    assert_eq!(error.message, "lease grant size `7` does not match manifest size `2`");
    let error = record_downloaded_package(
        &mut index,
        &manifest("pkg-z", "2"),
        &grant("pkg-z", "2", "sha256:z", 2),
        timestamp(200),
    )
    .expect_err("not allowed");
    assert_eq!(
        error.message,
        "package `pkg-z` is not present in current entitlement snapshot"
    );
    assert_eq!(index.property_packages.len(), 2);

    record_downloaded_package(
        &mut index,
        &listed,
        &grant("pkg-b", "2", "sha256:b", 2),
        timestamp(200),
    )
    .expect("expected record");
    let ids: Vec<&str> = index
        .property_packages
        .iter()
        .map(|r| r.package_id.as_str())
        .collect();
    assert_eq!(ids, vec!["pkg-a", "pkg-b", "pkg-c"]);
    assert_eq!(index.property_packages[1].downloaded_at, timestamp(200));

    let remote = PropertyPackageManifest::new(
        "pkg-a".to_string(),
        "1".to_string(),
        PropertyPackageSource::RemoteEvaluationService,
    );
    let error = record_downloaded_package(
        &mut index,
        &remote,
        &grant("pkg-a", "1", "sha256:a", 1),
        timestamp(200),
    )
    .expect_err("remote");
    assert_eq!(
        error.message,
        "remote evaluation packages must not be recorded as downloaded local packages"
    );
}

#[test]
fn offline_refresh_request_sorts_and_dedups_ids() {
    let mut index = empty_index();
    index
        .property_packages
        .push(record("pkg-b", "1", "h", 1, 1));
    index
        .property_packages
        .push(record("pkg-a", "1", "h", 1, 2));
    index
        .property_packages
        .push(record("pkg-b", "2", "h", 1, 3));

    let request = build_offline_refresh_request(&index).expect("request");

    assert_eq!(request.package_ids, strings(&["pkg-a", "pkg-b"]));
    assert_eq!(request.current_offline_lease_expires_at, None);
    assert_eq!(request.installation_id, None);
}

#[test]
fn offline_refresh_for_another_user_is_refused() {
    let mut index = empty_index();
    let response = OfflineLeaseRefreshResponse {
        refreshed_at: timestamp(210),
        snapshot: EntitlementSnapshot {
            schema_version: 1,
            subject_id: "user-999".to_string(),
            tenant_id: None,
            issued_at: timestamp(200),
            expires_at: timestamp(600),
            offline_lease_expires_at: None,
            features: vec![],
            allowed_package_ids: vec![],
        },
        manifest_list: PropertyPackageManifestList {
            schema_version: 1,
            generated_at: timestamp(205),
            packages: vec![],
        },
    };
    let error = apply_offline_refresh_to_auth_cache(&mut index, &response).expect_err("subject");
    assert_eq!(
        error.message,
        "offline refresh subject_id `user-999` does not match auth cache subject_id `user-123`"
    );
    assert!(index.entitlement.is_none());
}
