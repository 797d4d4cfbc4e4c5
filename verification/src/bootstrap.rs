//! The demonstration bootstrap: how it seeds the entitlement and which
//! session events it forwards.
use vstd::prelude::*;

use crate::app_state::EntitlementSnapshot;
use crate::auth_cache::{
    cache_of_snapshot, copy_strings, stored_entitlement_cache_from_snapshot, StoredAuthCacheIndex,
    StoredCredentialReference, StoredPropertyPackageRecord, StoredPropertyPackageSource,
};
use crate::control_plane_client::{
    client_error_is, RadishFlowControlPlaneClientError, RadishFlowControlPlaneClientErrorKind,
    RadishFlowControlPlaneResponse,
};
use crate::control_plane_sync::RadishFlowControlPlaneClient;
use crate::property_package::{
    OfflineLeaseRefreshRequest, OfflineLeaseRefreshResponse, PropertyPackageLeaseGrant,
    PropertyPackageLeaseRequest, PropertyPackageManifest, PropertyPackageManifestList,
    PropertyPackageSource,
};
use crate::entitlement_session_host::EntitlementSessionLifecycleEvent;
use crate::time::{time_in_range, checked_add_time, checked_sub_time};

verus! {

/// Whether the bootstrap runs the entitlement preflight.
#[derive(Debug, Clone, Copy, PartialEq, Eq, Structural)]
pub enum StudioBootstrapEntitlementPreflight {
    Skip,
    Auto,
}

/// The entitlement the bootstrap seeds.
#[derive(Debug, Clone, Copy, PartialEq, Eq, Structural)]
pub enum StudioBootstrapEntitlementSeed {
    Synced,
    MissingSnapshot,
    LeaseExpiringSoon,
}

/// Session events the bootstrap can replay.
#[derive(Debug, Clone, Copy, PartialEq, Eq, Structural)]
pub enum StudioBootstrapEntitlementSessionEvent {
    LoginCompleted,
    TimerElapsed,
    NetworkRestored,
    WindowForegrounded,
}

/// The lifecycle event a bootstrap session event stands for (the one of the
/// same name).
pub open spec fn spec_bootstrap_lifecycle_event(event: StudioBootstrapEntitlementSessionEvent) -> EntitlementSessionLifecycleEvent {
    match event {
        StudioBootstrapEntitlementSessionEvent::LoginCompleted => EntitlementSessionLifecycleEvent::LoginCompleted,
        StudioBootstrapEntitlementSessionEvent::TimerElapsed => EntitlementSessionLifecycleEvent::TimerElapsed,
        StudioBootstrapEntitlementSessionEvent::NetworkRestored => EntitlementSessionLifecycleEvent::NetworkRestored,
        StudioBootstrapEntitlementSessionEvent::WindowForegrounded => EntitlementSessionLifecycleEvent::WindowForegrounded,
    }
}

/// The lifecycle event a bootstrap session event stands for.
pub fn bootstrap_lifecycle_event(event: StudioBootstrapEntitlementSessionEvent) -> (r:
    EntitlementSessionLifecycleEvent)
    ensures
        r == spec_bootstrap_lifecycle_event(event),
{
    match event {
        StudioBootstrapEntitlementSessionEvent::LoginCompleted => EntitlementSessionLifecycleEvent::LoginCompleted,
        StudioBootstrapEntitlementSessionEvent::TimerElapsed => EntitlementSessionLifecycleEvent::TimerElapsed,
        StudioBootstrapEntitlementSessionEvent::NetworkRestored => EntitlementSessionLifecycleEvent::NetworkRestored,
        StudioBootstrapEntitlementSessionEvent::WindowForegrounded => EntitlementSessionLifecycleEvent::WindowForegrounded,
    }
}

/// The offline lease the seed grants after `synced_at`: two hours, or ten
/// seconds when the lease is to expire soon.
pub open spec fn seed_lease_span(seed: StudioBootstrapEntitlementSeed) -> int {
    match seed {
        StudioBootstrapEntitlementSeed::LeaseExpiringSoon => 10_000_000_000,
        _ => 7_200_000_000_000,
    }
}

/// The snapshot the bootstrap seeds for `package_id` synced at `synced_at`:
/// issued a minute before, valid an hour after, with the seed's offline
/// lease, allowing only that package.
pub fn bootstrap_snapshot(package_id: &str, synced_at: i128, seed_mode: StudioBootstrapEntitlementSeed) -> (r: EntitlementSnapshot)
    requires
        time_in_range(synced_at - 60_000_000_000),
        time_in_range(synced_at + 7_200_000_000_000),
    ensures
        r.schema_version == 1,
        r.subject_id@ == "bootstrap-user"@,
        r.tenant_id is Some && r.tenant_id.unwrap()@ == "bootstrap-tenant"@,
        r.issued_at == synced_at - 60_000_000_000,
        r.expires_at == synced_at + 3_600_000_000_000,
        r.offline_lease_expires_at == Some((synced_at + seed_lease_span(seed_mode)) as i128),
        r.features@.len() == 1 && r.features@[0]@ == "desktop-login"@,
        r.allowed_package_ids@.len() == 1 && r.allowed_package_ids@[0]@ == package_id@,
{
    let lease_span: u128 = match seed_mode {
        StudioBootstrapEntitlementSeed::Synced => 7_200_000_000_000,
        StudioBootstrapEntitlementSeed::MissingSnapshot => 7_200_000_000_000,
        StudioBootstrapEntitlementSeed::LeaseExpiringSoon => 10_000_000_000,
    };
    let offline_lease_expires_at = checked_add_time(synced_at, lease_span).unwrap();
    let issued_at = checked_sub_time(synced_at, 60_000_000_000).unwrap();
    let expires_at = checked_add_time(synced_at, 3_600_000_000_000).unwrap();
    let mut features = Vec::new();
    features.push(String::from_str("desktop-login"));
    let mut allowed_package_ids = Vec::new();
    allowed_package_ids.push(String::from_str(package_id));
    EntitlementSnapshot {
        schema_version: 1,
        subject_id: String::from_str("bootstrap-user"),
        tenant_id: Some(String::from_str("bootstrap-tenant")),
        issued_at,
        expires_at,
        offline_lease_expires_at: Some(offline_lease_expires_at),
        features,
        allowed_package_ids,
    }
}

/// The version of the package the bootstrap seeds.
pub open spec fn bootstrap_package_version() -> Seq<char> {
    "2026.04.2"@
}

/// The manifest of the package the bootstrap seeds: a downloaded package
/// with the given hash, size and components, usable for an hour after the
/// download.
pub fn bootstrap_manifest(
    package_id: &str,
    hash: &str,
    size_bytes: u64,
    downloaded_at: i128,
    component_ids: &Vec<String>,
) -> (r: PropertyPackageManifest)
    requires
        time_in_range(downloaded_at + 3_600_000_000_000),
    ensures
        r.package_id@ == package_id@,
        r.version@ == bootstrap_package_version(),
        r.source == PropertyPackageSource::RemoteDerivedPackage,
        r.lease_required,
        r.hash@ == hash@,
        r.size_bytes == size_bytes,
        r.component_ids@ == component_ids@,
        r.expires_at == Some((downloaded_at + 3_600_000_000_000) as i128),
{
    let mut manifest = PropertyPackageManifest::new(
        String::from_str(package_id),
        String::from_str("2026.04.2"),
        PropertyPackageSource::RemoteDerivedPackage,
    );
    manifest.hash = String::from_str(hash);
    manifest.size_bytes = size_bytes;
    manifest.component_ids = copy_strings(component_ids);
    manifest.expires_at = Some(checked_add_time(downloaded_at, 3_600_000_000_000).unwrap());
    manifest
}

/// The auth cache the bootstrap seeds for `package_id` downloaded at
/// `downloaded_at` with the given hash and size: the bootstrap user, the
/// seeded entitlement (none when the snapshot is to be missing), and one
/// record of the package usable for an hour.
pub fn bootstrap_auth_cache_index(
    package_id: &str,
    hash: &str,
    size_bytes: u64,
    downloaded_at: i128,
    seed_mode: StudioBootstrapEntitlementSeed,
) -> (r: (StoredAuthCacheIndex, EntitlementSnapshot))
    requires
        time_in_range(downloaded_at - 60_000_000_000),
        time_in_range(downloaded_at + 7_200_000_000_000),
    ensures
        r.0.authority_url@ == "https://id.radish.local"@,
        r.0.subject_id@ == "bootstrap-user"@,
        r.0.credential.service@ == "radishflow-studio"@,
        r.0.credential.account@ == "bootstrap-user-primary"@,
        r.1.subject_id@ == "bootstrap-user"@,
        r.1.issued_at == downloaded_at - 60_000_000_000,
        r.1.expires_at == downloaded_at + 3_600_000_000_000,
        r.1.offline_lease_expires_at == Some((downloaded_at + seed_lease_span(seed_mode)) as i128),
        r.1.allowed_package_ids@.len() == 1 && r.1.allowed_package_ids@[0]@ == package_id@,
        seed_mode == StudioBootstrapEntitlementSeed::MissingSnapshot ==> r.0.entitlement is None
            && r.0.last_synced_at is None,
        seed_mode != StudioBootstrapEntitlementSeed::MissingSnapshot ==> r.0.entitlement is Some
            && cache_of_snapshot(r.0.entitlement.unwrap(), r.1, downloaded_at)
            && r.0.last_synced_at == Some(downloaded_at),
        r.0.property_packages@.len() == 1,
        r.0.property_packages@[0].package_id@ == package_id@,
        r.0.property_packages@[0].version@ == bootstrap_package_version(),
        r.0.property_packages@[0].source == StoredPropertyPackageSource::RemoteDerivedPackage,
        r.0.property_packages@[0].hash@ == hash@,
        r.0.property_packages@[0].size_bytes == size_bytes,
        r.0.property_packages@[0].downloaded_at == downloaded_at,
        r.0.property_packages@[0].expires_at == Some((downloaded_at + 3_600_000_000_000) as i128),
{
    let mut record = StoredPropertyPackageRecord::new(
        String::from_str(package_id),
        String::from_str("2026.04.2"),
        StoredPropertyPackageSource::RemoteDerivedPackage,
        String::from_str(hash),
        size_bytes,
        downloaded_at,
    );
    record.expires_at = Some(checked_add_time(downloaded_at, 3_600_000_000_000).unwrap());
    let mut index = StoredAuthCacheIndex::new(
        String::from_str("https://id.radish.local"),
        String::from_str("bootstrap-user"),
        StoredCredentialReference::new(
            String::from_str("radishflow-studio"),
            String::from_str("bootstrap-user-primary"),
        ),
    );
    let snapshot = bootstrap_snapshot(package_id, downloaded_at, seed_mode);
    match seed_mode {
        StudioBootstrapEntitlementSeed::MissingSnapshot => {},
        _ => {
            index.entitlement = Some(stored_entitlement_cache_from_snapshot(&snapshot, downloaded_at));
            index.last_synced_at = Some(downloaded_at);
        },
    }
    index.property_packages.push(record);
    (index, snapshot)
}

/// Whether `a` is `b`, its expiry and offline lease expiry aside.
pub open spec fn same_snapshot_terms(a: EntitlementSnapshot, b: EntitlementSnapshot) -> bool {
    &&& a.schema_version == b.schema_version
    &&& a.subject_id == b.subject_id
    &&& a.tenant_id == b.tenant_id
    &&& a.issued_at == b.issued_at
    &&& a.features@ == b.features@
    &&& a.allowed_package_ids@ == b.allowed_package_ids@
}

/// Whether `a` holds the same snapshot as `b`.
pub open spec fn same_snapshot(a: EntitlementSnapshot, b: EntitlementSnapshot) -> bool {
    &&& same_snapshot_terms(a, b)
    &&& a.expires_at == b.expires_at
    &&& a.offline_lease_expires_at == b.offline_lease_expires_at
}

/// Whether `a` holds the same manifest as `b`.
pub open spec fn same_manifest(a: PropertyPackageManifest, b: PropertyPackageManifest) -> bool {
    &&& a.schema_version == b.schema_version
    &&& a.package_id == b.package_id
    &&& a.version == b.version
    &&& a.classification == b.classification
    &&& a.source == b.source
    &&& a.hash == b.hash
    &&& a.size_bytes == b.size_bytes
    &&& a.component_ids@ == b.component_ids@
    &&& a.lease_required == b.lease_required
    &&& a.expires_at == b.expires_at
}

/// Whether `a` holds the same manifest list as `b`.
pub open spec fn same_manifest_list(a: PropertyPackageManifestList, b: PropertyPackageManifestList) -> bool {
    &&& a.schema_version == b.schema_version
    &&& a.generated_at == b.generated_at
    &&& a.packages@.len() == b.packages@.len()
    &&& forall|i: int| 0 <= i < a.packages@.len() ==> same_manifest(#[trigger] a.packages@[i], b.packages@[i])
}

/// A copy of a snapshot.
pub fn copy_snapshot(s: &EntitlementSnapshot) -> (r: EntitlementSnapshot)
    ensures
        same_snapshot(r, *s),
{
    let tenant_id = match &s.tenant_id {
        Some(t) => Some(t.clone()),
        None => None,
    };
    EntitlementSnapshot {
        schema_version: s.schema_version,
        subject_id: s.subject_id.clone(),
        tenant_id,
        issued_at: s.issued_at,
        expires_at: s.expires_at,
        offline_lease_expires_at: s.offline_lease_expires_at,
        features: copy_strings(&s.features),
        allowed_package_ids: copy_strings(&s.allowed_package_ids),
    }
}

/// A copy of a manifest.
pub fn copy_manifest(m: &PropertyPackageManifest) -> (r: PropertyPackageManifest)
    ensures
        same_manifest(r, *m),
{
    PropertyPackageManifest {
        schema_version: m.schema_version,
        package_id: m.package_id.clone(),
        version: m.version.clone(),
        classification: m.classification,
        source: m.source,
        hash: m.hash.clone(),
        size_bytes: m.size_bytes,
        component_ids: copy_strings(&m.component_ids),
        lease_required: m.lease_required,
        expires_at: m.expires_at,
    }
}

/// A copy of a manifest list.
pub fn copy_manifest_list(list: &PropertyPackageManifestList) -> (r: PropertyPackageManifestList)
    ensures
        same_manifest_list(r, *list),
{
    let mut packages: Vec<PropertyPackageManifest> = Vec::new();
    let mut i: usize = 0;
    while i < list.packages.len()
        invariant
            i <= list.packages@.len(),
            packages@.len() == i,
            forall|k: int| 0 <= k < i ==> same_manifest(#[trigger] packages@[k], list.packages@[k]),
        decreases list.packages@.len() - i,
    {
        packages.push(copy_manifest(&list.packages[i]));
        i = i + 1;
    }
    PropertyPackageManifestList { schema_version: list.schema_version, generated_at: list.generated_at, packages }
}

/// A manifest list of one manifest, generated at `generated_at`.
fn single_manifest_list(generated_at: i128, manifest: &PropertyPackageManifest) -> (r: PropertyPackageManifestList)
    ensures
        r.schema_version == 1,
        r.generated_at == generated_at,
        r.packages@.len() == 1,
        same_manifest(r.packages@[0], *manifest),
{
    let mut packages: Vec<PropertyPackageManifest> = Vec::new();
    packages.push(copy_manifest(manifest));
    PropertyPackageManifestList { schema_version: 1, generated_at, packages }
}

/// The control plane the bootstrap talks to: it answers a sync with the
/// seeded entitlement renewed five minutes after the seed's sync and the
/// seeded manifest, an offline refresh with the lease renewed five minutes
/// later still, and refuses to issue package leases.
#[derive(Debug, Clone)]
pub struct BootstrapControlPlaneClient {
    pub synced_snapshot: EntitlementSnapshot,
    pub manifest_list: PropertyPackageManifestList,
    pub sync_received_at: i128,
    pub refresh_response: OfflineLeaseRefreshResponse,
    pub refresh_received_at: i128,
}

impl BootstrapControlPlaneClient {
    /// The client for a seed synced at `synced_at` with `snapshot` and
    /// `manifest`: the sync arrives five minutes after the seed's, with the
    /// snapshot valid an hour and its offline lease two hours from then;
    /// the refresh arrives ten minutes after the seed's sync, with the
    /// offline lease two hours from then.
    pub fn from_seed(snapshot: &EntitlementSnapshot, manifest: &PropertyPackageManifest, synced_at: i128) -> (r: Self)
        requires
            time_in_range(synced_at as int),
            time_in_range(synced_at + 7_800_000_000_000),
        ensures
            r.sync_received_at == synced_at + 300_000_000_000,
            r.refresh_received_at == synced_at + 600_000_000_000,
            same_snapshot_terms(r.synced_snapshot, *snapshot),
            r.synced_snapshot.expires_at == r.sync_received_at + 3_600_000_000_000,
            r.synced_snapshot.offline_lease_expires_at == Some((r.sync_received_at + 7_200_000_000_000) as i128),
            r.manifest_list.schema_version == 1,
            r.manifest_list.generated_at == r.sync_received_at,
            r.manifest_list.packages@.len() == 1,
            same_manifest(r.manifest_list.packages@[0], *manifest),
            r.refresh_response.refreshed_at == r.refresh_received_at,
            same_snapshot_terms(r.refresh_response.snapshot, *snapshot),
            r.refresh_response.snapshot.expires_at == r.synced_snapshot.expires_at,
            r.refresh_response.snapshot.offline_lease_expires_at == Some(
                (r.refresh_received_at + 7_200_000_000_000) as i128,
            ),
            r.refresh_response.manifest_list.schema_version == 1,
            r.refresh_response.manifest_list.generated_at == r.refresh_received_at,
            r.refresh_response.manifest_list.packages@.len() == 1,
            same_manifest(r.refresh_response.manifest_list.packages@[0], *manifest),
    {
        let sync_received_at = checked_add_time(synced_at, 300_000_000_000).unwrap();
        let refresh_received_at = checked_add_time(synced_at, 600_000_000_000).unwrap();
        let mut synced_snapshot = copy_snapshot(snapshot);
        synced_snapshot.expires_at = checked_add_time(sync_received_at, 3_600_000_000_000).unwrap();
        synced_snapshot.offline_lease_expires_at = Some(
            checked_add_time(sync_received_at, 7_200_000_000_000).unwrap(),
        );
        let mut refreshed_snapshot = copy_snapshot(&synced_snapshot);
        refreshed_snapshot.offline_lease_expires_at = Some(
            checked_add_time(refresh_received_at, 7_200_000_000_000).unwrap(),
        );
        BootstrapControlPlaneClient {
            synced_snapshot,
            manifest_list: single_manifest_list(sync_received_at, manifest),
            sync_received_at,
            refresh_response: OfflineLeaseRefreshResponse {
                refreshed_at: refresh_received_at,
                snapshot: refreshed_snapshot,
                manifest_list: single_manifest_list(refresh_received_at, manifest),
            },
            refresh_received_at,
        }
    }
}

impl RadishFlowControlPlaneClient for BootstrapControlPlaneClient {
    /// The renewed snapshot, received at the sync instant.
    open spec fn spec_snapshot_answer(
        &self,
        access_token: Seq<char>,
        r: Result<RadishFlowControlPlaneResponse<EntitlementSnapshot>, RadishFlowControlPlaneClientError>,
    ) -> bool {
        r matches Ok(v) && same_snapshot(v.value, self.synced_snapshot) && v.received_at
            == self.sync_received_at
    }

    /// The seeded manifest list, received at the sync instant.
    open spec fn spec_manifest_list_answer(
        &self,
        access_token: Seq<char>,
        r: Result<
            RadishFlowControlPlaneResponse<PropertyPackageManifestList>,
            RadishFlowControlPlaneClientError,
        >,
    ) -> bool {
        r matches Ok(v) && same_manifest_list(v.value, self.manifest_list) && v.received_at
            == self.sync_received_at
    }

    /// A refusal: the bootstrap issues no package leases.
    open spec fn spec_lease_answer(
        &self,
        access_token: Seq<char>,
        package_id: Seq<char>,
        request: PropertyPackageLeaseRequest,
        r: Result<RadishFlowControlPlaneResponse<PropertyPackageLeaseGrant>, RadishFlowControlPlaneClientError>,
    ) -> bool {
        r matches Err(e) && client_error_is(
            e,
            RadishFlowControlPlaneClientErrorKind::OtherPermanent,
            "bootstrap control plane client does not issue property package leases"@,
        )
    }

    /// The prepared refresh answer, received at the refresh instant.
    open spec fn spec_refresh_answer(
        &self,
        access_token: Seq<char>,
        request: OfflineLeaseRefreshRequest,
        r: Result<
            RadishFlowControlPlaneResponse<OfflineLeaseRefreshResponse>,
            RadishFlowControlPlaneClientError,
        >,
    ) -> bool {
        r matches Ok(v) && v.value.refreshed_at == self.refresh_response.refreshed_at
            && same_snapshot(v.value.snapshot, self.refresh_response.snapshot)
            && same_manifest_list(v.value.manifest_list, self.refresh_response.manifest_list)
            && v.received_at == self.refresh_received_at
    }

    /// The renewed snapshot, received at the sync instant.
    fn fetch_entitlement_snapshot(&self, access_token: &str) -> (r: Result<
        RadishFlowControlPlaneResponse<EntitlementSnapshot>,
        RadishFlowControlPlaneClientError,
    >)
        ensures
            r is Ok,
            r matches Ok(v) ==> same_snapshot(v.value, self.synced_snapshot) && v.received_at
                == self.sync_received_at,
    {
        Ok(RadishFlowControlPlaneResponse { value: copy_snapshot(&self.synced_snapshot), received_at: self.sync_received_at })
    }

    /// The seeded manifest list, received at the sync instant.
    fn fetch_property_package_manifest_list(&self, access_token: &str) -> (r: Result<
        RadishFlowControlPlaneResponse<PropertyPackageManifestList>,
        RadishFlowControlPlaneClientError,
    >)
        ensures
            r is Ok,
            r matches Ok(v) ==> same_manifest_list(v.value, self.manifest_list) && v.received_at
                == self.sync_received_at,
    {
        Ok(
            RadishFlowControlPlaneResponse {
                value: copy_manifest_list(&self.manifest_list),
                received_at: self.sync_received_at,
            },
        )
    }

    /// Always refused: the bootstrap issues no package leases.
    fn request_property_package_lease(
        &self,
        access_token: &str,
        package_id: &str,
        request: &PropertyPackageLeaseRequest,
    ) -> (r: Result<
        RadishFlowControlPlaneResponse<PropertyPackageLeaseGrant>,
        RadishFlowControlPlaneClientError,
    >)
        ensures
            r is Err,
            r matches Err(e) ==> client_error_is(
                e,
                RadishFlowControlPlaneClientErrorKind::OtherPermanent,
                "bootstrap control plane client does not issue property package leases"@,
            ),
    {
        Err(
            RadishFlowControlPlaneClientError::new(
                RadishFlowControlPlaneClientErrorKind::OtherPermanent,
                String::from_str("bootstrap control plane client does not issue property package leases"),
            ),
        )
    }

    /// The prepared refresh answer, received at the refresh instant,
    /// whatever was asked.
    fn refresh_offline_leases(&self, access_token: &str, request: &OfflineLeaseRefreshRequest) -> (r: Result<
        RadishFlowControlPlaneResponse<OfflineLeaseRefreshResponse>,
        RadishFlowControlPlaneClientError,
    >)
        ensures
            r is Ok,
            r matches Ok(v) ==> v.value.refreshed_at == self.refresh_response.refreshed_at
                && same_snapshot(v.value.snapshot, self.refresh_response.snapshot)
                && same_manifest_list(v.value.manifest_list, self.refresh_response.manifest_list)
                && v.received_at == self.refresh_received_at,
    {
        let value = OfflineLeaseRefreshResponse {
            refreshed_at: self.refresh_response.refreshed_at,
            snapshot: copy_snapshot(&self.refresh_response.snapshot),
            manifest_list: copy_manifest_list(&self.refresh_response.manifest_list),
        };
        Ok(RadishFlowControlPlaneResponse { value, received_at: self.refresh_received_at })
    }
}

} // verus!
