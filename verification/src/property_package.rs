//! Property package manifests, leases and offline refreshes as the
//! application holds them.
use vstd::prelude::*;

use crate::app_state::EntitlementSnapshot;

verus! {

/// Where a property package comes from.
#[derive(Debug, Clone, Copy, PartialEq, Eq, Structural)]
pub enum PropertyPackageSource {
    LocalBundled,
    RemoteDerivedPackage,
    RemoteEvaluationService,
}

/// Whether a package is derived locally or only evaluated remotely.
#[derive(Debug, Clone, Copy, PartialEq, Eq, Structural)]
pub enum PropertyPackageClassification {
    Derived,
    RemoteOnly,
}

/// The classification a package from `source` has: packages evaluated by
/// the remote service are remote-only, the others are derived.
pub open spec fn spec_classification_for_source(source: PropertyPackageSource) -> PropertyPackageClassification {
    match source {
        PropertyPackageSource::RemoteEvaluationService => PropertyPackageClassification::RemoteOnly,
        _ => PropertyPackageClassification::Derived,
    }
}

/// Whether a package from `source` needs a lease: only downloaded packages do.
pub open spec fn spec_lease_required_for_source(source: PropertyPackageSource) -> bool {
    source == PropertyPackageSource::RemoteDerivedPackage
}

/// A property package manifest.
#[derive(Debug, Clone, PartialEq, Eq)]
pub struct PropertyPackageManifest {
    pub schema_version: u32,
    pub package_id: String,
    pub version: String,
    pub classification: PropertyPackageClassification,
    pub source: PropertyPackageSource,
    pub hash: String,
    pub size_bytes: u64,
    pub component_ids: Vec<String>,
    pub lease_required: bool,
    pub expires_at: Option<i128>,
}

impl PropertyPackageManifest {
    /// A manifest for `package_id` at `version` from `source`, with the
    /// classification and lease requirement of that source and no hash,
    /// size, components or expiry yet.
    pub fn new(package_id: String, version: String, source: PropertyPackageSource) -> (r: Self)
        ensures
            r.schema_version == 1,
            r.package_id == package_id,
            r.version == version,
            r.source == source,
            r.classification == spec_classification_for_source(source),
            r.lease_required == spec_lease_required_for_source(source),
            r.hash@.len() == 0,
            r.size_bytes == 0,
            r.component_ids@.len() == 0,
            r.expires_at is None,
    {
        let classification = match source {
            PropertyPackageSource::RemoteEvaluationService => PropertyPackageClassification::RemoteOnly,
            PropertyPackageSource::LocalBundled | PropertyPackageSource::RemoteDerivedPackage => PropertyPackageClassification::Derived,
        };
        let lease_required = match source {
            PropertyPackageSource::RemoteDerivedPackage => true,
            PropertyPackageSource::LocalBundled | PropertyPackageSource::RemoteEvaluationService => false,
        };
        PropertyPackageManifest {
            schema_version: 1,
            package_id,
            version,
            classification,
            source,
            hash: String::new(),
            size_bytes: 0,
            component_ids: Vec::new(),
            lease_required,
            expires_at: None,
        }
    }
}

/// The manifests the control plane lists.
#[derive(Debug, Clone, PartialEq, Eq)]
pub struct PropertyPackageManifestList {
    pub schema_version: u32,
    pub generated_at: i128,
    pub packages: Vec<PropertyPackageManifest>,
}

/// A request for a package lease.
#[derive(Debug, Clone, PartialEq, Eq)]
pub struct PropertyPackageLeaseRequest {
    pub version: String,
    pub current_hash: Option<String>,
    pub installation_id: Option<String>,
}

impl PropertyPackageLeaseRequest {
    /// A lease request for `version`, with no current hash or installation.
    pub fn new(version: String) -> (r: Self)
        ensures
            r.version@ == version@,
            r.current_hash is None,
            r.installation_id is None,
    {
        PropertyPackageLeaseRequest { version, current_hash: None, installation_id: None }
    }
}

/// A granted package lease.
#[derive(Debug, Clone, PartialEq, Eq)]
pub struct PropertyPackageLeaseGrant {
    pub package_id: String,
    pub version: String,
    pub lease_id: String,
    pub download_url: String,
    pub hash: String,
    pub size_bytes: u64,
    pub expires_at: i128,
}

/// A request to refresh offline leases; `package_ids` holds each id once.
#[derive(Debug, Clone, PartialEq, Eq)]
pub struct OfflineLeaseRefreshRequest {
    pub package_ids: Vec<String>,
    pub current_offline_lease_expires_at: Option<i128>,
    pub installation_id: Option<String>,
}

/// The answer to an offline lease refresh.
#[derive(Debug, Clone, PartialEq, Eq)]
pub struct OfflineLeaseRefreshResponse {
    pub refreshed_at: i128,
    pub snapshot: EntitlementSnapshot,
    pub manifest_list: PropertyPackageManifestList,
}

} // verus!
