//! The control plane's wire entities and how they become application values.
//!
//! Decoding JSON into these entities, and encoding the request entities, is
//! done by the embedding application; here each entity is checked and turned
//! into the value the application holds.
use vstd::prelude::*;

use crate::app_state::EntitlementSnapshot;
use crate::auth_cache::{insert_id_in_order, lemma_strictly_increasing_unique, strictly_increasing};
use crate::control_plane_sync::string_texts;
use crate::control_plane_client::{
    client_error_is, validate_protocol_schema_version, RadishFlowControlPlaneClientError,
    RadishFlowControlPlaneClientErrorKind, RADISHFLOW_CONTROL_PLANE_SCHEMA_VERSION,
};
use crate::property_package::{
    spec_classification_for_source, spec_lease_required_for_source, OfflineLeaseRefreshRequest,
    OfflineLeaseRefreshResponse, PropertyPackageClassification, PropertyPackageLeaseGrant,
    PropertyPackageLeaseRequest, PropertyPackageManifest, PropertyPackageManifestList,
    PropertyPackageSource,
};
use crate::text::{decimal_text, is_blank, push_str, trim_text};

verus! {

/// An entitlement snapshot on the wire.
#[derive(Debug, Clone, PartialEq, Eq)]
pub struct ProtocolEntitlementSnapshot {
    pub schema_version: u32,
    pub subject_id: String,
    pub tenant_id: Option<String>,
    pub issued_at: i128,
    pub expires_at: i128,
    pub offline_lease_expires_at: Option<i128>,
    pub features: Vec<String>,
    pub allowed_package_ids: Vec<String>,
}

/// Package classification on the wire (`derived`, `remote-only`).
#[derive(Debug, Clone, Copy, PartialEq, Eq, Structural)]
pub enum ProtocolPropertyPackageClassification {
    Derived,
    RemoteOnly,
}

/// Package source on the wire (`bundled`, `download`, `remote-eval`).
#[derive(Debug, Clone, Copy, PartialEq, Eq, Structural)]
pub enum ProtocolPropertyPackageSource {
    Bundled,
    Download,
    RemoteEval,
}

/// A property package manifest on the wire.
#[derive(Debug, Clone, PartialEq, Eq)]
pub struct ProtocolPropertyPackageManifest {
    pub schema_version: u32,
    pub package_id: String,
    pub version: String,
    pub classification: ProtocolPropertyPackageClassification,
    pub source: ProtocolPropertyPackageSource,
    pub hash: String,
    pub size_bytes: u64,
    pub component_ids: Vec<String>,
    pub lease_required: bool,
    pub expires_at: Option<i128>,
}

/// A manifest list on the wire.
#[derive(Debug, Clone, PartialEq, Eq)]
pub struct ProtocolPropertyPackageManifestList {
    pub schema_version: u32,
    pub generated_at: i128,
    pub packages: Vec<ProtocolPropertyPackageManifest>,
}

/// A lease request on the wire.
#[derive(Debug, Clone, PartialEq, Eq)]
pub struct ProtocolPropertyPackageLeaseRequest {
    pub version: String,
    pub current_hash: Option<String>,
    pub installation_id: Option<String>,
}

/// A lease grant on the wire.
#[derive(Debug, Clone, PartialEq, Eq)]
pub struct ProtocolPropertyPackageLeaseGrant {
    pub package_id: String,
    pub version: String,
    pub lease_id: String,
    pub download_url: String,
    pub hash: String,
    pub size_bytes: u64,
    pub expires_at: i128,
}

/// An offline refresh request on the wire.
#[derive(Debug, Clone, PartialEq, Eq)]
pub struct ProtocolOfflineLeaseRefreshRequest {
    pub package_ids: Vec<String>,
    pub current_offline_lease_expires_at: Option<i128>,
    pub installation_id: Option<String>,
}

/// An offline refresh answer on the wire.
#[derive(Debug, Clone, PartialEq, Eq)]
pub struct ProtocolOfflineLeaseRefreshResponse {
    pub refreshed_at: i128,
    pub snapshot: ProtocolEntitlementSnapshot,
    pub manifest_list: ProtocolPropertyPackageManifestList,
}

/// Whether `e` is an invalid-response failure with `message`.
pub open spec fn invalid_response_is(e: RadishFlowControlPlaneClientError, message: Seq<char>) -> bool {
    client_error_is(e, RadishFlowControlPlaneClientErrorKind::InvalidResponse, message)
}

/// The schema-version failure message for `entity`.
pub open spec fn schema_version_message(entity: Seq<char>, version: u32) -> Seq<char> {
    "unsupported "@ + entity + " schema version `"@ + decimal_text(version as nat) + "`"@
}

fn invalid(message: &str) -> (r: RadishFlowControlPlaneClientError)
    ensures
        invalid_response_is(r, message@),
{
    RadishFlowControlPlaneClientError::invalid_response(String::from_str(message))
}

/// The first problem of an entitlement snapshot: a foreign schema version,
/// else a blank subject.
pub open spec fn spec_snapshot_problem(p: ProtocolEntitlementSnapshot) -> Option<Seq<char>> {
    if p.schema_version != RADISHFLOW_CONTROL_PLANE_SCHEMA_VERSION {
        Some(schema_version_message("entitlement snapshot"@, p.schema_version))
    } else if trim_text(p.subject_id@).len() == 0 {
        Some("entitlement snapshot must contain a non-empty subjectId"@)
    } else {
        None
    }
}

/// Whether `s` carries the fields of the wire snapshot `p` unchanged.
pub open spec fn snapshot_from(s: EntitlementSnapshot, p: ProtocolEntitlementSnapshot) -> bool {
    s == EntitlementSnapshot {
        schema_version: p.schema_version,
        subject_id: p.subject_id,
        tenant_id: p.tenant_id,
        issued_at: p.issued_at,
        expires_at: p.expires_at,
        offline_lease_expires_at: p.offline_lease_expires_at,
        features: p.features,
        allowed_package_ids: p.allowed_package_ids,
    }
}

/// The application's entitlement snapshot for a wire snapshot, or the
/// failure for its first problem.
pub fn entitlement_snapshot_from_protocol(snapshot: ProtocolEntitlementSnapshot) -> (r: Result<
    EntitlementSnapshot,
    RadishFlowControlPlaneClientError,
>)
    ensures
        match spec_snapshot_problem(snapshot) {
            Some(message) => r is Err && invalid_response_is(r->Err_0, message),
            None => r is Ok && snapshot_from(r->Ok_0, snapshot),
        },
{
    match validate_protocol_schema_version(snapshot.schema_version, "entitlement snapshot") {
        Ok(()) => {},
        Err(e) => return Err(e),
    }
    if is_blank(snapshot.subject_id.as_str()) {
        return Err(invalid("entitlement snapshot must contain a non-empty subjectId"));
    }
    Ok(
        EntitlementSnapshot {
            schema_version: snapshot.schema_version,
            subject_id: snapshot.subject_id,
            tenant_id: snapshot.tenant_id,
            issued_at: snapshot.issued_at,
            expires_at: snapshot.expires_at,
            offline_lease_expires_at: snapshot.offline_lease_expires_at,
            features: snapshot.features,
            allowed_package_ids: snapshot.allowed_package_ids,
        },
    )
}

/// The application's source for a wire source.
pub open spec fn spec_source_from_protocol(source: ProtocolPropertyPackageSource) -> PropertyPackageSource {
    match source {
        ProtocolPropertyPackageSource::Bundled => PropertyPackageSource::LocalBundled,
        ProtocolPropertyPackageSource::Download => PropertyPackageSource::RemoteDerivedPackage,
        ProtocolPropertyPackageSource::RemoteEval => PropertyPackageSource::RemoteEvaluationService,
    }
}

/// The application's source for a wire source.
pub fn property_package_source_from_protocol(source: ProtocolPropertyPackageSource) -> (r:
    PropertyPackageSource)
    ensures
        r == spec_source_from_protocol(source),
{
    match source {
        ProtocolPropertyPackageSource::Bundled => PropertyPackageSource::LocalBundled,
        ProtocolPropertyPackageSource::Download => PropertyPackageSource::RemoteDerivedPackage,
        ProtocolPropertyPackageSource::RemoteEval => PropertyPackageSource::RemoteEvaluationService,
    }
}

/// The application's classification for a wire classification.
pub open spec fn spec_classification_from_protocol(c: ProtocolPropertyPackageClassification) -> PropertyPackageClassification {
    match c {
        ProtocolPropertyPackageClassification::Derived => PropertyPackageClassification::Derived,
        ProtocolPropertyPackageClassification::RemoteOnly => PropertyPackageClassification::RemoteOnly,
    }
}

/// The application's classification for a wire classification.
pub fn property_package_classification_from_protocol(
    classification: ProtocolPropertyPackageClassification,
) -> (r: PropertyPackageClassification)
    ensures
        r == spec_classification_from_protocol(classification),
{
    match classification {
        ProtocolPropertyPackageClassification::Derived => PropertyPackageClassification::Derived,
        ProtocolPropertyPackageClassification::RemoteOnly => PropertyPackageClassification::RemoteOnly,
    }
}

/// Wire mapping is one to one on sources and on classifications.
pub proof fn lemma_protocol_mappings_injective(
    a: ProtocolPropertyPackageSource,
    b: ProtocolPropertyPackageSource,
    c: ProtocolPropertyPackageClassification,
    d: ProtocolPropertyPackageClassification,
)
    ensures
        spec_source_from_protocol(a) == spec_source_from_protocol(b) ==> a == b,
        spec_classification_from_protocol(c) == spec_classification_from_protocol(d) ==> c == d,
{
}

/// `Debug` text of a source.
pub open spec fn source_debug_text(source: PropertyPackageSource) -> Seq<char> {
    match source {
        PropertyPackageSource::LocalBundled => "LocalBundled"@,
        PropertyPackageSource::RemoteDerivedPackage => "RemoteDerivedPackage"@,
        PropertyPackageSource::RemoteEvaluationService => "RemoteEvaluationService"@,
    }
}

/// `Debug` text of a source.
pub fn source_debug_str(source: PropertyPackageSource) -> (r: &'static str)
    ensures
        r@ == source_debug_text(source),
{
    match source {
        PropertyPackageSource::LocalBundled => "LocalBundled",
        PropertyPackageSource::RemoteDerivedPackage => "RemoteDerivedPackage",
        PropertyPackageSource::RemoteEvaluationService => "RemoteEvaluationService",
    }
}

/// `Debug` text of a classification.
pub open spec fn classification_debug_text(c: PropertyPackageClassification) -> Seq<char> {
    match c {
        PropertyPackageClassification::Derived => "Derived"@,
        PropertyPackageClassification::RemoteOnly => "RemoteOnly"@,
    }
}

fn classification_debug_str(c: PropertyPackageClassification) -> (r: &'static str)
    ensures
        r@ == classification_debug_text(c),
{
    match c {
        PropertyPackageClassification::Derived => "Derived",
        PropertyPackageClassification::RemoteOnly => "RemoteOnly",
    }
}

/// `Display` text of a boolean.
pub open spec fn bool_text(b: bool) -> Seq<char> {
    if b {
        "true"@
    } else {
        "false"@
    }
}

/// The first problem of a wire manifest: a foreign schema version, a blank
/// package id or version, a classification or lease requirement that does
/// not fit its source.
pub open spec fn spec_manifest_problem(p: ProtocolPropertyPackageManifest) -> Option<Seq<char>> {
    let source = spec_source_from_protocol(p.source);
    let expected = spec_classification_from_protocol(p.classification);
    if p.schema_version != RADISHFLOW_CONTROL_PLANE_SCHEMA_VERSION {
        Some(schema_version_message("property package manifest"@, p.schema_version))
    } else if trim_text(p.package_id@).len() == 0 {
        Some("property package manifest must contain a non-empty packageId"@)
    } else if trim_text(p.version@).len() == 0 {
        Some("property package manifest must contain a non-empty version"@)
    } else if spec_classification_for_source(source) != expected {
        Some(
            "property package manifest classification `"@ + classification_debug_text(expected)
                + "` does not match source `"@ + source_debug_text(source) + "`"@,
        )
    } else if spec_lease_required_for_source(source) != p.lease_required {
        Some(
            "property package manifest leaseRequired `"@ + bool_text(p.lease_required)
                + "` does not match source `"@ + source_debug_text(source) + "`"@,
        )
    } else {
        None
    }
}

/// Whether `m` is the application's manifest for the wire manifest `p`.
pub open spec fn manifest_from(m: PropertyPackageManifest, p: ProtocolPropertyPackageManifest) -> bool {
    m == PropertyPackageManifest {
        schema_version: p.schema_version,
        package_id: p.package_id,
        version: p.version,
        classification: spec_classification_from_protocol(p.classification),
        source: spec_source_from_protocol(p.source),
        hash: p.hash,
        size_bytes: p.size_bytes,
        component_ids: p.component_ids,
        lease_required: p.lease_required,
        expires_at: p.expires_at,
    }
}

/// The application's manifest for a wire manifest, or the failure for its
/// first problem.
pub fn property_package_manifest_from_protocol(manifest: ProtocolPropertyPackageManifest) -> (r:
    Result<PropertyPackageManifest, RadishFlowControlPlaneClientError>)
    ensures
        match spec_manifest_problem(manifest) {
            Some(message) => r is Err && invalid_response_is(r->Err_0, message),
            None => r is Ok && manifest_from(r->Ok_0, manifest),
        },
{
    match validate_protocol_schema_version(manifest.schema_version, "property package manifest") {
        Ok(()) => {},
        Err(e) => return Err(e),
    }
    if is_blank(manifest.package_id.as_str()) {
        return Err(invalid("property package manifest must contain a non-empty packageId"));
    }
    if is_blank(manifest.version.as_str()) {
        return Err(invalid("property package manifest must contain a non-empty version"));
    }
    let source = property_package_source_from_protocol(manifest.source);
    let expected_classification = property_package_classification_from_protocol(
        manifest.classification,
    );
    let mut runtime = PropertyPackageManifest::new(manifest.package_id, manifest.version, source);
    if runtime.classification != expected_classification {
        let mut message = String::from_str("property package manifest classification `");
        push_str(&mut message, classification_debug_str(expected_classification));
        push_str(&mut message, "` does not match source `");
        push_str(&mut message, source_debug_str(source));
        push_str(&mut message, "`");
        return Err(RadishFlowControlPlaneClientError::invalid_response(message));
    }
    if runtime.lease_required != manifest.lease_required {
        let mut message = String::from_str("property package manifest leaseRequired `");
        push_str(&mut message, if manifest.lease_required { "true" } else { "false" });
        push_str(&mut message, "` does not match source `");
        push_str(&mut message, source_debug_str(source));
        push_str(&mut message, "`");
        return Err(RadishFlowControlPlaneClientError::invalid_response(message));
    }
    runtime.schema_version = manifest.schema_version;
    runtime.hash = manifest.hash;
    runtime.size_bytes = manifest.size_bytes;
    runtime.component_ids = manifest.component_ids;
    runtime.expires_at = manifest.expires_at;
    Ok(runtime)
}

/// The index of the first wire manifest with a problem, among the first
/// `n`.
pub open spec fn first_manifest_problem(packages: Seq<ProtocolPropertyPackageManifest>, n: int) -> Option<int>
    decreases n,
{
    if n <= 0 {
        None
    } else {
        match first_manifest_problem(packages, n - 1) {
            Some(i) => Some(i),
            None => if spec_manifest_problem(packages[n - 1]) is Some {
                Some(n - 1)
            } else {
                None
            },
        }
    }
}

/// What converting a wire manifest list gives: a foreign schema version
/// fails; otherwise the first manifest with a problem fails the list, and
/// without one every manifest is converted in order.
pub open spec fn manifest_list_result(
    r: Result<PropertyPackageManifestList, RadishFlowControlPlaneClientError>,
    list: ProtocolPropertyPackageManifestList,
) -> bool {
    &&& (list.schema_version != RADISHFLOW_CONTROL_PLANE_SCHEMA_VERSION ==> r is Err
            && invalid_response_is(
            r->Err_0,
            schema_version_message("property package manifest list"@, list.schema_version),
        ))
    &&& (list.schema_version == RADISHFLOW_CONTROL_PLANE_SCHEMA_VERSION ==> match first_manifest_problem(
            list.packages@,
            list.packages@.len() as int,
        ) {
            Some(i) => r is Err && invalid_response_is(
                r->Err_0,
                spec_manifest_problem(list.packages@[i]).unwrap(),
            ),
            None => r is Ok && r->Ok_0.schema_version == list.schema_version
                && r->Ok_0.generated_at == list.generated_at && r->Ok_0.packages@.len()
                == list.packages@.len() && forall|k: int|
                0 <= k < list.packages@.len() ==> manifest_from(
                    #[trigger] r->Ok_0.packages@[k],
                    list.packages@[k],
                ),
        })
}

/// The application's manifest list for a wire list: the schema version
/// first, then each manifest in order; the first problem found fails it.
pub fn property_package_manifest_list_from_protocol(list: ProtocolPropertyPackageManifestList) -> (r:
    Result<PropertyPackageManifestList, RadishFlowControlPlaneClientError>)
    ensures
        manifest_list_result(r, list),
{
    match validate_protocol_schema_version(list.schema_version, "property package manifest list") {
        Ok(()) => {},
        Err(e) => return Err(e),
    }
    let ghost wire = list.packages@;
    let mut packages: Vec<PropertyPackageManifest> = Vec::new();
    let mut remaining = list.packages;
    let mut i: usize = 0;
    let total = remaining.len();
    while remaining.len() > 0
        invariant
            total == wire.len(),
            wire == list.packages@,
            list.schema_version == RADISHFLOW_CONTROL_PLANE_SCHEMA_VERSION,
            i + remaining@.len() == total,
            remaining@ == wire.subrange(i as int, total as int),
            first_manifest_problem(wire, i as int) is None,
            packages@.len() == i,
            forall|k: int| 0 <= k < i ==> manifest_from(#[trigger] packages@[k], wire[k]),
        decreases remaining@.len(),
    {
        let manifest = remaining.remove(0);
        assert(manifest == wire[i as int]);
        match property_package_manifest_from_protocol(manifest) {
            Ok(m) => {
                packages.push(m);
            },
            Err(e) => {
                assert(first_manifest_problem(wire, i + 1) == Some(i as int));
                proof {
                    lemma_first_problem_stable(wire, i + 1, total as int);
                }
                return Err(e);
            },
        }
        i = i + 1;
    }
    Ok(
        PropertyPackageManifestList {
            schema_version: list.schema_version,
            generated_at: list.generated_at,
            packages,
        },
    )
}

/// Once a problem is found among the first `n`, it stays the first among
/// any longer prefix.
proof fn lemma_first_problem_stable(packages: Seq<ProtocolPropertyPackageManifest>, n: int, m: int)
    requires
        0 <= n <= m,
        first_manifest_problem(packages, n) is Some,
    ensures
        first_manifest_problem(packages, m) == first_manifest_problem(packages, n),
    decreases m - n,
{
    if m > n {
        lemma_first_problem_stable(packages, n, m - 1);
    }
}

/// The first problem of a wire lease grant: a blank package id, version,
/// lease id, download URL or hash, or a size of zero.
pub open spec fn spec_lease_grant_problem(g: ProtocolPropertyPackageLeaseGrant) -> Option<Seq<char>> {
    if trim_text(g.package_id@).len() == 0 {
        Some("property package lease grant must contain a non-empty packageId"@)
    } else if trim_text(g.version@).len() == 0 {
        Some("property package lease grant must contain a non-empty version"@)
    } else if trim_text(g.lease_id@).len() == 0 {
        Some("property package lease grant must contain a non-empty leaseId"@)
    } else if trim_text(g.download_url@).len() == 0 {
        Some("property package lease grant must contain a non-empty downloadUrl"@)
    } else if trim_text(g.hash@).len() == 0 {
        Some("property package lease grant must contain a non-empty hash"@)
    } else if g.size_bytes == 0 {
        Some("property package lease grant must contain a non-zero sizeBytes"@)
    } else {
        None
    }
}

/// The application's lease grant for a wire grant, or the failure for its
/// first problem.
pub fn property_package_lease_grant_from_protocol(grant: ProtocolPropertyPackageLeaseGrant) -> (r:
    Result<PropertyPackageLeaseGrant, RadishFlowControlPlaneClientError>)
    ensures
        match spec_lease_grant_problem(grant) {
            Some(message) => r is Err && invalid_response_is(r->Err_0, message),
            None => r is Ok && r->Ok_0 == (PropertyPackageLeaseGrant {
                package_id: grant.package_id,
                version: grant.version,
                lease_id: grant.lease_id,
                download_url: grant.download_url,
                hash: grant.hash,
                size_bytes: grant.size_bytes,
                expires_at: grant.expires_at,
            }),
        },
{
    if is_blank(grant.package_id.as_str()) {
        return Err(invalid("property package lease grant must contain a non-empty packageId"));
    }
    if is_blank(grant.version.as_str()) {
        return Err(invalid("property package lease grant must contain a non-empty version"));
    }
    if is_blank(grant.lease_id.as_str()) {
        return Err(invalid("property package lease grant must contain a non-empty leaseId"));
    }
    if is_blank(grant.download_url.as_str()) {
        return Err(invalid("property package lease grant must contain a non-empty downloadUrl"));
    }
    if is_blank(grant.hash.as_str()) {
        return Err(invalid("property package lease grant must contain a non-empty hash"));
    }
    if grant.size_bytes == 0 {
        return Err(invalid("property package lease grant must contain a non-zero sizeBytes"));
    }
    Ok(
        PropertyPackageLeaseGrant {
            package_id: grant.package_id,
            version: grant.version,
            lease_id: grant.lease_id,
            download_url: grant.download_url,
            hash: grant.hash,
            size_bytes: grant.size_bytes,
            expires_at: grant.expires_at,
        },
    )
}

/// The application's offline refresh answer for a wire answer: the snapshot
/// is checked first, then the manifest list.
pub fn offline_lease_refresh_response_from_protocol(response: ProtocolOfflineLeaseRefreshResponse) -> (r:
    Result<OfflineLeaseRefreshResponse, RadishFlowControlPlaneClientError>)
    ensures
        match spec_snapshot_problem(response.snapshot) {
            Some(message) => r is Err && invalid_response_is(r->Err_0, message),
            None => manifest_list_result(
                match r {
                    Ok(v) => Ok::<PropertyPackageManifestList, RadishFlowControlPlaneClientError>(
                        v.manifest_list,
                    ),
                    Err(e) => Err::<PropertyPackageManifestList, RadishFlowControlPlaneClientError>(e),
                },
                response.manifest_list,
            ) && (r matches Ok(v) ==> v.refreshed_at == response.refreshed_at && snapshot_from(
                v.snapshot,
                response.snapshot,
            )),
        },
{
    let snapshot = match entitlement_snapshot_from_protocol(response.snapshot) {
        Ok(s) => s,
        Err(e) => return Err(e),
    };
    let manifest_list = match property_package_manifest_list_from_protocol(response.manifest_list) {
        Ok(l) => l,
        Err(e) => return Err(e),
    };
    Ok(OfflineLeaseRefreshResponse { refreshed_at: response.refreshed_at, snapshot, manifest_list })
}

/// The wire lease request for an application request; the version must hold
/// more than white space.
pub fn protocol_lease_request_from_runtime(request: &PropertyPackageLeaseRequest) -> (r: Result<
    ProtocolPropertyPackageLeaseRequest,
    RadishFlowControlPlaneClientError,
>)
    ensures
        trim_text(request.version@).len() == 0 ==> r is Err && invalid_response_is(
            r->Err_0,
            "property package lease request must contain a non-empty version"@,
        ),
        trim_text(request.version@).len() > 0 ==> r is Ok && r->Ok_0 == (
        ProtocolPropertyPackageLeaseRequest {
            version: request.version,
            current_hash: request.current_hash,
            installation_id: request.installation_id,
        }),
{
    if is_blank(request.version.as_str()) {
        return Err(invalid("property package lease request must contain a non-empty version"));
    }
    Ok(
        ProtocolPropertyPackageLeaseRequest {
            version: request.version.clone(),
            current_hash: match &request.current_hash {
                Some(h) => Some(h.clone()),
                None => None,
            },
            installation_id: match &request.installation_id {
                Some(i) => Some(i.clone()),
                None => None,
            },
        },
    )
}

/// The wire offline refresh request for an application request: the
/// request's package ids as a set, each once and in string order (as they
/// already are in a request the auth cache built), with the same deadline
/// and installation.
pub fn protocol_offline_refresh_request_from_runtime(request: &OfflineLeaseRefreshRequest) -> (r:
    ProtocolOfflineLeaseRefreshRequest)
    ensures
        strictly_increasing(string_texts(r.package_ids@)),
        forall|x: Seq<char>| #[trigger] string_texts(r.package_ids@).contains(x) <==> string_texts(
            request.package_ids@,
        ).contains(x),
        strictly_increasing(string_texts(request.package_ids@)) ==> string_texts(r.package_ids@)
            == string_texts(request.package_ids@),
        r.current_offline_lease_expires_at == request.current_offline_lease_expires_at,
        r.installation_id == request.installation_id,
{
    let mut package_ids: Vec<String> = Vec::new();
    let mut i: usize = 0;
    while i < request.package_ids.len()
        invariant
            i <= request.package_ids@.len(),
            strictly_increasing(string_texts(package_ids@)),
            forall|x: Seq<char>| #[trigger] string_texts(package_ids@).contains(x) <==> string_texts(
                request.package_ids@.subrange(0, i as int),
            ).contains(x),
        decreases request.package_ids@.len() - i,
    {
        let ghost prefix = string_texts(request.package_ids@.subrange(0, i as int));
        insert_id_in_order(&mut package_ids, request.package_ids[i].clone());
        let ghost next = string_texts(request.package_ids@.subrange(0, i + 1));
        assert(next =~= prefix.push(request.package_ids@[i as int]@));
        assert forall|x: Seq<char>| #[trigger] next.contains(x) <==> (prefix.contains(x) || x
            == request.package_ids@[i as int]@) by {
            if next.contains(x) {
                let k = choose|k: int| 0 <= k < next.len() && next[k] == x;
                if k < prefix.len() {
                    assert(prefix[k] == x);
                }
            }
            if prefix.contains(x) {
                let k = choose|k: int| 0 <= k < prefix.len() && prefix[k] == x;
                assert(next[k] == x);
            }
            if x == request.package_ids@[i as int]@ {
                assert(next[prefix.len() as int] == x);
            }
        }
        i = i + 1;
    }
    assert(request.package_ids@.subrange(0, request.package_ids@.len() as int) =~= request.package_ids@);
    proof {
        if strictly_increasing(string_texts(request.package_ids@)) {
            lemma_strictly_increasing_unique(
                string_texts(package_ids@),
                string_texts(request.package_ids@),
            );
        }
    }
    ProtocolOfflineLeaseRefreshRequest {
        package_ids,
        current_offline_lease_expires_at: request.current_offline_lease_expires_at,
        installation_id: match &request.installation_id {
            Some(id) => Some(id.clone()),
            None => None,
        },
    }
}

} // verus!
