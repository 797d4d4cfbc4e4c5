//! Synchronizing the entitlement with the control plane: fetching snapshot and
//! manifests together and checking that they agree.
use vstd::prelude::*;

use crate::app_state::EntitlementSnapshot;
use crate::control_plane_client::{
    client_error_kind_text, RadishFlowControlPlaneClientError, RadishFlowControlPlaneClientErrorKind, RadishFlowControlPlaneResponse,
};
use crate::error::{ErrorCode, RfError};
use crate::property_package::{
    OfflineLeaseRefreshRequest, OfflineLeaseRefreshResponse, PropertyPackageLeaseGrant,
    PropertyPackageLeaseRequest, PropertyPackageManifest, PropertyPackageManifestList,
};
use crate::auth_cache::{
    apply_offline_refresh_to_auth_cache, build_offline_refresh_request, invalid_input_is,
    refresh_effect, spec_offline_refresh_request_for, StoredAuthCacheIndex,
    StoredPropertyPackageRecord,
};
use crate::control_plane_protocol::{source_debug_str, source_debug_text};
use crate::property_package::PropertyPackageSource;
use crate::text::{push_str, trim_text, is_blank};
use crate::time::latest_received_at;

verus! {

/// What the entitlement logic asks of the control plane; implemented by the
/// embedding application (over HTTP) and by tests.
///
/// Each request has a spec function that says which answers the client may
/// give it; an implementation may narrow it for itself (one that does not
/// admits any answer), and callers state that what they use is such an
/// answer to what they asked.
pub trait RadishFlowControlPlaneClient {
    /// Whether `r` is an answer this client may give to a snapshot fetch
    /// with `access_token`.
    open spec fn spec_snapshot_answer(
        &self,
        access_token: Seq<char>,
        r: Result<RadishFlowControlPlaneResponse<EntitlementSnapshot>, RadishFlowControlPlaneClientError>,
    ) -> bool {
        true
    }

    /// Whether `r` is an answer this client may give to a manifest list
    /// fetch with `access_token`.
    open spec fn spec_manifest_list_answer(
        &self,
        access_token: Seq<char>,
        r: Result<
            RadishFlowControlPlaneResponse<PropertyPackageManifestList>,
            RadishFlowControlPlaneClientError,
        >,
    ) -> bool {
        true
    }

    /// Whether `r` is an answer this client may give to a lease request for
    /// `package_id` with `access_token` and `request`.
    open spec fn spec_lease_answer(
        &self,
        access_token: Seq<char>,
        package_id: Seq<char>,
        request: PropertyPackageLeaseRequest,
        r: Result<RadishFlowControlPlaneResponse<PropertyPackageLeaseGrant>, RadishFlowControlPlaneClientError>,
    ) -> bool {
        true
    }

    /// Whether `r` is an answer this client may give to an offline refresh
    /// with `access_token` and `request`.
    open spec fn spec_refresh_answer(
        &self,
        access_token: Seq<char>,
        request: OfflineLeaseRefreshRequest,
        r: Result<
            RadishFlowControlPlaneResponse<OfflineLeaseRefreshResponse>,
            RadishFlowControlPlaneClientError,
        >,
    ) -> bool {
        true
    }

    /// The current entitlement snapshot.
    fn fetch_entitlement_snapshot(&self, access_token: &str) -> (r: Result<
        RadishFlowControlPlaneResponse<EntitlementSnapshot>,
        RadishFlowControlPlaneClientError,
    >)
        ensures
            self.spec_snapshot_answer(access_token@, r),
    ;

    /// The property package manifest list.
    fn fetch_property_package_manifest_list(&self, access_token: &str) -> (r: Result<
        RadishFlowControlPlaneResponse<PropertyPackageManifestList>,
        RadishFlowControlPlaneClientError,
    >)
        ensures
            self.spec_manifest_list_answer(access_token@, r),
    ;

    /// A lease for one package.
    fn request_property_package_lease(
        &self,
        access_token: &str,
        package_id: &str,
        request: &PropertyPackageLeaseRequest,
    ) -> (r: Result<
        RadishFlowControlPlaneResponse<PropertyPackageLeaseGrant>,
        RadishFlowControlPlaneClientError,
    >)
        ensures
            self.spec_lease_answer(access_token@, package_id@, *request, r),
    ;

    /// Refreshed offline leases.
    fn refresh_offline_leases(&self, access_token: &str, request: &OfflineLeaseRefreshRequest) -> (r: Result<
        RadishFlowControlPlaneResponse<OfflineLeaseRefreshResponse>,
        RadishFlowControlPlaneClientError,
    >)
        ensures
            self.spec_refresh_answer(access_token@, *request, r),
    ;
}

/// The package ids of a list of manifests, in order.
pub open spec fn manifest_ids(manifests: Seq<PropertyPackageManifest>) -> Seq<Seq<char>> {
    manifests.map_values(|m: PropertyPackageManifest| m.package_id@)
}

/// The ids of a list of strings.
pub open spec fn string_texts(strings: Seq<String>) -> Seq<Seq<char>> {
    strings.map_values(|s: String| s@)
}

/// Whether the id at `i` already occurred before it.
pub open spec fn repeats_earlier(ids: Seq<Seq<char>>, i: int) -> bool {
    exists|j: int| 0 <= j < i && ids[j] == ids[i]
}

/// The first disagreement among the first `n` manifest ids: the index and
/// whether it repeats an earlier id (else it lies outside the allowed ids).
pub open spec fn sync_problem(ids: Seq<Seq<char>>, allowed: Seq<Seq<char>>, n: int) -> Option<(int, bool)>
    decreases n,
{
    if n <= 0 {
        None
    } else {
        match sync_problem(ids, allowed, n - 1) {
            Some(p) => Some(p),
            None => if repeats_earlier(ids, n - 1) {
                Some((n - 1, true))
            } else if !allowed.contains(ids[n - 1]) {
                Some((n - 1, false))
            } else {
                None
            },
        }
    }
}

proof fn lemma_sync_problem_stable(ids: Seq<Seq<char>>, allowed: Seq<Seq<char>>, n: int, m: int)
    requires
        0 <= n <= m,
        sync_problem(ids, allowed, n) is Some,
    ensures
        sync_problem(ids, allowed, m) == sync_problem(ids, allowed, n),
    decreases m - n,
{
    if m > n {
        lemma_sync_problem_stable(ids, allowed, n, m - 1);
    }
}

/// The message for a disagreement about package `id`.
pub open spec fn sync_problem_message(id: Seq<char>, duplicate: bool) -> Seq<char> {
    if duplicate {
        "control plane manifest list contains duplicate package `"@ + id + "`"@
    } else {
        "control plane manifest list returned package `"@ + id + "` outside allowedPackageIds"@
    }
}

/// Whether `id` is one of `strings`.
pub fn contains_id(strings: &Vec<String>, id: &String) -> (r: bool)
    ensures
        r == string_texts(strings@).contains(id@),
{
    let mut k: usize = 0;
    while k < strings.len()
        invariant
            k <= strings@.len(),
            forall|m: int| 0 <= m < k ==> strings@[m]@ != id@,
        decreases strings@.len() - k,
    {
        if strings[k] == *id {
            assert(string_texts(strings@)[k as int] == id@);
            return true;
        }
        k = k + 1;
    }
    assert forall|m: int| 0 <= m < string_texts(strings@).len() implies string_texts(strings@)[m] != id@ by {
        assert(strings@[m]@ != id@);
    }
    false
}

/// The first manifest that disagrees with the snapshot: one that repeats an
/// earlier package or lists a package the snapshot does not allow. Given as
/// the message for it.
pub fn manifest_sync_problem(snapshot: &EntitlementSnapshot, manifests: &Vec<PropertyPackageManifest>) -> (r:
    Option<String>)
    ensures
        match sync_problem(
            manifest_ids(manifests@),
            string_texts(snapshot.allowed_package_ids@),
            manifests@.len() as int,
        ) {
            Some((i, duplicate)) => r is Some && r.unwrap()@ == sync_problem_message(
                manifest_ids(manifests@)[i],
                duplicate,
            ),
            None => r is None,
        },
{
    let ghost ids = manifest_ids(manifests@);
    let ghost allowed = string_texts(snapshot.allowed_package_ids@);
    let mut i: usize = 0;
    while i < manifests.len()
        invariant
            i <= manifests@.len(),
            ids == manifest_ids(manifests@),
            allowed == string_texts(snapshot.allowed_package_ids@),
            sync_problem(ids, allowed, i as int) is None,
        decreases manifests@.len() - i,
    {
        let id = &manifests[i].package_id;
        let mut j: usize = 0;
        let mut duplicate = false;
        while j < i
            invariant
                i < manifests@.len(),
                j <= i,
                ids == manifest_ids(manifests@),
                *id == manifests@[i as int].package_id,
                duplicate == (exists|k: int| 0 <= k < j && ids[k] == ids[i as int]),
            decreases i - j,
        {
            if manifests[j].package_id == *id {
                assert(ids[j as int] == ids[i as int]);
                duplicate = true;
            }
            j = j + 1;
        }
        if duplicate {
            assert(sync_problem(ids, allowed, i + 1) == Some((i as int, true)));
            proof {
                lemma_sync_problem_stable(ids, allowed, i + 1, manifests@.len() as int);
            }
            let mut message = String::from_str("control plane manifest list contains duplicate package `");
            push_str(&mut message, id.as_str());
            push_str(&mut message, "`");
            return Some(message);
        }
        if !contains_id(&snapshot.allowed_package_ids, id) {
            assert(sync_problem(ids, allowed, i + 1) == Some((i as int, false)));
            proof {
                lemma_sync_problem_stable(ids, allowed, i + 1, manifests@.len() as int);
            }
            let mut message = String::from_str("control plane manifest list returned package `");
            push_str(&mut message, id.as_str());
            push_str(&mut message, "` outside allowedPackageIds");
            return Some(message);
        }
        i = i + 1;
    }
    None
}

/// Fails where the manifests disagree with the snapshot (see
/// `manifest_sync_problem`), with an invalid-input error.
pub fn validate_manifest_sync_consistency(
    snapshot: &EntitlementSnapshot,
    manifests: &Vec<PropertyPackageManifest>,
) -> (r: Result<(), RfError>)
    ensures
        match sync_problem(
            manifest_ids(manifests@),
            string_texts(snapshot.allowed_package_ids@),
            manifests@.len() as int,
        ) {
            Some((i, duplicate)) => r is Err && r->Err_0.code == ErrorCode::InvalidInput
                && r->Err_0.message@ == sync_problem_message(manifest_ids(manifests@)[i], duplicate),
            None => r is Ok,
        },
{
    match manifest_sync_problem(snapshot, manifests) {
        Some(message) => Err(RfError::invalid_input(message)),
        None => Ok(()),
    }
}

/// The message of a control-plane failure of class `kind` with `message`
/// during `operation`.
pub open spec fn failed_operation_message(
    operation: Seq<char>,
    kind: RadishFlowControlPlaneClientErrorKind,
    message: Seq<char>,
) -> Seq<char> {
    operation + " failed with "@ + client_error_kind_text(kind) + " error: "@ + message
}

/// Whether `e` reports a control-plane failure during `operation`.
pub open spec fn is_failed_operation(e: RfError, operation: Seq<char>) -> bool {
    &&& e.code == ErrorCode::InvalidInput
    &&& exists|kind: RadishFlowControlPlaneClientErrorKind, message: Seq<char>|
        e.message@ == #[trigger] failed_operation_message(operation, kind, message)
}

/// A control-plane failure as a domain error naming the operation.
pub fn map_control_plane_error(operation: &str, error: RadishFlowControlPlaneClientError) -> (r:
    RfError)
    ensures
        r.code == ErrorCode::InvalidInput,
        r.message@ == operation@ + " failed with "@ + client_error_kind_text(error.kind) + " error: "@
            + error.message@,
        r.message@ == failed_operation_message(operation@, error.kind, error.message@),
{
    error.into_rf_error(operation)
}

/// A snapshot and manifest list fetched together, with the later of the two
/// arrival instants.
#[derive(Debug, Clone, PartialEq, Eq)]
pub struct EntitlementSyncResult {
    pub snapshot: EntitlementSnapshot,
    pub manifest_list: PropertyPackageManifestList,
    pub synced_at: i128,
}

/// Synchronizes entitlements through a control-plane client and a package
/// download fetcher.
#[derive(Debug, Clone)]
pub struct RadishFlowControlPlaneSyncService<Client, Fetcher> {
    control_plane_client: Client,
    download_fetcher: Fetcher,
}

impl<Client, Fetcher> RadishFlowControlPlaneSyncService<Client, Fetcher> {
    /// The client the service uses.
    pub closed spec fn spec_control_plane_client(&self) -> Client {
        self.control_plane_client
    }

    /// The fetcher the service uses.
    pub closed spec fn spec_download_fetcher(&self) -> Fetcher {
        self.download_fetcher
    }

    /// A service over `control_plane_client` and `download_fetcher`.
    pub fn new(control_plane_client: Client, download_fetcher: Fetcher) -> (r: Self)
        ensures
            r.spec_control_plane_client() == control_plane_client,
            r.spec_download_fetcher() == download_fetcher,
    {
        RadishFlowControlPlaneSyncService { control_plane_client, download_fetcher }
    }

    /// The client the service uses.
    pub fn control_plane_client(&self) -> (r: &Client)
        ensures
            *r == self.spec_control_plane_client(),
    {
        &self.control_plane_client
    }

    /// The fetcher the service uses.
    pub fn download_fetcher(&self) -> (r: &Fetcher)
        ensures
            *r == self.spec_download_fetcher(),
    {
        &self.download_fetcher
    }
}

/// Whether `r` combines a fetched snapshot and manifest list: a failure
/// where they disagree, else both with the later arrival instant.
pub open spec fn sync_result_from(
    snapshot: RadishFlowControlPlaneResponse<EntitlementSnapshot>,
    manifest_list: RadishFlowControlPlaneResponse<PropertyPackageManifestList>,
    r: Result<EntitlementSyncResult, RfError>,
) -> bool {
    match sync_problem(
        manifest_ids(manifest_list.value.packages@),
        string_texts(snapshot.value.allowed_package_ids@),
        manifest_list.value.packages@.len() as int,
    ) {
        Some((i, duplicate)) => r is Err && r->Err_0.code == ErrorCode::InvalidInput
            && r->Err_0.message@ == sync_problem_message(manifest_ids(manifest_list.value.packages@)[i], duplicate),
        None => r is Ok && r->Ok_0.snapshot == snapshot.value && r->Ok_0.manifest_list
            == manifest_list.value && r->Ok_0.synced_at == (if snapshot.received_at
            >= manifest_list.received_at {
            snapshot.received_at
        } else {
            manifest_list.received_at
        }),
    }
}

/// Whether `r` is what a sync makes of the client's answers: a failed
/// fetch fails naming it (the list is not asked for after a failed
/// snapshot), two answers combine as `sync_result_from` says.
pub open spec fn sync_result_from_answers(
    snapshot: Result<RadishFlowControlPlaneResponse<EntitlementSnapshot>, RadishFlowControlPlaneClientError>,
    manifest_list: Result<
        RadishFlowControlPlaneResponse<PropertyPackageManifestList>,
        RadishFlowControlPlaneClientError,
    >,
    r: Result<EntitlementSyncResult, RfError>,
) -> bool {
    match snapshot {
        Err(e) => r is Err && r->Err_0.code == ErrorCode::InvalidInput && r->Err_0.message@
            == failed_operation_message("fetch entitlement snapshot"@, e.kind, e.message@),
        Ok(s) => match manifest_list {
            Err(e) => r is Err && r->Err_0.code == ErrorCode::InvalidInput && r->Err_0.message@
                == failed_operation_message("fetch property package manifest list"@, e.kind, e.message@),
            Ok(l) => sync_result_from(s, l, r),
        },
    }
}

/// Combines a fetched snapshot and manifest list: fails where they disagree,
/// else keeps both with the later arrival instant.
pub fn entitlement_sync_result_from_responses(
    snapshot: RadishFlowControlPlaneResponse<EntitlementSnapshot>,
    manifest_list: RadishFlowControlPlaneResponse<PropertyPackageManifestList>,
) -> (r: Result<EntitlementSyncResult, RfError>)
    ensures
        match sync_problem(
            manifest_ids(manifest_list.value.packages@),
            string_texts(snapshot.value.allowed_package_ids@),
            manifest_list.value.packages@.len() as int,
        ) {
            Some((i, duplicate)) => r is Err && r->Err_0.code == ErrorCode::InvalidInput
                && r->Err_0.message@ == sync_problem_message(
                manifest_ids(manifest_list.value.packages@)[i],
                duplicate,
            ),
            None => r is Ok && r->Ok_0.snapshot == snapshot.value && r->Ok_0.manifest_list
                == manifest_list.value && r->Ok_0.synced_at == (if snapshot.received_at
                >= manifest_list.received_at {
                snapshot.received_at
            } else {
                manifest_list.received_at
            }),
        },
        sync_result_from(snapshot, manifest_list, r),
{
    match validate_manifest_sync_consistency(&snapshot.value, &manifest_list.value.packages) {
        Ok(()) => {},
        Err(e) => return Err(e),
    }
    let synced_at = latest_received_at(snapshot.received_at, manifest_list.received_at);
    Ok(
        EntitlementSyncResult {
            snapshot: snapshot.value,
            manifest_list: manifest_list.value,
            synced_at,
        },
    )
}

impl<Client: RadishFlowControlPlaneClient, Fetcher> RadishFlowControlPlaneSyncService<
    Client,
    Fetcher,
> {
    /// Fetches the snapshot, then the manifest list, and combines them; a
    /// client failure names the operation that failed.
    pub fn fetch_entitlement_sync_result(&self, access_token: &str) -> (r: Result<
        EntitlementSyncResult,
        RfError,
    >)
        ensures
            r matches Err(e) ==> e.code == ErrorCode::InvalidInput,
            r matches Err(e) ==> is_failed_operation(e, "fetch entitlement snapshot"@)
                || is_failed_operation(e, "fetch property package manifest list"@) || exists|
                id: Seq<char>,
                duplicate: bool,
            | e.message@ == #[trigger] sync_problem_message(id, duplicate),
            r matches Ok(v) ==> sync_problem(
                manifest_ids(v.manifest_list.packages@),
                string_texts(v.snapshot.allowed_package_ids@),
                v.manifest_list.packages@.len() as int,
            ) is None,
            exists|
                snapshot: Result<
                    RadishFlowControlPlaneResponse<EntitlementSnapshot>,
                    RadishFlowControlPlaneClientError,
                >,
                manifest_list: Result<
                    RadishFlowControlPlaneResponse<PropertyPackageManifestList>,
                    RadishFlowControlPlaneClientError,
                >,
            |
                #[trigger] sync_result_from_answers(snapshot, manifest_list, r)
                    && self.spec_control_plane_client().spec_snapshot_answer(access_token@, snapshot)
                    && (snapshot is Ok ==> self.spec_control_plane_client().spec_manifest_list_answer(
                    access_token@,
                    manifest_list,
                )),
    {
        let snapshot = self.control_plane_client.fetch_entitlement_snapshot(access_token);
        let ghost snapshot_answer = snapshot;
        let snapshot = match snapshot {
            Ok(s) => s,
            Err(error) => {
                let e = map_control_plane_error("fetch entitlement snapshot", error);
                let ghost list_answer = Err::<
                    RadishFlowControlPlaneResponse<PropertyPackageManifestList>,
                    RadishFlowControlPlaneClientError,
                >(error);
                assert(sync_result_from_answers(snapshot_answer, list_answer, Err(e)));
                return Err(e);
            },
        };
        let manifest_list = self.control_plane_client.fetch_property_package_manifest_list(access_token);
        let ghost list_answer = manifest_list;
        let manifest_list = match manifest_list {
            Ok(m) => m,
            Err(error) => {
                let e = map_control_plane_error("fetch property package manifest list", error);
                assert(sync_result_from_answers(snapshot_answer, list_answer, Err(e)));
                return Err(e);
            },
        };
        let r = entitlement_sync_result_from_responses(snapshot, manifest_list);
        assert(sync_result_from_answers(snapshot_answer, list_answer, r));
        r
    }
}

/// The message for a package the auth cache is not synced for.
pub open spec fn cache_not_synced_message(package_id: Seq<char>) -> Seq<char> {
    "auth cache index is not synced for package `"@ + package_id
        + "`; sync entitlement before downloading"@
}

/// A download needs a cached entitlement that allows the package.
pub fn ensure_auth_cache_allows_package(auth_cache_index: &StoredAuthCacheIndex, package_id: &str) -> (r:
    Result<(), RfError>)
    ensures
        match auth_cache_index.entitlement {
            None => r is Err && invalid_input_is(
                r->Err_0,
                "auth cache index must contain entitlement before downloading property packages"@,
            ),
            Some(e) => if string_texts(e.allowed_package_ids@).contains(package_id@) {
                r is Ok
            } else {
                r is Err && invalid_input_is(r->Err_0, cache_not_synced_message(package_id@))
            },
        },
{
    let entitlement = match &auth_cache_index.entitlement {
        Some(e) => e,
        None => return Err(
            RfError::invalid_input(
                String::from_str(
                    "auth cache index must contain entitlement before downloading property packages",
                ),
            ),
        ),
    };
    let id = String::from_str(package_id);
    if !contains_id(&entitlement.allowed_package_ids, &id) {
        let mut message = String::from_str("auth cache index is not synced for package `");
        push_str(&mut message, package_id);
        push_str(&mut message, "`; sync entitlement before downloading");
        return Err(RfError::invalid_input(message));
    }
    Ok(())
}

/// Only downloaded packages that require a lease can be downloaded.
pub fn ensure_manifest_supports_download(manifest: &PropertyPackageManifest) -> (r: Result<
    (),
    RfError,
>)
    ensures
        manifest.source != PropertyPackageSource::RemoteDerivedPackage ==> r is Err
            && invalid_input_is(
            r->Err_0,
            "package `"@ + manifest.package_id@ + "` cannot be downloaded because source is `"@
                + source_debug_text(manifest.source) + "`"@,
        ),
        manifest.source == PropertyPackageSource::RemoteDerivedPackage && !manifest.lease_required
            ==> r is Err && invalid_input_is(
            r->Err_0,
            "package `"@ + manifest.package_id@ + "` must require a lease before download"@,
        ),
        manifest.source == PropertyPackageSource::RemoteDerivedPackage && manifest.lease_required
            ==> r is Ok,
{
    if manifest.source != PropertyPackageSource::RemoteDerivedPackage {
        let mut message = String::from_str("package `");
        push_str(&mut message, manifest.package_id.as_str());
        push_str(&mut message, "` cannot be downloaded because source is `");
        push_str(&mut message, source_debug_str(manifest.source));
        push_str(&mut message, "`");
        return Err(RfError::invalid_input(message));
    }
    if !manifest.lease_required {
        let mut message = String::from_str("package `");
        push_str(&mut message, manifest.package_id.as_str());
        push_str(&mut message, "` must require a lease before download");
        return Err(RfError::invalid_input(message));
    }
    Ok(())
}

/// The first cached record of `id` at `version`, among the first `n`.
pub open spec fn first_cached_record(
    records: Seq<StoredPropertyPackageRecord>,
    id: Seq<char>,
    version: Seq<char>,
    n: int,
) -> Option<int>
    decreases n,
{
    if n <= 0 {
        None
    } else {
        match first_cached_record(records, id, version, n - 1) {
            Some(j) => Some(j),
            None => if records[n - 1].package_id@ == id && records[n - 1].version@ == version {
                Some(n - 1)
            } else {
                None
            },
        }
    }
}

proof fn lemma_first_cached_record_stable(
    records: Seq<StoredPropertyPackageRecord>,
    id: Seq<char>,
    version: Seq<char>,
    n: int,
    m: int,
)
    requires
        0 <= n <= m,
        first_cached_record(records, id, version, n) is Some,
    ensures
        first_cached_record(records, id, version, m) == first_cached_record(records, id, version, n),
    decreases m - n,
{
    if m > n {
        lemma_first_cached_record_stable(records, id, version, n, m - 1);
    }
}

fn first_cached_record_index(records: &Vec<StoredPropertyPackageRecord>, id: &String, version: &String) -> (r:
    Option<usize>)
    ensures
        match r {
            Some(j) => j < records@.len() && first_cached_record(
                records@,
                id@,
                version@,
                records@.len() as int,
            ) == Some(j as int),
            None => first_cached_record(records@, id@, version@, records@.len() as int) is None,
        },
{
    let mut i: usize = 0;
    while i < records.len()
        invariant
            i <= records@.len(),
            first_cached_record(records@, id@, version@, i as int) is None,
        decreases records@.len() - i,
    {
        if records[i].package_id == *id && records[i].version == *version {
            proof {
                lemma_first_cached_record_stable(records@, id@, version@, i + 1, records@.len() as int);
            }
            return Some(i);
        }
        i = i + 1;
    }
    None
}

/// Whether `request` is the lease request for `manifest`: its version, the
/// hash of the first cached record of the package at that version (if
/// any), and the installation id.
pub open spec fn spec_lease_request_for(
    index: StoredAuthCacheIndex,
    manifest: PropertyPackageManifest,
    installation_id: Option<String>,
    request: PropertyPackageLeaseRequest,
) -> bool {
    &&& request.version == manifest.version
    &&& request.installation_id == installation_id
    &&& request.current_hash == match first_cached_record(
        index.property_packages@,
        manifest.package_id@,
        manifest.version@,
        index.property_packages@.len() as int,
    ) {
        Some(j) => Some(index.property_packages@[j].hash),
        None => None::<String>,
    }
}

/// Whether `r` is what a lease request makes of the client's answer: the
/// grant itself, or a failure naming the request.
pub open spec fn lease_result_from_answer(
    answer: Result<RadishFlowControlPlaneResponse<PropertyPackageLeaseGrant>, RadishFlowControlPlaneClientError>,
    r: Result<PropertyPackageLeaseGrant, RfError>,
) -> bool {
    match answer {
        Ok(grant) => r is Ok && r->Ok_0 == grant.value,
        Err(e) => r is Err && r->Err_0.code == ErrorCode::InvalidInput && r->Err_0.message@
            == failed_operation_message("request property package lease"@, e.kind, e.message@),
    }
}

/// The lease request for a manifest: its version, the hash of the first
/// cached record of the package at that version (if any), and the
/// installation id; a blank version is refused.
pub fn build_lease_request(
    auth_cache_index: &StoredAuthCacheIndex,
    manifest: &PropertyPackageManifest,
    installation_id: Option<String>,
) -> (r: Result<PropertyPackageLeaseRequest, RfError>)
    ensures
        trim_text(manifest.version@).len() == 0 ==> r is Err && invalid_input_is(
            r->Err_0,
            "manifest for package `"@ + manifest.package_id@
                + "` must contain a non-empty version before requesting a lease"@,
        ),
        trim_text(manifest.version@).len() > 0 ==> r is Ok && r->Ok_0.version == manifest.version
            && r->Ok_0.installation_id == installation_id && r->Ok_0.current_hash == match first_cached_record(
            auth_cache_index.property_packages@,
            manifest.package_id@,
            manifest.version@,
            auth_cache_index.property_packages@.len() as int,
        ) {
            Some(j) => Some(auth_cache_index.property_packages@[j].hash),
            None => None::<String>,
        },
        trim_text(manifest.version@).len() > 0 ==> spec_lease_request_for(
            *auth_cache_index,
            *manifest,
            installation_id,
            r->Ok_0,
        ),
{
    let current_hash = match first_cached_record_index(
        &auth_cache_index.property_packages,
        &manifest.package_id,
        &manifest.version,
    ) {
        Some(j) => Some(auth_cache_index.property_packages[j].hash.clone()),
        None => None,
    };
    if is_blank(manifest.version.as_str()) {
        let mut message = String::from_str("manifest for package `");
        push_str(&mut message, manifest.package_id.as_str());
        push_str(&mut message, "` must contain a non-empty version before requesting a lease");
        return Err(RfError::invalid_input(message));
    }
    Ok(
        PropertyPackageLeaseRequest {
            version: manifest.version.clone(),
            current_hash,
            installation_id,
        },
    )
}

/// Whether `new` and `r` are what an offline refresh answer does to the
/// auth cache `old`: a client failure names the refresh and leaves the
/// cache as it was; an answer is applied as
/// `apply_offline_refresh_to_auth_cache` does and handed back.
pub open spec fn spec_refresh_answer_effect(
    old: StoredAuthCacheIndex,
    new: StoredAuthCacheIndex,
    answer: Result<
        RadishFlowControlPlaneResponse<OfflineLeaseRefreshResponse>,
        RadishFlowControlPlaneClientError,
    >,
    r: Result<OfflineLeaseRefreshResponse, RfError>,
) -> bool {
    match answer {
        Err(e) => r is Err && r->Err_0.code == ErrorCode::InvalidInput && r->Err_0.message@
            == failed_operation_message("refresh offline lease"@, e.kind, e.message@) && new == old,
        Ok(response) => refresh_effect(
            new,
            old,
            response.value,
            match r {
                Ok(_) => Ok::<(), RfError>(()),
                Err(e) => Err::<(), RfError>(e),
            },
        ) && (r matches Ok(v) ==> v == response.value),
    }
}

/// What an offline refresh answer does to the auth cache: a client failure
/// names the refresh and leaves the cache as it was; an answer is applied
/// as `apply_offline_refresh_to_auth_cache` does and handed back.
pub fn apply_offline_refresh_answer(
    auth_cache_index: &mut StoredAuthCacheIndex,
    answer: Result<
        RadishFlowControlPlaneResponse<OfflineLeaseRefreshResponse>,
        RadishFlowControlPlaneClientError,
    >,
) -> (r: Result<OfflineLeaseRefreshResponse, RfError>)
    ensures
        match answer {
            Err(e) => r is Err && r->Err_0.code == ErrorCode::InvalidInput && r->Err_0.message@
                == "refresh offline lease"@ + " failed with "@ + client_error_kind_text(e.kind)
                + " error: "@ + e.message@ && *final(auth_cache_index) == *old(auth_cache_index),
            Ok(response) => refresh_effect(
                *final(auth_cache_index),
                *old(auth_cache_index),
                response.value,
                match r {
                    Ok(_) => Ok::<(), RfError>(()),
                    Err(e) => Err::<(), RfError>(e),
                },
            ) && (r matches Ok(v) ==> v == response.value),
        },
        spec_refresh_answer_effect(*old(auth_cache_index), *final(auth_cache_index), answer, r),
{
    match answer {
        Err(error) => Err(map_control_plane_error("refresh offline lease", error)),
        Ok(response) => {
            let value = response.value;
            match apply_offline_refresh_to_auth_cache(auth_cache_index, &value) {
                Ok(()) => Ok(value),
                Err(e) => Err(e),
            }
        },
    }
}

impl<Client: RadishFlowControlPlaneClient, Fetcher> RadishFlowControlPlaneSyncService<
    Client,
    Fetcher,
> {
    /// Asks the control plane to refresh the offline leases of the cached
    /// packages and applies the answer to the auth cache. The request lists
    /// each cached package id once, in string order, with the cached offline
    /// lease expiry; what the control plane answers is its own affair, and
    /// the cache changes only as an answer applied to it changes it.
    pub fn refresh_offline_auth_cache(
        &self,
        access_token: &str,
        auth_cache_index: &mut StoredAuthCacheIndex,
    ) -> (r: Result<OfflineLeaseRefreshResponse, RfError>)
        ensures
            r matches Ok(v) ==> refresh_effect(
                *final(auth_cache_index),
                *old(auth_cache_index),
                v,
                Ok::<(), RfError>(()),
            ),
            r matches Err(e) ==> (is_failed_operation(e, "refresh offline lease"@)
                && *final(auth_cache_index) == *old(auth_cache_index)) || exists|
                response: OfflineLeaseRefreshResponse,
            | #[trigger] refresh_effect(
                *final(auth_cache_index),
                *old(auth_cache_index),
                response,
                Err::<(), RfError>(e),
            ),
            exists|
                request: OfflineLeaseRefreshRequest,
                answer: Result<
                    RadishFlowControlPlaneResponse<OfflineLeaseRefreshResponse>,
                    RadishFlowControlPlaneClientError,
                >,
            |
                #![trigger self.spec_control_plane_client().spec_refresh_answer(access_token@, request, answer)]
                spec_offline_refresh_request_for(*old(auth_cache_index), request)
                    && self.spec_control_plane_client().spec_refresh_answer(access_token@, request, answer)
                    && spec_refresh_answer_effect(
                    *old(auth_cache_index),
                    *final(auth_cache_index),
                    answer,
                    r,
                ),
    {
        let request = match build_offline_refresh_request(auth_cache_index) {
            Ok(request) => request,
            Err(e) => return Err(e),
        };
        let answer = self.control_plane_client.refresh_offline_leases(access_token, &request);
        let ghost received = answer;
        let r = apply_offline_refresh_answer(auth_cache_index, answer);
        assert(self.spec_control_plane_client().spec_refresh_answer(access_token@, request, received));
        proof {
            match received {
                Err(e) => {
                    assert(r->Err_0.message@ == failed_operation_message(
                        "refresh offline lease"@,
                        e.kind,
                        e.message@,
                    ));
                },
                Ok(response) => {},
            }
        }
        r
    }
}

/// The first reason not to ask for a lease of `package_id` with
/// `manifest`: the auth cache holds no entitlement or does not allow the
/// package, the manifest's package is not a downloadable one needing a
/// lease, or its version is blank.
pub open spec fn spec_lease_preflight_problem(
    index: StoredAuthCacheIndex,
    manifest: PropertyPackageManifest,
    package_id: Seq<char>,
) -> Option<Seq<char>> {
    match index.entitlement {
        None => Some("auth cache index must contain entitlement before downloading property packages"@),
        Some(e) => if !string_texts(e.allowed_package_ids@).contains(package_id) {
            Some(cache_not_synced_message(package_id))
        } else if manifest.source != PropertyPackageSource::RemoteDerivedPackage {
            Some(
                "package `"@ + manifest.package_id@ + "` cannot be downloaded because source is `"@
                    + source_debug_text(manifest.source) + "`"@,
            )
        } else if !manifest.lease_required {
            Some("package `"@ + manifest.package_id@ + "` must require a lease before download"@)
        } else if trim_text(manifest.version@).len() == 0 {
            Some(
                "manifest for package `"@ + manifest.package_id@
                    + "` must contain a non-empty version before requesting a lease"@,
            )
        } else {
            None
        }
    }
}

impl<Client: RadishFlowControlPlaneClient, Fetcher> RadishFlowControlPlaneSyncService<
    Client,
    Fetcher,
> {
    /// Checks that the auth cache allows `package_id` and that `manifest`
    /// describes a package to download under a lease, then asks the control
    /// plane for the lease, reusing the cached hash of the same version. A
    /// refused check fails before anything is sent; a control-plane failure
    /// names the request. What the control plane grants is its own affair.
    pub fn request_entitled_package_lease(
        &self,
        auth_cache_index: &StoredAuthCacheIndex,
        manifest: &PropertyPackageManifest,
        package_id: &str,
        access_token: &str,
        installation_id: Option<String>,
    ) -> (r: Result<PropertyPackageLeaseGrant, RfError>)
        ensures
            match spec_lease_preflight_problem(*auth_cache_index, *manifest, package_id@) {
                Some(message) => r is Err && invalid_input_is(r->Err_0, message),
                None => (r matches Err(e) ==> is_failed_operation(e, "request property package lease"@))
                    && exists|
                    request: PropertyPackageLeaseRequest,
                    answer: Result<
                        RadishFlowControlPlaneResponse<PropertyPackageLeaseGrant>,
                        RadishFlowControlPlaneClientError,
                    >,
                |
                    #![trigger self.spec_control_plane_client().spec_lease_answer(access_token@, package_id@, request, answer)]
                    spec_lease_request_for(*auth_cache_index, *manifest, installation_id, request)
                        && self.spec_control_plane_client().spec_lease_answer(
                        access_token@,
                        package_id@,
                        request,
                        answer,
                    ) && lease_result_from_answer(answer, r),
            },
    {
        match ensure_auth_cache_allows_package(auth_cache_index, package_id) {
            Ok(()) => {},
            Err(e) => return Err(e),
        }
        match ensure_manifest_supports_download(manifest) {
            Ok(()) => {},
            Err(e) => return Err(e),
        }
        let lease_request = match build_lease_request(auth_cache_index, manifest, installation_id) {
            Ok(request) => request,
            Err(e) => return Err(e),
        };
        let answer = self.control_plane_client.request_property_package_lease(
            access_token,
            package_id,
            &lease_request,
        );
        assert(self.spec_control_plane_client().spec_lease_answer(
            access_token@,
            package_id@,
            lease_request,
            answer,
        ));
        match answer {
            Ok(grant) => Ok(grant.value),
            Err(error) => {
                let e = map_control_plane_error("request property package lease", error);
                assert(e.message@ == failed_operation_message(
                    "request property package lease"@,
                    error.kind,
                    error.message@,
                ));
                Err(e)
            },
        }
    }
}

} // verus!
