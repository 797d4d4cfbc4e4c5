//! The local auth cache index: who is signed in, the entitlement last
//! synced, and the property packages downloaded under it. These functions
//! keep the index in step with the session, the entitlement and the control
//! plane's answers.
use vstd::prelude::*;

use crate::app_state::{AuthSessionState, EntitlementSnapshot, EntitlementState};
use crate::error::{ErrorCode, RfError};
use crate::property_package::{PropertyPackageManifest, PropertyPackageSource};
use crate::control_plane_sync::{contains_id, string_texts};
use crate::property_package::{
    OfflineLeaseRefreshRequest, OfflineLeaseRefreshResponse, PropertyPackageLeaseGrant,
};
use crate::text::{decimal_text, is_blank, push_decimal, push_str, trim_text};
use crate::text_order::{
    lemma_bytes_lt_asymmetric, lemma_bytes_lt_irreflexive, lemma_bytes_lt_transitive,
    lemma_text_lt_total, text_less, text_lt,
};

verus! {

/// Where the credential of the cached user is kept.
#[derive(Debug, Clone, PartialEq, Eq)]
pub struct StoredCredentialReference {
    pub service: String,
    pub account: String,
}

impl StoredCredentialReference {
    /// A reference to `account` of `service`.
    pub fn new(service: String, account: String) -> (r: Self)
        ensures
            r.service == service,
            r.account == account,
    {
        StoredCredentialReference { service, account }
    }
}

/// Where a cached package came from.
#[derive(Debug, Clone, Copy, PartialEq, Eq, Structural)]
pub enum StoredPropertyPackageSource {
    LocalBundled,
    RemoteDerivedPackage,
}

/// The entitlement as cached; `feature_keys` and `allowed_package_ids`
/// hold each id once.
#[derive(Debug, Clone, PartialEq, Eq)]
pub struct StoredEntitlementCache {
    pub subject_id: String,
    pub tenant_id: Option<String>,
    pub synced_at: i128,
    pub issued_at: i128,
    pub expires_at: i128,
    pub offline_lease_expires_at: Option<i128>,
    pub feature_keys: Vec<String>,
    pub allowed_package_ids: Vec<String>,
}

/// A downloaded package as cached.
#[derive(Debug, Clone, PartialEq, Eq)]
pub struct StoredPropertyPackageRecord {
    pub package_id: String,
    pub version: String,
    pub source: StoredPropertyPackageSource,
    pub hash: String,
    pub size_bytes: u64,
    pub downloaded_at: i128,
    pub expires_at: Option<i128>,
}

impl StoredPropertyPackageRecord {
    /// A record of a download, with no expiry yet.
    pub fn new(
        package_id: String,
        version: String,
        source: StoredPropertyPackageSource,
        hash: String,
        size_bytes: u64,
        downloaded_at: i128,
    ) -> (r: Self)
        ensures
            r == (StoredPropertyPackageRecord {
                package_id,
                version,
                source,
                hash,
                size_bytes,
                downloaded_at,
                expires_at: None,
            }),
    {
        StoredPropertyPackageRecord {
            package_id,
            version,
            source,
            hash,
            size_bytes,
            downloaded_at,
            expires_at: None,
        }
    }
}

/// The auth cache index.
#[derive(Debug, Clone, PartialEq, Eq)]
pub struct StoredAuthCacheIndex {
    pub authority_url: String,
    pub subject_id: String,
    pub credential: StoredCredentialReference,
    pub entitlement: Option<StoredEntitlementCache>,
    pub last_synced_at: Option<i128>,
    pub property_packages: Vec<StoredPropertyPackageRecord>,
}

impl StoredAuthCacheIndex {
    /// An index for a user with no entitlement and no packages yet.
    pub fn new(authority_url: String, subject_id: String, credential: StoredCredentialReference) -> (r:
        Self)
        ensures
            r.authority_url == authority_url,
            r.subject_id == subject_id,
            r.credential == credential,
            r.entitlement is None,
            r.last_synced_at is None,
            r.property_packages@.len() == 0,
    {
        StoredAuthCacheIndex {
            authority_url,
            subject_id,
            credential,
            entitlement: None,
            last_synced_at: None,
            property_packages: Vec::new(),
        }
    }
}

/// Whether `e` is an invalid-input error with `message`.
pub open spec fn invalid_input_is(e: RfError, message: Seq<char>) -> bool {
    e.code == ErrorCode::InvalidInput && e.message@ == message
}

fn invalid_input(message: &str) -> (r: RfError)
    ensures
        invalid_input_is(r, message@),
{
    RfError::invalid_input(String::from_str(message))
}

/// A copy of a list of strings.
pub fn copy_strings(v: &Vec<String>) -> (r: Vec<String>)
    ensures
        r@ == v@,
{
    let mut r: Vec<String> = Vec::new();
    let mut i: usize = 0;
    while i < v.len()
        invariant
            i <= v@.len(),
            r@ == v@.subrange(0, i as int),
        decreases v@.len() - i,
    {
        r.push(v[i].clone());
        assert(r@ =~= v@.subrange(0, i + 1));
        i = i + 1;
    }
    assert(v@.subrange(0, v@.len() as int) =~= v@);
    r
}

fn copy_optional_string(s: &Option<String>) -> (r: Option<String>)
    ensures
        r == *s,
{
    match s {
        Some(s) => Some(s.clone()),
        None => None,
    }
}

/// The first thing wrong with the session as the owner of an auth cache.
pub open spec fn spec_auth_identity_problem(s: AuthSessionState) -> Option<Seq<char>> {
    if s.authority_url is None || trim_text(s.authority_url.unwrap()@).len() == 0 {
        Some("auth session must contain a non-empty authority_url"@)
    } else if s.current_user is None {
        Some("auth session must contain current_user before syncing auth cache"@)
    } else if s.token_lease is None {
        Some("auth session must contain token_lease before syncing auth cache"@)
    } else if trim_text(s.current_user.unwrap().subject_id@).len() == 0 {
        Some("auth session current_user must contain a non-empty subject_id"@)
    } else if trim_text(s.token_lease.unwrap().credential_handle.service@).len() == 0 || trim_text(
        s.token_lease.unwrap().credential_handle.account@,
    ).len() == 0 {
        Some("token lease credential handle must contain non-empty service and account"@)
    } else {
        None
    }
}

/// Whether `identity` is the authority, subject and credential of `s`.
pub open spec fn identity_of_session(
    identity: (String, String, StoredCredentialReference),
    s: AuthSessionState,
) -> bool {
    &&& identity.0 == s.authority_url.unwrap()
    &&& identity.1 == s.current_user.unwrap().subject_id
    &&& identity.2 == (StoredCredentialReference {
        service: s.token_lease.unwrap().credential_handle.service,
        account: s.token_lease.unwrap().credential_handle.account,
    })
}

/// The authority, subject and credential of an authenticated session, or the
/// first thing missing from it.
pub fn resolve_auth_identity(auth_session: &AuthSessionState) -> (r: Result<
    (String, String, StoredCredentialReference),
    RfError,
>)
    ensures
        match spec_auth_identity_problem(*auth_session) {
            Some(message) => r is Err && invalid_input_is(r->Err_0, message),
            None => r is Ok && identity_of_session(r->Ok_0, *auth_session),
        },
{
    let authority_url = match &auth_session.authority_url {
        Some(url) => {
            if is_blank(url.as_str()) {
                return Err(invalid_input("auth session must contain a non-empty authority_url"));
            }
            url
        },
        None => return Err(invalid_input("auth session must contain a non-empty authority_url")),
    };
    let user = match &auth_session.current_user {
        Some(user) => user,
        None => return Err(
            invalid_input("auth session must contain current_user before syncing auth cache"),
        ),
    };
    let token_lease = match &auth_session.token_lease {
        Some(lease) => lease,
        None => return Err(
            invalid_input("auth session must contain token_lease before syncing auth cache"),
        ),
    };
    if is_blank(user.subject_id.as_str()) {
        return Err(invalid_input("auth session current_user must contain a non-empty subject_id"));
    }
    if is_blank(token_lease.credential_handle.service.as_str()) || is_blank(
        token_lease.credential_handle.account.as_str(),
    ) {
        return Err(
            invalid_input("token lease credential handle must contain non-empty service and account"),
        );
    }
    Ok(
        (
            authority_url.clone(),
            user.subject_id.clone(),
            StoredCredentialReference::new(
                token_lease.credential_handle.service.clone(),
                token_lease.credential_handle.account.clone(),
            ),
        ),
    )
}

/// The message for an entitlement that belongs to another user.
pub open spec fn subject_mismatch_message(snapshot_subject: Seq<char>, subject_id: Seq<char>) -> Seq<
    char,
> {
    "entitlement subject_id `"@ + snapshot_subject + "` does not match authenticated user `"@
        + subject_id + "`"@
}

/// An entitlement held for another user than `subject_id` is refused.
pub fn ensure_entitlement_subject_matches(entitlement: &EntitlementState, subject_id: &str) -> (r:
    Result<(), RfError>)
    ensures
        entitlement.snapshot is Some && entitlement.snapshot.unwrap().subject_id@ != subject_id@
            ==> r is Err && invalid_input_is(
            r->Err_0,
            subject_mismatch_message(entitlement.snapshot.unwrap().subject_id@, subject_id@),
        ),
        entitlement.snapshot is None || entitlement.snapshot.unwrap().subject_id@ == subject_id@
            ==> r is Ok,
{
    match &entitlement.snapshot {
        Some(snapshot) => {
            let expected = String::from_str(subject_id);
            if snapshot.subject_id != expected {
                let mut message = String::from_str("entitlement subject_id `");
                push_str(&mut message, snapshot.subject_id.as_str());
                push_str(&mut message, "` does not match authenticated user `");
                push_str(&mut message, subject_id);
                push_str(&mut message, "`");
                return Err(RfError::invalid_input(message));
            }
            Ok(())
        },
        None => Ok(()),
    }
}

/// The cached form of a snapshot synced at `synced_at`.
pub fn stored_entitlement_cache_from_snapshot(snapshot: &EntitlementSnapshot, synced_at: i128) -> (r:
    StoredEntitlementCache)
    ensures
        r.subject_id == snapshot.subject_id,
        r.tenant_id == snapshot.tenant_id,
        r.synced_at == synced_at,
        r.issued_at == snapshot.issued_at,
        r.expires_at == snapshot.expires_at,
        r.offline_lease_expires_at == snapshot.offline_lease_expires_at,
        r.feature_keys@ == snapshot.features@,
        r.allowed_package_ids@ == snapshot.allowed_package_ids@,
{
    StoredEntitlementCache {
        subject_id: snapshot.subject_id.clone(),
        tenant_id: copy_optional_string(&snapshot.tenant_id),
        synced_at,
        issued_at: snapshot.issued_at,
        expires_at: snapshot.expires_at,
        offline_lease_expires_at: snapshot.offline_lease_expires_at,
        feature_keys: copy_strings(&snapshot.features),
        allowed_package_ids: copy_strings(&snapshot.allowed_package_ids),
    }
}

/// Whether `c` is the cached form of `snapshot` synced at `synced_at`.
pub open spec fn cache_of_snapshot(c: StoredEntitlementCache, snapshot: EntitlementSnapshot, synced_at: i128) -> bool {
    &&& c.subject_id == snapshot.subject_id
    &&& c.tenant_id == snapshot.tenant_id
    &&& c.synced_at == synced_at
    &&& c.issued_at == snapshot.issued_at
    &&& c.expires_at == snapshot.expires_at
    &&& c.offline_lease_expires_at == snapshot.offline_lease_expires_at
    &&& c.feature_keys@ == snapshot.features@
    &&& c.allowed_package_ids@ == snapshot.allowed_package_ids@
}

/// The cached form of the held entitlement: none without a snapshot; a
/// snapshot without a sync instant is refused.
pub fn stored_entitlement_cache_from_state(entitlement: &EntitlementState) -> (r: Result<
    Option<StoredEntitlementCache>,
    RfError,
>)
    ensures
        match entitlement.snapshot {
            None => r == Ok::<Option<StoredEntitlementCache>, RfError>(None),
            Some(snapshot) => match entitlement.last_synced_at {
                None => r is Err && invalid_input_is(
                    r->Err_0,
                    "entitlement state with snapshot must contain last_synced_at"@,
                ),
                Some(t) => r is Ok && r->Ok_0 is Some && cache_of_snapshot(
                    r->Ok_0.unwrap(),
                    snapshot,
                    t,
                ),
            },
        },
{
    match &entitlement.snapshot {
        None => Ok(None),
        Some(snapshot) => match entitlement.last_synced_at {
            None => Err(invalid_input("entitlement state with snapshot must contain last_synced_at")),
            Some(synced_at) => Ok(Some(stored_entitlement_cache_from_snapshot(snapshot, synced_at))),
        },
    }
}

/// The cached source of a manifest source; remotely evaluated packages are
/// never downloaded.
pub open spec fn spec_stored_source(source: PropertyPackageSource) -> Option<StoredPropertyPackageSource> {
    match source {
        PropertyPackageSource::LocalBundled => Some(StoredPropertyPackageSource::LocalBundled),
        PropertyPackageSource::RemoteDerivedPackage => Some(
            StoredPropertyPackageSource::RemoteDerivedPackage,
        ),
        PropertyPackageSource::RemoteEvaluationService => None,
    }
}

/// The message for recording a remotely evaluated package.
pub open spec fn remote_source_message() -> Seq<char> {
    "remote evaluation packages must not be recorded as downloaded local packages"@
}

/// The cached source of a manifest source, or an error for a remotely
/// evaluated package.
pub fn stored_source_from_manifest_source(source: PropertyPackageSource) -> (r: Result<
    StoredPropertyPackageSource,
    RfError,
>)
    ensures
        match spec_stored_source(source) {
            Some(s) => r == Ok::<StoredPropertyPackageSource, RfError>(s),
            None => r is Err && invalid_input_is(r->Err_0, remote_source_message()),
        },
{
    match source {
        PropertyPackageSource::LocalBundled => Ok(StoredPropertyPackageSource::LocalBundled),
        PropertyPackageSource::RemoteDerivedPackage => Ok(
            StoredPropertyPackageSource::RemoteDerivedPackage,
        ),
        PropertyPackageSource::RemoteEvaluationService => Err(
            invalid_input(
                "remote evaluation packages must not be recorded as downloaded local packages",
            ),
        ),
    }
}

/// Until when cached packages may be used: the offline lease, else the
/// entitlement's own expiry.
pub open spec fn spec_record_expires_at(e: StoredEntitlementCache) -> i128 {
    match e.offline_lease_expires_at {
        Some(t) => t,
        None => e.expires_at,
    }
}

/// Until when cached packages may be used.
pub fn record_expires_at_from_entitlement(entitlement: &StoredEntitlementCache) -> (r: i128)
    ensures
        r == spec_record_expires_at(*entitlement),
{
    match entitlement.offline_lease_expires_at {
        Some(t) => t,
        None => entitlement.expires_at,
    }
}

/// The message for recording downloads without an entitlement.
pub open spec fn missing_entitlement_message() -> Seq<char> {
    "auth cache must contain entitlement before recording downloads"@
}

/// Until when packages recorded now may be used, or an error where the
/// index holds no entitlement.
pub fn active_package_expiration(index: &StoredAuthCacheIndex) -> (r: Result<i128, RfError>)
    ensures
        match index.entitlement {
            Some(e) => r == Ok::<i128, RfError>(spec_record_expires_at(e)),
            None => r is Err && invalid_input_is(r->Err_0, missing_entitlement_message()),
        },
{
    match &index.entitlement {
        Some(e) => Ok(record_expires_at_from_entitlement(e)),
        None => Err(invalid_input("auth cache must contain entitlement before recording downloads")),
    }
}

/// Whether a listed manifest still describes a cached record: not remotely
/// evaluated, and the same hash and size where the manifest gives them.
pub open spec fn spec_manifest_matches_record(
    m: PropertyPackageManifest,
    record: StoredPropertyPackageRecord,
) -> bool {
    &&& m.source != PropertyPackageSource::RemoteEvaluationService
    &&& (m.hash@.len() == 0 || m.hash@ == record.hash@)
    &&& (m.size_bytes == 0 || m.size_bytes == record.size_bytes)
}

/// Whether a listed manifest still describes a cached record.
pub fn manifest_matches_cached_record(
    manifest: &PropertyPackageManifest,
    record: &StoredPropertyPackageRecord,
) -> (r: bool)
    ensures
        r == spec_manifest_matches_record(*manifest, *record),
{
    manifest.source != PropertyPackageSource::RemoteEvaluationService && (manifest.hash.as_str().is_empty()
        || manifest.hash == record.hash) && (manifest.size_bytes == 0 || manifest.size_bytes
        == record.size_bytes)
}

/// A copy of a record.
pub fn copy_record(record: &StoredPropertyPackageRecord) -> (r: StoredPropertyPackageRecord)
    ensures
        r == *record,
{
    StoredPropertyPackageRecord {
        package_id: record.package_id.clone(),
        version: record.version.clone(),
        source: record.source,
        hash: record.hash.clone(),
        size_bytes: record.size_bytes,
        downloaded_at: record.downloaded_at,
        expires_at: record.expires_at,
    }
}

/// A record that may be used until `t`.
pub open spec fn spec_with_expiry(r: StoredPropertyPackageRecord, t: i128) -> StoredPropertyPackageRecord {
    StoredPropertyPackageRecord {
        package_id: r.package_id,
        version: r.version,
        source: r.source,
        hash: r.hash,
        size_bytes: r.size_bytes,
        downloaded_at: r.downloaded_at,
        expires_at: Some(t),
    }
}

/// The records whose package is allowed, in their order, each usable until
/// `t`.
pub open spec fn spec_allowed_records(
    records: Seq<StoredPropertyPackageRecord>,
    allowed: Seq<Seq<char>>,
    t: i128,
) -> Seq<StoredPropertyPackageRecord> {
    records.filter(|r: StoredPropertyPackageRecord| allowed.contains(r.package_id@)).map_values(
        |r: StoredPropertyPackageRecord| spec_with_expiry(r, t),
    )
}

/// Keeps the records whose package is allowed, each usable until `t`.
pub fn keep_allowed_records(
    records: &Vec<StoredPropertyPackageRecord>,
    allowed: &Vec<String>,
    t: i128,
) -> (r: Vec<StoredPropertyPackageRecord>)
    ensures
        r@ == spec_allowed_records(records@, string_texts(allowed@), t),
{
    let ghost texts = string_texts(allowed@);
    let ghost pred = |r: StoredPropertyPackageRecord| texts.contains(r.package_id@);
    let ghost f = |r: StoredPropertyPackageRecord| spec_with_expiry(r, t);
    let mut out: Vec<StoredPropertyPackageRecord> = Vec::new();
    let mut i: usize = 0;
    assert(records@.subrange(0, 0).filter(pred) =~= Seq::<StoredPropertyPackageRecord>::empty());
    while i < records.len()
        invariant
            i <= records@.len(),
            texts == string_texts(allowed@),
            pred == (|r: StoredPropertyPackageRecord| texts.contains(r.package_id@)),
            f == (|r: StoredPropertyPackageRecord| spec_with_expiry(r, t)),
            out@ == records@.subrange(0, i as int).filter(pred).map_values(f),
        decreases records@.len() - i,
    {
        let ghost before = records@.subrange(0, i as int);
        assert(records@.subrange(0, i + 1) =~= before.push(records@[i as int]));
        proof {
            before.lemma_filter_push(records@[i as int], pred);
        }
        if contains_id(allowed, &records[i].package_id) {
            let mut record = copy_record(&records[i]);
            record.expires_at = Some(t);
            out.push(record);
            assert(before.filter(pred).push(records@[i as int]).map_values(f) =~= before.filter(
                pred,
            ).map_values(f).push(f(records@[i as int])));
        }
        i = i + 1;
    }
    assert(records@.subrange(0, records@.len() as int) =~= records@);
    out
}

/// The first thing that stops an index being synced from a session and an
/// entitlement: the session's identity, an entitlement of another user, a
/// snapshot without a sync instant.
pub open spec fn spec_sync_problem(auth: AuthSessionState, e: EntitlementState) -> Option<Seq<char>> {
    match spec_auth_identity_problem(auth) {
        Some(m) => Some(m),
        None => {
            let subject = auth.current_user.unwrap().subject_id@;
            if e.snapshot is Some && e.snapshot.unwrap().subject_id@ != subject {
                Some(subject_mismatch_message(e.snapshot.unwrap().subject_id@, subject))
            } else if e.snapshot is Some && e.last_synced_at is None {
                Some("entitlement state with snapshot must contain last_synced_at"@)
            } else {
                None
            }
        },
    }
}

/// Whether `new` carries the identity of `auth` and, otherwise, `old`'s
/// entitlement, sync instant and packages.
pub open spec fn identity_replaced(
    new: StoredAuthCacheIndex,
    old: StoredAuthCacheIndex,
    auth: AuthSessionState,
) -> bool {
    &&& identity_of_session((new.authority_url, new.subject_id, new.credential), auth)
    &&& new.entitlement == old.entitlement
    &&& new.last_synced_at == old.last_synced_at
    &&& new.property_packages@ == old.property_packages@
}

/// Whether `new` is `old` synced from `auth` and `e` when nothing stops
/// it: the session's identity, the cached entitlement and its sync instant,
/// and, where an entitlement is cached, only the allowed packages, each
/// usable until the entitlement's expiry; without one the packages stay.
pub open spec fn synced_index(
    new: StoredAuthCacheIndex,
    old: StoredAuthCacheIndex,
    auth: AuthSessionState,
    e: EntitlementState,
) -> bool {
    &&& identity_of_session((new.authority_url, new.subject_id, new.credential), auth)
    &&& new.last_synced_at == e.last_synced_at
    &&& match e.snapshot {
        None => new.entitlement is None && new.property_packages@ == old.property_packages@,
        Some(snapshot) => {
            &&& new.entitlement is Some
            &&& cache_of_snapshot(new.entitlement.unwrap(), snapshot, e.last_synced_at.unwrap())
            &&& new.property_packages@ == spec_allowed_records(
                old.property_packages@,
                string_texts(snapshot.allowed_package_ids@),
                spec_record_expires_at(new.entitlement.unwrap()),
            )
        },
    }
}

/// What syncing does to the index: nothing where the session cannot own the
/// cache or the entitlement is another user's; only the identity where the
/// snapshot lacks its sync instant; otherwise the full sync.
pub open spec fn sync_effect(
    new: StoredAuthCacheIndex,
    old: StoredAuthCacheIndex,
    auth: AuthSessionState,
    e: EntitlementState,
) -> bool {
    if spec_auth_identity_problem(auth) is Some {
        new == old
    } else if e.snapshot is Some && e.snapshot.unwrap().subject_id@
        != auth.current_user.unwrap().subject_id@ {
        new == old
    } else if e.snapshot is Some && e.last_synced_at is None {
        identity_replaced(new, old, auth)
    } else {
        synced_index(new, old, auth, e)
    }
}

/// Brings the index in step with the session and the held entitlement.
/// A session that cannot own the cache, or an entitlement of another user,
/// leaves the index as it was; a snapshot without a sync instant is refused
/// after the identity was taken over.
pub fn sync_auth_cache_index(
    index: &mut StoredAuthCacheIndex,
    auth_session: &AuthSessionState,
    entitlement: &EntitlementState,
) -> (r: Result<(), RfError>)
    ensures
        match spec_sync_problem(*auth_session, *entitlement) {
            Some(message) => r is Err && invalid_input_is(r->Err_0, message),
            None => r is Ok && synced_index(*final(index), *old(index), *auth_session, *entitlement),
        },
        sync_effect(*final(index), *old(index), *auth_session, *entitlement),
{
    let (authority_url, subject_id, credential) = match resolve_auth_identity(auth_session) {
        Ok(identity) => identity,
        Err(e) => return Err(e),
    };
    match ensure_entitlement_subject_matches(entitlement, subject_id.as_str()) {
        Ok(()) => {},
        Err(e) => return Err(e),
    }
    index.authority_url = authority_url;
    index.subject_id = subject_id;
    index.credential = credential;
    let cached = match stored_entitlement_cache_from_state(entitlement) {
        Ok(cached) => cached,
        Err(e) => return Err(e),
    };
    index.entitlement = cached;
    index.last_synced_at = entitlement.last_synced_at;
    match &index.entitlement {
        Some(stored) => {
            let record_expires_at = record_expires_at_from_entitlement(stored);
            let kept = keep_allowed_records(
                &index.property_packages,
                &stored.allowed_package_ids,
                record_expires_at,
            );
            index.property_packages = kept;
        },
        None => {},
    }
    Ok(())
}

/// A new index for the session and the held entitlement, as
/// `sync_auth_cache_index` fills it.
pub fn build_auth_cache_index(auth_session: &AuthSessionState, entitlement: &EntitlementState) -> (r:
    Result<StoredAuthCacheIndex, RfError>)
    ensures
        match spec_sync_problem(*auth_session, *entitlement) {
            Some(message) => r is Err && invalid_input_is(r->Err_0, message),
            None => r is Ok && identity_of_session(
                (r->Ok_0.authority_url, r->Ok_0.subject_id, r->Ok_0.credential),
                *auth_session,
            ) && r->Ok_0.last_synced_at == entitlement.last_synced_at
                && r->Ok_0.property_packages@.len() == 0 && match entitlement.snapshot {
                None => r->Ok_0.entitlement is None,
                Some(snapshot) => r->Ok_0.entitlement is Some && cache_of_snapshot(
                    r->Ok_0.entitlement.unwrap(),
                    snapshot,
                    entitlement.last_synced_at.unwrap(),
                ),
            },
        },
{
    let (authority_url, subject_id, credential) = match resolve_auth_identity(auth_session) {
        Ok(identity) => identity,
        Err(e) => return Err(e),
    };
    match ensure_entitlement_subject_matches(entitlement, subject_id.as_str()) {
        Ok(()) => {},
        Err(e) => return Err(e),
    }
    let mut index = StoredAuthCacheIndex::new(authority_url, subject_id, credential);
    match sync_auth_cache_index(&mut index, auth_session, entitlement) {
        Ok(()) => {},
        Err(e) => return Err(e),
    }
    assert(index.property_packages@ =~= Seq::<StoredPropertyPackageRecord>::empty());
    Ok(index)
}

/// Whether texts come in strictly increasing order (so each once).
pub open spec fn strictly_increasing(texts: Seq<Seq<char>>) -> bool {
    forall|i: int, j: int| 0 <= i < j < texts.len() ==> text_lt(#[trigger] texts[i], #[trigger] texts[j])
}

/// Two strictly increasing lists holding the same texts are the same list.
pub proof fn lemma_strictly_increasing_unique(a: Seq<Seq<char>>, b: Seq<Seq<char>>)
    requires
        strictly_increasing(a),
        strictly_increasing(b),
        forall|x: Seq<char>| a.contains(x) <==> b.contains(x),
    ensures
        a == b,
    decreases a.len(),
{
    if a.len() == 0 {
        if b.len() > 0 {
            assert(b.contains(b[0]));
        }
        assert(a =~= b);
    } else {
        assert(a.contains(a[0]));
        assert(b.len() > 0);
        assert(b.contains(b[0]));
        if a[0] != b[0] {
            lemma_text_lt_total(a[0], b[0]);
            if text_lt(a[0], b[0]) {
                let k = choose|k: int| 0 <= k < b.len() && b[k] == a[0];
                assert(k != 0);
                assert(text_lt(b[0], b[k]));
                lemma_bytes_lt_asymmetric(
                    vstd::utf8::encode_utf8(a[0]),
                    vstd::utf8::encode_utf8(b[0]),
                );
            } else {
                let k = choose|k: int| 0 <= k < a.len() && a[k] == b[0];
                assert(k != 0);
                assert(text_lt(a[0], a[k]));
                lemma_bytes_lt_asymmetric(
                    vstd::utf8::encode_utf8(b[0]),
                    vstd::utf8::encode_utf8(a[0]),
                );
            }
        }
        let ar = a.drop_first();
        let br = b.drop_first();
        assert forall|x: Seq<char>| ar.contains(x) implies br.contains(x) by {
            let i = choose|i: int| 0 <= i < ar.len() && ar[i] == x;
            assert(a[i + 1] == x);
            assert(text_lt(a[0], a[i + 1]));
            if x == a[0] {
                lemma_bytes_lt_irreflexive(vstd::utf8::encode_utf8(x));
            }
            assert(b.contains(x));
            let j = choose|j: int| 0 <= j < b.len() && b[j] == x;
            assert(j != 0);
            assert(br[j - 1] == x);
        }
        assert forall|x: Seq<char>| br.contains(x) implies ar.contains(x) by {
            let i = choose|i: int| 0 <= i < br.len() && br[i] == x;
            assert(b[i + 1] == x);
            assert(text_lt(b[0], b[i + 1]));
            if x == b[0] {
                lemma_bytes_lt_irreflexive(vstd::utf8::encode_utf8(x));
            }
            assert(a.contains(x));
            let j = choose|j: int| 0 <= j < a.len() && a[j] == x;
            assert(j != 0);
            assert(ar[j - 1] == x);
        }
        assert(strictly_increasing(ar)) by {
            assert forall|i: int, j: int| 0 <= i < j < ar.len() implies text_lt(#[trigger] ar[i], #[trigger] ar[j]) by {
                assert(a[i + 1] == ar[i] && a[j + 1] == ar[j]);
            }
        }
        assert(strictly_increasing(br)) by {
            assert forall|i: int, j: int| 0 <= i < j < br.len() implies text_lt(#[trigger] br[i], #[trigger] br[j]) by {
                assert(b[i + 1] == br[i] && b[j + 1] == br[j]);
            }
        }
        lemma_strictly_increasing_unique(ar, br);
        assert(a =~= b) by {
            assert forall|i: int| 0 <= i < a.len() implies a[i] == b[i] by {
                if i > 0 {
                    assert(ar[i - 1] == a[i] && br[i - 1] == b[i]);
                }
            }
        }
    }
}

/// The package ids of a list of records.
pub open spec fn record_ids(records: Seq<StoredPropertyPackageRecord>) -> Seq<Seq<char>> {
    records.map_values(|r: StoredPropertyPackageRecord| r.package_id@)
}

/// Adds `id` to a strictly increasing list of ids unless it is there.
pub fn insert_id_in_order(ids: &mut Vec<String>, id: String)
    requires
        strictly_increasing(string_texts(old(ids)@)),
    ensures
        strictly_increasing(string_texts(final(ids)@)),
        forall|x: Seq<char>| #[trigger] string_texts(final(ids)@).contains(x) <==> (string_texts(
            old(ids)@,
        ).contains(x) || x == id@),
{
    let ghost before = string_texts(ids@);
    let mut p: usize = 0;
    while p < ids.len() && text_less(ids[p].as_str(), id.as_str())
        invariant
            p <= ids@.len(),
            ids@ == old(ids)@,
            before == string_texts(ids@),
            forall|k: int| 0 <= k < p ==> text_lt(#[trigger] before[k], id@),
        decreases ids@.len() - p,
    {
        p = p + 1;
    }
    if p < ids.len() && ids[p] == id {
        assert forall|x: Seq<char>| #[trigger] string_texts(ids@).contains(x) <==> (before.contains(x)
            || x == id@) by {
            if x == id@ {
                assert(before[p as int] == x);
            }
        }
        return;
    }
    proof {
        if p < ids@.len() {
            lemma_text_lt_total(before[p as int], id@);
        }
    }
    ids.insert(p, id);
    let ghost after = string_texts(ids@);
    assert(after =~= before.insert(p as int, id@));
    assert forall|i: int, j: int| 0 <= i < j < after.len() implies text_lt(
        #[trigger] after[i],
        #[trigger] after[j],
    ) by {
        if j == p {
            assert(text_lt(before[i], id@));
        } else if i == p {
            assert(text_lt(id@, before[p as int]));
            if j - 1 > p {
                assert(text_lt(before[p as int], before[j - 1]));
                lemma_bytes_lt_transitive(
                    vstd::utf8::encode_utf8(id@),
                    vstd::utf8::encode_utf8(before[p as int]),
                    vstd::utf8::encode_utf8(before[j - 1]),
                );
            }
        } else if i < p && j > p {
            assert(text_lt(before[i], before[j - 1]));
        } else if j < p {
            assert(text_lt(before[i], before[j]));
        } else {
            assert(text_lt(before[i - 1], before[j - 1]));
        }
    }
    assert forall|x: Seq<char>| #[trigger] after.contains(x) <==> (before.contains(x) || x == id@) by {
        if after.contains(x) {
            let k = choose|k: int| 0 <= k < after.len() && after[k] == x;
            if k < p {
                assert(before[k] == x);
            } else if k > p {
                assert(before[k - 1] == x);
            }
        }
        if before.contains(x) {
            let k = choose|k: int| 0 <= k < before.len() && before[k] == x;
            if k < p {
                assert(after[k] == x);
            } else {
                assert(after[k + 1] == x);
            }
        }
        if x == id@ {
            assert(after[p as int] == x);
        }
    }
}

/// The offline lease expiry the index holds, if any.
pub open spec fn spec_cached_offline_lease(index: StoredAuthCacheIndex) -> Option<i128> {
    match index.entitlement {
        Some(e) => e.offline_lease_expires_at,
        None => None,
    }
}

/// Whether `request` is the offline refresh request for the cached
/// packages of `index`: each cached package id once, in string order, with
/// the cached offline lease expiry and no installation id.
pub open spec fn spec_offline_refresh_request_for(
    index: StoredAuthCacheIndex,
    request: OfflineLeaseRefreshRequest,
) -> bool {
    &&& strictly_increasing(string_texts(request.package_ids@))
    &&& forall|x: Seq<char>| #[trigger] string_texts(request.package_ids@).contains(x) <==> record_ids(
        index.property_packages@,
    ).contains(x)
    &&& request.current_offline_lease_expires_at == spec_cached_offline_lease(index)
    &&& request.installation_id is None
}

/// The offline refresh request for the cached packages: each cached
/// package id once, in string order, with the cached offline lease expiry
/// and no installation id.
pub fn build_offline_refresh_request(index: &StoredAuthCacheIndex) -> (r: Result<
    OfflineLeaseRefreshRequest,
    RfError,
>)
    ensures
        r is Ok,
        spec_offline_refresh_request_for(*index, r->Ok_0),
        strictly_increasing(string_texts(r->Ok_0.package_ids@)),
        forall|x: Seq<char>| #[trigger] string_texts(r->Ok_0.package_ids@).contains(x) <==> record_ids(
            index.property_packages@,
        ).contains(x),
        r->Ok_0.current_offline_lease_expires_at == spec_cached_offline_lease(*index),
        r->Ok_0.installation_id is None,
{
    let mut package_ids: Vec<String> = Vec::new();
    let mut i: usize = 0;
    while i < index.property_packages.len()
        invariant
            i <= index.property_packages@.len(),
            strictly_increasing(string_texts(package_ids@)),
            forall|x: Seq<char>| #[trigger] string_texts(package_ids@).contains(x) <==> record_ids(
                index.property_packages@.subrange(0, i as int),
            ).contains(x),
        decreases index.property_packages@.len() - i,
    {
        let ghost prefix = record_ids(index.property_packages@.subrange(0, i as int));
        insert_id_in_order(&mut package_ids, index.property_packages[i].package_id.clone());
        let ghost next = record_ids(index.property_packages@.subrange(0, i + 1));
        assert(next =~= prefix.push(index.property_packages@[i as int].package_id@));
        assert forall|x: Seq<char>| #[trigger] next.contains(x) <==> (prefix.contains(x) || x
            == index.property_packages@[i as int].package_id@) by {
            if next.contains(x) {
                let k = choose|k: int| 0 <= k < next.len() && next[k] == x;
                if k < prefix.len() {
                    assert(prefix[k] == x);
                }
            }
            if prefix.contains(x) {
                let k = choose|k: int| 0 <= k < prefix.len() && prefix[k] == x;
                assert(next[k] == x);
            }
            if x == index.property_packages@[i as int].package_id@ {
                assert(next[prefix.len() as int] == x);
            }
        }
        i = i + 1;
    }
    assert(index.property_packages@.subrange(0, index.property_packages@.len() as int)
        =~= index.property_packages@);
    let current_offline_lease_expires_at = match &index.entitlement {
        Some(e) => e.offline_lease_expires_at,
        None => None,
    };
    Ok(OfflineLeaseRefreshRequest { package_ids, current_offline_lease_expires_at, installation_id: None })
}

/// Whether records come in order of package id (equal ids in any order).
pub open spec fn sorted_by_package_id(records: Seq<StoredPropertyPackageRecord>) -> bool {
    forall|i: int, j: int|
        0 <= i < j < records.len() ==> !text_lt(
            #[trigger] records[j].package_id@,
            #[trigger] records[i].package_id@,
        )
}

/// The records ordered by package id, keeping equal ids in their order.
pub fn sort_records_by_package_id(records: &Vec<StoredPropertyPackageRecord>) -> (r: Vec<
    StoredPropertyPackageRecord,
>)
    ensures
        sorted_by_package_id(r@),
        r@.to_multiset() == records@.to_multiset(),
{
    broadcast use vstd::seq_lib::group_to_multiset_ensures;

    let mut out: Vec<StoredPropertyPackageRecord> = Vec::new();
    let mut i: usize = 0;
    assert(records@.subrange(0, 0) =~= Seq::<StoredPropertyPackageRecord>::empty());
    while i < records.len()
        invariant
            i <= records@.len(),
            sorted_by_package_id(out@),
            out@.to_multiset() == records@.subrange(0, i as int).to_multiset(),
        decreases records@.len() - i,
    {
        let x = copy_record(&records[i]);
        let mut p: usize = 0;
        while p < out.len() && !text_less(x.package_id.as_str(), out[p].package_id.as_str())
            invariant
                p <= out@.len(),
                forall|k: int| 0 <= k < p ==> !text_lt(x.package_id@, #[trigger] out@[k].package_id@),
            decreases out@.len() - p,
        {
            p = p + 1;
        }
        let ghost before = out@;
        out.insert(p, x);
        proof {
            assert(out@ =~= before.insert(p as int, x));
            assert forall|a: int, b: int| 0 <= a < b < out@.len() implies !text_lt(
                #[trigger] out@[b].package_id@,
                #[trigger] out@[a].package_id@,
            ) by {
                if b == p {
                    assert(!text_lt(x.package_id@, before[a].package_id@));
                } else if a == p {
                    let k = b - 1;
                    assert(p < before.len());
                    assert(text_lt(x.package_id@, before[p as int].package_id@));
                    if text_lt(before[k].package_id@, x.package_id@) {
                        lemma_bytes_lt_transitive(
                            vstd::utf8::encode_utf8(before[k].package_id@),
                            vstd::utf8::encode_utf8(x.package_id@),
                            vstd::utf8::encode_utf8(before[p as int].package_id@),
                        );
                        if k == p {
                            lemma_bytes_lt_irreflexive(
                                vstd::utf8::encode_utf8(before[k].package_id@),
                            );
                        } else {
                            assert(!text_lt(before[k].package_id@, before[p as int].package_id@));
                        }
                    }
                } else if b < p {
                    assert(!text_lt(before[b].package_id@, before[a].package_id@));
                } else if a < p {
                    assert(!text_lt(before[b - 1].package_id@, before[a].package_id@));
                } else {
                    assert(!text_lt(before[b - 1].package_id@, before[a - 1].package_id@));
                }
            }
            assert(records@.subrange(0, i + 1) =~= records@.subrange(0, i as int).push(records@[i as int]));
            vstd::seq_lib::to_multiset_insert(before, p as int, x);
            vstd::seq_lib::to_multiset_build(records@.subrange(0, i as int), records@[i as int]);
            assert(out@.to_multiset() == before.to_multiset().insert(x));
        }
        i = i + 1;
    }
    assert(records@.subrange(0, records@.len() as int) =~= records@);
    out
}

/// The first reason a manifest may not be recorded as downloaded: a blank
/// package id or version, no cached entitlement, a package the entitlement
/// does not allow.
pub open spec fn spec_download_allowed_problem(
    index: StoredAuthCacheIndex,
    manifest: PropertyPackageManifest,
) -> Option<Seq<char>> {
    if trim_text(manifest.package_id@).len() == 0 {
        Some("property package manifest must contain a non-empty package_id"@)
    } else if trim_text(manifest.version@).len() == 0 {
        Some("property package manifest must contain a non-empty version"@)
    } else if index.entitlement is None {
        Some(missing_entitlement_message())
    } else if !string_texts(index.entitlement.unwrap().allowed_package_ids@).contains(
        manifest.package_id@,
    ) {
        Some(
            "package `"@ + manifest.package_id@ + "` is not present in current entitlement snapshot"@,
        )
    } else {
        None
    }
}

/// Refuses a manifest that may not be recorded as downloaded.
pub fn ensure_package_download_allowed(
    index: &StoredAuthCacheIndex,
    manifest: &PropertyPackageManifest,
) -> (r: Result<(), RfError>)
    ensures
        match spec_download_allowed_problem(*index, *manifest) {
            Some(message) => r is Err && invalid_input_is(r->Err_0, message),
            None => r is Ok,
        },
{
    if is_blank(manifest.package_id.as_str()) {
        return Err(invalid_input("property package manifest must contain a non-empty package_id"));
    }
    if is_blank(manifest.version.as_str()) {
        return Err(invalid_input("property package manifest must contain a non-empty version"));
    }
    let entitlement = match &index.entitlement {
        Some(e) => e,
        None => return Err(
            invalid_input("auth cache must contain entitlement before recording downloads"),
        ),
    };
    if !contains_id(&entitlement.allowed_package_ids, &manifest.package_id) {
        let mut message = String::from_str("package `");
        push_str(&mut message, manifest.package_id.as_str());
        push_str(&mut message, "` is not present in current entitlement snapshot");
        return Err(RfError::invalid_input(message));
    }
    Ok(())
}

/// The message for a lease grant field that differs from the manifest.
pub open spec fn grant_mismatch_message(field: Seq<char>, granted: Seq<char>, listed: Seq<char>) -> Seq<char> {
    "lease grant "@ + field + " `"@ + granted + "` does not match manifest "@ + field + " `"@ + listed
        + "`"@
}

/// The first reason a download may not be recorded: the manifest itself,
/// then a grant for another package, version, hash or size than the
/// manifest lists (hash and size only where the manifest gives them), then
/// a remotely evaluated package.
pub open spec fn spec_download_problem(
    index: StoredAuthCacheIndex,
    manifest: PropertyPackageManifest,
    grant: PropertyPackageLeaseGrant,
) -> Option<Seq<char>> {
    match spec_download_allowed_problem(index, manifest) {
        Some(m) => Some(m),
        None => if manifest.package_id@ != grant.package_id@ {
            Some(grant_mismatch_message("package_id"@, grant.package_id@, manifest.package_id@))
        } else if manifest.version@ != grant.version@ {
            Some(grant_mismatch_message("version"@, grant.version@, manifest.version@))
        } else if manifest.hash@.len() != 0 && manifest.hash@ != grant.hash@ {
            Some(grant_mismatch_message("hash"@, grant.hash@, manifest.hash@))
        } else if manifest.size_bytes != 0 && manifest.size_bytes != grant.size_bytes {
            Some(
                grant_mismatch_message(
                    "size"@,
                    decimal_text(grant.size_bytes as nat),
                    decimal_text(manifest.size_bytes as nat),
                ),
            )
        } else if spec_stored_source(manifest.source) is None {
            Some(remote_source_message())
        } else {
            None
        }
    }
}

/// A download is recorded only for the manifest's package and version,
/// with the hash and size the manifest gives: a grant whose hash differs
/// from a non-empty manifest hash, or whose size differs from a non-zero
/// manifest size, is refused (and `record_downloaded_package` then leaves
/// the index unchanged); the record a successful download stores carries
/// exactly those values.
pub proof fn lemma_download_record_matches_manifest(
    index: StoredAuthCacheIndex,
    manifest: PropertyPackageManifest,
    grant: PropertyPackageLeaseGrant,
    downloaded_at: i128,
)
    ensures
        manifest.hash@.len() > 0 && manifest.hash@ != grant.hash@ ==> spec_download_problem(
            index,
            manifest,
            grant,
        ) is Some,
        manifest.size_bytes != 0 && manifest.size_bytes != grant.size_bytes ==> spec_download_problem(
            index,
            manifest,
            grant,
        ) is Some,
        manifest.package_id@ != grant.package_id@ || manifest.version@ != grant.version@
            ==> spec_download_problem(index, manifest, grant) is Some,
        spec_download_problem(index, manifest, grant) is None ==> index.entitlement is Some
            && string_texts(index.entitlement.unwrap().allowed_package_ids@).contains(
            manifest.package_id@,
        ) && manifest.source != PropertyPackageSource::RemoteEvaluationService,
        spec_download_problem(index, manifest, grant) is None ==> ({
            let record = spec_download_record(index, manifest, grant, downloaded_at);
            &&& record.package_id@ == manifest.package_id@
            &&& record.package_id@ == grant.package_id@
            &&& record.version@ == manifest.version@
            &&& record.hash@ == grant.hash@
            &&& (manifest.hash@.len() > 0 ==> record.hash@ == manifest.hash@)
            &&& record.size_bytes == grant.size_bytes
            &&& (manifest.size_bytes != 0 ==> record.size_bytes == manifest.size_bytes)
        }),
{
}

/// The record a download makes: the manifest's package, version and
/// source, the grant's hash and size, usable until the cached expiry.
pub open spec fn spec_download_record(
    index: StoredAuthCacheIndex,
    manifest: PropertyPackageManifest,
    grant: PropertyPackageLeaseGrant,
    downloaded_at: i128,
) -> StoredPropertyPackageRecord {
    StoredPropertyPackageRecord {
        package_id: manifest.package_id,
        version: manifest.version,
        source: spec_stored_source(manifest.source).unwrap(),
        hash: grant.hash,
        size_bytes: grant.size_bytes,
        downloaded_at,
        expires_at: Some(spec_record_expires_at(index.entitlement.unwrap())),
    }
}

/// The records of other packages than `id`, in their order.
pub open spec fn spec_other_records(records: Seq<StoredPropertyPackageRecord>, id: Seq<char>) -> Seq<
    StoredPropertyPackageRecord,
> {
    records.filter(|r: StoredPropertyPackageRecord| r.package_id@ != id)
}

fn other_records(records: &Vec<StoredPropertyPackageRecord>, id: &String) -> (r: Vec<
    StoredPropertyPackageRecord,
>)
    ensures
        r@ == spec_other_records(records@, id@),
{
    let ghost pred = |r: StoredPropertyPackageRecord| r.package_id@ != id@;
    let mut out: Vec<StoredPropertyPackageRecord> = Vec::new();
    let mut i: usize = 0;
    assert(records@.subrange(0, 0).filter(pred) =~= Seq::<StoredPropertyPackageRecord>::empty());
    while i < records.len()
        invariant
            i <= records@.len(),
            pred == (|r: StoredPropertyPackageRecord| r.package_id@ != id@),
            out@ == records@.subrange(0, i as int).filter(pred),
        decreases records@.len() - i,
    {
        let ghost before = records@.subrange(0, i as int);
        assert(records@.subrange(0, i + 1) =~= before.push(records@[i as int]));
        proof {
            before.lemma_filter_push(records@[i as int], pred);
        }
        if records[i].package_id != *id {
            out.push(copy_record(&records[i]));
        }
        i = i + 1;
    }
    assert(records@.subrange(0, records@.len() as int) =~= records@);
    out
}

fn grant_mismatch(field: &str, granted: &str, listed: &str) -> (r: RfError)
    ensures
        invalid_input_is(r, grant_mismatch_message(field@, granted@, listed@)),
{
    let mut message = String::from_str("lease grant ");
    push_str(&mut message, field);
    push_str(&mut message, " `");
    push_str(&mut message, granted);
    push_str(&mut message, "` does not match manifest ");
    push_str(&mut message, field);
    push_str(&mut message, " `");
    push_str(&mut message, listed);
    push_str(&mut message, "`");
    RfError::invalid_input(message)
}

/// Records a downloaded package: any earlier record of the package is
/// replaced by one for the manifest and grant, and the records end up in
/// order of package id. A refused download leaves the index as it was.
pub fn record_downloaded_package(
    index: &mut StoredAuthCacheIndex,
    manifest: &PropertyPackageManifest,
    lease_grant: &PropertyPackageLeaseGrant,
    downloaded_at: i128,
) -> (r: Result<(), RfError>)
    ensures
        match spec_download_problem(*old(index), *manifest, *lease_grant) {
            Some(message) => r is Err && invalid_input_is(r->Err_0, message) && *final(index) == *old(
                index,
            ),
            None => {
                &&& r is Ok
                &&& sorted_by_package_id(final(index).property_packages@)
                &&& final(index).property_packages@.to_multiset() == spec_other_records(
                    old(index).property_packages@,
                    manifest.package_id@,
                ).push(spec_download_record(*old(index), *manifest, *lease_grant, downloaded_at)).to_multiset()
                &&& final(index).authority_url == old(index).authority_url
                &&& final(index).subject_id == old(index).subject_id
                &&& final(index).credential == old(index).credential
                &&& final(index).entitlement == old(index).entitlement
                &&& final(index).last_synced_at == old(index).last_synced_at
            },
        },
{
    match ensure_package_download_allowed(index, manifest) {
        Ok(()) => {},
        Err(e) => return Err(e),
    }
    if manifest.package_id != lease_grant.package_id {
        return Err(
            grant_mismatch(
                "package_id",
                lease_grant.package_id.as_str(),
                manifest.package_id.as_str(),
            ),
        );
    }
    if manifest.version != lease_grant.version {
        return Err(
            grant_mismatch("version", lease_grant.version.as_str(), manifest.version.as_str()),
        );
    }
    if !manifest.hash.as_str().is_empty() && manifest.hash != lease_grant.hash {
        return Err(grant_mismatch("hash", lease_grant.hash.as_str(), manifest.hash.as_str()));
    }
    if manifest.size_bytes != 0 && manifest.size_bytes != lease_grant.size_bytes {
        let mut granted = String::new();
        push_decimal(&mut granted, lease_grant.size_bytes as u128);
        let mut listed = String::new();
        push_decimal(&mut listed, manifest.size_bytes as u128);
        return Err(grant_mismatch("size", granted.as_str(), listed.as_str()));
    }
    let source = match stored_source_from_manifest_source(manifest.source) {
        Ok(source) => source,
        Err(e) => return Err(e),
    };
    let expires_at = match active_package_expiration(index) {
        Ok(t) => t,
        Err(e) => return Err(e),
    };
    let mut record = StoredPropertyPackageRecord::new(
        manifest.package_id.clone(),
        manifest.version.clone(),
        source,
        lease_grant.hash.clone(),
        lease_grant.size_bytes,
        downloaded_at,
    );
    record.expires_at = Some(expires_at);
    let mut kept = other_records(&index.property_packages, &manifest.package_id);
    kept.push(record);
    index.property_packages = sort_records_by_package_id(&kept);
    Ok(())
}

/// Whether the refresh keeps a cached record: some listed manifest has its
/// package and version, the refreshed entitlement allows the package, and
/// the manifest still describes the record.
pub open spec fn kept_by_refresh(
    record: StoredPropertyPackageRecord,
    manifests: Seq<PropertyPackageManifest>,
    allowed: Seq<Seq<char>>,
) -> bool {
    exists|k: int|
        0 <= k < manifests.len() && #[trigger] manifests[k].package_id@ == record.package_id@
            && manifests[k].version@ == record.version@ && allowed.contains(record.package_id@)
            && spec_manifest_matches_record(manifests[k], record)
}

/// The first of the first `n` manifests that lists `id` at `version`.
pub open spec fn first_listing(
    manifests: Seq<PropertyPackageManifest>,
    id: Seq<char>,
    version: Seq<char>,
    n: int,
) -> Option<int>
    decreases n,
{
    if n <= 0 {
        None
    } else {
        match first_listing(manifests, id, version, n - 1) {
            Some(j) => Some(j),
            None => if manifests[n - 1].package_id@ == id && manifests[n - 1].version@ == version {
                Some(n - 1)
            } else {
                None
            },
        }
    }
}

proof fn lemma_first_listing_stable(
    manifests: Seq<PropertyPackageManifest>,
    id: Seq<char>,
    version: Seq<char>,
    n: int,
    m: int,
)
    requires
        0 <= n <= m,
        first_listing(manifests, id, version, n) is Some,
    ensures
        first_listing(manifests, id, version, m) == first_listing(manifests, id, version, n),
    decreases m - n,
{
    if m > n {
        lemma_first_listing_stable(manifests, id, version, n, m - 1);
    }
}

proof fn lemma_first_listing_found(
    manifests: Seq<PropertyPackageManifest>,
    id: Seq<char>,
    version: Seq<char>,
    k: int,
    n: int,
)
    requires
        0 <= k < n <= manifests.len(),
        manifests[k].package_id@ == id,
        manifests[k].version@ == version,
    ensures
        first_listing(manifests, id, version, n) is Some,
    decreases n,
{
    if k < n - 1 {
        lemma_first_listing_found(manifests, id, version, k, n - 1);
    }
}

/// A kept record after the refresh: the source of its first listing and
/// usable until `t`; `None` where that listing is remotely evaluated.
pub open spec fn spec_refreshed_record(
    record: StoredPropertyPackageRecord,
    manifests: Seq<PropertyPackageManifest>,
    t: i128,
) -> Option<StoredPropertyPackageRecord> {
    match first_listing(manifests, record.package_id@, record.version@, manifests.len() as int) {
        Some(j) => match spec_stored_source(manifests[j].source) {
            Some(source) => Some(
                StoredPropertyPackageRecord {
                    package_id: record.package_id,
                    version: record.version,
                    source,
                    hash: record.hash,
                    size_bytes: record.size_bytes,
                    downloaded_at: record.downloaded_at,
                    expires_at: Some(t),
                },
            ),
            None => None,
        },
        None => Some(record),
    }
}

/// The records a refresh keeps, in their order.
pub open spec fn spec_kept_records(
    records: Seq<StoredPropertyPackageRecord>,
    response: OfflineLeaseRefreshResponse,
) -> Seq<StoredPropertyPackageRecord> {
    records.filter(
        |r: StoredPropertyPackageRecord|
            kept_by_refresh(
                r,
                response.manifest_list.packages@,
                string_texts(response.snapshot.allowed_package_ids@),
            ),
    )
}

/// The first of the first `n` kept records whose refresh fails.
pub open spec fn first_refresh_failure(
    kept: Seq<StoredPropertyPackageRecord>,
    manifests: Seq<PropertyPackageManifest>,
    t: i128,
    n: int,
) -> Option<int>
    decreases n,
{
    if n <= 0 {
        None
    } else {
        match first_refresh_failure(kept, manifests, t, n - 1) {
            Some(j) => Some(j),
            None => if spec_refreshed_record(kept[n - 1], manifests, t) is None {
                Some(n - 1)
            } else {
                None
            },
        }
    }
}

proof fn lemma_first_refresh_failure_stable(
    kept: Seq<StoredPropertyPackageRecord>,
    manifests: Seq<PropertyPackageManifest>,
    t: i128,
    n: int,
    m: int,
)
    requires
        0 <= n <= m,
        first_refresh_failure(kept, manifests, t, n) is Some,
    ensures
        first_refresh_failure(kept, manifests, t, m) == first_refresh_failure(kept, manifests, t, n),
    decreases m - n,
{
    if m > n {
        lemma_first_refresh_failure_stable(kept, manifests, t, n, m - 1);
    }
}

/// The kept records with the first `n` refreshed.
pub open spec fn refreshed_prefix(
    kept: Seq<StoredPropertyPackageRecord>,
    manifests: Seq<PropertyPackageManifest>,
    t: i128,
    n: int,
) -> Seq<StoredPropertyPackageRecord> {
    Seq::new(
        kept.len(),
        |j: int|
            if j < n {
                spec_refreshed_record(kept[j], manifests, t).unwrap()
            } else {
                kept[j]
            },
    )
}

fn first_listing_index(manifests: &Vec<PropertyPackageManifest>, id: &String, version: &String) -> (r:
    Option<usize>)
    ensures
        match r {
            Some(j) => j < manifests@.len() && first_listing(manifests@, id@, version@, manifests@.len() as int) == Some(
                j as int,
            ),
            None => first_listing(manifests@, id@, version@, manifests@.len() as int) is None,
        },
{
    let mut j: usize = 0;
    while j < manifests.len()
        invariant
            j <= manifests@.len(),
            first_listing(manifests@, id@, version@, j as int) is None,
        decreases manifests@.len() - j,
    {
        if manifests[j].package_id == *id && manifests[j].version == *version {
            proof {
                lemma_first_listing_stable(
                    manifests@,
                    id@,
                    version@,
                    j + 1,
                    manifests@.len() as int,
                );
            }
            return Some(j);
        }
        j = j + 1;
    }
    None
}

fn is_kept_by_refresh(
    record: &StoredPropertyPackageRecord,
    manifests: &Vec<PropertyPackageManifest>,
    allowed: &Vec<String>,
) -> (r: bool)
    ensures
        r == kept_by_refresh(*record, manifests@, string_texts(allowed@)),
{
    let allowed_here = contains_id(allowed, &record.package_id);
    let mut j: usize = 0;
    while j < manifests.len()
        invariant
            j <= manifests@.len(),
            allowed_here == string_texts(allowed@).contains(record.package_id@),
            forall|k: int|
                0 <= k < j ==> !(#[trigger] manifests@[k].package_id@ == record.package_id@
                    && manifests@[k].version@ == record.version@ && allowed_here
                    && spec_manifest_matches_record(manifests@[k], *record)),
        decreases manifests@.len() - j,
    {
        if manifests[j].package_id == record.package_id && manifests[j].version == record.version
            && allowed_here && manifest_matches_cached_record(&manifests[j], record) {
            return true;
        }
        j = j + 1;
    }
    false
}

fn kept_records(records: &Vec<StoredPropertyPackageRecord>, response: &OfflineLeaseRefreshResponse) -> (r:
    Vec<StoredPropertyPackageRecord>)
    ensures
        r@ == spec_kept_records(records@, *response),
{
    let ghost pred = |r: StoredPropertyPackageRecord|
        kept_by_refresh(
            r,
            response.manifest_list.packages@,
            string_texts(response.snapshot.allowed_package_ids@),
        );
    let mut out: Vec<StoredPropertyPackageRecord> = Vec::new();
    let mut i: usize = 0;
    assert(records@.subrange(0, 0).filter(pred) =~= Seq::<StoredPropertyPackageRecord>::empty());
    while i < records.len()
        invariant
            i <= records@.len(),
            pred == (|r: StoredPropertyPackageRecord|
                kept_by_refresh(
                    r,
                    response.manifest_list.packages@,
                    string_texts(response.snapshot.allowed_package_ids@),
                )),
            out@ == records@.subrange(0, i as int).filter(pred),
        decreases records@.len() - i,
    {
        let ghost before = records@.subrange(0, i as int);
        assert(records@.subrange(0, i + 1) =~= before.push(records@[i as int]));
        proof {
            before.lemma_filter_push(records@[i as int], pred);
        }
        if is_kept_by_refresh(
            &records[i],
            &response.manifest_list.packages,
            &response.snapshot.allowed_package_ids,
        ) {
            out.push(copy_record(&records[i]));
        }
        i = i + 1;
    }
    assert(records@.subrange(0, records@.len() as int) =~= records@);
    out
}

/// The message for a refresh answered for another user.
pub open spec fn refresh_subject_message(response_subject: Seq<char>, cached_subject: Seq<char>) -> Seq<char> {
    "offline refresh subject_id `"@ + response_subject + "` does not match auth cache subject_id `"@
        + cached_subject + "`"@
}

/// What applying an offline refresh does: see
/// `apply_offline_refresh_to_auth_cache`.
pub open spec fn refresh_effect(
    new: StoredAuthCacheIndex,
    old: StoredAuthCacheIndex,
    response: OfflineLeaseRefreshResponse,
    r: Result<(), RfError>,
) -> bool {
    &&& (old.subject_id@ != response.snapshot.subject_id@ ==> r is Err && invalid_input_is(
        r->Err_0,
        refresh_subject_message(response.snapshot.subject_id@, old.subject_id@),
    ) && new == old)
    &&& (old.subject_id@ == response.snapshot.subject_id@ ==> {
            let kept = spec_kept_records(old.property_packages@, response);
            let manifests = response.manifest_list.packages@;
            let t = match response.snapshot.offline_lease_expires_at {
                Some(t) => t,
                None => response.snapshot.expires_at,
            };
            &&& new.authority_url == old.authority_url
            &&& new.subject_id == old.subject_id
            &&& new.credential == old.credential
            &&& match first_refresh_failure(kept, manifests, t, kept.len() as int) {
                Some(f) => {
                    &&& r is Err && invalid_input_is(r->Err_0, remote_source_message())
                    &&& new.property_packages@ == refreshed_prefix(kept, manifests, t, f)
                    &&& new.entitlement == old.entitlement
                    &&& new.last_synced_at == old.last_synced_at
                },
                None => {
                    &&& r is Ok
                    &&& new.property_packages@ == refreshed_prefix(
                        kept,
                        manifests,
                        t,
                        kept.len() as int,
                    )
                    &&& new.entitlement is Some
                    &&& cache_of_snapshot(
                        new.entitlement.unwrap(),
                        response.snapshot,
                        response.refreshed_at,
                    )
                    &&& new.last_synced_at == Some(response.refreshed_at)
                },
            }
        })
}

/// Applies an offline refresh: keeps the cached packages that the answer
/// still lists at their version, allows and describes, refreshes their
/// source and expiry, and caches the refreshed entitlement. An answer for
/// another user leaves the index as it was; a kept package whose first
/// listing is remotely evaluated stops the refresh there, with the packages
/// before it refreshed and the entitlement not yet replaced.
pub fn apply_offline_refresh_to_auth_cache(
    index: &mut StoredAuthCacheIndex,
    response: &OfflineLeaseRefreshResponse,
) -> (r: Result<(), RfError>)
    ensures
        refresh_effect(*final(index), *old(index), *response, r),
{
    if index.subject_id != response.snapshot.subject_id {
        let mut message = String::from_str("offline refresh subject_id `");
        push_str(&mut message, response.snapshot.subject_id.as_str());
        push_str(&mut message, "` does not match auth cache subject_id `");
        push_str(&mut message, index.subject_id.as_str());
        push_str(&mut message, "`");
        return Err(RfError::invalid_input(message));
    }
    let stored = stored_entitlement_cache_from_snapshot(&response.snapshot, response.refreshed_at);
    let record_expires_at = record_expires_at_from_entitlement(&stored);
    let ghost manifests = response.manifest_list.packages@;
    let ghost t = record_expires_at;
    let mut kept = kept_records(&index.property_packages, response);
    let ghost kept0 = kept@;
    let mut k: usize = 0;
    while k < kept.len()
        invariant
            k <= kept@.len(),
            kept0.len() == kept@.len(),
            manifests == response.manifest_list.packages@,
            kept@ == refreshed_prefix(kept0, manifests, t, k as int),
            first_refresh_failure(kept0, manifests, t, k as int) is None,
            t == record_expires_at,
            *index == *old(index),
            old(index).subject_id@ == response.snapshot.subject_id@,
            kept0 == spec_kept_records(old(index).property_packages@, *response),
            t == (match response.snapshot.offline_lease_expires_at {
                Some(t) => t,
                None => response.snapshot.expires_at,
            }),
        decreases kept@.len() - k,
    {
        let found = first_listing_index(
            &response.manifest_list.packages,
            &kept[k].package_id,
            &kept[k].version,
        );
        match found {
            Some(j) => {
                let source = match stored_source_from_manifest_source(
                    response.manifest_list.packages[j].source,
                ) {
                    Ok(source) => source,
                    Err(e) => {
                        proof {
                            lemma_first_refresh_failure_stable(
                                kept0,
                                manifests,
                                t,
                                k + 1,
                                kept0.len() as int,
                            );
                            assert(kept@ =~= refreshed_prefix(kept0, manifests, t, k as int));
                        }
                        index.property_packages = kept;
                        return Err(e);
                    },
                };
                let mut record = copy_record(&kept[k]);
                record.source = source;
                record.expires_at = Some(record_expires_at);
                kept.set(k, record);
            },
            None => {},
        }
        assert(kept@ =~= refreshed_prefix(kept0, manifests, t, k + 1));
        k = k + 1;
    }
    index.property_packages = kept;
    index.entitlement = Some(stored);
    index.last_synced_at = Some(response.refreshed_at);
    Ok(())
}

/// After a sync with an entitlement, every cached package is one the
/// entitlement allows, usable until the entitlement's record expiry.
pub proof fn lemma_synced_packages_are_allowed(
    new: StoredAuthCacheIndex,
    old: StoredAuthCacheIndex,
    auth: AuthSessionState,
    e: EntitlementState,
    i: int,
)
    requires
        synced_index(new, old, auth, e),
        e.snapshot is Some,
        0 <= i < new.property_packages@.len(),
    ensures
        string_texts(new.entitlement.unwrap().allowed_package_ids@).contains(
            new.property_packages@[i].package_id@,
        ),
        new.property_packages@[i].expires_at == Some(spec_record_expires_at(new.entitlement.unwrap())),
{
    broadcast use vstd::seq_lib::group_filter_ensures;

    let allowed = string_texts(e.snapshot.unwrap().allowed_package_ids@);
    let pred = |r: StoredPropertyPackageRecord| allowed.contains(r.package_id@);
    let kept = old.property_packages@.filter(pred);
    assert(new.property_packages@[i] == spec_with_expiry(
        kept[i],
        spec_record_expires_at(new.entitlement.unwrap()),
    ));
    assert(pred(kept[i]));
    assert(string_texts(new.entitlement.unwrap().allowed_package_ids@) =~= allowed);
}

proof fn lemma_filter_all<A>(s: Seq<A>, pred: spec_fn(A) -> bool)
    requires
        forall|i: int| 0 <= i < s.len() ==> pred(#[trigger] s[i]),
    ensures
        s.filter(pred) == s,
    decreases s.len(),
{
    reveal_with_fuel(Seq::filter, 1);
    if s.len() > 0 {
        lemma_filter_all(s.drop_last(), pred);
        assert(s.drop_last().push(s.last()) =~= s);
        s.drop_last().lemma_filter_push(s.last(), pred);
    } else {
        assert(s.filter(pred) =~= s);
    }
}

/// Syncing twice with the same session and entitlement caches what syncing
/// once does.
pub proof fn lemma_sync_is_idempotent(
    once: StoredAuthCacheIndex,
    twice: StoredAuthCacheIndex,
    old: StoredAuthCacheIndex,
    auth: AuthSessionState,
    e: EntitlementState,
)
    requires
        synced_index(once, old, auth, e),
        synced_index(twice, once, auth, e),
    ensures
        twice.property_packages@ == once.property_packages@,
        twice.authority_url == once.authority_url,
        twice.subject_id == once.subject_id,
        twice.credential == once.credential,
        twice.last_synced_at == once.last_synced_at,
{
    if e.snapshot is Some {
        let allowed = string_texts(e.snapshot.unwrap().allowed_package_ids@);
        let t = spec_record_expires_at(once.entitlement.unwrap());
        assert(spec_record_expires_at(twice.entitlement.unwrap()) == t);
        let pred = |r: StoredPropertyPackageRecord| allowed.contains(r.package_id@);
        let f = |r: StoredPropertyPackageRecord| spec_with_expiry(r, t);
        let current = once.property_packages@;
        assert forall|i: int| 0 <= i < current.len() implies pred(#[trigger] current[i]) by {
            lemma_synced_packages_are_allowed(once, old, auth, e, i);
            assert(string_texts(once.entitlement.unwrap().allowed_package_ids@) =~= allowed);
        }
        lemma_filter_all(current, pred);
        assert forall|i: int| 0 <= i < current.len() implies f(#[trigger] current[i]) == current[i] by {
            lemma_synced_packages_are_allowed(once, old, auth, e, i);
        }
        assert(current.filter(pred).map_values(f) =~= current);
    }
}

/// After a download is recorded, the index holds the new record and no
/// other record of that package; records of other packages are those held
/// before.
pub proof fn lemma_download_replaces_package_record(
    before: Seq<StoredPropertyPackageRecord>,
    after: Seq<StoredPropertyPackageRecord>,
    record: StoredPropertyPackageRecord,
)
    requires
        after.to_multiset() == spec_other_records(before, record.package_id@).push(record).to_multiset(),
    ensures
        after.contains(record),
        forall|r: StoredPropertyPackageRecord|
            after.contains(r) && r.package_id@ == record.package_id@ ==> r == record,
        forall|r: StoredPropertyPackageRecord|
            r.package_id@ != record.package_id@ ==> after.to_multiset().count(r)
                == before.to_multiset().count(r),
{
    broadcast use vstd::seq_lib::group_to_multiset_ensures, vstd::seq_lib::group_filter_ensures;

    let pred = |r: StoredPropertyPackageRecord| r.package_id@ != record.package_id@;
    let others = before.filter(pred);
    assert(others.push(record).to_multiset().count(record) > 0);
    assert forall|r: StoredPropertyPackageRecord|
        after.contains(r) && r.package_id@ == record.package_id@ implies r == record by {
        assert(after.to_multiset().count(r) > 0);
        assert(others.push(record).to_multiset() == others.to_multiset().insert(record));
        if r != record {
            assert(others.to_multiset().count(r) > 0);
            assert(others.contains(r));
        }
    }
    assert forall|r: StoredPropertyPackageRecord|
        r.package_id@ != record.package_id@ implies after.to_multiset().count(r)
        == before.to_multiset().count(r) by {
        lemma_filter_count(before, pred, r);
    }
}

proof fn lemma_filter_count<A>(s: Seq<A>, pred: spec_fn(A) -> bool, a: A)
    requires
        pred(a),
    ensures
        s.filter(pred).to_multiset().count(a) == s.to_multiset().count(a),
    decreases s.len(),
{
    broadcast use vstd::seq_lib::group_to_multiset_ensures;

    reveal_with_fuel(Seq::filter, 1);
    if s.len() > 0 {
        lemma_filter_count(s.drop_last(), pred, a);
        assert(s.drop_last().push(s.last()) =~= s);
        s.drop_last().lemma_filter_push(s.last(), pred);
    } else {
        assert(s.filter(pred) =~= s);
    }
}

/// After a successful offline refresh, every cached package is allowed by
/// the refreshed entitlement and listed by the answer at its version by a
/// manifest that still describes it (same hash where the manifest gives
/// one, same size where it gives one, not remotely evaluated), and may be
/// used until the refreshed record expiry.
pub proof fn lemma_refreshed_packages_are_listed_and_allowed(
    before: Seq<StoredPropertyPackageRecord>,
    after: Seq<StoredPropertyPackageRecord>,
    response: OfflineLeaseRefreshResponse,
    t: i128,
    i: int,
)
    requires
        after == refreshed_prefix(
            spec_kept_records(before, response),
            response.manifest_list.packages@,
            t,
            spec_kept_records(before, response).len() as int,
        ),
        first_refresh_failure(
            spec_kept_records(before, response),
            response.manifest_list.packages@,
            t,
            spec_kept_records(before, response).len() as int,
        ) is None,
        0 <= i < after.len(),
    ensures
        string_texts(response.snapshot.allowed_package_ids@).contains(after[i].package_id@),
        exists|k: int|
            0 <= k < response.manifest_list.packages@.len()
                && #[trigger] response.manifest_list.packages@[k].package_id@ == after[i].package_id@
                && response.manifest_list.packages@[k].version@ == after[i].version@
                && response.manifest_list.packages@[k].source
                != PropertyPackageSource::RemoteEvaluationService && (
            response.manifest_list.packages@[k].hash@.len() == 0
                || response.manifest_list.packages@[k].hash@ == after[i].hash@) && (
            response.manifest_list.packages@[k].size_bytes == 0
                || response.manifest_list.packages@[k].size_bytes == after[i].size_bytes),
        after[i].expires_at == Some(t),
{
    broadcast use vstd::seq_lib::group_filter_ensures;

    let manifests = response.manifest_list.packages@;
    let allowed = string_texts(response.snapshot.allowed_package_ids@);
    let kept = spec_kept_records(before, response);
    let pred = |r: StoredPropertyPackageRecord| kept_by_refresh(r, manifests, allowed);
    assert(pred(kept[i]));
    let k = choose|k: int|
        0 <= k < manifests.len() && #[trigger] manifests[k].package_id@ == kept[i].package_id@
            && manifests[k].version@ == kept[i].version@ && allowed.contains(kept[i].package_id@)
            && spec_manifest_matches_record(manifests[k], kept[i]);
    lemma_first_listing_found(manifests, kept[i].package_id@, kept[i].version@, k, manifests.len() as int);
    lemma_no_refresh_failure(kept, manifests, t, kept.len() as int, i);
    assert(after[i] == spec_refreshed_record(kept[i], manifests, t).unwrap());
    assert(after[i].hash == kept[i].hash && after[i].size_bytes == kept[i].size_bytes);
    assert(manifests[k].package_id@ == after[i].package_id@);
}

/// After a successful offline refresh every record left in the cache is
/// allowed by the refreshed entitlement and listed at its version by a
/// manifest of the answer that still describes it: not remotely evaluated,
/// with the record's hash where the manifest gives a hash and the record's
/// size where it gives a size. A record the answer lists only with another
/// hash or size is dropped.
pub proof fn lemma_refresh_keeps_only_matching_records(
    new: StoredAuthCacheIndex,
    old: StoredAuthCacheIndex,
    response: OfflineLeaseRefreshResponse,
    i: int,
)
    requires
        refresh_effect(new, old, response, Ok::<(), RfError>(())),
        0 <= i < new.property_packages@.len(),
    ensures
        string_texts(response.snapshot.allowed_package_ids@).contains(new.property_packages@[i].package_id@),
        exists|k: int|
            0 <= k < response.manifest_list.packages@.len()
                && #[trigger] response.manifest_list.packages@[k].package_id@
                == new.property_packages@[i].package_id@
                && response.manifest_list.packages@[k].version@ == new.property_packages@[i].version@
                && response.manifest_list.packages@[k].source
                != PropertyPackageSource::RemoteEvaluationService && (
            response.manifest_list.packages@[k].hash@.len() == 0
                || response.manifest_list.packages@[k].hash@ == new.property_packages@[i].hash@) && (
            response.manifest_list.packages@[k].size_bytes == 0
                || response.manifest_list.packages@[k].size_bytes
                == new.property_packages@[i].size_bytes),
{
    let kept = spec_kept_records(old.property_packages@, response);
    let manifests = response.manifest_list.packages@;
    let t = match response.snapshot.offline_lease_expires_at {
        Some(t) => t,
        None => response.snapshot.expires_at,
    };
    lemma_refreshed_packages_are_listed_and_allowed(
        old.property_packages@,
        new.property_packages@,
        response,
        t,
        i,
    );
}

proof fn lemma_no_refresh_failure(
    kept: Seq<StoredPropertyPackageRecord>,
    manifests: Seq<PropertyPackageManifest>,
    t: i128,
    n: int,
    i: int,
)
    requires
        first_refresh_failure(kept, manifests, t, n) is None,
        0 <= i < n,
    ensures
        spec_refreshed_record(kept[i], manifests, t) is Some,
    decreases n,
{
    if i < n - 1 {
        lemma_no_refresh_failure(kept, manifests, t, n - 1, i);
    }
}

} // verus!
