//! Entitlement actions and the failures they report.
use vstd::prelude::*;

use crate::app_state::{
    EntitlementNotice, EntitlementNoticeLevel, EntitlementSnapshot, EntitlementStatus,
};
use crate::control_plane_client::{
    client_error_is, RadishFlowControlPlaneClientError, RadishFlowControlPlaneClientErrorKind,
    RadishFlowControlPlaneResponse,
};
use crate::control_plane_sync::{
    manifest_ids, manifest_sync_problem, string_texts, sync_problem, sync_problem_message,
    RadishFlowControlPlaneClient,
};
use crate::auth_cache::{
    apply_offline_refresh_to_auth_cache, build_offline_refresh_request, refresh_effect,
    spec_offline_refresh_request_for, StoredAuthCacheIndex,
};
use crate::error::RfError;
use crate::property_package::{
    OfflineLeaseRefreshRequest, OfflineLeaseRefreshResponse, PropertyPackageManifestList,
};
use crate::text::push_str;
use crate::time::latest_received_at;

verus! {

/// An entitlement command the user or the scheduler can run.
#[derive(Debug, Clone, Copy, PartialEq, Eq, Structural)]
pub enum StudioEntitlementAction {
    SyncEntitlement,
    RefreshOfflineLease,
}

/// Why an entitlement command failed.
#[derive(Debug, Clone, Copy, PartialEq, Eq, Structural)]
pub enum StudioEntitlementFailureReason {
    ConnectionUnavailable,
    ServiceUnavailable,
    AuthenticationRequired,
    AccessDenied,
    InvalidResponse,
    LocalStateInvalid,
}

/// A failed entitlement command.
#[derive(Debug, Clone, PartialEq, Eq)]
pub struct StudioEntitlementFailure {
    pub reason: StudioEntitlementFailureReason,
    pub message: String,
}

/// How an entitlement command ended.
#[derive(Debug, Clone, PartialEq, Eq)]
pub enum StudioEntitlementOutcome {
    Synced,
    OfflineLeaseRefreshed,
    Failed(StudioEntitlementFailure),
}

/// Severity of a log entry.
#[derive(Debug, Clone, Copy, PartialEq, Eq, Structural)]
pub enum AppLogLevel {
    Info,
    Warning,
    Error,
}

/// The failure reason for a client failure class: timeouts and connection
/// loss mean no connection; rate limits, server failures and other
/// transient failures mean the service is unavailable; an unauthorized
/// token needs a login; a refusal denies access; the rest are invalid
/// responses.
pub open spec fn spec_failure_reason(kind: RadishFlowControlPlaneClientErrorKind) -> StudioEntitlementFailureReason {
    match kind {
        RadishFlowControlPlaneClientErrorKind::Timeout
        | RadishFlowControlPlaneClientErrorKind::ConnectionUnavailable => StudioEntitlementFailureReason::ConnectionUnavailable,
        RadishFlowControlPlaneClientErrorKind::RateLimited
        | RadishFlowControlPlaneClientErrorKind::ServiceUnavailable
        | RadishFlowControlPlaneClientErrorKind::OtherTransient => StudioEntitlementFailureReason::ServiceUnavailable,
        RadishFlowControlPlaneClientErrorKind::Unauthorized => StudioEntitlementFailureReason::AuthenticationRequired,
        RadishFlowControlPlaneClientErrorKind::Forbidden => StudioEntitlementFailureReason::AccessDenied,
        RadishFlowControlPlaneClientErrorKind::NotFound
        | RadishFlowControlPlaneClientErrorKind::InvalidResponse
        | RadishFlowControlPlaneClientErrorKind::OtherPermanent => StudioEntitlementFailureReason::InvalidResponse,
    }
}

/// A client failure as an entitlement failure, keeping its message.
pub fn map_client_error_to_failure(error: RadishFlowControlPlaneClientError) -> (r:
    StudioEntitlementFailure)
    ensures
        r.reason == spec_failure_reason(error.kind),
        r.message == error.message,
{
    let reason = match error.kind {
        RadishFlowControlPlaneClientErrorKind::Timeout
        | RadishFlowControlPlaneClientErrorKind::ConnectionUnavailable => StudioEntitlementFailureReason::ConnectionUnavailable,
        RadishFlowControlPlaneClientErrorKind::RateLimited
        | RadishFlowControlPlaneClientErrorKind::ServiceUnavailable
        | RadishFlowControlPlaneClientErrorKind::OtherTransient => StudioEntitlementFailureReason::ServiceUnavailable,
        RadishFlowControlPlaneClientErrorKind::Unauthorized => StudioEntitlementFailureReason::AuthenticationRequired,
        RadishFlowControlPlaneClientErrorKind::Forbidden => StudioEntitlementFailureReason::AccessDenied,
        RadishFlowControlPlaneClientErrorKind::NotFound
        | RadishFlowControlPlaneClientErrorKind::InvalidResponse
        | RadishFlowControlPlaneClientErrorKind::OtherPermanent => StudioEntitlementFailureReason::InvalidResponse,
    };
    StudioEntitlementFailure { reason, message: error.message }
}

/// Whether a client failure class passes by itself: time-outs, lost
/// connections, rate limits, unavailable services and other transient
/// failures.
pub open spec fn is_transient_kind(kind: RadishFlowControlPlaneClientErrorKind) -> bool {
    ||| kind == RadishFlowControlPlaneClientErrorKind::Timeout
    ||| kind == RadishFlowControlPlaneClientErrorKind::ConnectionUnavailable
    ||| kind == RadishFlowControlPlaneClientErrorKind::RateLimited
    ||| kind == RadishFlowControlPlaneClientErrorKind::ServiceUnavailable
    ||| kind == RadishFlowControlPlaneClientErrorKind::OtherTransient
}

/// A client failure keeps its nature as an entitlement failure: the reason
/// is transient exactly when the class is; lost connections and time-outs
/// mean no connection, an unavailable service stays an unavailable
/// service, an unauthorized token needs a login and a refusal denies
/// access.
pub proof fn lemma_failure_reason_keeps_transience(kind: RadishFlowControlPlaneClientErrorKind)
    ensures
        is_transient_reason(spec_failure_reason(kind)) == is_transient_kind(kind),
        kind == RadishFlowControlPlaneClientErrorKind::ServiceUnavailable ==> spec_failure_reason(kind)
            == StudioEntitlementFailureReason::ServiceUnavailable,
        kind == RadishFlowControlPlaneClientErrorKind::Timeout || kind
            == RadishFlowControlPlaneClientErrorKind::ConnectionUnavailable ==> spec_failure_reason(kind)
            == StudioEntitlementFailureReason::ConnectionUnavailable,
        kind == RadishFlowControlPlaneClientErrorKind::Unauthorized ==> spec_failure_reason(kind)
            == StudioEntitlementFailureReason::AuthenticationRequired,
        kind == RadishFlowControlPlaneClientErrorKind::Forbidden ==> spec_failure_reason(kind)
            == StudioEntitlementFailureReason::AccessDenied,
        kind == RadishFlowControlPlaneClientErrorKind::RateLimited || kind
            == RadishFlowControlPlaneClientErrorKind::OtherTransient ==> spec_failure_reason(kind)
            == StudioEntitlementFailureReason::ServiceUnavailable,
        kind == RadishFlowControlPlaneClientErrorKind::NotFound || kind
            == RadishFlowControlPlaneClientErrorKind::InvalidResponse || kind
            == RadishFlowControlPlaneClientErrorKind::OtherPermanent ==> spec_failure_reason(kind)
            == StudioEntitlementFailureReason::InvalidResponse,
        spec_failure_reason(kind) != StudioEntitlementFailureReason::LocalStateInvalid,
        (spec_failure_notice(spec_failure_reason(kind)).0 == EntitlementNoticeLevel::Warning)
            == is_transient_kind(kind),
{
}

/// Whether a failure reason is transient: connection loss and service
/// outages pass by themselves, the others need someone to act.
pub open spec fn is_transient_reason(reason: StudioEntitlementFailureReason) -> bool {
    reason == StudioEntitlementFailureReason::ConnectionUnavailable || reason
        == StudioEntitlementFailureReason::ServiceUnavailable
}

/// The notice level and title for a failure reason.
pub open spec fn spec_failure_notice(reason: StudioEntitlementFailureReason) -> (EntitlementNoticeLevel, Seq<char>) {
    match reason {
        StudioEntitlementFailureReason::ConnectionUnavailable => (EntitlementNoticeLevel::Warning, "Connection unavailable"@),
        StudioEntitlementFailureReason::ServiceUnavailable => (EntitlementNoticeLevel::Warning, "Control plane unavailable"@),
        StudioEntitlementFailureReason::AuthenticationRequired => (EntitlementNoticeLevel::Error, "Login required"@),
        StudioEntitlementFailureReason::AccessDenied => (EntitlementNoticeLevel::Error, "Access denied"@),
        StudioEntitlementFailureReason::InvalidResponse => (EntitlementNoticeLevel::Error, "Control plane response invalid"@),
        StudioEntitlementFailureReason::LocalStateInvalid => (EntitlementNoticeLevel::Error, "Local auth cache invalid"@),
    }
}

/// The notice for a failure: its reason's level and title, its message.
pub fn notice_for_failure(failure: &StudioEntitlementFailure) -> (r: EntitlementNotice)
    ensures
        (r.level, r.title@) == spec_failure_notice(failure.reason),
        r.message == failure.message,
{
    let (level, title) = match failure.reason {
        StudioEntitlementFailureReason::ConnectionUnavailable => (EntitlementNoticeLevel::Warning, "Connection unavailable"),
        StudioEntitlementFailureReason::ServiceUnavailable => (EntitlementNoticeLevel::Warning, "Control plane unavailable"),
        StudioEntitlementFailureReason::AuthenticationRequired => (EntitlementNoticeLevel::Error, "Login required"),
        StudioEntitlementFailureReason::AccessDenied => (EntitlementNoticeLevel::Error, "Access denied"),
        StudioEntitlementFailureReason::InvalidResponse => (EntitlementNoticeLevel::Error, "Control plane response invalid"),
        StudioEntitlementFailureReason::LocalStateInvalid => (EntitlementNoticeLevel::Error, "Local auth cache invalid"),
    };
    EntitlementNotice { level, title: String::from_str(title), message: failure.message.clone() }
}

/// A transient failure is announced as a warning, any other as an error.
pub proof fn lemma_notice_level_follows_transience(reason: StudioEntitlementFailureReason)
    ensures
        (spec_failure_notice(reason).0 == EntitlementNoticeLevel::Warning) == is_transient_reason(reason),
        (spec_failure_notice(reason).0 == EntitlementNoticeLevel::Error) == !is_transient_reason(reason),
{
}

/// The label of an entitlement action in log messages.
pub open spec fn action_label_text(action: StudioEntitlementAction) -> Seq<char> {
    match action {
        StudioEntitlementAction::SyncEntitlement => "sync entitlement"@,
        StudioEntitlementAction::RefreshOfflineLease => "refresh offline lease"@,
    }
}

/// The log level and message for a failed action: a warning for transient
/// failures, an error otherwise; the message names the action.
pub fn log_payload_for_failure(action: StudioEntitlementAction, failure: &StudioEntitlementFailure) -> (r: (AppLogLevel, String))
    ensures
        r.0 == (if is_transient_reason(failure.reason) { AppLogLevel::Warning } else { AppLogLevel::Error }),
        r.1@ == action_label_text(action) + " failed: "@ + failure.message@,
{
    let action_label = match action {
        StudioEntitlementAction::SyncEntitlement => "sync entitlement",
        StudioEntitlementAction::RefreshOfflineLease => "refresh offline lease",
    };
    let level = match failure.reason {
        StudioEntitlementFailureReason::ConnectionUnavailable
        | StudioEntitlementFailureReason::ServiceUnavailable => AppLogLevel::Warning,
        StudioEntitlementFailureReason::AuthenticationRequired
        | StudioEntitlementFailureReason::AccessDenied
        | StudioEntitlementFailureReason::InvalidResponse
        | StudioEntitlementFailureReason::LocalStateInvalid => AppLogLevel::Error,
    };
    let mut message = String::from_str(action_label);
    push_str(&mut message, " failed: ");
    push_str(&mut message, failure.message.as_str());
    (level, message)
}

/// An entry of the application log.
#[derive(Debug, Clone, PartialEq, Eq)]
pub struct AppLogEntry {
    pub level: AppLogLevel,
    pub message: String,
}

/// Whether the log's last entry has this level and text.
pub open spec fn repeats_last(entries: Seq<AppLogEntry>, level: AppLogLevel, text: Seq<char>) -> bool {
    entries.len() > 0 && entries.last().level == level && entries.last().message@ == text
}

/// `after` is the log `before` once an entry of this level and text was
/// logged: unchanged where it repeats the last entry, else with the entry
/// appended.
pub open spec fn logged(
    before: Seq<AppLogEntry>,
    after: Seq<AppLogEntry>,
    level: AppLogLevel,
    text: Seq<char>,
) -> bool {
    if repeats_last(before, level, text) {
        after == before
    } else {
        &&& after.len() == before.len() + 1
        &&& after.take(before.len() as int) == before
        &&& after.last().level == level
        &&& after.last().message@ == text
    }
}

/// Appends an entry to the log unless it repeats the last one, level and
/// message alike.
pub fn push_log_if_needed(entries: &mut Vec<AppLogEntry>, level: AppLogLevel, message: &str)
    ensures
        logged(old(entries)@, final(entries)@, level, message@),
{
    let text = String::from_str(message);
    let n = entries.len();
    let repeated = n > 0 && entries[n - 1].level == level && entries[n - 1].message == text;
    if !repeated {
        entries.push(AppLogEntry { level, message: text });
        proof {
            assert(entries@.take(n as int) =~= old(entries)@);
        }
    }
}

/// Logging the same line twice in a row leaves the log as logging it once.
pub proof fn lemma_repeated_log_line_is_kept_once(
    before: Seq<AppLogEntry>,
    once: Seq<AppLogEntry>,
    twice: Seq<AppLogEntry>,
    level: AppLogLevel,
    text: Seq<char>,
)
    requires
        logged(before, once, level, text),
        logged(once, twice, level, text),
    ensures
        twice == once,
        once.len() > 0 && once.last().level == level && once.last().message@ == text,
{
}

/// What a failed entitlement action does to the application: where a
/// snapshot was held, the previous status stays and the error does not
/// block (`kept_status` holds that status); else the error is recorded as
/// blocking. The notice and log entry follow the failure; a failure that
/// needs a login also marks the session as failed.
#[derive(Debug, Clone, PartialEq, Eq)]
pub struct EntitlementFailureEffect {
    pub kept_status: Option<EntitlementStatus>,
    pub error_message: String,
    pub notice: EntitlementNotice,
    pub login_error: bool,
    pub log_level: AppLogLevel,
}

/// The effect of a failed action on the application state.
pub fn entitlement_failure_effect(
    previous_status: EntitlementStatus,
    had_snapshot: bool,
    failure: &StudioEntitlementFailure,
    action: StudioEntitlementAction,
) -> (r: EntitlementFailureEffect)
    ensures
        r.kept_status == (if had_snapshot { Some(previous_status) } else { None::<EntitlementStatus> }),
        r.error_message@ == action_label_text(action) + " failed: "@ + failure.message@,
        (r.notice.level, r.notice.title@) == spec_failure_notice(failure.reason),
        r.notice.message == failure.message,
        r.login_error == (failure.reason == StudioEntitlementFailureReason::AuthenticationRequired),
        r.log_level == (if is_transient_reason(failure.reason) { AppLogLevel::Warning } else { AppLogLevel::Error }),
{
    let notice = notice_for_failure(failure);
    let (log_level, error_message) = log_payload_for_failure(action, failure);
    let kept_status = if had_snapshot { Some(previous_status) } else { None };
    let login_error = match failure.reason {
        StudioEntitlementFailureReason::AuthenticationRequired => true,
        _ => false,
    };
    EntitlementFailureEffect { kept_status, error_message, notice, login_error, log_level }
}

/// How an offline lease refresh went, before the application state is
/// touched: applied to the auth cache (with the answer), refused by the
/// local auth cache, or failed at the control plane.
#[derive(Debug, Clone, PartialEq, Eq)]
pub enum OfflineLeaseRefreshStep {
    Applied(OfflineLeaseRefreshResponse),
    LocalStateRejected(RfError),
    ClientFailed(RadishFlowControlPlaneClientError),
}

/// Whether `step` and the cache `new` are what an offline refresh answer
/// makes of the cache `old`: a control-plane failure leaves it as it was;
/// an answer is applied, and the step is either the applied answer or the
/// cache's refusal of it.
pub open spec fn refresh_step_from_answer(
    old: StoredAuthCacheIndex,
    new: StoredAuthCacheIndex,
    answer: Result<
        RadishFlowControlPlaneResponse<OfflineLeaseRefreshResponse>,
        RadishFlowControlPlaneClientError,
    >,
    step: OfflineLeaseRefreshStep,
) -> bool {
    match answer {
        Err(e) => step == OfflineLeaseRefreshStep::ClientFailed(e) && new == old,
        Ok(response) => match step {
            OfflineLeaseRefreshStep::Applied(v) => v == response.value && refresh_effect(
                new,
                old,
                response.value,
                Ok::<(), RfError>(()),
            ),
            OfflineLeaseRefreshStep::LocalStateRejected(e) => refresh_effect(
                new,
                old,
                response.value,
                Err::<(), RfError>(e),
            ),
            OfflineLeaseRefreshStep::ClientFailed(_) => false,
        },
    }
}

/// Asks the control plane to refresh the offline leases of the cached
/// packages and applies the answer to the auth cache. A control-plane
/// failure leaves the cache as it was; an answer the cache refuses changes
/// it as applying that answer does. What the control plane answers is its
/// own affair.
pub fn refresh_offline_lease_step<Client: RadishFlowControlPlaneClient>(
    client: &Client,
    auth_cache_index: &mut StoredAuthCacheIndex,
    access_token: &str,
) -> (r: OfflineLeaseRefreshStep)
    ensures
        match r {
            OfflineLeaseRefreshStep::Applied(response) => refresh_effect(
                *final(auth_cache_index),
                *old(auth_cache_index),
                response,
                Ok::<(), RfError>(()),
            ),
            OfflineLeaseRefreshStep::LocalStateRejected(e) => exists|
                response: OfflineLeaseRefreshResponse,
            | #[trigger] refresh_effect(
                *final(auth_cache_index),
                *old(auth_cache_index),
                response,
                Err::<(), RfError>(e),
            ),
            OfflineLeaseRefreshStep::ClientFailed(_) => *final(auth_cache_index) == *old(
                auth_cache_index,
            ),
        },
        exists|
            request: OfflineLeaseRefreshRequest,
            answer: Result<
                RadishFlowControlPlaneResponse<OfflineLeaseRefreshResponse>,
                RadishFlowControlPlaneClientError,
            >,
        |
            #![trigger client.spec_refresh_answer(access_token@, request, answer)]
            spec_offline_refresh_request_for(*old(auth_cache_index), request)
                && client.spec_refresh_answer(access_token@, request, answer)
                && refresh_step_from_answer(*old(auth_cache_index), *final(auth_cache_index), answer, r),
{
    let request = match build_offline_refresh_request(auth_cache_index) {
        Ok(request) => request,
        Err(e) => return OfflineLeaseRefreshStep::LocalStateRejected(e),
    };
    let answer = client.refresh_offline_leases(access_token, &request);
    assert(client.spec_refresh_answer(access_token@, request, answer));
    match answer {
        Err(e) => OfflineLeaseRefreshStep::ClientFailed(e),
        Ok(response) => {
            let value = response.value;
            match apply_offline_refresh_to_auth_cache(auth_cache_index, &value) {
                Ok(()) => OfflineLeaseRefreshStep::Applied(value),
                Err(e) => {
                    assert(refresh_effect(
                        *auth_cache_index,
                        *old(auth_cache_index),
                        value,
                        Err::<(), RfError>(e),
                    ));
                    OfflineLeaseRefreshStep::LocalStateRejected(e)
                },
            }
        },
    }
}

/// The outcome of an offline lease refresh: refreshed once applied; a
/// local refusal fails as an invalid local state, a control-plane failure
/// as its class says, each with its message.
pub fn offline_lease_refresh_outcome(step: &OfflineLeaseRefreshStep) -> (r: StudioEntitlementOutcome)
    ensures
        step is Applied ==> r is OfflineLeaseRefreshed,
        step matches OfflineLeaseRefreshStep::LocalStateRejected(e) ==> r is Failed
            && r->Failed_0.reason == StudioEntitlementFailureReason::LocalStateInvalid
            && r->Failed_0.message == e.message,
        step matches OfflineLeaseRefreshStep::ClientFailed(e) ==> r is Failed && r->Failed_0.reason
            == spec_failure_reason(e.kind) && r->Failed_0.message == e.message,
{
    match step {
        OfflineLeaseRefreshStep::Applied(_) => StudioEntitlementOutcome::OfflineLeaseRefreshed,
        OfflineLeaseRefreshStep::LocalStateRejected(e) => StudioEntitlementOutcome::Failed(
            StudioEntitlementFailure {
                reason: StudioEntitlementFailureReason::LocalStateInvalid,
                message: e.message.clone(),
            },
        ),
        OfflineLeaseRefreshStep::ClientFailed(e) => StudioEntitlementOutcome::Failed(
            map_client_error_to_failure(
                RadishFlowControlPlaneClientError { kind: e.kind, message: e.message.clone() },
            ),
        ),
    }
}

/// The notice and info log line of a successful entitlement action.
pub open spec fn success_report_text(action: StudioEntitlementAction) -> (Seq<char>, Seq<char>, Seq<char>) {
    match action {
        StudioEntitlementAction::SyncEntitlement => (
            "Entitlement synced"@,
            "control plane entitlement snapshot and manifest list were refreshed"@,
            "Synced entitlement snapshot and property package manifests from control plane"@,
        ),
        StudioEntitlementAction::RefreshOfflineLease => (
            "Offline lease refreshed"@,
            "offline lease state and cached package permissions were refreshed"@,
            "Refreshed offline lease state from control plane"@,
        ),
    }
}

/// What a successful entitlement action shows: an information notice with
/// its title and message, and the text of its info log line.
pub fn entitlement_success_report(action: StudioEntitlementAction) -> (r: (EntitlementNotice, &'static str))
    ensures
        r.0.level == EntitlementNoticeLevel::Info,
        (r.0.title@, r.0.message@, r.1@) == success_report_text(action),
{
    match action {
        StudioEntitlementAction::SyncEntitlement => (
            EntitlementNotice {
                level: EntitlementNoticeLevel::Info,
                title: String::from_str("Entitlement synced"),
                message: String::from_str("control plane entitlement snapshot and manifest list were refreshed"),
            },
            "Synced entitlement snapshot and property package manifests from control plane",
        ),
        StudioEntitlementAction::RefreshOfflineLease => (
            EntitlementNotice {
                level: EntitlementNoticeLevel::Info,
                title: String::from_str("Offline lease refreshed"),
                message: String::from_str("offline lease state and cached package permissions were refreshed"),
            },
            "Refreshed offline lease state from control plane",
        ),
    }
}

/// Whether `r` is the payload a sync makes of a fetched snapshot and
/// manifest list: an invalid response where they disagree, else both with
/// the later arrival instant.
pub open spec fn sync_payload_from(
    snapshot: RadishFlowControlPlaneResponse<EntitlementSnapshot>,
    manifest_list: RadishFlowControlPlaneResponse<PropertyPackageManifestList>,
    r: Result<(EntitlementSnapshot, PropertyPackageManifestList, i128), RadishFlowControlPlaneClientError>,
) -> bool {
    match sync_problem(
        manifest_ids(manifest_list.value.packages@),
        string_texts(snapshot.value.allowed_package_ids@),
        manifest_list.value.packages@.len() as int,
    ) {
        Some((i, duplicate)) => r is Err && client_error_is(
            r->Err_0,
            RadishFlowControlPlaneClientErrorKind::InvalidResponse,
            sync_problem_message(manifest_ids(manifest_list.value.packages@)[i], duplicate),
        ),
        None => r is Ok && r->Ok_0.0 == snapshot.value && r->Ok_0.1 == manifest_list.value
            && r->Ok_0.2 == (if snapshot.received_at >= manifest_list.received_at {
            snapshot.received_at
        } else {
            manifest_list.received_at
        }),
    }
}

/// Whether `r` is what a sync makes of the client's answers: a failed
/// snapshot fetch fails with its error (the list is then not asked for), a
/// failed list fetch likewise, and two answers combine as
/// `sync_payload_from` says.
pub open spec fn sync_payload_from_answers(
    snapshot: Result<RadishFlowControlPlaneResponse<EntitlementSnapshot>, RadishFlowControlPlaneClientError>,
    manifest_list: Result<
        RadishFlowControlPlaneResponse<PropertyPackageManifestList>,
        RadishFlowControlPlaneClientError,
    >,
    r: Result<(EntitlementSnapshot, PropertyPackageManifestList, i128), RadishFlowControlPlaneClientError>,
) -> bool {
    match snapshot {
        Err(e) => r is Err && r->Err_0 == e,
        Ok(s) => match manifest_list {
            Err(e) => r is Err && r->Err_0 == e,
            Ok(l) => sync_payload_from(s, l, r),
        },
    }
}

/// The payload of a sync from a fetched snapshot and manifest list: an
/// invalid response where they disagree, else both with the later arrival
/// instant.
pub fn entitlement_sync_payload_from_responses(
    snapshot: RadishFlowControlPlaneResponse<EntitlementSnapshot>,
    manifest_list: RadishFlowControlPlaneResponse<PropertyPackageManifestList>,
) -> (r: Result<(EntitlementSnapshot, PropertyPackageManifestList, i128), RadishFlowControlPlaneClientError>)
    ensures
        sync_payload_from(snapshot, manifest_list, r),
{
    match manifest_sync_problem(&snapshot.value, &manifest_list.value.packages) {
        Some(message) => return Err(RadishFlowControlPlaneClientError::invalid_response(message)),
        None => {},
    }
    let synced_at = latest_received_at(snapshot.received_at, manifest_list.received_at);
    Ok((snapshot.value, manifest_list.value, synced_at))
}

/// Fetches the snapshot, then the manifest list (only once the snapshot
/// came), and combines them as `entitlement_sync_payload_from_responses`
/// does; a failed fetch fails the sync with its failure. What the control
/// plane answers is its own affair: the result is what
/// `sync_payload_from_answers` makes of some pair of answers.
pub fn fetch_entitlement_sync_payload<Client: RadishFlowControlPlaneClient>(
    client: &Client,
    access_token: &str,
) -> (r: Result<(EntitlementSnapshot, PropertyPackageManifestList, i128), RadishFlowControlPlaneClientError>)
    ensures
        exists|
            snapshot: Result<
                RadishFlowControlPlaneResponse<EntitlementSnapshot>,
                RadishFlowControlPlaneClientError,
            >,
            manifest_list: Result<
                RadishFlowControlPlaneResponse<PropertyPackageManifestList>,
                RadishFlowControlPlaneClientError,
            >,
        |
            #[trigger] sync_payload_from_answers(snapshot, manifest_list, r)
                && client.spec_snapshot_answer(access_token@, snapshot) && (snapshot is Ok
                ==> client.spec_manifest_list_answer(access_token@, manifest_list)),
        r matches Ok(v) ==> sync_problem(
            manifest_ids(v.1.packages@),
            string_texts(v.0.allowed_package_ids@),
            v.1.packages@.len() as int,
        ) is None,
{
    let snapshot = client.fetch_entitlement_snapshot(access_token);
    let ghost snapshot_answer = snapshot;
    let snapshot = match snapshot {
        Ok(s) => s,
        Err(e) => {
            assert(sync_payload_from_answers(
                snapshot_answer,
                Err::<RadishFlowControlPlaneResponse<PropertyPackageManifestList>, RadishFlowControlPlaneClientError>(e),
                Err(e),
            ));
            return Err(e);
        },
    };
    let manifest_list = client.fetch_property_package_manifest_list(access_token);
    let ghost list_answer = manifest_list;
    let manifest_list = match manifest_list {
        Ok(m) => m,
        Err(e) => {
            assert(sync_payload_from_answers(snapshot_answer, list_answer, Err(e)));
            return Err(e);
        },
    };
    let r = entitlement_sync_payload_from_responses(snapshot, manifest_list);
    assert(sync_payload_from_answers(snapshot_answer, list_answer, r));
    r
}

} // verus!
