//! The parts of the application state that the entitlement logic reads.
//!
//! The desktop application keeps a much larger state; these types hold, as
//! plain values, exactly what the scheduling and control-plane logic consults.
use vstd::prelude::*;

verus! {

/// The signed-in user.
#[derive(Debug, Clone, PartialEq, Eq)]
pub struct AuthenticatedUser {
    pub subject_id: String,
    pub display_name: String,
}

/// Where the operating system keeps the user's credential.
#[derive(Debug, Clone, PartialEq, Eq)]
pub struct SecureCredentialHandle {
    pub service: String,
    pub account: String,
}

/// The lease on the user's access token.
#[derive(Debug, Clone, PartialEq, Eq)]
pub struct TokenLease {
    pub expires_at: i128,
    pub credential_handle: SecureCredentialHandle,
}

/// The signed-in session as the entitlement logic sees it.
#[derive(Debug, Clone, PartialEq, Eq)]
pub struct AuthSessionState {
    /// The session status is `Authenticated`.
    pub authenticated: bool,
    pub authority_url: Option<String>,
    pub current_user: Option<AuthenticatedUser>,
    pub token_lease: Option<TokenLease>,
    /// When the last login completed.
    pub last_authenticated_at: Option<i128>,
}

/// Status of the locally held entitlement.
#[derive(Debug, Clone, Copy, PartialEq, Eq, Structural)]
pub enum EntitlementStatus {
    Unknown,
    Active,
    LeaseExpired,
    Error,
}

/// An entitlement snapshot issued by the control plane.
///
/// `features` and `allowed_package_ids` hold each id once.
#[derive(Debug, Clone, PartialEq, Eq)]
pub struct EntitlementSnapshot {
    pub schema_version: u32,
    pub subject_id: String,
    pub tenant_id: Option<String>,
    pub issued_at: i128,
    pub expires_at: i128,
    pub offline_lease_expires_at: Option<i128>,
    pub features: Vec<String>,
    pub allowed_package_ids: Vec<String>,
}

/// The locally held entitlement.
#[derive(Debug, Clone, PartialEq, Eq)]
pub struct EntitlementState {
    pub status: EntitlementStatus,
    pub snapshot: Option<EntitlementSnapshot>,
    pub last_synced_at: Option<i128>,
}

/// The application state read by the entitlement scheduler.
#[derive(Debug, Clone, PartialEq, Eq)]
pub struct AppState {
    pub auth_session: AuthSessionState,
    pub entitlement: EntitlementState,
}

/// Severity of an entitlement notice.
#[derive(Debug, Clone, Copy, PartialEq, Eq, Structural)]
pub enum EntitlementNoticeLevel {
    Info,
    Warning,
    Error,
}

/// A notice shown in the entitlement panel.
#[derive(Debug, Clone, PartialEq, Eq)]
pub struct EntitlementNotice {
    pub level: EntitlementNoticeLevel,
    pub title: String,
    pub message: String,
}

/// Whether the session is authenticated with everything a control-plane call
/// needs: an authority, a user and a token lease.
pub open spec fn spec_has_authenticated_session(app: AppState) -> bool {
    &&& app.auth_session.authenticated
    &&& app.auth_session.authority_url is Some
    &&& app.auth_session.current_user is Some
    &&& app.auth_session.token_lease is Some
}

/// Whether the session is authenticated with authority, user and token lease.
pub fn has_authenticated_session(app_state: &AppState) -> (r: bool)
    ensures
        r == spec_has_authenticated_session(*app_state),
{
    app_state.auth_session.authenticated && app_state.auth_session.authority_url.is_some()
        && app_state.auth_session.current_user.is_some()
        && app_state.auth_session.token_lease.is_some()
}

/// Whether no usable entitlement snapshot is held: none was synced, or the
/// status is `Unknown` or `Error`.
pub open spec fn spec_snapshot_unavailable(e: EntitlementState) -> bool {
    ||| e.snapshot is None
    ||| e.last_synced_at is None
    ||| e.status == EntitlementStatus::Unknown
    ||| e.status == EntitlementStatus::Error
}

/// Whether no usable entitlement snapshot is held.
pub fn snapshot_unavailable(entitlement: &EntitlementState) -> (r: bool)
    ensures
        r == spec_snapshot_unavailable(*entitlement),
{
    entitlement.snapshot.is_none() || entitlement.last_synced_at.is_none() || matches!(
        entitlement.status,
        EntitlementStatus::Unknown | EntitlementStatus::Error
    )
}

} // verus!
