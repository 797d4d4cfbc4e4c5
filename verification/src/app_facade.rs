//! How application commands are classified and how workspace runs report
//! their outcome.
use vstd::prelude::*;

use crate::entitlement_control::{logged, push_log_if_needed, AppLogEntry, AppLogLevel};
use crate::error::ErrorCode;
use crate::text::push_str;

verus! {

/// The lane a command executes in.
#[derive(Debug, Clone, Copy, PartialEq, Eq, Structural)]
pub enum StudioAppExecutionLane {
    WorkspaceSolve,
    WorkspaceControl,
    EntitlementControl,
}

/// Where a command executes.
#[derive(Debug, Clone, Copy, PartialEq, Eq, Structural)]
pub enum StudioAppExecutionBoundary {
    Inline(StudioAppExecutionLane),
}

/// Why a workspace run was blocked.
#[derive(Debug, Clone, Copy, PartialEq, Eq, Structural)]
pub enum StudioWorkspaceRunBlockedReason {
    CachedPackageMissing,
    ExplicitPackageSelectionRequired,
    EntitlementMismatch,
    InvalidSelection,
    ModelingInputsNotReady,
    MissingProjectComponents,
    PendingInspectorDrafts,
    UnnormalizedStreamComposition,
}

/// A blocked workspace run.
#[derive(Debug, Clone, PartialEq, Eq)]
pub struct StudioWorkspaceRunBlocked {
    pub reason: StudioWorkspaceRunBlockedReason,
    pub message: String,
}

/// Why a workspace run failed.
#[derive(Debug, Clone, Copy, PartialEq, Eq, Structural)]
pub enum StudioWorkspaceRunFailedReason {
    LocalCacheUnavailable,
    SolveFailed,
}

/// A failed workspace run.
#[derive(Debug, Clone, PartialEq, Eq)]
pub struct StudioWorkspaceRunFailed {
    pub reason: StudioWorkspaceRunFailedReason,
    pub message: String,
}

/// How a workspace run ended: started (the solve request itself is the
/// solver's), skipped, blocked or failed.
#[derive(Debug, Clone, PartialEq, Eq)]
pub enum StudioWorkspaceRunOutcome {
    Started,
    Skipped(WorkspaceSolveSkipReason),
    Blocked(StudioWorkspaceRunBlocked),
    Failed(StudioWorkspaceRunFailed),
}

/// Why the solve service skipped a run.
#[derive(Debug, Clone, Copy, PartialEq, Eq, Structural)]
pub enum WorkspaceSolveSkipReason {
    HoldMode,
    NoPendingRequest,
}

/// Whether the workspace solves automatically.
#[derive(Debug, Clone, Copy, PartialEq, Eq, Structural)]
pub enum SimulationMode {
    Active,
    Hold,
}

/// The kinds of application command.
#[derive(Debug, Clone, Copy, PartialEq, Eq, Structural)]
pub enum StudioAppCommandKind {
    RunWorkspace,
    ResumeWorkspace,
    SetWorkspaceSimulationMode,
    SyncEntitlement,
    RefreshOfflineLease,
}

/// The lane of a command kind: runs solve, mode changes control the
/// workspace, entitlement commands control the entitlement.
pub open spec fn spec_execution_boundary(kind: StudioAppCommandKind) -> StudioAppExecutionBoundary {
    match kind {
        StudioAppCommandKind::RunWorkspace | StudioAppCommandKind::ResumeWorkspace => StudioAppExecutionBoundary::Inline(StudioAppExecutionLane::WorkspaceSolve),
        StudioAppCommandKind::SetWorkspaceSimulationMode => StudioAppExecutionBoundary::Inline(StudioAppExecutionLane::WorkspaceControl),
        _ => StudioAppExecutionBoundary::Inline(StudioAppExecutionLane::EntitlementControl),
    }
}

impl StudioAppCommandKind {
    /// Where a command of this kind executes.
    pub fn execution_boundary(&self) -> (r: StudioAppExecutionBoundary)
        ensures
            r == spec_execution_boundary(*self),
    {
        match self {
            StudioAppCommandKind::RunWorkspace | StudioAppCommandKind::ResumeWorkspace => StudioAppExecutionBoundary::Inline(StudioAppExecutionLane::WorkspaceSolve),
            StudioAppCommandKind::SetWorkspaceSimulationMode => StudioAppExecutionBoundary::Inline(StudioAppExecutionLane::WorkspaceControl),
            StudioAppCommandKind::SyncEntitlement | StudioAppCommandKind::RefreshOfflineLease => StudioAppExecutionBoundary::Inline(StudioAppExecutionLane::EntitlementControl),
        }
    }
}

/// Why a run was skipped, in words.
pub open spec fn skip_reason_text(reason: WorkspaceSolveSkipReason) -> Seq<char> {
    match reason {
        WorkspaceSolveSkipReason::HoldMode => "simulation mode is Hold"@,
        WorkspaceSolveSkipReason::NoPendingRequest => "there is no pending solve request"@,
    }
}

/// Why a run was skipped, in words.
pub fn describe_workspace_skip_reason(reason: WorkspaceSolveSkipReason) -> (r: &'static str)
    ensures
        r@ == skip_reason_text(reason),
{
    match reason {
        WorkspaceSolveSkipReason::HoldMode => "simulation mode is Hold",
        WorkspaceSolveSkipReason::NoPendingRequest => "there is no pending solve request",
    }
}

/// The name of a simulation mode.
pub open spec fn simulation_mode_text(mode: SimulationMode) -> Seq<char> {
    match mode {
        SimulationMode::Active => "Active"@,
        SimulationMode::Hold => "Hold"@,
    }
}

/// The name of a simulation mode.
pub fn describe_simulation_mode(mode: SimulationMode) -> (r: &'static str)
    ensures
        r@ == simulation_mode_text(mode),
{
    match mode {
        SimulationMode::Active => "Active",
        SimulationMode::Hold => "Hold",
    }
}

/// The diagnostic a workspace-run error carries, as the solve service
/// classifies it.
#[derive(Debug, Clone, Copy, PartialEq, Eq, Structural)]
pub enum WorkspaceRunDiagnostic {
    CachedPackageMissing,
    ExplicitPackageSelectionRequired,
    EntitlementMismatch,
    InvalidSelection,
    LocalCacheUnavailable,
}

/// Why a run was blocked, from its diagnostic: the diagnostic's own reason
/// where it names one, else a missing cached package for a missing entity
/// and an invalid selection otherwise.
pub open spec fn spec_blocked_reason(diagnostic: Option<WorkspaceRunDiagnostic>, code: ErrorCode) -> StudioWorkspaceRunBlockedReason {
    match diagnostic {
        Some(WorkspaceRunDiagnostic::CachedPackageMissing) => StudioWorkspaceRunBlockedReason::CachedPackageMissing,
        Some(WorkspaceRunDiagnostic::ExplicitPackageSelectionRequired) => StudioWorkspaceRunBlockedReason::ExplicitPackageSelectionRequired,
        Some(WorkspaceRunDiagnostic::EntitlementMismatch) => StudioWorkspaceRunBlockedReason::EntitlementMismatch,
        Some(WorkspaceRunDiagnostic::InvalidSelection) => StudioWorkspaceRunBlockedReason::InvalidSelection,
        _ => match code {
            ErrorCode::MissingEntity => StudioWorkspaceRunBlockedReason::CachedPackageMissing,
            _ => StudioWorkspaceRunBlockedReason::InvalidSelection,
        },
    }
}

/// A blocked run for an error with `diagnostic`, `code` and `message`.
pub fn map_workspace_run_blocked(
    diagnostic: Option<WorkspaceRunDiagnostic>,
    code: ErrorCode,
    message: String,
) -> (r: StudioWorkspaceRunBlocked)
    ensures
        r.reason == spec_blocked_reason(diagnostic, code),
        r.message == message,
{
    let reason = match diagnostic {
        Some(WorkspaceRunDiagnostic::CachedPackageMissing) => StudioWorkspaceRunBlockedReason::CachedPackageMissing,
        Some(WorkspaceRunDiagnostic::ExplicitPackageSelectionRequired) => StudioWorkspaceRunBlockedReason::ExplicitPackageSelectionRequired,
        Some(WorkspaceRunDiagnostic::EntitlementMismatch) => StudioWorkspaceRunBlockedReason::EntitlementMismatch,
        Some(WorkspaceRunDiagnostic::InvalidSelection) => StudioWorkspaceRunBlockedReason::InvalidSelection,
        _ => match code {
            ErrorCode::MissingEntity => StudioWorkspaceRunBlockedReason::CachedPackageMissing,
            ErrorCode::InvalidInput => StudioWorkspaceRunBlockedReason::InvalidSelection,
        },
    };
    StudioWorkspaceRunBlocked { reason, message }
}

/// Why a run failed: the local cache where the diagnostic says so, else the
/// solve where the solve session ended in error, else the local cache.
pub open spec fn spec_failed_reason(diagnostic: Option<WorkspaceRunDiagnostic>, solve_failed: bool) -> StudioWorkspaceRunFailedReason {
    if diagnostic == Some(WorkspaceRunDiagnostic::LocalCacheUnavailable) {
        StudioWorkspaceRunFailedReason::LocalCacheUnavailable
    } else if solve_failed {
        StudioWorkspaceRunFailedReason::SolveFailed
    } else {
        StudioWorkspaceRunFailedReason::LocalCacheUnavailable
    }
}

/// The message of a failed run: for a failed solve the latest error logged
/// by the solver, else one naming the package; for the local cache one
/// naming the package.
pub open spec fn spec_failed_message(
    reason: StudioWorkspaceRunFailedReason,
    latest_solver_error: Option<Seq<char>>,
    package_id: Seq<char>,
    message: Seq<char>,
) -> Seq<char> {
    match reason {
        StudioWorkspaceRunFailedReason::SolveFailed => match latest_solver_error {
            Some(m) => m,
            None => "workspace run with property package `"@ + package_id + "` failed: "@ + message,
        },
        StudioWorkspaceRunFailedReason::LocalCacheUnavailable => "failed to prepare local property package cache for `"@
            + package_id + "`: "@ + message,
    }
}

/// A failed run for an error with `diagnostic` and `message`, given whether
/// the solve session ended in error and the latest error the solver logged.
pub fn map_workspace_run_failed(
    diagnostic: Option<WorkspaceRunDiagnostic>,
    solve_failed: bool,
    latest_solver_error: Option<String>,
    package_id: &str,
    message: &str,
) -> (r: StudioWorkspaceRunFailed)
    ensures
        r.reason == spec_failed_reason(diagnostic, solve_failed),
        r.message@ == spec_failed_message(
            r.reason,
            match latest_solver_error {
                Some(m) => Some(m@),
                None => None,
            },
            package_id@,
            message@,
        ),
{
    let reason = match diagnostic {
        Some(WorkspaceRunDiagnostic::LocalCacheUnavailable) => StudioWorkspaceRunFailedReason::LocalCacheUnavailable,
        _ => if solve_failed {
            StudioWorkspaceRunFailedReason::SolveFailed
        } else {
            StudioWorkspaceRunFailedReason::LocalCacheUnavailable
        },
    };
    let text = match reason {
        StudioWorkspaceRunFailedReason::SolveFailed => match latest_solver_error {
            Some(m) => m,
            None => {
                let mut text = String::from_str("workspace run with property package `");
                push_str(&mut text, package_id);
                push_str(&mut text, "` failed: ");
                push_str(&mut text, message);
                text
            },
        },
        StudioWorkspaceRunFailedReason::LocalCacheUnavailable => {
            let mut text = String::from_str("failed to prepare local property package cache for `");
            push_str(&mut text, package_id);
            push_str(&mut text, "`: ");
            push_str(&mut text, message);
            text
        },
    };
    StudioWorkspaceRunFailed { reason, message: text }
}

/// The log line of a skipped run.
pub fn skipped_run_log_message(reason: WorkspaceSolveSkipReason) -> (r: String)
    ensures
        r@ == "Skipped workspace run because "@ + skip_reason_text(reason),
{
    let mut text = String::from_str("Skipped workspace run because ");
    push_str(&mut text, describe_workspace_skip_reason(reason));
    text
}

/// The log line of a blocked run.
pub fn blocked_run_log_message(blocked: &StudioWorkspaceRunBlocked) -> (r: String)
    ensures
        r@ == "Blocked workspace run because "@ + blocked.message@,
{
    let mut text = String::from_str("Blocked workspace run because ");
    push_str(&mut text, blocked.message.as_str());
    text
}

/// The log entry a run outcome leaves: none for a started run, an info
/// line for a skipped one, a warning for a blocked one and the failure's
/// message as an error.
pub open spec fn spec_run_log(outcome: StudioWorkspaceRunOutcome) -> Option<(AppLogLevel, Seq<char>)> {
    match outcome {
        StudioWorkspaceRunOutcome::Started => None,
        StudioWorkspaceRunOutcome::Skipped(reason) => Some(
            (AppLogLevel::Info, "Skipped workspace run because "@ + skip_reason_text(reason)),
        ),
        StudioWorkspaceRunOutcome::Blocked(blocked) => Some(
            (AppLogLevel::Warning, "Blocked workspace run because "@ + blocked.message@),
        ),
        StudioWorkspaceRunOutcome::Failed(failed) => Some((AppLogLevel::Error, failed.message@)),
    }
}

/// Logs a run outcome, unless the log already ends with that entry.
pub fn record_workspace_run_log(entries: &mut Vec<AppLogEntry>, outcome: &StudioWorkspaceRunOutcome)
    ensures
        match spec_run_log(*outcome) {
            None => final(entries)@ == old(entries)@,
            Some((level, text)) => logged(old(entries)@, final(entries)@, level, text),
        },
{
    match outcome {
        StudioWorkspaceRunOutcome::Started => {},
        StudioWorkspaceRunOutcome::Skipped(reason) => {
            let text = skipped_run_log_message(*reason);
            push_log_if_needed(entries, AppLogLevel::Info, text.as_str());
        },
        StudioWorkspaceRunOutcome::Blocked(blocked) => {
            let text = blocked_run_log_message(blocked);
            push_log_if_needed(entries, AppLogLevel::Warning, text.as_str());
        },
        StudioWorkspaceRunOutcome::Failed(failed) => {
            push_log_if_needed(entries, AppLogLevel::Error, failed.message.as_str());
        },
    }
}

} // verus!
