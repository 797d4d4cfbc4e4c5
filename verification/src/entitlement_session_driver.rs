//! How the session driver handles its events: lifecycle events run a tick,
//! completed commands are recorded into the session state.
use vstd::prelude::*;

use crate::entitlement_control::StudioEntitlementAction;
use crate::entitlement_preflight::{
    record_entitlement_session_dispatch, spec_apply_outcome, spec_preflight_action_of,
    EntitlementSessionPolicy, EntitlementSessionState,
};
use crate::entitlement_session_host::EntitlementSessionEvent;

verus! {

/// What handling an event leaves to the driver.
#[derive(Debug, Clone, Copy, PartialEq, Eq, Structural)]
pub enum EntitlementSessionEventStep {
    /// Run a session tick.
    Tick,
    /// A completed command was recorded; nothing more to run.
    RecordedCommand { action: StudioEntitlementAction },
}

/// Handles the part of an event that needs no control plane: a completed
/// command is recorded into the session state at `now`; the other events
/// ask for a tick and leave the state alone.
pub fn record_entitlement_session_event(
    event: &EntitlementSessionEvent,
    session_state: &mut EntitlementSessionState,
    now: i128,
    policy: &EntitlementSessionPolicy,
) -> (r: EntitlementSessionEventStep)
    ensures
        match *event {
            EntitlementSessionEvent::EntitlementCommandCompleted(outcome) => {
                &&& r == EntitlementSessionEventStep::RecordedCommand { action: outcome.action }
                &&& *final(session_state) == spec_apply_outcome(
                    *old(session_state),
                    spec_preflight_action_of(outcome.action),
                    outcome.outcome,
                    now,
                    *policy,
                )
            },
            _ => r == EntitlementSessionEventStep::Tick && *final(session_state) == *old(
                session_state,
            ),
        },
{
    match event {
        EntitlementSessionEvent::EntitlementCommandCompleted(dispatch) => {
            record_entitlement_session_dispatch(
                session_state,
                dispatch.action,
                &dispatch.outcome,
                now,
                policy,
            );
            EntitlementSessionEventStep::RecordedCommand { action: dispatch.action }
        },
        EntitlementSessionEvent::SessionStarted
        | EntitlementSessionEvent::LoginCompleted
        | EntitlementSessionEvent::TimerElapsed => EntitlementSessionEventStep::Tick,
    }
}

} // verus!
