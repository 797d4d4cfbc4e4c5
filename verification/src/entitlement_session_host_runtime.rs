//! Timer effects the host runtime hands to the window, and the runtime that
//! remembers the armed timer between snapshots.
use vstd::prelude::*;

use crate::app_state::AppState;
use crate::entitlement_preflight::{EntitlementSessionPolicy, EntitlementSessionState};
use crate::entitlement_session_host::{
    copy_host_snapshot, snapshot_entitlement_session_host_with_context, spec_timer_command,
    EntitlementSessionHostContext, EntitlementSessionHostSnapshot, EntitlementSessionTimerArm,
    EntitlementSessionTimerCommand,
};

verus! {

/// What the window's timer must do.
#[derive(Debug, Clone, Copy, PartialEq, Eq, Structural)]
pub enum EntitlementSessionHostTimerEffect {
    KeepTimer { timer: EntitlementSessionTimerArm },
    ArmTimer { timer: EntitlementSessionTimerArm },
    RearmTimer { previous: EntitlementSessionTimerArm, next: EntitlementSessionTimerArm },
    ClearTimer { previous: EntitlementSessionTimerArm },
}

/// The effect that carries out a timer command.
pub open spec fn spec_timer_effect(command: EntitlementSessionTimerCommand) -> EntitlementSessionHostTimerEffect {
    match command {
        EntitlementSessionTimerCommand::Keep { timer } => EntitlementSessionHostTimerEffect::KeepTimer {
            timer,
        },
        EntitlementSessionTimerCommand::Schedule { timer } => EntitlementSessionHostTimerEffect::ArmTimer {
            timer,
        },
        EntitlementSessionTimerCommand::Reschedule {
            previous,
            next,
        } => EntitlementSessionHostTimerEffect::RearmTimer { previous, next },
        EntitlementSessionTimerCommand::Clear { previous } => EntitlementSessionHostTimerEffect::ClearTimer {
            previous,
        },
    }
}

/// The effect that carries out a timer command.
pub fn timer_effect_from_command(command: &EntitlementSessionTimerCommand) -> (r:
    EntitlementSessionHostTimerEffect)
    ensures
        r == spec_timer_effect(*command),
{
    match *command {
        EntitlementSessionTimerCommand::Keep { timer } => EntitlementSessionHostTimerEffect::KeepTimer {
            timer,
        },
        EntitlementSessionTimerCommand::Schedule { timer } => EntitlementSessionHostTimerEffect::ArmTimer {
            timer,
        },
        EntitlementSessionTimerCommand::Reschedule {
            previous,
            next,
        } => EntitlementSessionHostTimerEffect::RearmTimer { previous, next },
        EntitlementSessionTimerCommand::Clear { previous } => EntitlementSessionHostTimerEffect::ClearTimer {
            previous,
        },
    }
}

/// Distinct commands lead to distinct effects, and every effect is reached
/// by one command.
pub proof fn lemma_timer_effect_is_bijective(
    a: EntitlementSessionTimerCommand,
    b: EntitlementSessionTimerCommand,
    e: EntitlementSessionHostTimerEffect,
)
    ensures
        spec_timer_effect(a) == spec_timer_effect(b) ==> a == b,
        exists|c: EntitlementSessionTimerCommand| spec_timer_effect(c) == e,
{
    let c = match e {
        EntitlementSessionHostTimerEffect::KeepTimer { timer } => EntitlementSessionTimerCommand::Keep {
            timer,
        },
        EntitlementSessionHostTimerEffect::ArmTimer { timer } => EntitlementSessionTimerCommand::Schedule {
            timer,
        },
        EntitlementSessionHostTimerEffect::RearmTimer {
            previous,
            next,
        } => EntitlementSessionTimerCommand::Reschedule { previous, next },
        EntitlementSessionHostTimerEffect::ClearTimer { previous } => EntitlementSessionTimerCommand::Clear {
            previous,
        },
    };
    assert(spec_timer_effect(c) == e);
}

impl EntitlementSessionHostSnapshot {
    /// The effect of the snapshot's timer command, if it has one.
    pub fn timer_effect(&self) -> (r: Option<EntitlementSessionHostTimerEffect>)
        ensures
            r == (match self.timer_command {
                Some(c) => Some(spec_timer_effect(c)),
                None => None::<EntitlementSessionHostTimerEffect>,
            }),
    {
        match &self.timer_command {
            Some(command) => Some(timer_effect_from_command(command)),
            None => None,
        }
    }
}

/// A snapshot together with the timer effect it calls for.
#[derive(Debug, Clone, PartialEq, Eq)]
pub struct EntitlementSessionHostRuntimeOutput {
    pub snapshot: EntitlementSessionHostSnapshot,
    pub timer_effect: Option<EntitlementSessionHostTimerEffect>,
}

impl EntitlementSessionHostRuntimeOutput {
    /// The output for a snapshot.
    pub fn from_snapshot(snapshot: EntitlementSessionHostSnapshot) -> (r: Self)
        ensures
            r.snapshot == snapshot,
            r.timer_effect == (match snapshot.timer_command {
                Some(c) => Some(spec_timer_effect(c)),
                None => None::<EntitlementSessionHostTimerEffect>,
            }),
    {
        let timer_effect = snapshot.timer_effect();
        EntitlementSessionHostRuntimeOutput { snapshot, timer_effect }
    }
}

/// The host runtime: remembers the armed timer between snapshots.
#[derive(Debug, Clone, PartialEq, Eq)]
pub struct EntitlementSessionHostRuntime {
    context: EntitlementSessionHostContext,
}

impl EntitlementSessionHostRuntime {
    /// A runtime with no timer armed.
    pub fn new() -> (r: Self)
        ensures
            r.spec_current_timer() is None,
            r.spec_last_snapshot() is None,
    {
        EntitlementSessionHostRuntime { context: EntitlementSessionHostContext::new() }
    }

    /// The timer the runtime holds.
    pub closed spec fn spec_current_timer(&self) -> Option<EntitlementSessionTimerArm> {
        self.context.spec_current_timer()
    }

    /// The snapshot recorded last.
    pub closed spec fn spec_last_snapshot(&self) -> Option<EntitlementSessionHostSnapshot> {
        self.context.spec_last_snapshot()
    }

    /// The timer the runtime holds.
    pub fn current_timer(&self) -> (r: Option<&EntitlementSessionTimerArm>)
        ensures
            r == (match self.spec_current_timer() {
                Some(t) => Some(&t),
                None => None::<&EntitlementSessionTimerArm>,
            }),
    {
        self.context.current_timer()
    }

    /// The snapshot recorded last.
    pub fn last_snapshot(&self) -> (r: Option<&EntitlementSessionHostSnapshot>)
        ensures
            r == (match self.spec_last_snapshot() {
                Some(t) => Some(&t),
                None => None::<&EntitlementSessionHostSnapshot>,
            }),
    {
        self.context.last_snapshot()
    }

    /// The output for the snapshot recorded last.
    pub fn last_output(&self) -> (r: Option<EntitlementSessionHostRuntimeOutput>)
        ensures
            match self.spec_last_snapshot() {
                Some(s) => r is Some && r.unwrap().snapshot == s && r.unwrap().timer_effect == (
                match s.timer_command {
                    Some(c) => Some(spec_timer_effect(c)),
                    None => None::<EntitlementSessionHostTimerEffect>,
                }),
                None => r is None,
            },
    {
        match self.context.last_snapshot() {
            Some(snapshot) => Some(
                EntitlementSessionHostRuntimeOutput::from_snapshot(copy_host_snapshot(snapshot)),
            ),
            None => None,
        }
    }

    /// Takes a snapshot at `now`, records it, and returns it with its timer
    /// effect.
    pub fn snapshot(
        &mut self,
        app_state: &AppState,
        now: i128,
        policy: &EntitlementSessionPolicy,
        session_state: &EntitlementSessionState,
    ) -> (r: EntitlementSessionHostRuntimeOutput)
        ensures
            crate::entitlement_preflight::spec_schedule_matches(
                r.snapshot.state.driver.schedule,
                *app_state,
                now,
                *policy,
                *session_state,
            ),
            r.snapshot.state.driver.session_state == *session_state,
            r.snapshot.state.next_timer == crate::entitlement_session_host::spec_timer_arm(
                r.snapshot.state.driver.schedule,
                now,
            ),
            r.snapshot.timer_command == spec_timer_command(
                old(self).spec_current_timer(),
                r.snapshot.state.next_timer,
            ),
            r.timer_effect == (match r.snapshot.timer_command {
                Some(c) => Some(spec_timer_effect(c)),
                None => None::<EntitlementSessionHostTimerEffect>,
            }),
            final(self).spec_current_timer() == r.snapshot.state.next_timer,
            final(self).spec_last_snapshot() == Some(r.snapshot),
    {
        let snapshot = snapshot_entitlement_session_host_with_context(
            app_state,
            now,
            policy,
            session_state,
            &mut self.context,
        );
        EntitlementSessionHostRuntimeOutput::from_snapshot(snapshot)
    }
}

} // verus!
