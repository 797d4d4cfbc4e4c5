//! The headless command line: its wire types, exit codes, failure codes,
//! and how sequential modeling steps bind and resolve identities.
use vstd::prelude::*;

use crate::app_facade::{
    StudioWorkspaceRunBlockedReason, StudioWorkspaceRunFailedReason, StudioWorkspaceRunOutcome,
    WorkspaceSolveSkipReason,
};
use crate::text::{decimal_text, push_decimal};
use crate::text::{push_str, trim_text, is_blank};

verus! {

/// The request and response schema version.
pub const SCHEMA_VERSION: u32 = 1;

/// A unit or stream of the document, by id.
#[derive(Debug, Clone, PartialEq, Eq)]
pub enum Object {
    Unit(String),
    Stream(String),
}

/// Which part of an object a variable belongs to.
#[derive(Debug, Clone, Copy, PartialEq, Eq, Structural)]
pub enum Section {
    Inputs,
    Results,
}

/// A variable of an object.
#[derive(Debug, Clone, PartialEq, Eq)]
pub enum Field {
    Name,
    OutletTemperature,
    OutletPressure,
    Temperature,
    Pressure,
    MolarFlow,
    MoleFraction(String),
    PhaseFraction(String),
    PhaseMoleFraction { phase: String, component: String },
    PhaseMolarEnthalpy(String),
}

/// A variable of the document.
#[derive(Debug, Clone, PartialEq, Eq)]
pub struct Target {
    pub object: Object,
    pub section: Section,
    pub field: Field,
}

/// How a headless run ended.
#[derive(Debug, Clone, Copy, PartialEq, Eq, Structural)]
pub enum Status {
    Success,
    Error,
    Blocked,
    Failed,
}

/// The process exit code for a status: 0 success, 2 request, load, write
/// or read error, 3 blocked, 4 run failed.
pub open spec fn spec_exit_code(status: Status) -> i32 {
    match status {
        Status::Success => 0,
        Status::Error => 2,
        Status::Blocked => 3,
        Status::Failed => 4,
    }
}

impl Status {
    /// The process exit code for the status.
    pub fn exit_code(&self) -> (r: i32)
        ensures
            r == spec_exit_code(*self),
    {
        match self {
            Status::Success => 0,
            Status::Error => 2,
            Status::Blocked => 3,
            Status::Failed => 4,
        }
    }
}

/// Only success exits with 0; distinct statuses exit with distinct codes,
/// none of them the code reserved for output failures.
pub proof fn lemma_exit_codes_distinct(a: Status, b: Status)
    ensures
        spec_exit_code(a) == 0 <==> a == Status::Success,
        spec_exit_code(a) == spec_exit_code(b) ==> a == b,
        spec_exit_code(a) != OUTPUT_ERROR_EXIT_CODE,
{
}

/// The exit code when writing the response itself fails.
pub const OUTPUT_ERROR_EXIT_CODE: i32 = 5;

/// The document a response speaks of.
#[derive(Debug, Clone, PartialEq, Eq)]
pub struct Document {
    pub id: String,
    pub revision: u64,
}

/// The receipt of one write.
#[derive(Debug, Clone, PartialEq, Eq)]
pub struct WriteReceipt {
    pub target: Target,
    pub revision: u64,
    pub changed: bool,
}

/// A failed request: the stage, a stable code, a message, and the index of
/// the write or step that failed.
#[derive(Debug, Clone, PartialEq, Eq)]
pub struct Failure {
    pub stage: &'static str,
    pub code: &'static str,
    pub message: String,
    pub index: Option<usize>,
}

/// A port of a unit.
#[derive(Debug, Clone, PartialEq, Eq)]
pub struct Port {
    pub unit_id: String,
    pub port: String,
}

/// A diagnostic of a blocked or failed run.
#[derive(Debug, Clone, PartialEq, Eq)]
pub struct Diagnostic {
    pub code: Option<String>,
    pub message: String,
    pub unit_ids: Vec<String>,
    pub stream_ids: Vec<String>,
    pub ports: Vec<Port>,
}

/// Where a variable's value comes from.
#[derive(Debug, Clone, PartialEq, Eq)]
pub enum Source {
    DocumentInput,
    StreamTemplate,
    SolveResult { snapshot: String, revision: u64, sequence: u64 },
    NoResult,
}

/// The state of a variable's value.
#[derive(Debug, Clone, Copy, PartialEq, Eq, Structural)]
pub enum ValueState {
    Valid,
    Invalid,
    Unspecified,
    Missing,
    Stale,
}

/// A failure with no index.
pub fn failure(stage: &'static str, code: &'static str, message: String) -> (r: Failure)
    ensures
        r.stage == stage,
        r.code == code,
        r.message == message,
        r.index is None,
{
    Failure { stage, code, message, index: None }
}

/// The stable code of a blocked run.
pub open spec fn blocked_code_text(reason: StudioWorkspaceRunBlockedReason) -> Seq<char> {
    match reason {
        StudioWorkspaceRunBlockedReason::CachedPackageMissing => "cached_package_missing"@,
        StudioWorkspaceRunBlockedReason::ExplicitPackageSelectionRequired => "explicit_package_selection_required"@,
        StudioWorkspaceRunBlockedReason::EntitlementMismatch => "entitlement_mismatch"@,
        StudioWorkspaceRunBlockedReason::InvalidSelection => "invalid_selection"@,
        StudioWorkspaceRunBlockedReason::ModelingInputsNotReady => "modeling_inputs_not_ready"@,
        StudioWorkspaceRunBlockedReason::MissingProjectComponents => "missing_project_components"@,
        StudioWorkspaceRunBlockedReason::PendingInspectorDrafts => "pending_inspector_drafts"@,
        StudioWorkspaceRunBlockedReason::UnnormalizedStreamComposition => "unnormalized_stream_composition"@,
    }
}

/// The stable code of a blocked run.
pub fn blocked_code(reason: StudioWorkspaceRunBlockedReason) -> (r: &'static str)
    ensures
        r@ == blocked_code_text(reason),
{
    match reason {
        StudioWorkspaceRunBlockedReason::CachedPackageMissing => "cached_package_missing",
        StudioWorkspaceRunBlockedReason::ExplicitPackageSelectionRequired => "explicit_package_selection_required",
        StudioWorkspaceRunBlockedReason::EntitlementMismatch => "entitlement_mismatch",
        StudioWorkspaceRunBlockedReason::InvalidSelection => "invalid_selection",
        StudioWorkspaceRunBlockedReason::ModelingInputsNotReady => "modeling_inputs_not_ready",
        StudioWorkspaceRunBlockedReason::MissingProjectComponents => "missing_project_components",
        StudioWorkspaceRunBlockedReason::PendingInspectorDrafts => "pending_inspector_drafts",
        StudioWorkspaceRunBlockedReason::UnnormalizedStreamComposition => "unnormalized_stream_composition",
    }
}

/// An identity given directly or as the result of an earlier step.
#[derive(Debug, Clone, PartialEq, Eq)]
pub enum IdentityReference {
    Id(String),
    Step(String),
}

/// A unit or stream by reference.
#[derive(Debug, Clone, PartialEq, Eq)]
pub enum ObjectReference {
    Unit(IdentityReference),
    Stream(IdentityReference),
}

/// A variable by reference.
#[derive(Debug, Clone, PartialEq, Eq)]
pub struct ReferenceTarget {
    pub object: ObjectReference,
    pub section: Section,
    pub field: Field,
}

impl ReferenceTarget {
    /// The reference that names a target's object by its id.
    pub fn from_target(target: Target) -> (r: Self)
        ensures
            r.section == target.section,
            r.field == target.field,
            r.object == (match target.object {
                Object::Unit(id) => ObjectReference::Unit(IdentityReference::Id(id)),
                Object::Stream(id) => ObjectReference::Stream(IdentityReference::Id(id)),
            }),
    {
        ReferenceTarget {
            object: match target.object {
                Object::Unit(id) => ObjectReference::Unit(IdentityReference::Id(id)),
                Object::Stream(id) => ObjectReference::Stream(IdentityReference::Id(id)),
            },
            section: target.section,
            field: target.field,
        }
    }
}

/// A port by reference.
#[derive(Debug, Clone, PartialEq, Eq)]
pub struct PortReference {
    pub unit: IdentityReference,
    pub port: String,
}

/// Kinds of unit a step can create.
#[derive(Debug, Clone, Copy, PartialEq, Eq, Structural)]
pub enum UnitKind {
    Feed,
    Heater,
    Cooler,
    Valve,
    Mixer,
    FlashDrum,
}

/// What a step did.
#[derive(Debug, Clone, PartialEq, Eq)]
pub enum StepEffect {
    Created { unit_id: String },
    Connected { stream_id: String, source: Port, sink: Option<Port> },
    Written { target: Target, changed: bool },
}

/// The receipt of one step.
#[derive(Debug, Clone, PartialEq, Eq)]
pub struct StepReceipt {
    pub id: String,
    pub index: usize,
    pub revision: u64,
    pub effect: StepEffect,
}

/// What a completed step returned.
#[derive(Debug, Clone, PartialEq, Eq)]
pub enum BoundIdentity {
    Unit(String),
    Stream(String),
    NoIdentity,
}

/// The kind of object a reference must resolve to.
#[derive(Debug, Clone, Copy, PartialEq, Eq, Structural)]
pub enum IdentityKind {
    Unit,
    Stream,
}

/// `Debug` text of a string, as std writes it (quoted, with escapes).
pub uninterp spec fn debug_text(s: Seq<char>) -> Seq<char>;

/// The `Debug` text of a string slice, written by `format!("{:?}", s)`.
/// Trusted, not proved: the contract only names the result as the
/// `debug_text` of the input, a function of the input alone; nothing is
/// claimed of its form.
#[verifier::external_body]
pub(crate) fn debug_string(s: &str) -> (r: String)
    ensures
        r@ == debug_text(s@),
{
    format!("{:?}", s)
}

/// The identity bound to `key` by the first entry that names it.
pub open spec fn spec_lookup(entries: Seq<(String, BoundIdentity)>, key: Seq<char>) -> Option<BoundIdentity>
    decreases entries.len(),
{
    if entries.len() == 0 {
        None
    } else if entries[0].0@ == key {
        Some(entries[0].1)
    } else {
        spec_lookup(entries.drop_first(), key)
    }
}

proof fn lemma_lookup_push(entries: Seq<(String, BoundIdentity)>, e: (String, BoundIdentity), key: Seq<char>)
    ensures
        spec_lookup(entries.push(e), key) == (match spec_lookup(entries, key) {
            Some(v) => Some(v),
            None => if e.0@ == key {
                Some(e.1)
            } else {
                None
            },
        }),
    decreases entries.len(),
{
    assert(entries.push(e).len() > 0);
    if entries.len() > 0 {
        assert(entries.push(e)[0] == entries[0]);
        assert(entries.push(e).drop_first() =~= entries.drop_first().push(e));
        lemma_lookup_push(entries.drop_first(), e, key);
    } else {
        assert(entries.push(e)[0] == e);
        assert(entries.push(e).drop_first() =~= Seq::<(String, BoundIdentity)>::empty());
        assert(spec_lookup(Seq::<(String, BoundIdentity)>::empty(), key) is None);
    }
}

proof fn lemma_lookup_update(
    entries: Seq<(String, BoundIdentity)>,
    i: int,
    e: (String, BoundIdentity),
    key: Seq<char>,
)
    requires
        0 <= i < entries.len(),
        e.0@ == entries[i].0@,
        forall|j: int| 0 <= j < i ==> entries[j].0@ != entries[i].0@,
    ensures
        spec_lookup(entries.update(i, e), key) == (if key == e.0@ {
            Some(e.1)
        } else {
            spec_lookup(entries, key)
        }),
    decreases i,
{
    if i > 0 {
        assert(entries.update(i, e)[0] == entries[0]);
        assert(entries[0].0@ != entries[i].0@);
        assert(entries.update(i, e).drop_first() =~= entries.drop_first().update(i - 1, e));
        lemma_lookup_update(entries.drop_first(), i - 1, e, key);
    } else {
        assert(entries.update(0, e)[0] == e);
        assert(entries.update(0, e).drop_first() =~= entries.drop_first());
    }
}

/// The identities bound by completed steps, by step id.
#[derive(Debug, Clone, PartialEq, Eq)]
pub struct Bindings {
    entries: Vec<(String, BoundIdentity)>,
}

/// A copy of a bound identity.
pub fn copy_identity(identity: &BoundIdentity) -> (r: BoundIdentity)
    ensures
        r == *identity,
{
    match identity {
        BoundIdentity::Unit(id) => BoundIdentity::Unit(id.clone()),
        BoundIdentity::Stream(id) => BoundIdentity::Stream(id.clone()),
        BoundIdentity::NoIdentity => BoundIdentity::NoIdentity,
    }
}

/// The failure for a step reference: the step has not completed, or does
/// not return an object of the required kind.
pub open spec fn spec_reference_problem(bound: Option<BoundIdentity>, kind: IdentityKind, step: Seq<char>) -> Option<(Seq<char>, Seq<char>)> {
    match (bound, kind) {
        (Some(BoundIdentity::Unit(_)), IdentityKind::Unit) => None,
        (Some(BoundIdentity::Stream(_)), IdentityKind::Stream) => None,
        (None, _) => Some(("unknown_step_reference"@, "step "@ + debug_text(step) + " has not completed"@)),
        _ => Some(("reference_kind_mismatch"@, "step "@ + debug_text(step) + " does not return the required object kind"@)),
    }
}

/// The id a resolved reference names.
pub open spec fn spec_bound_id(bound: Option<BoundIdentity>) -> Seq<char> {
    match bound {
        Some(BoundIdentity::Unit(id)) => id@,
        Some(BoundIdentity::Stream(id)) => id@,
        _ => Seq::empty(),
    }
}

/// How a reference resolves: a direct id to itself, a step reference to
/// the identity the step bound, if it is of the required kind.
pub open spec fn resolution_matches(
    r: Result<String, Failure>,
    bindings: Map<Seq<char>, BoundIdentity>,
    reference: IdentityReference,
    kind: IdentityKind,
) -> bool {
    match reference {
        IdentityReference::Id(id) => r == Ok::<String, Failure>(id),
        IdentityReference::Step(step) => {
            let bound = if bindings.contains_key(step@) { Some(bindings[step@]) } else { None };
            match spec_reference_problem(bound, kind, step@) {
                None => r is Ok && r->Ok_0@ == spec_bound_id(bound),
                Some((code, message)) => r is Err && r->Err_0.stage@ == "step"@ && r->Err_0.code@
                    == code && r->Err_0.message@ == message && r->Err_0.index is None,
            }
        },
    }
}

impl Bindings {
    /// No step bound yet.
    pub fn new() -> (r: Self)
        ensures
            r@ == Map::<Seq<char>, BoundIdentity>::empty(),
    {
        let r = Bindings { entries: Vec::new() };
        assert(r@ =~= Map::<Seq<char>, BoundIdentity>::empty());
        r
    }

    /// The identity each completed step bound, by step id.
    pub closed spec fn view(&self) -> Map<Seq<char>, BoundIdentity> {
        Map::new(
            |k: Seq<char>| spec_lookup(self.entries@, k) is Some,
            |k: Seq<char>| spec_lookup(self.entries@, k).unwrap(),
        )
    }

    fn find(&self, key: &str) -> (r: Option<usize>)
        ensures
            match r {
                Some(i) => i < self.entries@.len() && self.entries@[i as int].0@ == key@
                    && forall|j: int| 0 <= j < i ==> self.entries@[j].0@ != key@,
                None => forall|j: int| 0 <= j < self.entries@.len() ==> self.entries@[j].0@ != key@,
            },
            match r {
                Some(i) => spec_lookup(self.entries@, key@) == Some(self.entries@[i as int].1),
                None => spec_lookup(self.entries@, key@) is None,
            },
    {
        let key_string = String::from_str(key);
        let mut i: usize = 0;
        assert(self.entries@.subrange(0, self.entries@.len() as int) =~= self.entries@);
        while i < self.entries.len()
            invariant
                key_string@ == key@,
                i <= self.entries@.len(),
                forall|j: int| 0 <= j < i ==> self.entries@[j].0@ != key@,
                spec_lookup(self.entries@, key@) == spec_lookup(self.entries@.subrange(i as int, self.entries@.len() as int), key@),
            decreases self.entries@.len() - i,
        {
            if self.entries[i].0 == key_string {
                assert(self.entries@.subrange(i as int, self.entries@.len() as int)[0] == self.entries@[i as int]);
                return Some(i);
            }
            assert(self.entries@.subrange(i as int, self.entries@.len() as int)[0] == self.entries@[i as int]);
            assert(self.entries@.subrange(i as int, self.entries@.len() as int).drop_first()
                =~= self.entries@.subrange(i + 1, self.entries@.len() as int));
            i = i + 1;
        }
        None
    }

    /// Whether a step with id `key` has completed.
    pub fn contains_key(&self, key: &str) -> (r: bool)
        ensures
            r == self@.contains_key(key@),
    {
        self.find(key).is_some()
    }

    /// The identity step `key` bound, if it completed.
    pub fn get(&self, key: &str) -> (r: Option<BoundIdentity>)
        ensures
            r == (if self@.contains_key(key@) { Some(self@[key@]) } else { None::<BoundIdentity> }),
    {
        match self.find(key) {
            Some(i) => Some(copy_identity(&self.entries[i].1)),
            None => None,
        }
    }

    /// Binds step `key` to `identity`, replacing an earlier binding of it.
    pub fn insert(&mut self, key: String, identity: BoundIdentity)
        ensures
            final(self)@ == old(self)@.insert(key@, identity),
    {
        let ghost k = key@;
        match self.find(key.as_str()) {
            Some(i) => {
                let ghost before = self.entries@;
                self.entries.set(i, (key, identity));
                proof {
                    assert forall|q: Seq<char>| true implies spec_lookup(self.entries@, q) == (if q == k {
                        Some(identity)
                    } else {
                        spec_lookup(before, q)
                    }) by {
                        lemma_lookup_update(before, i as int, (key, identity), q);
                    }
                }
            },
            None => {
                let ghost before = self.entries@;
                self.entries.push((key, identity));
                proof {
                    assert forall|q: Seq<char>| true implies spec_lookup(self.entries@, q) == (match spec_lookup(before, q) {
                        Some(v) => Some(v),
                        None => if q == k {
                            Some(identity)
                        } else {
                            None
                        },
                    }) by {
                        lemma_lookup_push(before, (key, identity), q);
                    }
                    assert(spec_lookup(before, k) is None);
                }
            },
        }
        assert(self@ =~= old(self)@.insert(k, identity));
    }

    /// Resolves a reference: a direct id stands for itself; a step
    /// reference needs a completed step that returned the required kind.
    pub fn resolve(&self, reference: IdentityReference, kind: IdentityKind) -> (r: Result<String, Failure>)
        ensures
            resolution_matches(r, self@, reference, kind),
    {
        match reference {
            IdentityReference::Id(id) => Ok(id),
            IdentityReference::Step(step) => {
                let bound = self.get(step.as_str());
                match (bound, kind) {
                    (Some(BoundIdentity::Unit(id)), IdentityKind::Unit) => Ok(id),
                    (Some(BoundIdentity::Stream(id)), IdentityKind::Stream) => Ok(id),
                    (None, _) => {
                        let mut message = String::from_str("step ");
                        let quoted = debug_string(step.as_str());
                        push_str(&mut message, quoted.as_str());
                        push_str(&mut message, " has not completed");
                        Err(failure("step", "unknown_step_reference", message))
                    },
                    _ => {
                        let mut message = String::from_str("step ");
                        let quoted = debug_string(step.as_str());
                        push_str(&mut message, quoted.as_str());
                        push_str(&mut message, " does not return the required object kind");
                        Err(failure("step", "reference_kind_mismatch", message))
                    },
                }
            },
        }
    }

    /// Resolves a reference target into a target: units and streams by the
    /// required kind; section and field unchanged.
    pub fn resolve_target(&self, target: ReferenceTarget) -> (r: Result<Target, Failure>)
        ensures
            match target.object {
                ObjectReference::Unit(reference) => {
                    let res = match r {
                        Ok(t) => match t.object {
                            Object::Unit(id) => Ok::<String, Failure>(id),
                            Object::Stream(id) => Ok::<String, Failure>(id),
                        },
                        Err(e) => Err::<String, Failure>(e),
                    };
                    resolution_matches(res, self@, reference, IdentityKind::Unit) && (r matches Ok(t) ==> t.object is Unit)
                },
                ObjectReference::Stream(reference) => {
                    let res = match r {
                        Ok(t) => match t.object {
                            Object::Unit(id) => Ok::<String, Failure>(id),
                            Object::Stream(id) => Ok::<String, Failure>(id),
                        },
                        Err(e) => Err::<String, Failure>(e),
                    };
                    resolution_matches(res, self@, reference, IdentityKind::Stream) && (r matches Ok(t) ==> t.object is Stream)
                },
            },
            r matches Ok(t) ==> t.section == target.section && t.field == target.field,
    {
        let object = match target.object {
            ObjectReference::Unit(reference) => match self.resolve(reference, IdentityKind::Unit) {
                Ok(id) => Object::Unit(id),
                Err(e) => return Err(e),
            },
            ObjectReference::Stream(reference) => match self.resolve(reference, IdentityKind::Stream) {
                Ok(id) => Object::Stream(id),
                Err(e) => return Err(e),
            },
        };
        Ok(Target { object, section: target.section, field: target.field })
    }

    /// Resolves a port reference: its unit must resolve as a unit.
    pub fn port(&self, port: PortReference) -> (r: Result<Port, Failure>)
        ensures
            resolution_matches(
                match r {
                    Ok(p) => Ok::<String, Failure>(p.unit_id),
                    Err(e) => Err::<String, Failure>(e),
                },
                self@,
                port.unit,
                IdentityKind::Unit,
            ),
            r matches Ok(p) ==> p.port == port.port,
    {
        match self.resolve(port.unit, IdentityKind::Unit) {
            Ok(unit_id) => Ok(Port { unit_id, port: port.port }),
            Err(e) => Err(e),
        }
    }
}

/// A step id is accepted when it holds more than white space and no
/// earlier step used it.
pub fn check_step_id(bindings: &Bindings, id: &str) -> (r: Result<(), Failure>)
    ensures
        trim_text(id@).len() == 0 ==> r is Err && r->Err_0.code@ == "empty_step_id"@
            && r->Err_0.message@ == "step id must not be blank"@,
        trim_text(id@).len() > 0 && bindings@.contains_key(id@) ==> r is Err && r->Err_0.code@
            == "duplicate_step_id"@ && r->Err_0.message@ == "step "@ + debug_text(id@)
            + " already completed"@,
        trim_text(id@).len() > 0 && !bindings@.contains_key(id@) ==> r is Ok,
        r matches Err(e) ==> e.stage@ == "step"@ && e.index is None,
{
    if is_blank(id) {
        return Err(failure("step", "empty_step_id", String::from_str("step id must not be blank")));
    }
    if bindings.contains_key(id) {
        let mut message = String::from_str("step ");
        let quoted = debug_string(id);
        push_str(&mut message, quoted.as_str());
        push_str(&mut message, " already completed");
        return Err(failure("step", "duplicate_step_id", message));
    }
    Ok(())
}

/// The identity a step's effect binds: the created unit, the connected
/// stream, or none for a write.
pub fn identity_of_effect(effect: &StepEffect) -> (r: BoundIdentity)
    ensures
        r == (match *effect {
            StepEffect::Created { unit_id } => BoundIdentity::Unit(unit_id),
            StepEffect::Connected { stream_id, .. } => BoundIdentity::Stream(stream_id),
            StepEffect::Written { .. } => BoundIdentity::NoIdentity,
        }),
{
    match effect {
        StepEffect::Created { unit_id } => BoundIdentity::Unit(unit_id.clone()),
        StepEffect::Connected { stream_id, .. } => BoundIdentity::Stream(stream_id.clone()),
        StepEffect::Written { .. } => BoundIdentity::NoIdentity,
    }
}

/// A failure of step `index`, reported at the step stage.
pub fn step_failure(error: Failure, index: usize) -> (r: Failure)
    ensures
        r.stage@ == "step"@,
        r.index == Some(index),
        r.code == error.code,
        r.message == error.message,
{
    Failure { stage: "step", code: error.code, message: error.message, index: Some(index) }
}

/// After a step binds its identity, a later reference to that step resolves
/// to it when the kind fits.
pub proof fn lemma_bound_step_resolves(
    bindings: Map<Seq<char>, BoundIdentity>,
    step: String,
    identity: BoundIdentity,
    kind: IdentityKind,
    r: Result<String, Failure>,
)
    requires
        resolution_matches(r, bindings.insert(step@, identity), IdentityReference::Step(step), kind),
    ensures
        match (identity, kind) {
            (BoundIdentity::Unit(id), IdentityKind::Unit) => r is Ok && r->Ok_0@ == id@,
            (BoundIdentity::Stream(id), IdentityKind::Stream) => r is Ok && r->Ok_0@ == id@,
            _ => r is Err && r->Err_0.code@ == "reference_kind_mismatch"@,
        },
{
    assert(bindings.insert(step@, identity).contains_key(step@));
    assert(bindings.insert(step@, identity)[step@] == identity);
}

/// A connection the document offers: the stream that would join a source
/// port to a sink port (or leave the outlet unbound).
#[derive(Debug, Clone, PartialEq, Eq)]
pub struct ConnectionCandidate {
    pub stream_id: String,
    pub source: Port,
    pub sink: Option<Port>,
}

/// Why no connection was chosen.
#[derive(Debug, Clone, Copy, PartialEq, Eq, Structural)]
pub enum ConnectionSelectionError {
    ConnectionUnavailable,
    AmbiguousConnection,
}

/// Whether two ports are the same port of the same unit.
pub open spec fn same_port(a: Port, b: Port) -> bool {
    a.unit_id@ == b.unit_id@ && a.port@ == b.port@
}

/// Whether a candidate joins `source` to `sink`, with the named stream
/// where one is named.
pub open spec fn candidate_matches(
    c: ConnectionCandidate,
    source: Port,
    sink: Option<Port>,
    stream: Option<String>,
) -> bool {
    &&& same_port(c.source, source)
    &&& match (c.sink, sink) {
        (None, None) => true,
        (Some(a), Some(b)) => same_port(a, b),
        _ => false,
    }
    &&& (stream is None || c.stream_id@ == stream.unwrap()@)
}

fn ports_equal(a: &Port, b: &Port) -> (r: bool)
    ensures
        r == same_port(*a, *b),
{
    a.unit_id == b.unit_id && a.port == b.port
}

fn matches_candidate(
    c: &ConnectionCandidate,
    source: &Port,
    sink: &Option<Port>,
    stream: &Option<String>,
) -> (r: bool)
    ensures
        r == candidate_matches(*c, *source, *sink, *stream),
{
    let sink_matches = match (&c.sink, sink) {
        (None, None) => true,
        (Some(a), Some(b)) => ports_equal(a, b),
        _ => false,
    };
    let stream_matches = match stream {
        None => true,
        Some(id) => c.stream_id == *id,
    };
    ports_equal(&c.source, source) && sink_matches && stream_matches
}

/// The one candidate that joins `source` to `sink` (with the named stream,
/// if one is named): none matching leaves the connection unavailable, more
/// than one makes it ambiguous.
pub fn select_material_connection(
    candidates: &Vec<ConnectionCandidate>,
    source: &Port,
    sink: &Option<Port>,
    stream: &Option<String>,
) -> (r: Result<usize, ConnectionSelectionError>)
    ensures
        match r {
            Ok(i) => i < candidates@.len() && candidate_matches(candidates@[i as int], *source, *sink, *stream)
                && forall|j: int|
                0 <= j < candidates@.len() && j != i ==> !candidate_matches(
                    #[trigger] candidates@[j],
                    *source,
                    *sink,
                    *stream,
                ),
            Err(ConnectionSelectionError::ConnectionUnavailable) => forall|j: int|
                0 <= j < candidates@.len() ==> !candidate_matches(
                    #[trigger] candidates@[j],
                    *source,
                    *sink,
                    *stream,
                ),
            Err(ConnectionSelectionError::AmbiguousConnection) => exists|a: int, b: int|
                0 <= a < b < candidates@.len() && candidate_matches(
                    #[trigger] candidates@[a],
                    *source,
                    *sink,
                    *stream,
                ) && candidate_matches(#[trigger] candidates@[b], *source, *sink, *stream),
        },
{
    let mut found: Option<usize> = None;
    let mut i: usize = 0;
    while i < candidates.len()
        invariant
            i <= candidates@.len(),
            match found {
                Some(f) => f < i && candidate_matches(candidates@[f as int], *source, *sink, *stream)
                    && forall|j: int|
                    0 <= j < i && j != f ==> !candidate_matches(
                        #[trigger] candidates@[j],
                        *source,
                        *sink,
                        *stream,
                    ),
                None => forall|j: int|
                    0 <= j < i ==> !candidate_matches(
                        #[trigger] candidates@[j],
                        *source,
                        *sink,
                        *stream,
                    ),
            },
        decreases candidates@.len() - i,
    {
        if matches_candidate(&candidates[i], source, sink, stream) {
            match found {
                Some(f) => {
                    assert(candidate_matches(candidates@[f as int], *source, *sink, *stream));
                    return Err(ConnectionSelectionError::AmbiguousConnection);
                },
                None => {
                    found = Some(i);
                },
            }
        }
        i = i + 1;
    }
    match found {
        Some(f) => Ok(f),
        None => Err(ConnectionSelectionError::ConnectionUnavailable),
    }
}

/// The usage text of the headless command line.
pub open spec fn help_text() -> Seq<char> {
    "Usage: radishflow-studio --headless inspect <project.rfproj.json>\n       radishflow-studio --headless run <request.json>\n       radishflow-studio --headless --help\n\ninspect returns document identity, revision and variables as JSON.\nrun applies SI inputs in memory, solves using the explicit local cache and reads variables.\nPaths in a run request are relative to that request file. No input files are modified.\nExit codes: 0 success, 2 request/load/write/read error, 3 blocked, 4 run failed, 5 output error.\n"@
}

/// The usage text of the headless command line.
pub fn help() -> (r: &'static str)
    ensures
        r@ == help_text(),
{
    "Usage: radishflow-studio --headless inspect <project.rfproj.json>\n       radishflow-studio --headless run <request.json>\n       radishflow-studio --headless --help\n\ninspect returns document identity, revision and variables as JSON.\nrun applies SI inputs in memory, solves using the explicit local cache and reads variables.\nPaths in a run request are relative to that request file. No input files are modified.\nExit codes: 0 success, 2 request/load/write/read error, 3 blocked, 4 run failed, 5 output error.\n"
}

/// What the headless command line was asked to do.
#[derive(Debug, Clone, PartialEq, Eq)]
pub enum HeadlessCommand {
    Help,
    Inspect(String),
    Run(String),
}

/// The command the arguments name: `--help` alone, `inspect <path>` or
/// `run <path>`; anything else is refused with the usage text.
pub fn parse_headless_arguments(args: &Vec<String>) -> (r: Result<HeadlessCommand, Failure>)
    ensures
        args@.len() == 1 && args@[0]@ == "--help"@ ==> r == Ok::<HeadlessCommand, Failure>(
            HeadlessCommand::Help,
        ),
        args@.len() == 2 && args@[0]@ == "inspect"@ ==> r == Ok::<HeadlessCommand, Failure>(
            HeadlessCommand::Inspect(args@[1]),
        ),
        args@.len() == 2 && args@[0]@ == "run"@ ==> r == Ok::<HeadlessCommand, Failure>(
            HeadlessCommand::Run(args@[1]),
        ),
        !(args@.len() == 1 && args@[0]@ == "--help"@) && !(args@.len() == 2 && (args@[0]@
            == "inspect"@ || args@[0]@ == "run"@)) ==> r is Err && r->Err_0.stage@ == "arguments"@
            && r->Err_0.code@ == "invalid_arguments"@ && r->Err_0.message@ == help_text()
            && r->Err_0.index is None,
{
    proof {
        reveal_strlit("inspect");
        reveal_strlit("run");
        assert("inspect"@.len() != "run"@.len());
    }
    let help_flag = String::from_str("--help");
    let inspect = String::from_str("inspect");
    let run = String::from_str("run");
    if args.len() == 1 && args[0] == help_flag {
        return Ok(HeadlessCommand::Help);
    }
    if args.len() == 2 && args[0] == inspect {
        return Ok(HeadlessCommand::Inspect(args[1].clone()));
    }
    if args.len() == 2 && args[0] == run {
        return Ok(HeadlessCommand::Run(args[1].clone()));
    }
    Err(failure("arguments", "invalid_arguments", String::from_str(help())))
}

/// The first problem of a run request before anything is loaded: a foreign
/// schema version, then an empty project, cache root or auth cache path.
pub fn check_run_request(
    schema_version: u32,
    project: &str,
    cache_root: &str,
    auth_cache_index: &str,
) -> (r: Result<(), Failure>)
    ensures
        schema_version != SCHEMA_VERSION ==> r is Err && r->Err_0.code@ == "unsupported_version"@
            && r->Err_0.message@ == "supported schema_version is 1"@,
        schema_version == SCHEMA_VERSION && project@.len() == 0 ==> r is Err && r->Err_0.code@
            == "empty_path"@ && r->Err_0.message@ == "project must not be empty"@,
        schema_version == SCHEMA_VERSION && project@.len() > 0 && cache_root@.len() == 0 ==> r is Err
            && r->Err_0.code@ == "empty_path"@ && r->Err_0.message@ == "cache_root must not be empty"@,
        schema_version == SCHEMA_VERSION && project@.len() > 0 && cache_root@.len() > 0
            && auth_cache_index@.len() == 0 ==> r is Err && r->Err_0.code@ == "empty_path"@
            && r->Err_0.message@ == "auth_cache_index must not be empty"@,
        schema_version == SCHEMA_VERSION && project@.len() > 0 && cache_root@.len() > 0
            && auth_cache_index@.len() > 0 ==> r is Ok,
        r matches Err(e) ==> e.stage@ == "request"@ && e.index is None,
{
    if schema_version != SCHEMA_VERSION {
        return Err(
            failure("request", "unsupported_version", String::from_str("supported schema_version is 1")),
        );
    }
    if project.is_empty() {
        return Err(failure("request", "empty_path", String::from_str("project must not be empty")));
    }
    if cache_root.is_empty() {
        return Err(failure("request", "empty_path", String::from_str("cache_root must not be empty")));
    }
    if auth_cache_index.is_empty() {
        return Err(
            failure("request", "empty_path", String::from_str("auth_cache_index must not be empty")),
        );
    }
    Ok(())
}

/// The shape of a versioned request's edits: version 1 writes variables,
/// version 2 runs workflow steps.
#[derive(Debug, Clone, Copy, PartialEq, Eq, Structural)]
pub enum RequestEditsKind {
    Writes,
    Steps,
}

/// The edits a request of `schema_version` carries: writes for version 1,
/// steps for version 2; any other version is refused.
pub fn request_edits_kind(schema_version: u32) -> (r: Result<RequestEditsKind, Failure>)
    ensures
        schema_version == 1 ==> r == Ok::<RequestEditsKind, Failure>(RequestEditsKind::Writes),
        schema_version == 2 ==> r == Ok::<RequestEditsKind, Failure>(RequestEditsKind::Steps),
        schema_version != 1 && schema_version != 2 ==> r is Err && r->Err_0.stage@ == "request"@
            && r->Err_0.code@ == "unsupported_version"@ && r->Err_0.message@
            == "supported schema_version values are 1 and 2"@ && r->Err_0.index is None,
{
    match schema_version {
        1 => Ok(RequestEditsKind::Writes),
        2 => Ok(RequestEditsKind::Steps),
        _ => Err(
            failure(
                "request",
                "unsupported_version",
                String::from_str("supported schema_version values are 1 and 2"),
            ),
        ),
    }
}

/// The loaded project must be the document the request names, at the
/// revision it expects.
pub fn check_project_identity(document_id: &str, expected_revision: u64, document: &Document) -> (r:
    Result<(), Failure>)
    ensures
        document_id@ != document.id@ ==> r is Err && r->Err_0.code@ == "different_document"@
            && r->Err_0.message@ == "request document_id does not match the project"@,
        document_id@ == document.id@ && expected_revision != document.revision ==> r is Err
            && r->Err_0.code@ == "revision_conflict"@ && r->Err_0.message@ == "expected revision "@
            + decimal_text(expected_revision as nat) + ", found "@ + decimal_text(document.revision as nat),
        document_id@ == document.id@ && expected_revision == document.revision ==> r is Ok,
        r matches Err(e) ==> e.stage@ == "project"@ && e.index is None,
{
    let requested = String::from_str(document_id);
    if requested != document.id {
        return Err(
            failure(
                "project",
                "different_document",
                String::from_str("request document_id does not match the project"),
            ),
        );
    }
    if expected_revision != document.revision {
        let mut message = String::from_str("expected revision ");
        push_decimal(&mut message, expected_revision as u128);
        push_str(&mut message, ", found ");
        push_decimal(&mut message, document.revision as u128);
        return Err(failure("project", "revision_conflict", message));
    }
    Ok(())
}

/// The status and error a run outcome gives the response: blocked and
/// skipped runs are blocked, failed runs failed; a started run gives none
/// yet.
pub open spec fn spec_run_verdict(outcome: StudioWorkspaceRunOutcome) -> Option<(Status, Seq<char>, Seq<char>)> {
    match outcome {
        StudioWorkspaceRunOutcome::Started => None,
        StudioWorkspaceRunOutcome::Blocked(b) => Some((Status::Blocked, blocked_code_text(b.reason), b.message@)),
        StudioWorkspaceRunOutcome::Failed(f) => Some(
            (
                Status::Failed,
                match f.reason {
                    StudioWorkspaceRunFailedReason::LocalCacheUnavailable => "local_cache_unavailable"@,
                    StudioWorkspaceRunFailedReason::SolveFailed => "solve_failed"@,
                },
                f.message@,
            ),
        ),
        StudioWorkspaceRunOutcome::Skipped(reason) => Some(
            (
                Status::Blocked,
                "run_skipped"@,
                match reason {
                    WorkspaceSolveSkipReason::HoldMode => "workspace is in Hold mode"@,
                    WorkspaceSolveSkipReason::NoPendingRequest => "workspace has no pending request"@,
                },
            ),
        ),
    }
}

/// The status and error a run outcome gives the response, reported at the
/// run stage.
pub fn run_verdict(outcome: &StudioWorkspaceRunOutcome) -> (r: Option<(Status, Failure)>)
    ensures
        match spec_run_verdict(*outcome) {
            None => r is None,
            Some((status, code, message)) => r is Some && r.unwrap().0 == status
                && r.unwrap().1.stage@ == "run"@ && r.unwrap().1.code@ == code
                && r.unwrap().1.message@ == message && r.unwrap().1.index is None,
        },
{
    match outcome {
        StudioWorkspaceRunOutcome::Started => None,
        StudioWorkspaceRunOutcome::Blocked(blocked) => Some(
            (Status::Blocked, failure("run", blocked_code(blocked.reason), blocked.message.clone())),
        ),
        StudioWorkspaceRunOutcome::Failed(failed) => {
            let code = match failed.reason {
                StudioWorkspaceRunFailedReason::LocalCacheUnavailable => "local_cache_unavailable",
                StudioWorkspaceRunFailedReason::SolveFailed => "solve_failed",
            };
            Some((Status::Failed, failure("run", code, failed.message.clone())))
        },
        StudioWorkspaceRunOutcome::Skipped(reason) => {
            let message = match reason {
                WorkspaceSolveSkipReason::HoldMode => "workspace is in Hold mode",
                WorkspaceSolveSkipReason::NoPendingRequest => "workspace has no pending request",
            };
            Some((Status::Blocked, failure("run", "run_skipped", String::from_str(message))))
        },
    }
}

/// After a started run, the response fails unless the latest snapshot
/// converged at the current revision; `latest` is whether it converged and
/// its revision.
pub fn current_result_verdict(latest: Option<(bool, u64)>, revision: u64) -> (r: Option<(Status, Failure)>)
    ensures
        (latest matches Some((converged, at)) && converged && at == revision) ==> r is None,
        !(latest matches Some((converged, at)) && converged && at == revision) ==> r is Some
            && r.unwrap().0 == Status::Failed && r.unwrap().1.stage@ == "run"@ && r.unwrap().1.code@
            == "no_current_result"@ && r.unwrap().1.message@
            == "run did not produce a converged snapshot for the current revision"@
            && r.unwrap().1.index is None,
{
    match latest {
        Some((converged, at)) => {
            if converged && at == revision {
                return None;
            }
        },
        None => {},
    }
    Some(
        (
            Status::Failed,
            failure(
                "run",
                "no_current_result",
                String::from_str("run did not produce a converged snapshot for the current revision"),
            ),
        ),
    )
}

} // verus!
