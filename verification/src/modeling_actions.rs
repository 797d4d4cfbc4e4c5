//! The checks a modeling action passes before it touches the document.
use vstd::prelude::*;

use crate::error::RfError;

verus! {

/// Why a modeling action was refused.
#[derive(Debug, Clone, PartialEq, Eq)]
pub enum ModelingActionError {
    DifferentDocument,
    RevisionConflict { expected: u64, actual: u64 },
    PendingDrafts,
    PendingCanvasEdit,
    ConnectionUnavailable,
    AmbiguousConnection,
    Rejected(RfError),
}

/// The first reason to refuse an action on the workspace document: it names
/// another document, expects another revision, or Inspector drafts or a
/// canvas edit are still pending.
pub open spec fn spec_modeling_guard(
    request_document_id: Seq<char>,
    expected_revision: u64,
    document_id: Seq<char>,
    revision: u64,
    has_pending_drafts: bool,
    has_pending_edit: bool,
) -> Option<ModelingActionError> {
    if request_document_id != document_id {
        Some(ModelingActionError::DifferentDocument)
    } else if expected_revision != revision {
        Some(ModelingActionError::RevisionConflict { expected: expected_revision, actual: revision })
    } else if has_pending_drafts {
        Some(ModelingActionError::PendingDrafts)
    } else if has_pending_edit {
        Some(ModelingActionError::PendingCanvasEdit)
    } else {
        None
    }
}

/// Checks a modeling action request against the workspace: `Ok` when it
/// names the open document at its current revision and nothing is
/// pending, the first reason to refuse it otherwise.
pub fn check_modeling_action_request(
    request_document_id: &str,
    expected_revision: u64,
    document_id: &str,
    revision: u64,
    has_pending_drafts: bool,
    has_pending_edit: bool,
) -> (r: Result<(), ModelingActionError>)
    ensures
        match spec_modeling_guard(
            request_document_id@,
            expected_revision,
            document_id@,
            revision,
            has_pending_drafts,
            has_pending_edit,
        ) {
            Some(e) => r == Err::<(), ModelingActionError>(e),
            None => r is Ok,
        },
{
    let requested = String::from_str(request_document_id);
    let open = String::from_str(document_id);
    if requested != open {
        return Err(ModelingActionError::DifferentDocument);
    }
    if expected_revision != revision {
        return Err(ModelingActionError::RevisionConflict { expected: expected_revision, actual: revision });
    }
    if has_pending_drafts {
        return Err(ModelingActionError::PendingDrafts);
    }
    if has_pending_edit {
        return Err(ModelingActionError::PendingCanvasEdit);
    }
    Ok(())
}

} // verus!
