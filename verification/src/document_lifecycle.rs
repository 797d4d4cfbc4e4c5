//! Saving the project: which file a save command writes, and what the
//! application reports once it was written.
use vstd::prelude::*;

use crate::error::{ErrorCode, RfError};
use crate::text::{decimal_text, push_decimal, push_str};

verus! {

/// A save command: to the current project path, or to a new one.
#[derive(Debug, Clone, PartialEq, Eq)]
pub enum StudioDocumentLifecycleCommand {
    Save,
    SaveAs { path: String },
}

/// Which save was performed.
#[derive(Debug, Clone, Copy, PartialEq, Eq, Structural)]
pub enum StudioDocumentLifecycleAction {
    Save,
    SaveAs,
}

/// What a save reports: the file written and the revisions after it.
#[derive(Debug, Clone, PartialEq, Eq)]
pub struct DocumentLifecycleOutcome {
    pub action: StudioDocumentLifecycleAction,
    pub path: String,
    pub revision: u64,
    pub last_saved_revision: Option<u64>,
    pub has_unsaved_changes: bool,
}

/// The file a save command writes, given the current project path: a plain
/// save needs a current path; a save-as needs a non-empty path.
pub fn resolve_document_lifecycle_target(
    current_path: Option<String>,
    command: StudioDocumentLifecycleCommand,
) -> (r: Result<(StudioDocumentLifecycleAction, String), RfError>)
    ensures
        match command {
            StudioDocumentLifecycleCommand::Save => match current_path {
                Some(p) => r == Ok::<(StudioDocumentLifecycleAction, String), RfError>(
                    (StudioDocumentLifecycleAction::Save, p),
                ),
                None => r is Err && r->Err_0.code == ErrorCode::InvalidInput && r->Err_0.message@
                    == "current document has no project path"@,
            },
            StudioDocumentLifecycleCommand::SaveAs { path } => if path@.len() == 0 {
                r is Err && r->Err_0.code == ErrorCode::InvalidInput && r->Err_0.message@
                    == "save-as project path is empty"@
            } else {
                r == Ok::<(StudioDocumentLifecycleAction, String), RfError>(
                    (StudioDocumentLifecycleAction::SaveAs, path),
                )
            },
        },
{
    match command {
        StudioDocumentLifecycleCommand::Save => match current_path {
            Some(path) => Ok((StudioDocumentLifecycleAction::Save, path)),
            None => Err(
                RfError::invalid_input(String::from_str("current document has no project path")),
            ),
        },
        StudioDocumentLifecycleCommand::SaveAs { path } => {
            if path.as_str().is_empty() {
                return Err(
                    RfError::invalid_input(String::from_str("save-as project path is empty")),
                );
            }
            Ok((StudioDocumentLifecycleAction::SaveAs, path))
        },
    }
}

/// What a save reports: unsaved changes remain exactly when the last saved
/// revision is not the current one.
pub fn document_lifecycle_outcome(
    action: StudioDocumentLifecycleAction,
    path: String,
    revision: u64,
    last_saved_revision: Option<u64>,
) -> (r: DocumentLifecycleOutcome)
    ensures
        r.action == action,
        r.path == path,
        r.revision == revision,
        r.last_saved_revision == last_saved_revision,
        r.has_unsaved_changes == (last_saved_revision != Some(revision)),
{
    let has_unsaved_changes = match last_saved_revision {
        Some(saved) => saved != revision,
        None => true,
    };
    DocumentLifecycleOutcome { action, path, revision, last_saved_revision, has_unsaved_changes }
}

/// The log line of a save.
pub open spec fn saved_project_message_text(revision: u64, path: Seq<char>) -> Seq<char> {
    "saved project revision "@ + decimal_text(revision as nat) + " to "@ + path
}

/// The log line of a save.
pub fn saved_project_message(revision: u64, path: &str) -> (r: String)
    ensures
        r@ == saved_project_message_text(revision, path@),
{
    let mut message = String::from_str("saved project revision ");
    push_decimal(&mut message, revision as u128);
    push_str(&mut message, " to ");
    push_str(&mut message, path);
    message
}

} // verus!
