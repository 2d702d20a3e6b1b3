//! Failures of a same-directory atomic replacement: the stage that failed,
//! the destination state that the failure left, and the secondary errors of
//! staging cleanup and parent synchronization.
use vstd::prelude::*;

use crate::display_text::{
    concat_text, display_path, optional_part, push_optional_path, push_optional_text,
    spec_display_path, display_opt_path,
};
use crate::local_file_error::{opt_bytes, optional_path, LocalIoError, LocalIoErrorKind, LocalIoErrorView};

verus! {

/// Known destination state after a failed atomic write.
#[derive(Clone, Copy, Debug, PartialEq, Eq, Structural)]
pub enum LocalAtomicDestinationState {
    /// The destination was not modified by the failed operation.
    Unchanged,
    /// The destination holds the staged replacement; a later durability or
    /// cleanup step failed.
    Replaced,
    /// The destination is known to be absent.
    Missing,
    /// The destination outcome cannot be determined reliably.
    Indeterminate,
}

/// Stage at which an atomic write failed.
#[derive(Clone, Copy, Debug, PartialEq, Eq, Structural)]
pub enum LocalAtomicWriteStage {
    /// Creating destination parent directories failed.
    PrepareParent,
    /// Inspecting an existing destination failed.
    InspectDestination,
    /// Creating the same-directory temporary file failed.
    CreateTemporaryFile,
    /// Writing the temporary file failed.
    WriteTemporaryFile,
    /// Reading metadata from an existing destination failed.
    ReadDestinationMetadata,
    /// Applying existing destination metadata to staging failed.
    ApplyDestinationMetadata,
    /// Synchronizing the temporary file failed.
    SyncTemporaryFile,
    /// Replacing the destination failed.
    ReplaceDestination,
    /// Removing an aborted temporary file failed.
    CleanupTemporaryFile,
    /// Synchronizing the parent directory after replacement failed.
    SyncParent,
}

/// The name under which a stage is displayed.
pub open spec fn spec_atomic_stage_name(stage: LocalAtomicWriteStage) -> Seq<char> {
    match stage {
        LocalAtomicWriteStage::PrepareParent => "PrepareParent"@,
        LocalAtomicWriteStage::InspectDestination => "InspectDestination"@,
        LocalAtomicWriteStage::CreateTemporaryFile => "CreateTemporaryFile"@,
        LocalAtomicWriteStage::WriteTemporaryFile => "WriteTemporaryFile"@,
        LocalAtomicWriteStage::ReadDestinationMetadata => "ReadDestinationMetadata"@,
        LocalAtomicWriteStage::ApplyDestinationMetadata => "ApplyDestinationMetadata"@,
        LocalAtomicWriteStage::SyncTemporaryFile => "SyncTemporaryFile"@,
        LocalAtomicWriteStage::ReplaceDestination => "ReplaceDestination"@,
        LocalAtomicWriteStage::CleanupTemporaryFile => "CleanupTemporaryFile"@,
        LocalAtomicWriteStage::SyncParent => "SyncParent"@,
    }
}

/// The name under which a stage is displayed.
pub fn atomic_stage_name(stage: LocalAtomicWriteStage) -> (name: &'static str)
    ensures
        name@ == spec_atomic_stage_name(stage),
{
    match stage {
        LocalAtomicWriteStage::PrepareParent => "PrepareParent",
        LocalAtomicWriteStage::InspectDestination => "InspectDestination",
        LocalAtomicWriteStage::CreateTemporaryFile => "CreateTemporaryFile",
        LocalAtomicWriteStage::WriteTemporaryFile => "WriteTemporaryFile",
        LocalAtomicWriteStage::ReadDestinationMetadata => "ReadDestinationMetadata",
        LocalAtomicWriteStage::ApplyDestinationMetadata => "ApplyDestinationMetadata",
        LocalAtomicWriteStage::SyncTemporaryFile => "SyncTemporaryFile",
        LocalAtomicWriteStage::ReplaceDestination => "ReplaceDestination",
        LocalAtomicWriteStage::CleanupTemporaryFile => "CleanupTemporaryFile",
        LocalAtomicWriteStage::SyncParent => "SyncParent",
    }
}

/// The name under which a destination state is displayed.
pub open spec fn spec_destination_state_name(state: LocalAtomicDestinationState) -> Seq<char> {
    match state {
        LocalAtomicDestinationState::Unchanged => "Unchanged"@,
        LocalAtomicDestinationState::Replaced => "Replaced"@,
        LocalAtomicDestinationState::Missing => "Missing"@,
        LocalAtomicDestinationState::Indeterminate => "Indeterminate"@,
    }
}

/// The name under which a destination state is displayed.
pub fn destination_state_name(state: LocalAtomicDestinationState) -> (name: &'static str)
    ensures
        name@ == spec_destination_state_name(state),
{
    match state {
        LocalAtomicDestinationState::Unchanged => "Unchanged",
        LocalAtomicDestinationState::Replaced => "Replaced",
        LocalAtomicDestinationState::Missing => "Missing",
        LocalAtomicDestinationState::Indeterminate => "Indeterminate",
    }
}

/// Failure of an atomic write, with its stage, paths, destination state,
/// primary cause, and secondary cleanup and synchronization failures.
#[derive(Debug)]
pub struct LocalAtomicWriteError {
    stage: LocalAtomicWriteStage,
    path: Vec<u8>,
    temporary_path: Option<Vec<u8>>,
    destination_state: LocalAtomicDestinationState,
    cleanup_error: Option<LocalIoError>,
    parent_sync_error: Option<LocalIoError>,
    source: LocalIoError,
}

/// An atomic-write failure as plain values.
pub struct LocalAtomicWriteErrorView {
    pub stage: LocalAtomicWriteStage,
    pub path: Seq<u8>,
    pub temporary_path: Option<Seq<u8>>,
    pub destination_state: LocalAtomicDestinationState,
    pub cleanup_error: Option<LocalIoErrorView>,
    pub parent_sync_error: Option<LocalIoErrorView>,
    pub source: LocalIoErrorView,
}

/// The plain value of an optional I/O error.
pub open spec fn opt_io_view(error: Option<LocalIoError>) -> Option<LocalIoErrorView> {
    match error {
        Some(e) => Some(e@),
        None => None,
    }
}

/// The message of an optional I/O error.
pub open spec fn opt_message(error: Option<LocalIoErrorView>) -> Option<Seq<char>> {
    match error {
        Some(e) => Some(e.message),
        None => None,
    }
}

impl View for LocalAtomicWriteError {
    type V = LocalAtomicWriteErrorView;

    closed spec fn view(&self) -> LocalAtomicWriteErrorView {
        LocalAtomicWriteErrorView {
            stage: self.stage,
            path: self.path@,
            temporary_path: opt_bytes(self.temporary_path),
            destination_state: self.destination_state,
            cleanup_error: opt_io_view(self.cleanup_error),
            parent_sync_error: opt_io_view(self.parent_sync_error),
            source: self.source@,
        }
    }
}

/// The displayed text of an atomic-write failure: destination, stage,
/// destination state and cause, then the staging path and each secondary
/// failure that is present.
pub open spec fn spec_atomic_write_error_text(error: LocalAtomicWriteErrorView) -> Seq<char> {
    "atomic write to '"@ + spec_display_path(error.path) + "' failed during "@
        + spec_atomic_stage_name(error.stage) + " (destination_state="@
        + spec_destination_state_name(error.destination_state) + "): "@ + error.source.message
        + optional_part("; staging path '"@, display_opt_path(error.temporary_path), "'"@)
        + optional_part("; staging cleanup also failed: "@, opt_message(error.cleanup_error), ""@)
        + optional_part(
            "; parent synchronization also failed: "@,
            opt_message(error.parent_sync_error),
            ""@,
        )
}

fn message_of(error: &Option<LocalIoError>) -> (message: Option<&str>)
    ensures
        match error {
            Some(e) => (message matches Some(m) && m@ == e.message@),
            None => message is None,
        },
{
    match error {
        Some(e) => Some(e.message.as_str()),
        None => None,
    }
}

impl LocalAtomicWriteError {
    /// Creates an atomic-write error without secondary failures.
    pub fn new(
        stage: LocalAtomicWriteStage,
        path: Vec<u8>,
        temporary_path: Option<Vec<u8>>,
        destination_state: LocalAtomicDestinationState,
        source: LocalIoError,
    ) -> (error: Self)
        ensures
            error@ == (LocalAtomicWriteErrorView {
                stage,
                path: path@,
                temporary_path: opt_bytes(temporary_path),
                destination_state,
                cleanup_error: None,
                parent_sync_error: None,
                source: source@,
            }),
    {
        LocalAtomicWriteError {
            stage,
            path,
            temporary_path,
            destination_state,
            cleanup_error: None,
            parent_sync_error: None,
            source,
        }
    }

    /// Returns the stage at which the operation failed.
    pub fn stage(&self) -> (stage: LocalAtomicWriteStage)
        ensures
            stage == self@.stage,
    {
        self.stage
    }

    /// Returns the requested destination path.
    pub fn path(&self) -> (path: &[u8])
        ensures
            path@ == self@.path,
    {
        self.path.as_slice()
    }

    /// Returns the same-directory staging path, when one was created.
    pub fn temporary_path(&self) -> (path: Option<&[u8]>)
        ensures
            match self@.temporary_path {
                Some(p) => (path matches Some(r) && r@ == p),
                None => path is None,
            },
    {
        optional_path(&self.temporary_path)
    }

    /// Returns the known destination state after the failure.
    pub fn destination_state(&self) -> (state: LocalAtomicDestinationState)
        ensures
            state == self@.destination_state,
    {
        self.destination_state
    }

    /// Returns the secondary staging cleanup error, when cleanup failed.
    pub fn cleanup_error(&self) -> (error: Option<&LocalIoError>)
        ensures
            match self@.cleanup_error {
                Some(e) => (error matches Some(r) && r@ == e),
                None => error is None,
            },
    {
        self.cleanup_error.as_ref()
    }

    /// Returns the secondary parent synchronization error, when
    /// synchronization failed after publication.
    pub fn parent_sync_error(&self) -> (error: Option<&LocalIoError>)
        ensures
            match self@.parent_sync_error {
                Some(e) => (error matches Some(r) && r@ == e),
                None => error is None,
            },
    {
        self.parent_sync_error.as_ref()
    }

    /// Returns the I/O error that caused the failure.
    pub fn source_error(&self) -> (error: &LocalIoError)
        ensures
            error@ == self@.source,
    {
        &self.source
    }

    /// Returns the underlying cause; there always is one.
    pub fn source(&self) -> (error: Option<&LocalIoError>)
        ensures
            error matches Some(r) && r@ == self@.source,
    {
        Some(&self.source)
    }

    /// Returns the kind of the causing I/O error.
    pub fn kind(&self) -> (kind: LocalIoErrorKind)
        ensures
            kind == self@.source.kind,
    {
        self.source.kind
    }

    /// Consumes the error and returns the staging path, the cleanup error
    /// and the cause.
    pub fn into_staging_parts(self) -> (parts: (Option<Vec<u8>>, Option<LocalIoError>, LocalIoError))
        ensures
            opt_bytes(parts.0) == self@.temporary_path,
            opt_io_view(parts.1) == self@.cleanup_error,
            parts.2@ == self@.source,
    {
        (self.temporary_path, self.cleanup_error, self.source)
    }

    /// Attaches (or clears) the staging cleanup failure.
    pub fn with_cleanup_error(self, cleanup_error: Option<LocalIoError>) -> (error: Self)
        ensures
            error@ == (LocalAtomicWriteErrorView { cleanup_error: opt_io_view(cleanup_error), ..self@ }),
    {
        LocalAtomicWriteError { cleanup_error, ..self }
    }

    /// Attaches (or clears) the parent synchronization failure.
    pub fn with_parent_sync_error(self, parent_sync_error: Option<LocalIoError>) -> (error: Self)
        ensures
            error@ == (LocalAtomicWriteErrorView {
                parent_sync_error: opt_io_view(parent_sync_error),
                ..self@
            }),
    {
        LocalAtomicWriteError { parent_sync_error, ..self }
    }

    /// Returns the displayed text of the failure.
    pub fn to_display_string(&self) -> (text: String)
        ensures
            text@ == spec_atomic_write_error_text(self@),
    {
        let text = concat_text(String::from_str("atomic write to '"), display_path(self.path.as_slice()).as_str());
        let text = concat_text(text, "' failed during ");
        let text = concat_text(text, atomic_stage_name(self.stage));
        let text = concat_text(text, " (destination_state=");
        let text = concat_text(text, destination_state_name(self.destination_state));
        let text = concat_text(text, "): ");
        let text = concat_text(text, self.source.message.as_str());
        let text = push_optional_path(text, "; staging path '", &self.temporary_path, "'");
        let text = push_optional_text(text, "; staging cleanup also failed: ", message_of(&self.cleanup_error), "");
        push_optional_text(
            text,
            "; parent synchronization also failed: ",
            message_of(&self.parent_sync_error),
            "",
        )
    }
}

} // verus!
