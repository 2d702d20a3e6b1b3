//! Recoverable failures of persisting a temporary resource: the structured
//! error, the retained resource, the targets, and the publication and source
//! facts that a caller needs to choose a recovery action.
use vstd::prelude::*;

use crate::display_text::{concat_text, display_opt_path, display_path, optional_part, push_optional_path, spec_display_path};
use crate::local_file_error::{
    opt_bytes, optional_path, spec_file_error_text, spec_io_error, LocalFileError, LocalFileErrorKind,
    LocalFileErrorView, LocalFileOperation, LocalIoError, LocalIoErrorKind,
};
use crate::path_model::copy_bytes;

verus! {

/// Stage at which persisting a temporary resource failed.
#[derive(Clone, Copy, Debug, PartialEq, Eq, Structural)]
pub enum LocalPersistStage {
    /// Resolving the requested target to an absolute path failed.
    ResolveTarget,
    /// Preparing the target's parent directory failed.
    PrepareParent,
    /// Installing the temporary resource at the target failed.
    InstallDestination,
    /// Synchronizing the source before publication failed.
    SynchronizeSource,
    /// Synchronizing the published destination failed.
    SynchronizeDestination,
}

/// The name under which a persistence stage is displayed.
pub open spec fn spec_persist_stage_name(stage: LocalPersistStage) -> Seq<char> {
    match stage {
        LocalPersistStage::ResolveTarget => "ResolveTarget"@,
        LocalPersistStage::PrepareParent => "PrepareParent"@,
        LocalPersistStage::InstallDestination => "InstallDestination"@,
        LocalPersistStage::SynchronizeSource => "SynchronizeSource"@,
        LocalPersistStage::SynchronizeDestination => "SynchronizeDestination"@,
    }
}

/// The name under which a persistence stage is displayed.
pub fn persist_stage_name(stage: LocalPersistStage) -> (name: &'static str)
    ensures
        name@ == spec_persist_stage_name(stage),
{
    match stage {
        LocalPersistStage::ResolveTarget => "ResolveTarget",
        LocalPersistStage::PrepareParent => "PrepareParent",
        LocalPersistStage::InstallDestination => "InstallDestination",
        LocalPersistStage::SynchronizeSource => "SynchronizeSource",
        LocalPersistStage::SynchronizeDestination => "SynchronizeDestination",
    }
}

/// Publication fact established by a failed persistence call.
#[derive(Clone, Copy, Debug, PartialEq, Eq, Structural)]
pub enum LocalPersistFailureState {
    /// This call did not publish its target.
    NotPublished,
    /// The target was published but a post-publication guarantee failed.
    Published,
    /// A native install attempt left publication state unknown.
    Indeterminate,
}

/// Authority that a temporary resource holds over its source entry.
#[derive(Clone, Copy, Debug, PartialEq, Eq, Structural)]
pub enum LocalTempSourceState {
    /// The resource still owns its source entry.
    Owned,
    /// Whether the source entry still exists is unknown.
    Indeterminate,
    /// The source entry must be cleaned up explicitly.
    CleanupRequired,
    /// The resource no longer owns any source entry.
    Released,
}

/// The publication fact that a failed native rename establishes: the kinds
/// that reject the request before anything is installed leave the target
/// unpublished; every other failure leaves publication unknown.
pub open spec fn spec_failure_state_of(kind: LocalIoErrorKind) -> LocalPersistFailureState {
    match kind {
        LocalIoErrorKind::AlreadyExists
        | LocalIoErrorKind::CrossesDevices
        | LocalIoErrorKind::InvalidInput
        | LocalIoErrorKind::IsADirectory
        | LocalIoErrorKind::NotADirectory
        | LocalIoErrorKind::DirectoryNotEmpty
        | LocalIoErrorKind::Unsupported => LocalPersistFailureState::NotPublished,
        _ => LocalPersistFailureState::Indeterminate,
    }
}

impl LocalPersistFailureState {
    /// Classifies the publication result of a completed native rename
    /// attempt from the kind of its error.
    pub fn from_native_error(kind: LocalIoErrorKind) -> (state: Self)
        ensures
            state == spec_failure_state_of(kind),
    {
        match kind {
            LocalIoErrorKind::AlreadyExists
            | LocalIoErrorKind::CrossesDevices
            | LocalIoErrorKind::InvalidInput
            | LocalIoErrorKind::IsADirectory
            | LocalIoErrorKind::NotADirectory
            | LocalIoErrorKind::DirectoryNotEmpty
            | LocalIoErrorKind::Unsupported => LocalPersistFailureState::NotPublished,
            _ => LocalPersistFailureState::Indeterminate,
        }
    }
}

/// A failure to persist a temporary resource; it owns the resource so that
/// the caller can retry or clean up.
#[derive(Debug)]
pub struct LocalPersistError<T> {
    error: LocalFileError,
    resource: T,
    requested_target: Vec<u8>,
    resolved_target: Option<Vec<u8>>,
    stage: LocalPersistStage,
    state: LocalPersistFailureState,
    source_state: LocalTempSourceState,
}

/// A persistence failure as plain values.
pub struct LocalPersistErrorView<T> {
    pub error: LocalFileErrorView,
    pub resource: T,
    pub requested_target: Seq<u8>,
    pub resolved_target: Option<Seq<u8>>,
    pub stage: LocalPersistStage,
    pub state: LocalPersistFailureState,
    pub source_state: LocalTempSourceState,
}

impl<T> View for LocalPersistError<T> {
    type V = LocalPersistErrorView<T>;

    closed spec fn view(&self) -> LocalPersistErrorView<T> {
        LocalPersistErrorView {
            error: self.error@,
            resource: self.resource,
            requested_target: self.requested_target@,
            resolved_target: opt_bytes(self.resolved_target),
            stage: self.stage,
            state: self.state,
            source_state: self.source_state,
        }
    }
}

/// The fields of a persistence failure, with the retained resource.
#[derive(Debug)]
pub struct LocalPersistErrorParts<T> {
    /// Structured failure with native cause and path context.
    pub error: LocalFileError,
    /// Resource retained after the failure.
    pub resource: T,
    /// Target supplied to the call.
    pub requested_target: Vec<u8>,
    /// Bound target, when resolution completed.
    pub resolved_target: Option<Vec<u8>>,
    /// Stage at which the call failed.
    pub stage: LocalPersistStage,
    /// Publication fact for the call.
    pub state: LocalPersistFailureState,
    /// Source authority captured when the error was constructed.
    pub source_state: LocalTempSourceState,
}

/// The displayed text of a persistence failure: stage, requested target,
/// resolved target when there is one, and the structured error.
pub open spec fn spec_persist_error_text<T>(error: LocalPersistErrorView<T>) -> Seq<char> {
    "failed to persist temporary resource during "@ + spec_persist_stage_name(error.stage)
        + " to requested target '"@ + spec_display_path(error.requested_target) + "'"@
        + optional_part(" (resolved as '"@, display_opt_path(error.resolved_target), "')"@) + ": "@
        + spec_file_error_text(error.error)
}

fn copy_optional_path(path: &Option<Vec<u8>>) -> (copy: Option<Vec<u8>>)
    ensures
        opt_bytes(copy) == opt_bytes(*path),
{
    match path {
        Some(p) => Some(copy_bytes(p.as_slice())),
        None => None,
    }
}

impl<T> LocalPersistError<T> {
    /// Creates a recoverable persistence error; the structured error wraps
    /// `error` as a failure of persisting a temporary resource, at the
    /// requested target with the resolved target as second operand.
    pub fn new(
        error: LocalIoError,
        resource: T,
        requested_target: Vec<u8>,
        resolved_target: Option<Vec<u8>>,
        stage: LocalPersistStage,
        state: LocalPersistFailureState,
        source_state: LocalTempSourceState,
    ) -> (result: Self)
        ensures
            result@ == (LocalPersistErrorView {
                error: spec_io_error(
                    LocalFileOperation::PersistTemp,
                    Some(requested_target@),
                    opt_bytes(resolved_target),
                    error@,
                ),
                resource,
                requested_target: requested_target@,
                resolved_target: opt_bytes(resolved_target),
                stage,
                state,
                source_state,
            }),
    {
        let structured = LocalFileError::from_io(
            LocalFileOperation::PersistTemp,
            Some(copy_bytes(requested_target.as_slice())),
            copy_optional_path(&resolved_target),
            error,
        );
        LocalPersistError {
            error: structured,
            resource,
            requested_target,
            resolved_target,
            stage,
            state,
            source_state,
        }
    }

    /// Returns the structured persistence error.
    pub fn error(&self) -> (error: &LocalFileError)
        ensures
            error@ == self@.error,
    {
        &self.error
    }

    /// Returns the retained temporary resource.
    pub fn resource(&self) -> (resource: &T)
        ensures
            *resource == self@.resource,
    {
        &self.resource
    }

    /// Returns the retained temporary resource mutably; whatever the caller
    /// writes through it becomes the retained resource.
    pub fn resource_mut(&mut self) -> (resource: &mut T)
        ensures
            *resource == old(self)@.resource,
            final(self)@ == (LocalPersistErrorView { resource: *final(resource), ..old(self)@ }),
    {
        &mut self.resource
    }

    /// Returns the target path supplied by the caller.
    pub fn requested_target(&self) -> (target: &[u8])
        ensures
            target@ == self@.requested_target,
    {
        self.requested_target.as_slice()
    }

    /// Returns the resolved absolute target, when resolution succeeded.
    pub fn resolved_target(&self) -> (target: Option<&[u8]>)
        ensures
            match self@.resolved_target {
                Some(p) => (target matches Some(r) && r@ == p),
                None => target is None,
            },
    {
        optional_path(&self.resolved_target)
    }

    /// Returns the stage at which persistence failed.
    pub fn stage(&self) -> (stage: LocalPersistStage)
        ensures
            stage == self@.stage,
    {
        self.stage
    }

    /// Returns the publication fact established by the call.
    pub fn state(&self) -> (state: LocalPersistFailureState)
        ensures
            state == self@.state,
    {
        self.state
    }

    /// Returns the stable kind of the structured error.
    pub fn kind(&self) -> (kind: LocalFileErrorKind)
        ensures
            kind == self@.error.kind,
    {
        self.error.kind()
    }

    /// Returns the source authority captured at failure.
    pub fn source_state(&self) -> (state: LocalTempSourceState)
        ensures
            state == self@.source_state,
    {
        self.source_state
    }

    /// Returns the underlying structured cause; there always is one.
    pub fn source(&self) -> (error: Option<&LocalFileError>)
        ensures
            error matches Some(r) && r@ == self@.error,
    {
        Some(&self.error)
    }

    /// Splits the error into its named fields.
    pub fn into_parts(self) -> (parts: LocalPersistErrorParts<T>)
        ensures
            parts.error@ == self@.error,
            parts.resource == self@.resource,
            parts.requested_target@ == self@.requested_target,
            opt_bytes(parts.resolved_target) == self@.resolved_target,
            parts.stage == self@.stage,
            parts.state == self@.state,
            parts.source_state == self@.source_state,
    {
        LocalPersistErrorParts {
            error: self.error,
            resource: self.resource,
            requested_target: self.requested_target,
            resolved_target: self.resolved_target,
            stage: self.stage,
            state: self.state,
            source_state: self.source_state,
        }
    }

    /// Moves the failure snapshot onto another retained resource.
    pub fn with_resource<U>(self, resource: U) -> (result: LocalPersistError<U>)
        ensures
            result@ == (LocalPersistErrorView {
                error: self@.error,
                resource,
                requested_target: self@.requested_target,
                resolved_target: self@.resolved_target,
                stage: self@.stage,
                state: self@.state,
                source_state: self@.source_state,
            }),
    {
        LocalPersistError {
            error: self.error,
            resource,
            requested_target: self.requested_target,
            resolved_target: self.resolved_target,
            stage: self.stage,
            state: self.state,
            source_state: self.source_state,
        }
    }

    /// Attaches the working-directory snapshot retained by the resource.
    pub fn with_current_directory(self, current_directory: Vec<u8>) -> (result: Self)
        ensures
            result@ == (LocalPersistErrorView {
                error: LocalFileErrorView { current_directory: Some(current_directory@), ..self@.error },
                ..self@
            }),
    {
        LocalPersistError { error: self.error.with_current_directory(current_directory), ..self }
    }

    /// Reclassifies the failure with a stable kind, retaining its cause.
    pub fn with_kind(self, kind: LocalFileErrorKind) -> (result: Self)
        ensures
            result@ == (LocalPersistErrorView {
                error: LocalFileErrorView { kind, ..self@.error },
                ..self@
            }),
    {
        LocalPersistError { error: self.error.with_kind(kind), ..self }
    }

    /// Returns the displayed text of the failure.
    pub fn to_display_string(&self) -> (text: String)
        ensures
            text@ == spec_persist_error_text(self@),
    {
        let text = concat_text(String::from_str("failed to persist temporary resource during "), persist_stage_name(self.stage));
        let text = concat_text(text, " to requested target '");
        let text = concat_text(text, display_path(self.requested_target.as_slice()).as_str());
        let text = concat_text(text, "'");
        let text = push_optional_path(text, " (resolved as '", &self.resolved_target, "')");
        let text = concat_text(text, ": ");
        concat_text(text, self.error.to_display_string().as_str())
    }
}

} // verus!
