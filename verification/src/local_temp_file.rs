//! An owned temporary file: its handle state, and the decisions of keeping
//! and persisting it.
//!
//! Native steps (creating the file, resolving a target, preparing its
//! parent, moving the file) are performed by the caller, which hands their
//! outcomes to the decisions here.
use vstd::prelude::*;

use crate::local_file_error::{LocalIoError, LocalIoErrorKind, LocalIoErrorView};
use crate::local_persist_error::{
    LocalPersistError, LocalPersistFailureState, LocalPersistStage, LocalTempSourceState,
};
use crate::local_temp_dir::{opt_outcome, spec_persist_failure};

verus! {

/// An owned temporary file: its absolute path while it is owned, and
/// whether its handle is still open. Keeping or persisting it releases it.
#[derive(Debug)]
pub struct LocalTempFile {
    path: Vec<u8>,
    open: bool,
}

/// A temporary file as plain values.
pub struct LocalTempFileView {
    pub path: Seq<u8>,
    pub open: bool,
}

impl View for LocalTempFile {
    type V = LocalTempFileView;

    closed spec fn view(&self) -> LocalTempFileView {
        LocalTempFileView { path: self.path@, open: self.open }
    }
}

/// The error of using the handle of a closed temporary file.
pub open spec fn spec_closed_file_error() -> LocalIoErrorView {
    LocalIoErrorView { kind: LocalIoErrorKind::NotFound, message: "temporary file handle is closed"@ }
}

impl LocalTempFile {
    /// Takes ownership of a temporary file that was created natively, with
    /// its handle open; a failure to create it is passed on.
    pub fn in_dir(created: Result<Vec<u8>, LocalIoError>) -> (res: Result<Self, LocalIoError>)
        ensures
            match created {
                Ok(p) => (res matches Ok(f) && f@ == LocalTempFileView { path: p@, open: true }),
                Err(e) => (res matches Err(r) && r@ == e@),
            },
    {
        match created {
            Ok(path) => Ok(LocalTempFile { path, open: true }),
            Err(e) => Err(e),
        }
    }

    /// Returns the file's absolute path.
    pub fn path(&self) -> (path: &[u8])
        ensures
            path@ == self@.path,
    {
        self.path.as_slice()
    }

    /// Checks that the handle can be used: it fails with `NotFound` once
    /// the handle is closed.
    pub fn as_file(&self) -> (res: Result<(), LocalIoError>)
        ensures
            self@.open ==> res is Ok,
            !self@.open ==> (res matches Err(e) && e@ == spec_closed_file_error()),
    {
        if self.open {
            Ok(())
        } else {
            Err(LocalIoError::new(LocalIoErrorKind::NotFound, "temporary file handle is closed"))
        }
    }

    /// Closes the handle; the file stays owned and is still removed unless
    /// kept or persisted.
    pub fn close(&mut self)
        ensures
            final(self)@ == (LocalTempFileView { path: old(self)@.path, open: false }),
    {
        self.open = false;
    }

    /// Closes the file and gives up ownership: the file is kept at its
    /// path, which is returned.
    pub fn keep(self) -> (path: Vec<u8>)
        ensures
            path@ == self@.path,
    {
        self.path
    }

    /// Decides the outcome of persisting the file at a requested target
    /// from the native steps: resolving the target, preparing its parent
    /// (after a resolution), and moving the file (after a prepared parent;
    /// without replacing an existing target unless overwriting was asked).
    /// The handle is closed first. On success the resolved target is
    /// returned; on failure the closed file itself comes back inside the
    /// error.
    pub fn persist_with(
        self,
        requested: &[u8],
        resolved: Result<Vec<u8>, LocalIoError>,
        parent: Option<Result<(), LocalIoError>>,
        moved: Option<Result<(), LocalIoError>>,
    ) -> (res: Result<Vec<u8>, LocalPersistError<Self>>)
        requires
            (resolved is Ok) == (parent is Some),
            (parent matches Some(Ok(_))) == (moved is Some),
        ensures
            match spec_persist_failure(
                LocalTempFileView { path: self@.path, open: false },
                requested@,
                match resolved {
                    Ok(p) => Ok(p@),
                    Err(e) => Err(e@),
                },
                opt_outcome(parent),
                opt_outcome(moved),
            ) {
                None => (res matches Ok(p) && resolved matches Ok(t) && p@ == t@),
                Some(v) => (res matches Err(e) && e@.resource@ == v.resource && e@.error == v.error
                    && e@.requested_target == v.requested_target && e@.resolved_target == v.resolved_target
                    && e@.stage == v.stage && e@.state == v.state && e@.source_state == v.source_state),
            },
    {
        let mut file = self;
        file.close();
        let target = match resolved {
            Err(e) => {
                return Err(
                    LocalPersistError::new(
                        e,
                        file,
                        crate::path_model::copy_bytes(requested),
                        None,
                        LocalPersistStage::ResolveTarget,
                        LocalPersistFailureState::NotPublished,
                        LocalTempSourceState::Owned,
                    ),
                );
            },
            Ok(t) => t,
        };
        match parent {
            Some(Err(e)) => {
                return Err(
                    LocalPersistError::new(
                        e,
                        file,
                        crate::path_model::copy_bytes(requested),
                        Some(target),
                        LocalPersistStage::PrepareParent,
                        LocalPersistFailureState::NotPublished,
                        LocalTempSourceState::Owned,
                    ),
                );
            },
            _ => {},
        }
        match moved {
            Some(Err(e)) => {
                let state = LocalPersistFailureState::from_native_error(e.kind);
                let source_state = if state == LocalPersistFailureState::NotPublished {
                    LocalTempSourceState::Owned
                } else {
                    LocalTempSourceState::Indeterminate
                };
                Err(
                    LocalPersistError::new(
                        e,
                        file,
                        crate::path_model::copy_bytes(requested),
                        Some(target),
                        LocalPersistStage::InstallDestination,
                        state,
                        source_state,
                    ),
                )
            },
            _ => Ok(target),
        }
    }
}

} // verus!
