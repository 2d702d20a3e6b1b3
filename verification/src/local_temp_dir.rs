//! An owned temporary directory: safe child paths beneath it, and the
//! decisions of keeping and persisting it.
//!
//! Native steps (creating directories, inspecting entries, moving the
//! directory) are performed by the caller, which hands their outcomes to
//! the decisions here.
use vstd::prelude::*;

use crate::display_text::{concat_text, display_path, spec_display_path};
use crate::local_file_error::{LocalIoError, LocalIoErrorKind, LocalIoErrorView};
use crate::local_file_metadata::LocalFileKind;
use crate::local_persist_error::{
    spec_failure_state_of, LocalPersistError, LocalPersistErrorView, LocalPersistFailureState, LocalPersistStage,
    LocalTempSourceState,
};
use crate::local_relative_path::{is_valid_relative_path, spec_relative_parent, split_final_component, LocalRelativePath};
use crate::path_model::{
    components, copy_bytes, join_all, path_push, path_push_exec,
    scan_path, views,
};

verus! {

broadcast use vstd::seq::group_seq_axioms;

/// An I/O error of `kind` whose message is `prefix` followed by the
/// displayed path.
pub open spec fn path_error(kind: LocalIoErrorKind, prefix: Seq<char>, path: Seq<u8>) -> LocalIoErrorView {
    LocalIoErrorView { kind, message: prefix + spec_display_path(path) }
}

fn make_path_error(kind: LocalIoErrorKind, prefix: &str, path: &[u8]) -> (error: LocalIoError)
    ensures
        error@ == path_error(kind, prefix@, path@),
{
    LocalIoError { kind, message: concat_text(String::from_str(prefix), display_path(path).as_str()) }
}

/// The rejection of a child path that is not relative and safe.
pub open spec fn spec_unsafe_child_error(child: Seq<u8>) -> LocalIoErrorView {
    path_error(LocalIoErrorKind::InvalidInput, "child path must be relative and safe: "@, child)
}

/// The step of ensuring one directory on the way to a child directory: a
/// symbolic link is refused, a directory is kept, a missing entry is to be
/// created (`true`), and any other entry is refused.
pub open spec fn spec_child_dir_step(
    path: Seq<u8>,
    lookup: Result<LocalFileKind, LocalIoErrorView>,
) -> Result<bool, LocalIoErrorView> {
    match lookup {
        Ok(kind) => if kind == LocalFileKind::Symlink {
            Err(path_error(LocalIoErrorKind::InvalidInput, "child directory crosses a symbolic link: "@, path))
        } else if kind == LocalFileKind::Directory {
            Ok(false)
        } else {
            Err(path_error(LocalIoErrorKind::AlreadyExists, "child path component is not a directory: "@, path))
        },
        Err(e) => if e.kind == LocalIoErrorKind::NotFound {
            Ok(true)
        } else {
            Err(e)
        },
    }
}

/// The step of checking the target of a child writer: a symbolic link is
/// refused, a regular file must be checked to lie inside (`true`), a
/// missing entry is fine, and any other entry is refused.
pub open spec fn spec_child_file_step(
    path: Seq<u8>,
    lookup: Result<LocalFileKind, LocalIoErrorView>,
) -> Result<bool, LocalIoErrorView> {
    match lookup {
        Ok(kind) => if kind == LocalFileKind::Symlink {
            Err(path_error(LocalIoErrorKind::InvalidInput, "child file target is a symbolic link: "@, path))
        } else if kind == LocalFileKind::File {
            Ok(true)
        } else {
            Err(path_error(LocalIoErrorKind::InvalidInput, "child path is not a file: "@, path))
        },
        Err(e) => if e.kind == LocalIoErrorKind::NotFound {
            Ok(false)
        } else {
            Err(e)
        },
    }
}

/// The plain value of a step outcome.
pub open spec fn step_view(res: Result<bool, LocalIoError>) -> Result<bool, LocalIoErrorView> {
    match res {
        Ok(b) => Ok(b),
        Err(e) => Err(e@),
    }
}

/// The plain value of a native kind lookup.
pub open spec fn io_lookup_view(lookup: Result<LocalFileKind, LocalIoError>) -> Result<LocalFileKind, LocalIoErrorView> {
    match lookup {
        Ok(k) => Ok(k),
        Err(e) => Err(e@),
    }
}

/// Decides one step of ensuring a child directory.
pub fn child_dir_step(path: &[u8], lookup: Result<LocalFileKind, LocalIoError>) -> (res: Result<bool, LocalIoError>)
    ensures
        step_view(res) == spec_child_dir_step(path@, io_lookup_view(lookup)),
{
    match lookup {
        Ok(kind) => {
            if kind == LocalFileKind::Symlink {
                Err(make_path_error(LocalIoErrorKind::InvalidInput, "child directory crosses a symbolic link: ", path))
            } else if kind == LocalFileKind::Directory {
                Ok(false)
            } else {
                Err(make_path_error(LocalIoErrorKind::AlreadyExists, "child path component is not a directory: ", path))
            }
        },
        Err(e) => {
            if e.kind == LocalIoErrorKind::NotFound {
                Ok(true)
            } else {
                Err(e)
            }
        },
    }
}

/// Decides the check of the target of a child writer.
pub fn child_file_step(path: &[u8], lookup: Result<LocalFileKind, LocalIoError>) -> (res: Result<bool, LocalIoError>)
    ensures
        step_view(res) == spec_child_file_step(path@, io_lookup_view(lookup)),
{
    match lookup {
        Ok(kind) => {
            if kind == LocalFileKind::Symlink {
                Err(make_path_error(LocalIoErrorKind::InvalidInput, "child file target is a symbolic link: ", path))
            } else if kind == LocalFileKind::File {
                Ok(true)
            } else {
                Err(make_path_error(LocalIoErrorKind::InvalidInput, "child path is not a file: ", path))
            }
        },
        Err(e) => {
            if e.kind == LocalIoErrorKind::NotFound {
                Ok(false)
            } else {
                Err(e)
            }
        },
    }
}

/// Checks that an entry is a regular file before it is opened as a child.
pub fn ensure_child_file(path: &[u8], kind: Result<LocalFileKind, LocalIoError>) -> (res: Result<(), LocalIoError>)
    ensures
        match kind {
            Err(e) => (res matches Err(r) && r@ == e@),
            Ok(k) => if k == LocalFileKind::File {
                res is Ok
            } else {
                res matches Err(r) && r@ == path_error(LocalIoErrorKind::InvalidInput, "child path is not a file: "@, path@)
            },
        },
{
    match kind {
        Err(e) => Err(e),
        Ok(k) => {
            if k == LocalFileKind::File {
                Ok(())
            } else {
                Err(make_path_error(LocalIoErrorKind::InvalidInput, "child path is not a file: ", path))
            }
        },
    }
}

/// Whether the components of `root` are a prefix of those of `path`.
pub open spec fn starts_with_components(path: Seq<u8>, root: Seq<u8>) -> bool {
    let r = components(root);
    let p = components(path);
    r.len() <= p.len() && p.take(r.len() as int) == r
}

/// Checks that a canonical path lies inside a canonical root.
pub fn ensure_existing_path_inside(canonical_root: &[u8], canonical_path: &[u8]) -> (res: Result<(), LocalIoError>)
    ensures
        starts_with_components(canonical_path@, canonical_root@) ==> res is Ok,
        !starts_with_components(canonical_path@, canonical_root@) ==> (res matches Err(r) && r@ == path_error(
            LocalIoErrorKind::InvalidInput,
            "child path escapes temporary directory: "@,
            canonical_path@,
        )),
{
    let (root_parts, _) = scan_path(canonical_root);
    let (path_parts, _) = scan_path(canonical_path);
    let ghost r = views(root_parts@);
    let ghost p = views(path_parts@);
    let mut inside = root_parts.len() <= path_parts.len();
    let mut i: usize = 0;
    while inside && i < root_parts.len()
        invariant
            i <= root_parts@.len(),
            r == views(root_parts@),
            p == views(path_parts@),
            r == components(canonical_root@),
            p == components(canonical_path@),
            inside ==> root_parts@.len() <= path_parts@.len(),
            inside ==> forall|k: int| 0 <= k < i ==> p[k] == r[k],
            !inside ==> !starts_with_components(canonical_path@, canonical_root@),
        decreases root_parts@.len() - i + (if inside {
            1int
        } else {
            0int
        }),
    {
        if !crate::local_paths::bytes_equal_exec(root_parts[i].as_slice(), path_parts[i].as_slice()) {
            assert(p.take(r.len() as int)[i as int] != r[i as int]);
            inside = false;
        } else {
            i = i + 1;
        }
    }
    if inside {
        assert(p.take(r.len() as int) =~= r);
    }
    if inside {
        Ok(())
    } else {
        Err(make_path_error(LocalIoErrorKind::InvalidInput, "child path escapes temporary directory: ", canonical_path))
    }
}

/// An owned temporary directory; keeping or persisting it releases it.
#[derive(Debug)]
pub struct LocalTempDir {
    path: Vec<u8>,
}

impl View for LocalTempDir {
    type V = Seq<u8>;

    closed spec fn view(&self) -> Seq<u8> {
        self.path@
    }
}

/// The outcome of persisting a temporary directory: a failure to resolve
/// the target or to prepare its parent leaves nothing published and the
/// directory owned; a failed move is classified from its native kind, an
/// unknown outcome leaving the directory's fate unknown too.
pub open spec fn spec_persist_failure<T>(
    resource: T,
    requested: Seq<u8>,
    resolved: Result<Seq<u8>, LocalIoErrorView>,
    parent: Option<Result<(), LocalIoErrorView>>,
    moved: Option<Result<(), LocalIoErrorView>>,
) -> Option<LocalPersistErrorView<T>> {
    match resolved {
        Err(e) => Some(
            persist_failure_view(
                e,
                resource,
                requested,
                None,
                LocalPersistStage::ResolveTarget,
                LocalPersistFailureState::NotPublished,
                LocalTempSourceState::Owned,
            ),
        ),
        Ok(target) => match parent {
            Some(Err(e)) => Some(
                persist_failure_view(
                    e,
                    resource,
                    requested,
                    Some(target),
                    LocalPersistStage::PrepareParent,
                    LocalPersistFailureState::NotPublished,
                    LocalTempSourceState::Owned,
                ),
            ),
            _ => match moved {
                Some(Err(e)) => Some(
                    persist_failure_view(
                        e,
                        resource,
                        requested,
                        Some(target),
                        LocalPersistStage::InstallDestination,
                        spec_failure_state_of(e.kind),
                        if spec_failure_state_of(e.kind) == LocalPersistFailureState::NotPublished {
                            LocalTempSourceState::Owned
                        } else {
                            LocalTempSourceState::Indeterminate
                        },
                    ),
                ),
                _ => None,
            },
        },
    }
}

/// A persistence failure built from its parts.
pub open spec fn persist_failure_view<T>(
    error: LocalIoErrorView,
    resource: T,
    requested: Seq<u8>,
    resolved: Option<Seq<u8>>,
    stage: LocalPersistStage,
    state: LocalPersistFailureState,
    source_state: LocalTempSourceState,
) -> LocalPersistErrorView<T> {
    LocalPersistErrorView {
        error: crate::local_file_error::spec_io_error(
            crate::local_file_error::LocalFileOperation::PersistTemp,
            Some(requested),
            resolved,
            error,
        ),
        resource,
        requested_target: requested,
        resolved_target: resolved,
        stage,
        state,
        source_state,
    }
}

/// The plain value of an optional native step outcome.
pub open spec fn opt_outcome(outcome: Option<Result<(), LocalIoError>>) -> Option<Result<(), LocalIoErrorView>> {
    match outcome {
        Some(Ok(())) => Some(Ok(())),
        Some(Err(e)) => Some(Err(e@)),
        None => None,
    }
}

impl LocalTempDir {
    /// Takes ownership of a temporary directory that was created natively;
    /// a failure to create it is passed on.
    pub fn in_dir(created: Result<Vec<u8>, LocalIoError>) -> (res: Result<Self, LocalIoError>)
        ensures
            match created {
                Ok(p) => (res matches Ok(d) && d@ == p@),
                Err(e) => (res matches Err(r) && r@ == e@),
            },
    {
        match created {
            Ok(path) => Ok(LocalTempDir { path }),
            Err(e) => Err(e),
        }
    }

    /// Returns the directory's path.
    pub fn path(&self) -> (path: &[u8])
        ensures
            path@ == self@,
    {
        self.path.as_slice()
    }

    /// Returns the path of `child` beneath the directory; the child must be
    /// a valid relative path.
    pub fn child_path(&self, child: &[u8]) -> (res: Result<Vec<u8>, LocalIoError>)
        ensures
            is_valid_relative_path(child@) ==> (res matches Ok(p) && p@ == path_push(self@, child@)),
            !is_valid_relative_path(child@) ==> (res matches Err(e) && e@ == spec_unsafe_child_error(child@)),
    {
        match LocalRelativePath::new(child) {
            Err(_) => Err(make_path_error(LocalIoErrorKind::InvalidInput, "child path must be relative and safe: ", child)),
            Ok(_) => Ok(path_push_exec(self.path.as_slice(), child)),
        }
    }

    /// Plans ensuring the child directory `child`: the directories to
    /// ensure, in order, are the directory joined with each longer prefix of
    /// the child's components, the last one being the child itself. Each is
    /// checked with `child_dir_step` and created when missing.
    pub fn ensure_child_dir(&self, child: &[u8]) -> (res: Result<Vec<Vec<u8>>, LocalIoError>)
        ensures
            is_valid_relative_path(child@) ==> (res matches Ok(paths) && views(paths@) == Seq::new(
                components(child@).len(),
                |i: int| join_all(self@, components(child@).take(i + 1)),
            )),
            !is_valid_relative_path(child@) ==> (res matches Err(e) && e@ == spec_unsafe_child_error(child@)),
    {
        match LocalRelativePath::new(child) {
            Err(_) => Err(make_path_error(LocalIoErrorKind::InvalidInput, "child path must be relative and safe: ", child)),
            Ok(_) => {
                let (parts, _) = scan_path(child);
                let ghost comps = views(parts@);
                let mut paths: Vec<Vec<u8>> = Vec::new();
                let mut current = copy_bytes(self.path.as_slice());
                let mut i: usize = 0;
                assert(comps.take(0) =~= Seq::<Seq<u8>>::empty());
                while i < parts.len()
                    invariant
                        i <= parts@.len(),
                        comps == views(parts@),
                        comps == components(child@),
                        current@ == join_all(self@, comps.take(i as int)),
                        views(paths@) == Seq::new(i as nat, |k: int| join_all(self@, comps.take(k + 1))),
                    decreases parts@.len() - i,
                {
                    assert(comps.take(i + 1).drop_last() =~= comps.take(i as int));
                    assert(comps.take(i + 1).last() == parts@[i as int]@);
                    current = path_push_exec(current.as_slice(), parts[i].as_slice());
                    assert(current@ == join_all(self@, comps.take(i + 1)));
                    let ghost before = views(paths@);
                    paths.push(copy_bytes(current.as_slice()));
                    assert(views(paths@) =~= before.push(current@));
                    assert(views(paths@) =~= Seq::new((i + 1) as nat, |k: int| join_all(self@, comps.take(k + 1))));
                    i = i + 1;
                }
                Ok(paths)
            },
        }
    }

    /// Plans opening a writer on the child file `child`: the target path,
    /// and the child's parent relative to the directory when it has one.
    /// That parent is ensured first (when parents are to be created) and
    /// must lie inside the directory; the target is then checked with
    /// `child_file_step` before it is opened.
    pub fn open_child_writer(&self, child: &[u8]) -> (res: Result<(Vec<u8>, Option<Vec<u8>>), LocalIoError>)
        ensures
            is_valid_relative_path(child@) ==> (res matches Ok(plan) && plan.0@ == path_push(self@, child@) && (
            if spec_relative_parent(child@).len() == 0 {
                plan.1 is None
            } else {
                plan.1 matches Some(p) && p@ == spec_relative_parent(child@)
            })),
            !is_valid_relative_path(child@) ==> (res matches Err(e) && e@ == spec_unsafe_child_error(child@)),
    {
        let path = match self.child_path(child) {
            Ok(p) => p,
            Err(e) => return Err(e),
        };
        let (parent, _) = split_final_component(child);
        if parent.len() == 0 {
            Ok((path, None))
        } else {
            Ok((path, Some(parent)))
        }
    }

    /// Returns the directory's path and gives up ownership: the directory
    /// is kept.
    pub fn keep(self) -> (path: Vec<u8>)
        ensures
            path@ == self@,
    {
        self.path
    }

    /// Decides the outcome of persisting the directory at a requested
    /// target from the native steps: resolving the target, preparing its
    /// parent (after a resolution), and moving the directory without
    /// replacing anything (after a prepared parent). On success the resolved
    /// target is returned; on failure the directory itself comes back inside
    /// the error.
    pub fn persist(
        self,
        requested: &[u8],
        resolved: Result<Vec<u8>, LocalIoError>,
        parent: Option<Result<(), LocalIoError>>,
        moved: Option<Result<(), LocalIoError>>,
    ) -> (res: Result<Vec<u8>, LocalPersistError<Self>>)
        requires
            (resolved is Ok) == (parent is Some),
            (parent matches Some(Ok(_))) == (moved is Some),
        ensures
            match spec_persist_failure(
                self@,
                requested@,
                match resolved {
                    Ok(p) => Ok(p@),
                    Err(e) => Err(e@),
                },
                opt_outcome(parent),
                opt_outcome(moved),
            ) {
                None => (res matches Ok(p) && resolved matches Ok(t) && p@ == t@),
                Some(v) => (res matches Err(e) && e@.resource@ == v.resource && e@.error == v.error
                    && e@.requested_target == v.requested_target && e@.resolved_target == v.resolved_target
                    && e@.stage == v.stage && e@.state == v.state && e@.source_state == v.source_state),
            },
    {
        let target = match resolved {
            Err(e) => {
                return Err(
                    LocalPersistError::new(
                        e,
                        self,
                        copy_bytes(requested),
                        None,
                        LocalPersistStage::ResolveTarget,
                        LocalPersistFailureState::NotPublished,
                        LocalTempSourceState::Owned,
                    ),
                );
            },
            Ok(t) => t,
        };
        match parent {
            Some(Err(e)) => {
                return Err(
                    LocalPersistError::new(
                        e,
                        self,
                        copy_bytes(requested),
                        Some(target),
                        LocalPersistStage::PrepareParent,
                        LocalPersistFailureState::NotPublished,
                        LocalTempSourceState::Owned,
                    ),
                );
            },
            _ => {},
        }
        match moved {
            Some(Err(e)) => {
                let state = LocalPersistFailureState::from_native_error(e.kind);
                let source_state = if state == LocalPersistFailureState::NotPublished {
                    LocalTempSourceState::Owned
                } else {
                    LocalTempSourceState::Indeterminate
                };
                Err(
                    LocalPersistError::new(
                        e,
                        self,
                        copy_bytes(requested),
                        Some(target),
                        LocalPersistStage::InstallDestination,
                        state,
                        source_state,
                    ),
                )
            },
            _ => Ok(target),
        }
    }
}

/// A failed persistence always hands the temporary resource back, with the
/// requested target and, exactly when resolution succeeded, the resolved
/// one; a no-replace conflict at installation publishes nothing and leaves
/// the resource owned, so it can be retried, kept or cleaned up.
pub proof fn lemma_persist_failure_returns_resource<T>(
    resource: T,
    requested: Seq<u8>,
    resolved: Result<Seq<u8>, LocalIoErrorView>,
    parent: Option<Result<(), LocalIoErrorView>>,
    moved: Option<Result<(), LocalIoErrorView>>,
)
    ensures
        spec_persist_failure(resource, requested, resolved, parent, moved) matches Some(v) ==> v.resource
            == resource && v.requested_target == requested && (v.resolved_target is Some <==> resolved is Ok),
        (resolved is Ok && parent == Some(Ok::<(), LocalIoErrorView>(()))) ==> (moved matches Some(Err(e)) ==> (
        e.kind == LocalIoErrorKind::AlreadyExists ==> (spec_persist_failure(resource, requested, resolved, parent, moved)
            matches Some(v) && v.stage == LocalPersistStage::InstallDestination && v.state
            == LocalPersistFailureState::NotPublished && v.source_state == LocalTempSourceState::Owned))),
{
}

/// A failed move at installation is classified by its native kind: a
/// conflict (`AlreadyExists`), a move across devices (`CrossesDevices`), a
/// refused argument or entry type (`InvalidInput`, `IsADirectory`,
/// `NotADirectory`, `DirectoryNotEmpty`) or an unsupported move
/// (`Unsupported`) publishes nothing and leaves the resource owned; any
/// other failure leaves both the publication and the resource
/// indeterminate.
pub proof fn lemma_install_failures_are_classified_by_kind<T>(
    resource: T,
    requested: Seq<u8>,
    target: Seq<u8>,
    error: LocalIoErrorView,
)
    ensures
        ({
            let failure = spec_persist_failure(
                resource,
                requested,
                Ok(target),
                Some(Ok(())),
                Some(Err(error)),
            );
            &&& failure matches Some(v) && v.stage == LocalPersistStage::InstallDestination && v.resource == resource
                && v.resolved_target == Some(target)
            &&& (error.kind == LocalIoErrorKind::AlreadyExists || error.kind == LocalIoErrorKind::CrossesDevices
                || error.kind == LocalIoErrorKind::InvalidInput || error.kind == LocalIoErrorKind::IsADirectory
                || error.kind == LocalIoErrorKind::NotADirectory || error.kind
                == LocalIoErrorKind::DirectoryNotEmpty || error.kind == LocalIoErrorKind::Unsupported) ==> (
            failure matches Some(v) && v.state == LocalPersistFailureState::NotPublished && v.source_state
                == LocalTempSourceState::Owned)
            &&& !(error.kind == LocalIoErrorKind::AlreadyExists || error.kind == LocalIoErrorKind::CrossesDevices
                || error.kind == LocalIoErrorKind::InvalidInput || error.kind == LocalIoErrorKind::IsADirectory
                || error.kind == LocalIoErrorKind::NotADirectory || error.kind
                == LocalIoErrorKind::DirectoryNotEmpty || error.kind == LocalIoErrorKind::Unsupported) ==> (
            failure matches Some(v) && v.state == LocalPersistFailureState::Indeterminate && v.source_state
                == LocalTempSourceState::Indeterminate)
        }),
{
}

} // verus!
