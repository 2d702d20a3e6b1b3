//! The decisions of an atomic replacement anchored at an open root.
//!
//! A rooted atomic writer stages the new contents beside the destination,
//! reaching both only through the open root and entry names, and installs
//! them with one rename. The native descriptor-relative steps are performed
//! by the caller; each reports its outcome here, and the writer decides what
//! the outcome means: the failed stage, the known state of the destination,
//! and whether the requested durability was reached.
use vstd::prelude::*;

use core::time::Duration;

use crate::local_atomic_write_error::{
    LocalAtomicDestinationState, LocalAtomicWriteError, LocalAtomicWriteErrorView, LocalAtomicWriteStage,
};
use crate::local_atomic_writer::{
    atomic_failure, install_and_sync, installed_view, opt_outcome_view, res_view, spec_install_and_sync,
    spec_sync_staging, sync_staging, unsupported_atomic_error, with_atomic_context, LocalAtomicInstallOutcome,
    LocalAtomicWriter,
};
use crate::local_file_error::{LocalIoError, LocalIoErrorKind, LocalIoErrorView};
use crate::local_file_metadata::LocalFileKind;
use crate::local_options::{LocalAtomicPublicationMode, LocalAtomicWriteOptions, LocalDurabilityRequirement};
use crate::local_relative_path::{
    spec_final_name, spec_relative_parent, spec_relative_path_error, split_final_component, LocalRelativePath,
};
use crate::path_model::{copy_bytes, views};

verus! {

broadcast use vstd::seq::group_seq_axioms;

/// Prefix of the staging names that a handle-relative writer allocates.
pub const ROOTED_STAGING_PREFIX: &'static str = ".qubit-atomic-";

/// Suffix of the staging names that a handle-relative writer allocates.
pub const ROOTED_STAGING_SUFFIX: &'static str = ".tmp";

/// Number of staging names a handle-relative writer tries before giving up.
pub const ROOTED_STAGING_ATTEMPTS: u32 = 32;

/// How the parent of a rooted destination is reached.
#[derive(Clone, Copy, Debug, PartialEq, Eq, Structural)]
pub enum LocalRootedParentMode {
    /// Missing parents are created, and each created one is remembered for
    /// synchronization.
    CreateMissingAndTrackSync,
    /// The parent must already exist.
    OpenExisting,
}

/// Chooses how the parent of a rooted destination is reached: created on
/// demand exactly when the options ask for it.
pub fn rooted_parent_mode(options: &LocalAtomicWriteOptions) -> (mode: LocalRootedParentMode)
    ensures
        mode == (if options@.create_parent {
            LocalRootedParentMode::CreateMissingAndTrackSync
        } else {
            LocalRootedParentMode::OpenExisting
        }),
{
    if options.creates_parent() {
        LocalRootedParentMode::CreateMissingAndTrackSync
    } else {
        LocalRootedParentMode::OpenExisting
    }
}

/// Whether the inspection of a rooted destination accepts a symbolic link
/// there as an existing entry: when such a link is to be replaced, and for
/// create-new publication, which rejects any existing entry.
pub fn inspection_accepts_symlink(options: &LocalAtomicWriteOptions) -> (res: bool)
    ensures
        res == (options@.replace_target_symlink || options@.publication_mode
            == LocalAtomicPublicationMode::CreateNew),
{
    options.replaces_target_symlink() || options.publication_mode() == LocalAtomicPublicationMode::CreateNew
}

/// The failure of an inspection step: no staging exists yet and the
/// destination is unchanged.
pub open spec fn inspect_failure(path: Seq<u8>, source: LocalIoErrorView) -> LocalAtomicWriteErrorView {
    atomic_failure(LocalAtomicWriteStage::InspectDestination, path, None, LocalAtomicDestinationState::Unchanged, source)
}

/// The error of a create-new write whose rooted destination exists.
pub open spec fn spec_rooted_exists_error() -> LocalIoErrorView {
    LocalIoErrorView {
        kind: LocalIoErrorKind::AlreadyExists,
        message: "rooted atomic create-new destination already exists"@,
    }
}

/// The outcome of an inspection as plain values.
pub open spec fn pair_view(res: Result<(bool, bool), LocalAtomicWriteError>) -> Result<(bool, bool), LocalAtomicWriteErrorView> {
    match res {
        Ok(v) => Ok(v),
        Err(e) => Err(e@),
    }
}

/// Decides the outcome of inspecting a rooted destination from the native
/// inspection (whether a destination exists, and whether its metadata is to
/// be preserved): a failure is an inspection failure, and an existing
/// destination is rejected under create-new publication.
pub fn inspect_rooted_destination(
    options: &LocalAtomicWriteOptions,
    inspected: Result<(bool, bool), LocalIoError>,
    path: &[u8],
) -> (res: Result<(bool, bool), LocalAtomicWriteError>)
    requires
        inspected matches Ok(found) ==> (found.1 ==> found.0),
    ensures
        res matches Ok(found) ==> (found.1 ==> found.0),
        match inspected {
            Err(e) => pair_view(res) == Err::<(bool, bool), LocalAtomicWriteErrorView>(inspect_failure(path@, e@)),
            Ok(v) => if options@.publication_mode == LocalAtomicPublicationMode::CreateNew && v.0 {
                pair_view(res) == Err::<(bool, bool), LocalAtomicWriteErrorView>(
                    inspect_failure(path@, spec_rooted_exists_error()),
                )
            } else {
                pair_view(res) == Ok::<(bool, bool), LocalAtomicWriteErrorView>(v)
            },
        },
{
    let found = with_atomic_context(
        inspected,
        LocalAtomicWriteStage::InspectDestination,
        path,
        None,
        LocalAtomicDestinationState::Unchanged,
    );
    match found {
        Err(e) => Err(e),
        Ok(v) => {
            if options.publication_mode() == LocalAtomicPublicationMode::CreateNew && v.0 {
                Err(
                    LocalAtomicWriteError::new(
                        LocalAtomicWriteStage::InspectDestination,
                        copy_bytes(path),
                        None,
                        LocalAtomicDestinationState::Unchanged,
                        LocalIoError::new(
                            LocalIoErrorKind::AlreadyExists,
                            "rooted atomic create-new destination already exists",
                        ),
                    ),
                )
            } else {
                Ok(v)
            }
        },
    }
}

/// What looking up a rooted destination establishes when the entry is read
/// without following a final link: a missing entry is created; any entry
/// is rejected under create-new publication; a regular file is replaced
/// with its metadata; a symbolic link is replaced, without metadata, only
/// when asked; anything else is rejected.
pub open spec fn spec_classify_rooted(
    mode: LocalAtomicPublicationMode,
    replace_target_symlink: bool,
    opened: Result<(), LocalIoErrorView>,
    kind: Option<Result<LocalFileKind, LocalIoErrorView>>,
    path: Seq<u8>,
) -> Result<(bool, bool), LocalAtomicWriteErrorView> {
    match opened {
        Err(e) => if e.kind == LocalIoErrorKind::NotFound {
            Ok((false, false))
        } else {
            Err(inspect_failure(path, e))
        },
        Ok(()) => if mode == LocalAtomicPublicationMode::CreateNew {
            Err(inspect_failure(path, spec_rooted_exists_error()))
        } else {
            match kind {
                Some(Ok(k)) => if k == LocalFileKind::File {
                    Ok((true, true))
                } else if replace_target_symlink && k == LocalFileKind::Symlink {
                    Ok((true, false))
                } else {
                    Err(
                        inspect_failure(
                            path,
                            LocalIoErrorView {
                                kind: LocalIoErrorKind::InvalidInput,
                                message: "rooted atomic destination is not a regular file"@,
                            },
                        ),
                    )
                },
                Some(Err(e)) => Err(inspect_failure(path, e)),
                None => Ok((false, false)),
            }
        },
    }
}

/// Classifies a rooted destination from its native lookup: opening the
/// entry without following a final link, then (when it exists and is not
/// rejected outright) reading its kind.
pub fn classify_rooted_destination(
    options: &LocalAtomicWriteOptions,
    opened: Result<(), LocalIoError>,
    kind: Option<Result<LocalFileKind, LocalIoError>>,
    path: &[u8],
) -> (res: Result<(bool, bool), LocalAtomicWriteError>)
    requires
        (kind is Some) == (opened is Ok && options@.publication_mode != LocalAtomicPublicationMode::CreateNew),
    ensures
        pair_view(res) == spec_classify_rooted(
            options@.publication_mode,
            options@.replace_target_symlink,
            match opened {
                Ok(()) => Ok(()),
                Err(e) => Err(e@),
            },
            match kind {
                Some(Ok(k)) => Some(Ok(k)),
                Some(Err(e)) => Some(Err(e@)),
                None => None,
            },
            path@,
        ),
        res matches Ok(found) ==> (found.1 ==> found.0),
{
    match opened {
        Err(e) => {
            if e.kind == LocalIoErrorKind::NotFound {
                Ok((false, false))
            } else {
                Err(
                    LocalAtomicWriteError::new(
                        LocalAtomicWriteStage::InspectDestination,
                        copy_bytes(path),
                        None,
                        LocalAtomicDestinationState::Unchanged,
                        e,
                    ),
                )
            }
        },
        Ok(()) => {
            if options.publication_mode() == LocalAtomicPublicationMode::CreateNew {
                return Err(
                    LocalAtomicWriteError::new(
                        LocalAtomicWriteStage::InspectDestination,
                        copy_bytes(path),
                        None,
                        LocalAtomicDestinationState::Unchanged,
                        LocalIoError::new(
                            LocalIoErrorKind::AlreadyExists,
                            "rooted atomic create-new destination already exists",
                        ),
                    ),
                );
            }
            match kind {
                Some(Ok(k)) => {
                    if k == LocalFileKind::File {
                        Ok((true, true))
                    } else if options.replaces_target_symlink() && k == LocalFileKind::Symlink {
                        Ok((true, false))
                    } else {
                        Err(
                            LocalAtomicWriteError::new(
                                LocalAtomicWriteStage::InspectDestination,
                                copy_bytes(path),
                                None,
                                LocalAtomicDestinationState::Unchanged,
                                LocalIoError::new(
                                    LocalIoErrorKind::InvalidInput,
                                    "rooted atomic destination is not a regular file",
                                ),
                            ),
                        )
                    }
                },
                Some(Err(e)) => Err(
                    LocalAtomicWriteError::new(
                        LocalAtomicWriteStage::InspectDestination,
                        copy_bytes(path),
                        None,
                        LocalAtomicDestinationState::Unchanged,
                        e,
                    ),
                ),
                None => Ok((false, false)),
            }
        },
    }
}

/// The staging path of a handle-relative write: the staging name beside
/// the destination. The parent and the name are validated as rooted paths;
/// a failure is a staging failure that leaves the destination unchanged.
pub open spec fn spec_rooted_staging_path(destination: Seq<u8>, name: Seq<u8>) -> Result<
    Seq<u8>,
    LocalAtomicWriteErrorView,
> {
    let parent = spec_relative_parent(destination);
    let failure = |e: LocalIoErrorView|
        atomic_failure(
            LocalAtomicWriteStage::CreateTemporaryFile,
            destination,
            None,
            LocalAtomicDestinationState::Unchanged,
            e,
        );
    if parent.len() != 0 && !crate::local_relative_path::is_valid_relative_path(parent) {
        Err(failure(spec_relative_path_error(parent)))
    } else if !crate::local_relative_path::is_valid_relative_path(name) {
        Err(failure(spec_relative_path_error(name)))
    } else {
        Ok(crate::path_model::path_push(parent, name))
    }
}

/// Builds the staging path of a handle-relative write from a staging name.
pub fn rooted_staging_path(destination: &LocalRelativePath, name: &[u8]) -> (res: Result<Vec<u8>, LocalAtomicWriteError>)
    ensures
        match res {
            Ok(p) => spec_rooted_staging_path(destination@, name@) == Ok::<
                Seq<u8>,
                LocalAtomicWriteErrorView,
            >(p@),
            Err(e) => spec_rooted_staging_path(destination@, name@) == Err::<
                Seq<u8>,
                LocalAtomicWriteErrorView,
            >(e@),
        },
{
    let path = destination.as_path();
    let (parent, _) = split_final_component(path);
    let joined = if parent.len() == 0 {
        LocalRelativePath::new(name)
    } else {
        match LocalRelativePath::new(parent.as_slice()) {
            Ok(p) => p.join(name),
            Err(e) => Err(e),
        }
    };
    match joined {
        Ok(p) => Ok(copy_bytes(p.as_path())),
        Err(e) => Err(
            LocalAtomicWriteError::new(
                LocalAtomicWriteStage::CreateTemporaryFile,
                copy_bytes(path),
                None,
                LocalAtomicDestinationState::Unchanged,
                e,
            ),
        ),
    }
}

/// The next step of allocating a staging file by random names.
#[derive(Debug)]
pub enum LocalRootedStagingStep {
    /// The staging file was created.
    Opened,
    /// The name collided; another name is to be tried.
    Retry,
    /// Allocation failed.
    Failed(LocalAtomicWriteError),
}

/// Decides the next step after attempt `attempt` (counted from zero) to
/// create a staging file: success ends the allocation; a collision is
/// retried while attempts remain; the last collision, or any other
/// failure, is a staging failure that leaves the destination unchanged.
pub fn rooted_staging_step(
    attempt: u32,
    created: Result<(), LocalIoError>,
    path: &[u8],
    diagnostic_path: &[u8],
) -> (step: LocalRootedStagingStep)
    requires
        attempt < ROOTED_STAGING_ATTEMPTS,
    ensures
        match created {
            Ok(()) => step is Opened,
            Err(e) => if e@.kind == LocalIoErrorKind::AlreadyExists && attempt + 1 < ROOTED_STAGING_ATTEMPTS {
                step is Retry
            } else {
                step matches LocalRootedStagingStep::Failed(r) && r@ == atomic_failure(
                    LocalAtomicWriteStage::CreateTemporaryFile,
                    path@,
                    Some(diagnostic_path@),
                    LocalAtomicDestinationState::Unchanged,
                    e@,
                )
            },
        },
{
    match created {
        Ok(()) => LocalRootedStagingStep::Opened,
        Err(e) => {
            if e.kind == LocalIoErrorKind::AlreadyExists && attempt + 1 < ROOTED_STAGING_ATTEMPTS {
                LocalRootedStagingStep::Retry
            } else {
                LocalRootedStagingStep::Failed(
                    LocalAtomicWriteError::new(
                        LocalAtomicWriteStage::CreateTemporaryFile,
                        copy_bytes(path),
                        Some(copy_bytes(diagnostic_path)),
                        LocalAtomicDestinationState::Unchanged,
                        e,
                    ),
                )
            }
        },
    }
}

/// An atomic replacement in progress beneath an open root: the requested
/// relative destination, its final entry name, the directories that
/// received a newly created child entry while the parent was prepared
/// (shallowest first), what was found at the destination, the
/// requested durability and open retry limit, and the diagnostic staging
/// path.
#[derive(Debug)]
pub struct LocalRootAtomicWriter {
    path: Vec<u8>,
    final_name: Vec<u8>,
    parent_dirs_to_sync: Vec<Vec<u8>>,
    destination_existed: bool,
    preserve_destination_metadata: bool,
    durability: LocalDurabilityRequirement,
    open_retry_timeout: Option<Duration>,
    temporary_path: Vec<u8>,
}

/// A rooted atomic writer as plain values.
pub struct LocalRootAtomicWriterView {
    pub path: Seq<u8>,
    pub final_name: Seq<u8>,
    pub parent_dirs_to_sync: Seq<Seq<u8>>,
    pub destination_existed: bool,
    pub preserve_destination_metadata: bool,
    pub durability: LocalDurabilityRequirement,
    pub open_retry_timeout: Option<Duration>,
    pub temporary_path: Seq<u8>,
}

impl View for LocalRootAtomicWriter {
    type V = LocalRootAtomicWriterView;

    closed spec fn view(&self) -> LocalRootAtomicWriterView {
        LocalRootAtomicWriterView {
            path: self.path@,
            final_name: self.final_name@,
            parent_dirs_to_sync: views(self.parent_dirs_to_sync@),
            destination_existed: self.destination_existed,
            preserve_destination_metadata: self.preserve_destination_metadata,
            durability: self.durability,
            open_retry_timeout: self.open_retry_timeout,
            temporary_path: self.temporary_path@,
        }
    }
}

/// The failure of a commit step taken before installation: the staging
/// file stays and the destination is unchanged.
pub open spec fn rooted_commit_failure(
    writer: LocalRootAtomicWriterView,
    stage: LocalAtomicWriteStage,
    source: LocalIoErrorView,
) -> LocalAtomicWriteErrorView {
    atomic_failure(stage, writer.path, Some(writer.temporary_path), LocalAtomicDestinationState::Unchanged, source)
}

impl LocalRootAtomicWriter {
    /// Creates a rooted writer from what its preparation established: the
    /// validated destination, the directories that received a newly created
    /// child entry, the inspection of the
    /// destination, the options, and the diagnostic staging path. The final
    /// entry name is the destination's last component.
    pub fn new(
        path: &LocalRelativePath,
        parent_dirs_to_sync: Vec<Vec<u8>>,
        inspection: (bool, bool),
        options: &LocalAtomicWriteOptions,
        temporary_path: Vec<u8>,
    ) -> (writer: Self)
        requires
            inspection.1 ==> inspection.0,
        ensures
            writer@ == (LocalRootAtomicWriterView {
                path: path@,
                final_name: spec_final_name(path@),
                parent_dirs_to_sync: views(parent_dirs_to_sync@),
                destination_existed: inspection.0,
                preserve_destination_metadata: inspection.1,
                durability: options@.durability,
                open_retry_timeout: options@.open_retry_timeout,
                temporary_path: temporary_path@,
            }),
    {
        let (_, final_name) = split_final_component(path.as_path());
        LocalRootAtomicWriter {
            path: copy_bytes(path.as_path()),
            final_name,
            parent_dirs_to_sync,
            destination_existed: inspection.0,
            preserve_destination_metadata: inspection.1,
            durability: options.durability(),
            open_retry_timeout: options.open_retry_timeout(),
            temporary_path,
        }
    }

    /// Returns the requested relative destination.
    pub fn path(&self) -> (path: &[u8])
        ensures
            path@ == self@.path,
    {
        self.path.as_slice()
    }

    /// Returns the final entry name within the destination's parent.
    pub fn final_name(&self) -> (name: &[u8])
        ensures
            name@ == self@.final_name,
    {
        self.final_name.as_slice()
    }

    /// Returns the diagnostic staging path.
    pub fn temporary_path(&self) -> (path: &[u8])
        ensures
            path@ == self@.temporary_path,
    {
        self.temporary_path.as_slice()
    }

    /// Returns whether a destination existed when the write began; its
    /// installation then replaces it, and otherwise must not replace a
    /// concurrent creator.
    pub fn destination_existed(&self) -> (res: bool)
        ensures
            res == self@.destination_existed,
    {
        self.destination_existed
    }

    /// Returns whether commit opens the existing destination to preserve
    /// its metadata.
    pub fn preserves_destination_metadata(&self) -> (res: bool)
        ensures
            res == self@.preserve_destination_metadata,
    {
        self.preserve_destination_metadata
    }

    /// Returns the retry limit of opening the destination at commit.
    pub fn open_retry_timeout(&self) -> (timeout: Option<Duration>)
        ensures
            timeout == self@.open_retry_timeout,
    {
        self.open_retry_timeout
    }

    /// Returns the directories to synchronize after installation, in order:
    /// the destination's parent (empty for the root itself), which records
    /// the new entry, then each directory that received a newly created
    /// child entry, from the deepest up.
    pub fn parent_sync_order(&self) -> (order: Vec<Vec<u8>>)
        ensures
            views(order@) == seq![spec_relative_parent(self@.path)] + self@.parent_dirs_to_sync.reverse(),
    {
        let (parent, _) = split_final_component(self.path.as_slice());
        let mut order: Vec<Vec<u8>> = Vec::new();
        order.push(parent);
        let mut i: usize = self.parent_dirs_to_sync.len();
        let ghost dirs = views(self.parent_dirs_to_sync@);
        assert(views(order@) =~= seq![spec_relative_parent(self@.path)] + dirs.skip(i as int).reverse());
        while i > 0
            invariant
                i <= self.parent_dirs_to_sync@.len(),
                dirs == views(self.parent_dirs_to_sync@),
                views(order@) == seq![spec_relative_parent(self@.path)] + dirs.skip(i as int).reverse(),
            decreases i,
        {
            let ghost before = views(order@);
            order.push(copy_bytes(self.parent_dirs_to_sync[i - 1].as_slice()));
            assert(views(order@) =~= before.push(dirs[i - 1]));
            assert(dirs.skip(i - 1).reverse() =~= dirs.skip(i as int).reverse().push(dirs[i - 1]));
            i = i - 1;
        }
        assert(dirs.skip(0) =~= dirs);
        order
    }

    /// Rejects a commit whose durability cannot be guaranteed by a
    /// handle-relative backend without descriptor synchronization: required
    /// durability is unsupported there.
    pub fn reject_required_durability(&self) -> (res: Result<(), LocalAtomicWriteError>)
        ensures
            self@.durability != LocalDurabilityRequirement::Required ==> res is Ok,
            self@.durability == LocalDurabilityRequirement::Required ==> (res matches Err(r) && r@
                == atomic_failure(
                LocalAtomicWriteStage::PrepareParent,
                self@.path,
                None,
                LocalAtomicDestinationState::Unchanged,
                LocalIoErrorView {
                    kind: LocalIoErrorKind::Unsupported,
                    message: "secure rooted atomic writes are unsupported on this target"@,
                },
            )),
    {
        if self.durability == LocalDurabilityRequirement::Required {
            Err(unsupported_atomic_error(self.path.as_slice()))
        } else {
            Ok(())
        }
    }

    /// Decides the outcome of opening the existing destination at commit:
    /// when metadata is not preserved nothing is opened; a failure is a
    /// metadata failure that leaves the destination unchanged; a destination
    /// that disappeared is reported missing.
    pub fn open_destination_for_commit<D>(&self, opened: Option<Result<Option<D>, LocalIoError>>) -> (res: Result<
        Option<D>,
        LocalAtomicWriteError,
    >)
        requires
            self@.preserve_destination_metadata == (opened is Some),
        ensures
            match opened {
                None => res == Ok::<Option<D>, LocalAtomicWriteError>(None),
                Some(Err(e)) => (res matches Err(r) && r@ == rooted_commit_failure(
                    self@,
                    LocalAtomicWriteStage::ReadDestinationMetadata,
                    e@,
                )),
                Some(Ok(None)) => (res matches Err(r) && r@ == atomic_failure(
                    LocalAtomicWriteStage::ReadDestinationMetadata,
                    self@.path,
                    Some(self@.temporary_path),
                    LocalAtomicDestinationState::Missing,
                    LocalIoErrorView {
                        kind: LocalIoErrorKind::NotFound,
                        message: "rooted atomic destination disappeared"@,
                    },
                )),
                Some(Ok(Some(d))) => res == Ok::<Option<D>, LocalAtomicWriteError>(Some(d)),
            },
    {
        match opened {
            None => Ok(None),
            Some(Err(e)) => Err(
                LocalAtomicWriteError::new(
                    LocalAtomicWriteStage::ReadDestinationMetadata,
                    copy_bytes(self.path.as_slice()),
                    Some(copy_bytes(self.temporary_path.as_slice())),
                    LocalAtomicDestinationState::Unchanged,
                    e,
                ),
            ),
            Some(Ok(None)) => Err(
                LocalAtomicWriteError::new(
                    LocalAtomicWriteStage::ReadDestinationMetadata,
                    copy_bytes(self.path.as_slice()),
                    Some(copy_bytes(self.temporary_path.as_slice())),
                    LocalAtomicDestinationState::Missing,
                    LocalIoError::new(LocalIoErrorKind::NotFound, "rooted atomic destination disappeared"),
                ),
            ),
            Some(Ok(Some(d))) => Ok(Some(d)),
        }
    }

    /// Decides the outcome of reading the destination's metadata during a
    /// commit; a failure leaves the destination unchanged.
    pub fn read_destination_metadata<D>(&self, read: Result<D, LocalIoError>) -> (res: Result<D, LocalAtomicWriteError>)
        ensures
            match read {
                Ok(d) => res == Ok::<D, LocalAtomicWriteError>(d),
                Err(e) => (res matches Err(r) && r@ == rooted_commit_failure(
                    self@,
                    LocalAtomicWriteStage::ReadDestinationMetadata,
                    e@,
                )),
            },
    {
        with_atomic_context(
            read,
            LocalAtomicWriteStage::ReadDestinationMetadata,
            self.path.as_slice(),
            Some(copy_bytes(self.temporary_path.as_slice())),
            LocalAtomicDestinationState::Unchanged,
        )
    }

    /// Decides the outcome of copying the destination's metadata to the
    /// staging file; a failure leaves the destination unchanged.
    pub fn preserve_destination_metadata(&self, applied: Result<(), LocalIoError>) -> (res: Result<
        (),
        LocalAtomicWriteError,
    >)
        ensures
            match applied {
                Ok(()) => res is Ok,
                Err(e) => (res matches Err(r) && r@ == rooted_commit_failure(
                    self@,
                    LocalAtomicWriteStage::ApplyDestinationMetadata,
                    e@,
                )),
            },
    {
        with_atomic_context(
            applied,
            LocalAtomicWriteStage::ApplyDestinationMetadata,
            self.path.as_slice(),
            Some(copy_bytes(self.temporary_path.as_slice())),
            LocalAtomicDestinationState::Unchanged,
        )
    }

    /// Decides the outcome of synchronizing the staging file, which is
    /// attempted exactly when durability is not `NotRequired`.
    pub fn sync_temporary_file(&self, synced: Option<Result<(), LocalIoError>>) -> (res: Result<
        bool,
        LocalAtomicWriteError,
    >)
        requires
            (self@.durability == LocalDurabilityRequirement::NotRequired) == (synced is None),
        ensures
            res_view(res) == spec_sync_staging(
                self@.durability,
                opt_outcome_view(synced),
                self@.path,
                self@.temporary_path,
            ),
    {
        sync_staging(self.durability, synced, self.path.as_slice(), self.temporary_path.as_slice())
    }

    /// Verifies that the destination still names the file opened at commit:
    /// otherwise a concurrent change makes the outcome of replacing it
    /// unknown, and the commit stops.
    pub fn verify_destination_identity(&self, same_file: bool) -> (res: Result<(), LocalAtomicWriteError>)
        ensures
            same_file ==> res is Ok,
            !same_file ==> (res matches Err(r) && r@ == atomic_failure(
                LocalAtomicWriteStage::ReplaceDestination,
                self@.path,
                Some(self@.temporary_path),
                LocalAtomicDestinationState::Indeterminate,
                LocalIoErrorView {
                    kind: LocalIoErrorKind::AlreadyExists,
                    message: "rooted atomic destination changed during commit"@,
                },
            )),
    {
        if same_file {
            Ok(())
        } else {
            Err(
                LocalAtomicWriteError::new(
                    LocalAtomicWriteStage::ReplaceDestination,
                    copy_bytes(self.path.as_slice()),
                    Some(copy_bytes(self.temporary_path.as_slice())),
                    LocalAtomicDestinationState::Indeterminate,
                    LocalIoError::new(LocalIoErrorKind::AlreadyExists, "rooted atomic destination changed during commit"),
                ),
            )
        }
    }

    /// Decides the outcome of renaming the staging entry over the
    /// destination in a handle-relative commit: a failed rename leaves the
    /// destination unchanged, and a completed one is not durable.
    pub fn replace_destination(&self, renamed: Result<(), LocalIoError>) -> (res: Result<bool, LocalAtomicWriteError>)
        ensures
            match renamed {
                Ok(()) => res == Ok::<bool, LocalAtomicWriteError>(false),
                Err(e) => (res matches Err(r) && r@ == rooted_commit_failure(
                    self@,
                    LocalAtomicWriteStage::ReplaceDestination,
                    e@,
                )),
            },
    {
        match renamed {
            Ok(()) => Ok(false),
            Err(e) => Err(
                LocalAtomicWriteError::new(
                    LocalAtomicWriteStage::ReplaceDestination,
                    copy_bytes(self.path.as_slice()),
                    Some(copy_bytes(self.temporary_path.as_slice())),
                    LocalAtomicDestinationState::Unchanged,
                    e,
                ),
            ),
        }
    }

    /// Decides the outcome of installing the staging entry and synchronizing
    /// the parent chain, as for a path-based writer.
    pub fn install_and_sync_parent(
        &self,
        installed: LocalAtomicInstallOutcome,
        parents_synced: Option<Result<(), LocalIoError>>,
    ) -> (res: Result<bool, LocalAtomicWriteError>)
        requires
            (installed is Installed && self@.durability != LocalDurabilityRequirement::NotRequired) == (
            parents_synced is Some),
        ensures
            res_view(res) == spec_install_and_sync(
                installed_view(installed),
                self@.durability,
                opt_outcome_view(parents_synced),
                self@.path,
                self@.temporary_path,
            ),
    {
        install_and_sync(
            installed,
            self.durability,
            parents_synced,
            self.path.as_slice(),
            self.temporary_path.as_slice(),
        )
    }

    /// Decides the outcome of aborting: the staging entry was removed, or
    /// its removal failed and the destination is unchanged.
    pub fn abort(&self, cleanup: Result<(), LocalIoError>) -> (res: Result<(), LocalAtomicWriteError>)
        ensures
            match cleanup {
                Ok(()) => res is Ok,
                Err(e) => (res matches Err(r) && r@ == rooted_commit_failure(
                    self@,
                    LocalAtomicWriteStage::CleanupTemporaryFile,
                    e@,
                )),
            },
    {
        with_atomic_context(
            cleanup,
            LocalAtomicWriteStage::CleanupTemporaryFile,
            self.path.as_slice(),
            Some(copy_bytes(self.temporary_path.as_slice())),
            LocalAtomicDestinationState::Unchanged,
        )
    }

    /// Finishes a failed commit that consumes the writer, as for a
    /// path-based writer: the staging entry is removed only when the
    /// destination is unchanged.
    pub fn finalize_failed_commit(error: LocalAtomicWriteError, cleanup: Option<Result<(), LocalIoError>>) -> (res:
        LocalAtomicWriteError)
        requires
            (error@.destination_state == LocalAtomicDestinationState::Unchanged) == (cleanup is Some),
        ensures
            match cleanup {
                Some(c) => res@ == (LocalAtomicWriteErrorView {
                    cleanup_error: match c {
                        Ok(()) => None,
                        Err(e) => Some(e@),
                    },
                    ..error@
                }),
                None => res@ == error@,
            },
    {
        LocalAtomicWriter::finalize_failed_commit(error, cleanup)
    }
}

} // verus!
