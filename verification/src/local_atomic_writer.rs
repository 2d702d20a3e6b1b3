//! The decisions of a same-directory atomic replacement.
//!
//! An atomic writer stages the new contents in a temporary file beside the
//! destination and installs it with one rename. The native steps (opening,
//! synchronizing, renaming, removing) are performed by the caller; each of
//! them reports its outcome to the writer, which decides what the outcome
//! means: which stage failed, what state the destination is known to be in,
//! and whether the requested durability was reached.
use vstd::prelude::*;

use core::time::Duration;

use crate::display_text::{concat_text, display_path, spec_display_path};
use crate::local_atomic_write_error::{
    LocalAtomicDestinationState, LocalAtomicWriteError, LocalAtomicWriteErrorView,
    LocalAtomicWriteStage,
};
use crate::local_file_error::{opt_bytes, LocalIoError, LocalIoErrorKind, LocalIoErrorView};
use crate::local_file_metadata::LocalFileKind;
use crate::local_options::{LocalAtomicPublicationMode, LocalAtomicWriteOptions, LocalDurabilityRequirement};
use crate::path_model::{copy_bytes, slash, views};

verus! {

broadcast use vstd::seq::group_seq_axioms;

/// Prefix of the staging file names of atomic writes.
pub const ATOMIC_WRITE_TEMP_PREFIX: &'static str = ".atomic-write-";

/// Suffix of the staging file names of atomic writes.
pub const ATOMIC_WRITE_TEMP_SUFFIX: &'static str = ".tmp";

/// The failure of a step of an atomic write, with its context.
pub open spec fn atomic_failure(
    stage: LocalAtomicWriteStage,
    path: Seq<u8>,
    temporary_path: Option<Seq<u8>>,
    destination_state: LocalAtomicDestinationState,
    source: LocalIoErrorView,
) -> LocalAtomicWriteErrorView {
    LocalAtomicWriteErrorView {
        stage,
        path,
        temporary_path,
        destination_state,
        cleanup_error: None,
        parent_sync_error: None,
        source,
    }
}

/// Maps the native outcome of a step of an atomic write: a failure becomes
/// an error of `stage` with its context.
pub fn with_atomic_context<T>(
    result: Result<T, LocalIoError>,
    stage: LocalAtomicWriteStage,
    path: &[u8],
    temporary_path: Option<Vec<u8>>,
    destination_state: LocalAtomicDestinationState,
) -> (res: Result<T, LocalAtomicWriteError>)
    ensures
        match result {
            Ok(v) => res == Ok::<T, LocalAtomicWriteError>(v),
            Err(e) => (res matches Err(r) && r@ == atomic_failure(
                stage,
                path@,
                opt_bytes(temporary_path),
                destination_state,
                e@,
            )),
        },
{
    match result {
        Ok(value) => Ok(value),
        Err(source) => Err(
            LocalAtomicWriteError::new(stage, copy_bytes(path), temporary_path, destination_state, source),
        ),
    }
}

/// The failure of an atomic write that the target cannot perform securely.
pub fn unsupported_atomic_error(path: &[u8]) -> (error: LocalAtomicWriteError)
    ensures
        error@ == atomic_failure(
            LocalAtomicWriteStage::PrepareParent,
            path@,
            None,
            LocalAtomicDestinationState::Unchanged,
            LocalIoErrorView {
                kind: LocalIoErrorKind::Unsupported,
                message: "secure rooted atomic writes are unsupported on this target"@,
            },
        ),
{
    LocalAtomicWriteError::new(
        LocalAtomicWriteStage::PrepareParent,
        copy_bytes(path),
        None,
        LocalAtomicDestinationState::Unchanged,
        LocalIoError::new(LocalIoErrorKind::Unsupported, "secure rooted atomic writes are unsupported on this target"),
    )
}

/// A failure while staging, with the staging path and the outcome of
/// removing it: the destination is unchanged.
pub fn atomic_error_with_staging(
    stage: LocalAtomicWriteStage,
    path: &[u8],
    source: LocalIoError,
    temporary_path: &[u8],
    cleanup: Result<(), LocalIoError>,
) -> (error: LocalAtomicWriteError)
    ensures
        error@ == (LocalAtomicWriteErrorView {
            cleanup_error: match cleanup {
                Ok(()) => None,
                Err(e) => Some(e@),
            },
            ..atomic_failure(stage, path@, Some(temporary_path@), LocalAtomicDestinationState::Unchanged, source@)
        }),
{
    let cleanup_error = match cleanup {
        Ok(()) => None,
        Err(e) => Some(e),
    };
    LocalAtomicWriteError::new(
        stage,
        copy_bytes(path),
        Some(copy_bytes(temporary_path)),
        LocalAtomicDestinationState::Unchanged,
        source,
    ).with_cleanup_error(cleanup_error)
}

/// The message of a destination lookup failure: what was done, the path,
/// and the native message.
pub open spec fn spec_lookup_message(path: Seq<u8>, message: Seq<char>) -> Seq<char> {
    "read destination metadata '"@ + spec_display_path(path) + "': "@ + message
}

/// What the lookup of an existing destination establishes: whether it
/// exists and whether its metadata is to be preserved. A regular file is
/// replaced with its metadata, a symbolic link is replaced only when asked
/// and without metadata, a missing entry is created, and anything else is
/// rejected.
pub open spec fn spec_existing_destination(
    lookup: Result<LocalFileKind, LocalIoErrorView>,
    replace_target_symlink: bool,
    path: Seq<u8>,
) -> Result<(bool, bool), LocalIoErrorView> {
    match lookup {
        Ok(kind) => if kind == LocalFileKind::File {
            Ok((true, true))
        } else if replace_target_symlink && kind == LocalFileKind::Symlink {
            Ok((true, false))
        } else {
            Err(
                LocalIoErrorView {
                    kind: LocalIoErrorKind::InvalidInput,
                    message: "atomic write destination must be absent or a regular file"@,
                },
            )
        },
        Err(e) => if e.kind == LocalIoErrorKind::NotFound {
            Ok((false, false))
        } else {
            Err(LocalIoErrorView { kind: e.kind, message: spec_lookup_message(path, e.message) })
        },
    }
}

/// The plain value of a native kind lookup.
pub open spec fn lookup_view(lookup: Result<LocalFileKind, LocalIoError>) -> Result<LocalFileKind, LocalIoErrorView> {
    match lookup {
        Ok(k) => Ok(k),
        Err(e) => Err(e@),
    }
}

/// Classifies an existing destination from its native lookup (without
/// following a final symbolic link).
pub fn existing_file_metadata(
    lookup: Result<LocalFileKind, LocalIoError>,
    replace_target_symlink: bool,
    path: &[u8],
) -> (res: Result<(bool, bool), LocalIoError>)
    ensures
        match spec_existing_destination(lookup_view(lookup), replace_target_symlink, path@) {
            Ok(v) => res == Ok::<(bool, bool), LocalIoError>(v),
            Err(e) => (res matches Err(r) && r@ == e),
        },
{
    match lookup {
        Ok(kind) => {
            if kind == LocalFileKind::File {
                Ok((true, true))
            } else if replace_target_symlink && kind == LocalFileKind::Symlink {
                Ok((true, false))
            } else {
                Err(
                    LocalIoError::new(
                        LocalIoErrorKind::InvalidInput,
                        "atomic write destination must be absent or a regular file",
                    ),
                )
            }
        },
        Err(error) => {
            if error.kind == LocalIoErrorKind::NotFound {
                Ok((false, false))
            } else {
                let message = concat_text(String::from_str("read destination metadata '"), display_path(path).as_str());
                let message = concat_text(concat_text(message, "': "), error.message.as_str());
                Err(LocalIoError { kind: error.kind, message })
            }
        },
    }
}

/// What inspecting the destination of a new atomic write establishes:
/// create-new publication needs the destination to be missing; otherwise
/// the existing destination is classified. Failures are inspection
/// failures that leave the destination unchanged.
pub open spec fn spec_inspect_destination(
    mode: LocalAtomicPublicationMode,
    replace_target_symlink: bool,
    lookup: Result<LocalFileKind, LocalIoErrorView>,
    path: Seq<u8>,
) -> Result<(bool, bool), LocalAtomicWriteErrorView> {
    let failure = |e: LocalIoErrorView|
        atomic_failure(
            LocalAtomicWriteStage::InspectDestination,
            path,
            None,
            LocalAtomicDestinationState::Unchanged,
            e,
        );
    if mode == LocalAtomicPublicationMode::CreateNew {
        match lookup {
            Ok(_) => Err(
                failure(
                    LocalIoErrorView {
                        kind: LocalIoErrorKind::AlreadyExists,
                        message: "atomic create-new destination already exists"@,
                    },
                ),
            ),
            Err(e) => if e.kind == LocalIoErrorKind::NotFound {
                Ok((false, false))
            } else {
                Err(failure(e))
            },
        }
    } else {
        match spec_existing_destination(lookup, replace_target_symlink, path) {
            Ok(v) => Ok(v),
            Err(e) => Err(failure(e)),
        }
    }
}

/// The outcome of inspecting the destination, as plain values.
pub open spec fn inspection_view(res: Result<(bool, bool), LocalAtomicWriteError>) -> Result<
    (bool, bool),
    LocalAtomicWriteErrorView,
> {
    match res {
        Ok(v) => Ok(v),
        Err(e) => Err(e@),
    }
}

/// Inspects the destination of a new atomic write from its native lookup.
pub fn inspect_destination(
    options: &LocalAtomicWriteOptions,
    lookup: Result<LocalFileKind, LocalIoError>,
    path: &[u8],
) -> (res: Result<(bool, bool), LocalAtomicWriteError>)
    ensures
        inspection_view(res) == spec_inspect_destination(
            options@.publication_mode,
            options@.replace_target_symlink,
            lookup_view(lookup),
            path@,
        ),
        res matches Ok(found) ==> (found.1 ==> found.0),
{
    if options.publication_mode() == LocalAtomicPublicationMode::CreateNew {
        match lookup {
            Ok(_) => Err(
                LocalAtomicWriteError::new(
                    LocalAtomicWriteStage::InspectDestination,
                    copy_bytes(path),
                    None,
                    LocalAtomicDestinationState::Unchanged,
                    LocalIoError::new(LocalIoErrorKind::AlreadyExists, "atomic create-new destination already exists"),
                ),
            ),
            Err(error) => {
                if error.kind == LocalIoErrorKind::NotFound {
                    Ok((false, false))
                } else {
                    Err(
                        LocalAtomicWriteError::new(
                            LocalAtomicWriteStage::InspectDestination,
                            copy_bytes(path),
                            None,
                            LocalAtomicDestinationState::Unchanged,
                            error,
                        ),
                    )
                }
            },
        }
    } else {
        with_atomic_context(
            existing_file_metadata(lookup, options.replaces_target_symlink(), path),
            LocalAtomicWriteStage::InspectDestination,
            path,
            None,
            LocalAtomicDestinationState::Unchanged,
        )
    }
}

/// Checks the parent of a destination that is not created on demand: it
/// must be a directory.
pub fn check_parent_directory(parent_kind: Result<LocalFileKind, LocalIoError>, path: &[u8]) -> (res: Result<
    (),
    LocalAtomicWriteError,
>)
    ensures
        match parent_kind {
            Err(e) => (res matches Err(r) && r@ == atomic_failure(
                LocalAtomicWriteStage::PrepareParent,
                path@,
                None,
                LocalAtomicDestinationState::Unchanged,
                e@,
            )),
            Ok(k) => if k == LocalFileKind::Directory {
                res is Ok
            } else {
                res matches Err(r) && r@ == atomic_failure(
                    LocalAtomicWriteStage::PrepareParent,
                    path@,
                    None,
                    LocalAtomicDestinationState::Unchanged,
                    LocalIoErrorView {
                        kind: LocalIoErrorKind::NotADirectory,
                        message: "atomic write parent must be a directory"@,
                    },
                )
            },
        },
{
    match parent_kind {
        Err(e) => Err(
            LocalAtomicWriteError::new(
                LocalAtomicWriteStage::PrepareParent,
                copy_bytes(path),
                None,
                LocalAtomicDestinationState::Unchanged,
                e,
            ),
        ),
        Ok(kind) => {
            if kind == LocalFileKind::Directory {
                Ok(())
            } else {
                Err(
                    LocalAtomicWriteError::new(
                        LocalAtomicWriteStage::PrepareParent,
                        copy_bytes(path),
                        None,
                        LocalAtomicDestinationState::Unchanged,
                        LocalIoError::new(LocalIoErrorKind::NotADirectory, "atomic write parent must be a directory"),
                    ),
                )
            }
        },
    }
}

/// The parent directory of an absolute path: everything before its last
/// `/`, or the root for a child of the root.
pub open spec fn spec_parent_of(path: Seq<u8>) -> Seq<u8> {
    let i = last_slash(path);
    if i <= 0 {
        seq![slash()]
    } else {
        path.take(i)
    }
}

/// The index of the last `/` of a path, or -1.
pub open spec fn last_slash(path: Seq<u8>) -> int
    decreases path.len(),
{
    if path.len() == 0 {
        -1
    } else if path.last() == slash() {
        path.len() - 1
    } else {
        last_slash(path.drop_last())
    }
}

/// The last `/` of a path is at one of its positions, or nowhere.
pub proof fn lemma_last_slash_bound(path: Seq<u8>)
    ensures
        -1 <= last_slash(path) < path.len(),
    decreases path.len(),
{
    if path.len() > 0 {
        lemma_last_slash_bound(path.drop_last());
    }
}

/// Returns the parent directory of an absolute path.
pub fn parent_dir_for(path: &[u8]) -> (parent: Vec<u8>)
    ensures
        parent@ == spec_parent_of(path@),
{
    let mut i: usize = path.len();
    assert(path@.take(i as int) =~= path@);
    while i > 0 && path[i - 1] != 0x2f
        invariant
            i <= path@.len(),
            last_slash(path@) == last_slash(path@.take(i as int)),
        decreases i,
    {
        assert(path@.take(i as int).drop_last() =~= path@.take(i - 1));
        i = i - 1;
    }
    assert(i > 0 ==> path@.take(i as int).last() == slash());
    proof {
        lemma_last_slash_bound(path@);
    }
    if i <= 1 {
        let root: Vec<u8> = vec![0x2fu8];
        assert(root@ =~= seq![slash()]);
        root
    } else {
        let mut out: Vec<u8> = Vec::new();
        let mut k: usize = 0;
        while k < i - 1
            invariant
                k <= i - 1,
                i <= path@.len(),
                out@ == path@.take(k as int),
            decreases i - 1 - k,
        {
            out.push(path[k]);
            assert(path@.take(k + 1) =~= path@.take(k as int).push(path@[k as int]));
            k = k + 1;
        }
        out
    }
}

/// The plain value of a decision without a result.
pub open spec fn unit_view(res: Result<(), LocalAtomicWriteError>) -> Result<(), LocalAtomicWriteErrorView> {
    match res {
        Ok(()) => Ok(()),
        Err(e) => Err(e@),
    }
}

/// Whether a destination that existed when the write began is still there
/// before installation: nothing is checked for a new destination; a
/// preserved one is classified as at inspection, any other one only looked
/// up. A failed check leaves the destination unchanged; a vanished one is
/// reported missing.
pub open spec fn spec_verify_present_destination(
    writer: LocalAtomicWriterView,
    lookup: Option<Result<LocalFileKind, LocalIoErrorView>>,
) -> Result<(), LocalAtomicWriteErrorView> {
    match lookup {
        None => Ok(()),
        Some(l) => {
            let exists: Result<bool, LocalIoErrorView> = if writer.preserve_destination_metadata {
                match spec_existing_destination(l, false, writer.operation_path) {
                    Ok(found) => Ok(found.0),
                    Err(e) => Err(e),
                }
            } else {
                match l {
                    Ok(_) => Ok(true),
                    Err(e) => Err(e),
                }
            };
            match exists {
                Err(e) => Err(
                    atomic_failure(
                        LocalAtomicWriteStage::ReplaceDestination,
                        writer.path,
                        Some(writer.temporary_path),
                        LocalAtomicDestinationState::Unchanged,
                        e,
                    ),
                ),
                Ok(true) => Ok(()),
                Ok(false) => Err(
                    atomic_failure(
                        LocalAtomicWriteStage::ReplaceDestination,
                        writer.path,
                        Some(writer.temporary_path),
                        LocalAtomicDestinationState::Missing,
                        LocalIoErrorView {
                            kind: LocalIoErrorKind::NotFound,
                            message: "atomic write destination disappeared"@,
                        },
                    ),
                ),
            }
        },
    }
}

/// A directory followed by its ancestors, from the deepest up to the root.
pub open spec fn spec_ancestor_chain(dir: Seq<u8>) -> Seq<Seq<u8>>
    decreases dir.len(),
{
    if dir.len() <= 1 {
        seq![dir]
    } else {
        proof {
            lemma_last_slash_bound(dir);
        }
        seq![dir] + spec_ancestor_chain(spec_parent_of(dir))
    }
}

/// Returns a directory followed by its ancestors, from the deepest up to
/// the root: the directories that may have to be created for it.
pub fn ancestor_chain(dir: &[u8]) -> (chain: Vec<Vec<u8>>)
    ensures
        views(chain@) == spec_ancestor_chain(dir@),
{
    let mut chain: Vec<Vec<u8>> = Vec::new();
    let mut current = copy_bytes(dir);
    assert(views(chain@) =~= Seq::<Seq<u8>>::empty());
    assert(Seq::<Seq<u8>>::empty() + spec_ancestor_chain(dir@) =~= spec_ancestor_chain(dir@));
    while current.len() > 1
        invariant
            views(chain@) + spec_ancestor_chain(current@) == spec_ancestor_chain(dir@),
        decreases current@.len(),
    {
        proof {
            lemma_last_slash_bound(current@);
        }
        let next = parent_dir_for(current.as_slice());
        let ghost before = views(chain@);
        let ghost here = current@;
        chain.push(current);
        assert(views(chain@) =~= before.push(here));
        assert(spec_ancestor_chain(here) == seq![here] + spec_ancestor_chain(next@));
        assert(views(chain@) + spec_ancestor_chain(next@) =~= before + spec_ancestor_chain(here));
        current = next;
    }
    let ghost before = views(chain@);
    let ghost here = current@;
    chain.push(current);
    assert(views(chain@) =~= before.push(here));
    assert(spec_ancestor_chain(here) == seq![here]);
    assert(views(chain@) =~= before + spec_ancestor_chain(here));
    chain
}

/// The directories to create for a parent, shallowest first, from its
/// ancestor chain and the existence of its entries looked up from the
/// deepest up, the lookups stopping at the first existing one: the entries
/// before that one, in reverse order.
pub fn missing_parent_dirs(chain: &Vec<Vec<u8>>, exists: &[bool]) -> (missing: Vec<Vec<u8>>)
    requires
        exists@.len() <= chain@.len(),
    ensures
        missing@.len() <= exists@.len(),
        forall|j: int| 0 <= j < missing@.len() ==> !exists@[j],
        missing@.len() < exists@.len() ==> exists@[missing@.len() as int],
        views(missing@) == views(chain@).take(missing@.len() as int).reverse(),
{
    let mut k: usize = 0;
    while k < exists.len() && !exists[k]
        invariant
            k <= exists@.len(),
            forall|j: int| 0 <= j < k ==> !exists@[j],
        decreases exists@.len() - k,
    {
        k = k + 1;
    }
    let mut missing: Vec<Vec<u8>> = Vec::new();
    let mut i: usize = k;
    let ghost all = views(chain@);
    assert(views(missing@) =~= all.take(k as int).skip(i as int).reverse());
    while i > 0
        invariant
            i <= k,
            k <= exists@.len(),
            exists@.len() <= chain@.len(),
            all == views(chain@),
            views(missing@) == all.take(k as int).skip(i as int).reverse(),
        decreases i,
    {
        let ghost before = views(missing@);
        missing.push(copy_bytes(chain[i - 1].as_slice()));
        assert(views(missing@) =~= before.push(all[i - 1]));
        assert(all.take(k as int).skip(i - 1).reverse() =~= all.take(k as int).skip(i as int).reverse().push(
            all[i - 1],
        ));
        i = i - 1;
    }
    assert(all.take(k as int).skip(0) =~= all.take(k as int));
    missing
}

/// What a commit that keeps its writer decides from the outcomes of its
/// steps: the durability reached, or the error with whether the writer comes
/// back (exactly when installation had not begun).
pub open spec fn spec_commit(
    writer: LocalAtomicWriterView,
    prepared: Result<(), LocalAtomicWriteErrorView>,
    synced: Option<Result<(), LocalIoErrorView>>,
    verified: Option<Result<(), LocalAtomicWriteErrorView>>,
    installed: Option<LocalAtomicInstallOutcomeView>,
    parents_synced: Option<Result<(), LocalIoErrorView>>,
) -> Result<bool, (LocalAtomicWriteErrorView, bool)> {
    match prepared {
        Err(e) => Err((e, true)),
        Ok(()) => match spec_sync_staging(writer.durability, synced, writer.path, writer.temporary_path) {
            Err(e) => Err((e, true)),
            Ok(file_durable) => match verified {
                Some(Err(e)) => Err((e, true)),
                _ => match installed {
                    None => Ok(file_durable),
                    Some(i) => match spec_install_and_sync(
                        i,
                        writer.durability,
                        parents_synced,
                        writer.path,
                        writer.temporary_path,
                    ) {
                        Ok(parent_durable) => Ok(file_durable && parent_durable),
                        Err(e) => Err((e, false)),
                    },
                },
            },
        },
    }
}

/// What synchronizing a staging file means for a commit: nothing is
/// durable when durability is not requested; a preferred synchronization
/// counts when it succeeded; a required one that failed is an error that
/// leaves the destination unchanged.
pub open spec fn spec_sync_staging(
    durability: LocalDurabilityRequirement,
    synced: Option<Result<(), LocalIoErrorView>>,
    path: Seq<u8>,
    temporary_path: Seq<u8>,
) -> Result<bool, LocalAtomicWriteErrorView> {
    match durability {
        LocalDurabilityRequirement::NotRequired => Ok(false),
        LocalDurabilityRequirement::Preferred => Ok(synced matches Some(Ok(_))),
        LocalDurabilityRequirement::Required => match synced {
            Some(Err(e)) => Err(
                atomic_failure(
                    LocalAtomicWriteStage::SyncTemporaryFile,
                    path,
                    Some(temporary_path),
                    LocalAtomicDestinationState::Unchanged,
                    e,
                ),
            ),
            _ => Ok(true),
        },
    }
}

/// Decides the outcome of synchronizing a staging file (shared by the
/// path-based and the rooted writers).
pub(crate) fn sync_staging(
    durability: LocalDurabilityRequirement,
    synced: Option<Result<(), LocalIoError>>,
    path: &[u8],
    temporary_path: &[u8],
) -> (res: Result<bool, LocalAtomicWriteError>)
    ensures
        res_view(res) == spec_sync_staging(durability, opt_outcome_view(synced), path@, temporary_path@),
{
    match durability {
        LocalDurabilityRequirement::NotRequired => Ok(false),
        LocalDurabilityRequirement::Preferred => match synced {
            Some(Ok(())) => Ok(true),
            _ => Ok(false),
        },
        LocalDurabilityRequirement::Required => match synced {
            Some(Err(e)) => Err(
                LocalAtomicWriteError::new(
                    LocalAtomicWriteStage::SyncTemporaryFile,
                    copy_bytes(path),
                    Some(copy_bytes(temporary_path)),
                    LocalAtomicDestinationState::Unchanged,
                    e,
                ),
            ),
            _ => Ok(true),
        },
    }
}

/// What installing a staging file at its destination established, after
/// the recovery of a failed installation.
#[derive(Debug)]
pub enum LocalAtomicInstallOutcome {
    /// The staging file was installed at the destination.
    Installed,
    /// The installation reported a failure that its recovery completed:
    /// the destination holds the new contents.
    Recovered,
    /// The installation failed, with its classified error.
    Failed(LocalAtomicWriteError),
}

/// An installation outcome as plain values.
pub enum LocalAtomicInstallOutcomeView {
    Installed,
    Recovered,
    Failed(LocalAtomicWriteErrorView),
}

/// The plain value of an installation outcome.
pub open spec fn installed_view(outcome: LocalAtomicInstallOutcome) -> LocalAtomicInstallOutcomeView {
    match outcome {
        LocalAtomicInstallOutcome::Installed => LocalAtomicInstallOutcomeView::Installed,
        LocalAtomicInstallOutcome::Recovered => LocalAtomicInstallOutcomeView::Recovered,
        LocalAtomicInstallOutcome::Failed(e) => LocalAtomicInstallOutcomeView::Failed(e@),
    }
}

/// The plain value of an optional native step outcome.
pub open spec fn opt_outcome_view(outcome: Option<Result<(), LocalIoError>>) -> Option<Result<(), LocalIoErrorView>> {
    match outcome {
        Some(Ok(())) => Some(Ok(())),
        Some(Err(e)) => Some(Err(e@)),
        None => None,
    }
}

/// The plain value of a decision that reports durability.
pub open spec fn res_view(res: Result<bool, LocalAtomicWriteError>) -> Result<bool, LocalAtomicWriteErrorView> {
    match res {
        Ok(b) => Ok(b),
        Err(e) => Err(e@),
    }
}

/// What installing and synchronizing the parents means for a commit: a
/// failed installation is its error; a recovered one is not durable; after
/// an installation the parents count only when durability is requested,
/// and a required synchronization that failed is reported with the
/// destination replaced.
pub open spec fn spec_install_and_sync(
    installed: LocalAtomicInstallOutcomeView,
    durability: LocalDurabilityRequirement,
    parents_synced: Option<Result<(), LocalIoErrorView>>,
    path: Seq<u8>,
    temporary_path: Seq<u8>,
) -> Result<bool, LocalAtomicWriteErrorView> {
    match installed {
        LocalAtomicInstallOutcomeView::Failed(e) => Err(e),
        LocalAtomicInstallOutcomeView::Recovered => Ok(false),
        LocalAtomicInstallOutcomeView::Installed => match durability {
            LocalDurabilityRequirement::NotRequired => Ok(false),
            LocalDurabilityRequirement::Preferred => Ok(parents_synced matches Some(Ok(_))),
            LocalDurabilityRequirement::Required => match parents_synced {
                Some(Err(e)) => Err(
                    atomic_failure(
                        LocalAtomicWriteStage::SyncParent,
                        path,
                        Some(temporary_path),
                        LocalAtomicDestinationState::Replaced,
                        e,
                    ),
                ),
                _ => Ok(true),
            },
        },
    }
}

/// Decides the outcome of installing a staging file and synchronizing the
/// parent chain (shared by the path-based and the rooted writers).
pub(crate) fn install_and_sync(
    installed: LocalAtomicInstallOutcome,
    durability: LocalDurabilityRequirement,
    parents_synced: Option<Result<(), LocalIoError>>,
    path: &[u8],
    temporary_path: &[u8],
) -> (res: Result<bool, LocalAtomicWriteError>)
    ensures
        res_view(res) == spec_install_and_sync(
            installed_view(installed),
            durability,
            opt_outcome_view(parents_synced),
            path@,
            temporary_path@,
        ),
{
    match installed {
        LocalAtomicInstallOutcome::Failed(e) => Err(e),
        LocalAtomicInstallOutcome::Recovered => Ok(false),
        LocalAtomicInstallOutcome::Installed => match durability {
            LocalDurabilityRequirement::NotRequired => Ok(false),
            LocalDurabilityRequirement::Preferred => match parents_synced {
                Some(Ok(())) => Ok(true),
                _ => Ok(false),
            },
            LocalDurabilityRequirement::Required => match parents_synced {
                Some(Err(e)) => Err(
                    LocalAtomicWriteError::new(
                        LocalAtomicWriteStage::SyncParent,
                        copy_bytes(path),
                        Some(copy_bytes(temporary_path)),
                        LocalAtomicDestinationState::Replaced,
                        e,
                    ),
                ),
                _ => Ok(true),
            },
        },
    }
}

/// A same-directory atomic replacement in progress: the requested
/// destination, its absolute form, the new parent directories to
/// synchronize, what was found at the destination, the requested
/// durability, and the staging path.
#[derive(Debug)]
pub struct LocalAtomicWriter {
    path: Vec<u8>,
    operation_path: Vec<u8>,
    parent_dirs_to_sync: Vec<Vec<u8>>,
    destination_existed: bool,
    preserve_destination_metadata: bool,
    durability: LocalDurabilityRequirement,
    open_retry_timeout: Option<Duration>,
    temporary_path: Vec<u8>,
}

/// An atomic writer as plain values.
pub struct LocalAtomicWriterView {
    pub path: Seq<u8>,
    pub operation_path: Seq<u8>,
    pub parent_dirs_to_sync: Seq<Seq<u8>>,
    pub destination_existed: bool,
    pub preserve_destination_metadata: bool,
    pub durability: LocalDurabilityRequirement,
    pub open_retry_timeout: Option<Duration>,
    pub temporary_path: Seq<u8>,
}

impl View for LocalAtomicWriter {
    type V = LocalAtomicWriterView;

    closed spec fn view(&self) -> LocalAtomicWriterView {
        LocalAtomicWriterView {
            path: self.path@,
            operation_path: self.operation_path@,
            parent_dirs_to_sync: views(self.parent_dirs_to_sync@),
            destination_existed: self.destination_existed,
            preserve_destination_metadata: self.preserve_destination_metadata,
            durability: self.durability,
            open_retry_timeout: self.open_retry_timeout,
            temporary_path: self.temporary_path@,
        }
    }
}

impl LocalAtomicWriter {
    /// Creates a writer from what its preparation established: the
    /// absolute destination, the new parents, the inspection of the
    /// destination, the options, and the staging path.
    pub fn new(
        path: &[u8],
        operation_path: Vec<u8>,
        parent_dirs_to_sync: Vec<Vec<u8>>,
        inspection: (bool, bool),
        options: &LocalAtomicWriteOptions,
        temporary_path: Vec<u8>,
    ) -> (writer: Self)
        requires
            inspection.1 ==> inspection.0,
        ensures
            writer@ == (LocalAtomicWriterView {
                path: path@,
                operation_path: operation_path@,
                parent_dirs_to_sync: views(parent_dirs_to_sync@),
                destination_existed: inspection.0,
                preserve_destination_metadata: inspection.1,
                durability: options@.durability,
                open_retry_timeout: options@.open_retry_timeout,
                temporary_path: temporary_path@,
            }),
    {
        LocalAtomicWriter {
            path: copy_bytes(path),
            operation_path,
            parent_dirs_to_sync,
            destination_existed: inspection.0,
            preserve_destination_metadata: inspection.1,
            durability: options.durability(),
            open_retry_timeout: options.open_retry_timeout(),
            temporary_path,
        }
    }

    /// Returns the requested destination.
    pub fn path(&self) -> (path: &[u8])
        ensures
            path@ == self@.path,
    {
        self.path.as_slice()
    }

    /// Returns the absolute destination used by native operations.
    pub fn operation_path(&self) -> (path: &[u8])
        ensures
            path@ == self@.operation_path,
    {
        self.operation_path.as_slice()
    }

    /// Returns the staging path.
    pub fn temporary_path(&self) -> (path: &[u8])
        ensures
            path@ == self@.temporary_path,
    {
        self.temporary_path.as_slice()
    }

    /// Returns whether a destination existed when the write began.
    pub fn destination_existed(&self) -> (res: bool)
        ensures
            res == self@.destination_existed,
    {
        self.destination_existed
    }

    /// Returns the retry limit of opening the destination at commit.
    pub fn open_retry_timeout(&self) -> (timeout: Option<Duration>)
        ensures
            timeout == self@.open_retry_timeout,
    {
        self.open_retry_timeout
    }

    /// Returns whether commit opens the existing destination to preserve its
    /// metadata.
    pub fn preserves_destination_metadata(&self) -> (res: bool)
        ensures
            res == self@.preserve_destination_metadata,
    {
        self.preserve_destination_metadata
    }

    /// Returns whether the staging file is to be synchronized before
    /// installation.
    pub fn syncs_temporary_file(&self) -> (res: bool)
        ensures
            res == (self@.durability != LocalDurabilityRequirement::NotRequired),
    {
        self.durability != LocalDurabilityRequirement::NotRequired
    }

    /// Returns the directories to synchronize after installation, in order:
    /// the parent of the destination, which records the new entry, then the
    /// parent of each new parent directory, from the deepest up, which
    /// records that directory's creation.
    pub fn parent_sync_order(&self) -> (order: Vec<Vec<u8>>)
        ensures
            views(order@) == seq![spec_parent_of(self@.operation_path)] + self@.parent_dirs_to_sync.reverse().map_values(
                |d: Seq<u8>| spec_parent_of(d),
            ),
    {
        let mut order: Vec<Vec<u8>> = Vec::new();
        order.push(parent_dir_for(self.operation_path.as_slice()));
        let mut i: usize = self.parent_dirs_to_sync.len();
        let ghost dirs = views(self.parent_dirs_to_sync@);
        let ghost f = |d: Seq<u8>| spec_parent_of(d);
        assert(views(order@) =~= seq![spec_parent_of(self@.operation_path)] + dirs.skip(i as int).reverse().map_values(f));
        while i > 0
            invariant
                i <= self.parent_dirs_to_sync@.len(),
                dirs == views(self.parent_dirs_to_sync@),
                f == (|d: Seq<u8>| spec_parent_of(d)),
                views(order@) == seq![spec_parent_of(self@.operation_path)] + dirs.skip(i as int).reverse().map_values(f),
            decreases i,
        {
            let ghost before = views(order@);
            order.push(parent_dir_for(self.parent_dirs_to_sync[i - 1].as_slice()));
            assert(views(order@) =~= before.push(spec_parent_of(dirs[i - 1])));
            assert(dirs.skip(i - 1).reverse() =~= dirs.skip(i as int).reverse().push(dirs[i - 1]));
            assert(dirs.skip(i - 1).reverse().map_values(f) =~= dirs.skip(i as int).reverse().map_values(f).push(
                spec_parent_of(dirs[i - 1]),
            ));
            i = i - 1;
        }
        assert(dirs.skip(0) =~= dirs);
        order
    }

    /// Decides the outcome of opening the existing destination at commit:
    /// when metadata is not preserved nothing is opened; a failure is a
    /// metadata failure that leaves the destination unchanged; a destination
    /// that disappeared is reported missing.
    pub fn open_destination_for_commit<D>(&self, opened: Option<Result<Option<D>, LocalIoError>>) -> (res: Result<
        Option<D>,
        LocalAtomicWriteError,
    >)
        requires
            self@.preserve_destination_metadata == (opened is Some),
        ensures
            match opened {
                None => res == Ok::<Option<D>, LocalAtomicWriteError>(None),
                Some(Err(e)) => (res matches Err(r) && r@ == atomic_failure(
                    LocalAtomicWriteStage::ReadDestinationMetadata,
                    self@.path,
                    Some(self@.temporary_path),
                    LocalAtomicDestinationState::Unchanged,
                    e@,
                )),
                Some(Ok(None)) => (res matches Err(r) && r@ == atomic_failure(
                    LocalAtomicWriteStage::ReadDestinationMetadata,
                    self@.path,
                    Some(self@.temporary_path),
                    LocalAtomicDestinationState::Missing,
                    LocalIoErrorView {
                        kind: LocalIoErrorKind::NotFound,
                        message: "atomic write destination disappeared"@,
                    },
                )),
                Some(Ok(Some(d))) => res == Ok::<Option<D>, LocalAtomicWriteError>(Some(d)),
            },
    {
        match opened {
            None => Ok(None),
            Some(Err(e)) => Err(
                LocalAtomicWriteError::new(
                    LocalAtomicWriteStage::ReadDestinationMetadata,
                    copy_bytes(self.path.as_slice()),
                    Some(copy_bytes(self.temporary_path.as_slice())),
                    LocalAtomicDestinationState::Unchanged,
                    e,
                ),
            ),
            Some(Ok(None)) => Err(
                LocalAtomicWriteError::new(
                    LocalAtomicWriteStage::ReadDestinationMetadata,
                    copy_bytes(self.path.as_slice()),
                    Some(copy_bytes(self.temporary_path.as_slice())),
                    LocalAtomicDestinationState::Missing,
                    LocalIoError::new(LocalIoErrorKind::NotFound, "atomic write destination disappeared"),
                ),
            ),
            Some(Ok(Some(d))) => Ok(Some(d)),
        }
    }

    /// Decides, on a target without descriptor identities, whether a
    /// destination that existed when the write began is still present just
    /// before installation, from a lookup of it that does not follow a final
    /// link (made exactly when the destination existed). When metadata is
    /// preserved the entry is classified as at inspection; a failed lookup
    /// is a replacement failure that leaves the destination unchanged, and a
    /// destination that is gone is reported missing.
    pub fn verify_non_unix_destination_for_commit(&self, lookup: Option<Result<LocalFileKind, LocalIoError>>) -> (res:
        Result<(), LocalAtomicWriteError>)
        requires
            self@.destination_existed == (lookup is Some),
        ensures
            unit_view(res) == spec_verify_present_destination(
                self@,
                match lookup {
                    Some(l) => Some(lookup_view(l)),
                    None => None,
                },
            ),
    {
        let lookup = match lookup {
            None => {
                return Ok(());
            },
            Some(l) => l,
        };
        let exists = if self.preserve_destination_metadata {
            match existing_file_metadata(lookup, false, self.operation_path.as_slice()) {
                Ok(found) => Ok(found.0),
                Err(e) => Err(e),
            }
        } else {
            match lookup {
                Ok(_) => Ok(true),
                Err(e) => Err(e),
            }
        };
        let exists = with_atomic_context(
            exists,
            LocalAtomicWriteStage::ReplaceDestination,
            self.path.as_slice(),
            Some(copy_bytes(self.temporary_path.as_slice())),
            LocalAtomicDestinationState::Unchanged,
        );
        match exists {
            Err(e) => Err(e),
            Ok(true) => Ok(()),
            Ok(false) => Err(
                LocalAtomicWriteError::new(
                    LocalAtomicWriteStage::ReplaceDestination,
                    copy_bytes(self.path.as_slice()),
                    Some(copy_bytes(self.temporary_path.as_slice())),
                    LocalAtomicDestinationState::Missing,
                    LocalIoError::new(LocalIoErrorKind::NotFound, "atomic write destination disappeared"),
                ),
            ),
        }
    }

    /// Decides the outcome of copying the destination's metadata to the
    /// staging file; a failure leaves the destination unchanged.
    pub fn preserve_destination_metadata(&self, applied: Result<(), LocalIoError>) -> (res: Result<
        (),
        LocalAtomicWriteError,
    >)
        ensures
            match applied {
                Ok(()) => res is Ok,
                Err(e) => (res matches Err(r) && r@ == atomic_failure(
                    LocalAtomicWriteStage::ApplyDestinationMetadata,
                    self@.path,
                    Some(self@.temporary_path),
                    LocalAtomicDestinationState::Unchanged,
                    e@,
                )),
            },
    {
        with_atomic_context(
            applied,
            LocalAtomicWriteStage::ApplyDestinationMetadata,
            self.path.as_slice(),
            Some(copy_bytes(self.temporary_path.as_slice())),
            LocalAtomicDestinationState::Unchanged,
        )
    }

    /// Rejects preserving metadata on a target without strict metadata
    /// support: a destination whose metadata must be kept cannot be
    /// replaced there.
    pub fn reject_unsupported_metadata_preservation(&self) -> (res: Result<(), LocalAtomicWriteError>)
        ensures
            !self@.preserve_destination_metadata ==> res is Ok,
            self@.preserve_destination_metadata ==> (res matches Err(r) && r@ == atomic_failure(
                LocalAtomicWriteStage::ApplyDestinationMetadata,
                self@.path,
                Some(self@.temporary_path),
                LocalAtomicDestinationState::Unchanged,
                LocalIoErrorView {
                    kind: LocalIoErrorKind::Unsupported,
                    message: "strict atomic metadata preservation is unsupported on this target"@,
                },
            )),
    {
        if !self.preserve_destination_metadata {
            return Ok(());
        }
        with_atomic_context(
            Err(
                LocalIoError::new(
                    LocalIoErrorKind::Unsupported,
                    "strict atomic metadata preservation is unsupported on this target",
                ),
            ),
            LocalAtomicWriteStage::ApplyDestinationMetadata,
            self.path.as_slice(),
            Some(copy_bytes(self.temporary_path.as_slice())),
            LocalAtomicDestinationState::Unchanged,
        )
    }

    /// Decides the outcome of synchronizing the staging file, which is
    /// attempted exactly when durability is not `NotRequired`: the result
    /// says whether the staged data is durable; only a required
    /// synchronization that failed is an error, which leaves the destination
    /// unchanged.
    pub fn sync_temporary_file(&self, synced: Option<Result<(), LocalIoError>>) -> (res: Result<
        bool,
        LocalAtomicWriteError,
    >)
        requires
            (self@.durability == LocalDurabilityRequirement::NotRequired) == (synced is None),
        ensures
            res_view(res) == spec_sync_staging(
                self@.durability,
                opt_outcome_view(synced),
                self@.path,
                self@.temporary_path,
            ),
    {
        sync_staging(self.durability, synced, self.path.as_slice(), self.temporary_path.as_slice())
    }

    /// Decides the outcome of installing the staging file and synchronizing
    /// the parent chain. An installation failure (already classified by its
    /// recovery) is passed on, and an installation that its recovery
    /// completed is not durable. After a plain installation the parents are
    /// synchronized exactly when durability is not `NotRequired`: the result
    /// says whether they are durable, and only a required synchronization
    /// that failed is an error, reported with the destination replaced.
    pub fn install_and_sync_parent(
        &self,
        installed: LocalAtomicInstallOutcome,
        parents_synced: Option<Result<(), LocalIoError>>,
    ) -> (res: Result<bool, LocalAtomicWriteError>)
        requires
            (installed is Installed && self@.durability != LocalDurabilityRequirement::NotRequired) == (
            parents_synced is Some),
        ensures
            res_view(res) == spec_install_and_sync(
                installed_view(installed),
                self@.durability,
                opt_outcome_view(parents_synced),
                self@.path,
                self@.temporary_path,
            ),
    {
        install_and_sync(
            installed,
            self.durability,
            parents_synced,
            self.path.as_slice(),
            self.temporary_path.as_slice(),
        )
    }

    /// Combines the durability of the staged data and of the parents: a
    /// commit is durable only when both are.
    pub fn commit_attempt(file_durable: bool, parent_durable: bool) -> (durable: bool)
        ensures
            durable == (file_durable && parent_durable),
    {
        file_durable && parent_durable
    }

    /// Decides a commit that keeps the writer when it can be retried, from
    /// the outcomes of its steps in order: preparing the destination
    /// (opening it and copying its metadata), synchronizing the staging file
    /// (when durability is requested), verifying the destination just before
    /// installation, and installing with the parent synchronization. A
    /// success gives the durability reached; a failure before installation
    /// returns the writer with the error, so it can be retried or aborted; a
    /// failure once installation began is terminal and returns no writer.
    pub fn commit_recoverable_with_durability(
        self,
        prepared: Result<(), LocalAtomicWriteError>,
        synced: Option<Result<(), LocalIoError>>,
        verified: Option<Result<(), LocalAtomicWriteError>>,
        installed: Option<LocalAtomicInstallOutcome>,
        parents_synced: Option<Result<(), LocalIoError>>,
    ) -> (res: Result<bool, (LocalAtomicWriteError, Option<Self>)>)
        requires
            (prepared is Ok && self@.durability != LocalDurabilityRequirement::NotRequired) == (synced is Some),
            (verified is Some) == (prepared is Ok && spec_sync_staging(
                self@.durability,
                opt_outcome_view(synced),
                self@.path,
                self@.temporary_path,
            ) is Ok),
            (installed is Some) == (verified matches Some(Ok(_))),
            (installed matches Some(LocalAtomicInstallOutcome::Installed) && self@.durability
                != LocalDurabilityRequirement::NotRequired) == (parents_synced is Some),
        ensures
            match spec_commit(
                self@,
                unit_view(prepared),
                opt_outcome_view(synced),
                match verified {
                    Some(v) => Some(unit_view(v)),
                    None => None,
                },
                match installed {
                    Some(i) => Some(installed_view(i)),
                    None => None,
                },
                opt_outcome_view(parents_synced),
            ) {
                Ok(durable) => res matches Ok(d) && d == durable,
                Err((error, kept)) => (res matches Err(failure) && failure.0@ == error && (if kept {
                    failure.1 matches Some(w) && w@ == self@
                } else {
                    failure.1 is None
                })),
            },
            res matches Ok(durable) && durable ==> self@.durability != LocalDurabilityRequirement::NotRequired,
            res matches Err(failure) && failure.1 is Some ==> installed is None,
    {
        match prepared {
            Err(error) => {
                return Err((error, Some(self)));
            },
            Ok(()) => {},
        }
        let file_durable = match self.sync_temporary_file(synced) {
            Err(error) => {
                return Err((error, Some(self)));
            },
            Ok(d) => d,
        };
        match verified {
            Some(Err(error)) => {
                return Err((error, Some(self)));
            },
            _ => {},
        }
        let installed = match installed {
            Some(i) => i,
            None => {
                return Ok(file_durable);
            },
        };
        match self.install_and_sync_parent(installed, parents_synced) {
            Ok(parent_durable) => Ok(LocalAtomicWriter::commit_attempt(file_durable, parent_durable)),
            Err(error) => Err((error, None)),
        }
    }

    /// Decides the outcome of aborting: the staging file was removed, or
    /// its removal failed and the destination is unchanged.
    pub fn abort(&self, cleanup: Result<(), LocalIoError>) -> (res: Result<(), LocalAtomicWriteError>)
        ensures
            match cleanup {
                Ok(()) => res is Ok,
                Err(e) => (res matches Err(r) && r@ == atomic_failure(
                    LocalAtomicWriteStage::CleanupTemporaryFile,
                    self@.path,
                    Some(self@.temporary_path),
                    LocalAtomicDestinationState::Unchanged,
                    e@,
                )),
            },
    {
        with_atomic_context(
            cleanup,
            LocalAtomicWriteStage::CleanupTemporaryFile,
            self.path.as_slice(),
            Some(copy_bytes(self.temporary_path.as_slice())),
            LocalAtomicDestinationState::Unchanged,
        )
    }

    /// Decides the outcome of the caller's writing into the staging file: a
    /// failure removes the staging file and is reported as a write failure
    /// with the outcome of that removal.
    pub fn write_with(&self, written: Result<(), LocalIoError>, cleanup: Option<Result<(), LocalIoError>>) -> (res:
        Result<(), LocalAtomicWriteError>)
        requires
            (written is Err) == (cleanup is Some),
        ensures
            match written {
                Ok(()) => res is Ok,
                Err(e) => (res matches Err(r) && r@ == (LocalAtomicWriteErrorView {
                    cleanup_error: match cleanup {
                        Some(Err(c)) => Some(c@),
                        _ => None,
                    },
                    ..atomic_failure(
                        LocalAtomicWriteStage::WriteTemporaryFile,
                        self@.path,
                        Some(self@.temporary_path),
                        LocalAtomicDestinationState::Unchanged,
                        e@,
                    )
                })),
            },
    {
        match written {
            Ok(()) => Ok(()),
            Err(source) => {
                let removed = match cleanup {
                    Some(c) => c,
                    None => Ok(()),
                };
                Err(
                    atomic_error_with_staging(
                        LocalAtomicWriteStage::WriteTemporaryFile,
                        self.path.as_slice(),
                        source,
                        self.temporary_path.as_slice(),
                        removed,
                    ),
                )
            },
        }
    }

    /// Finishes a failed commit that consumes the writer: when the
    /// destination is unchanged the staging file is removed and the outcome
    /// of that removal attached; otherwise the staging file is kept for
    /// recovery.
    pub fn finalize_failed_commit(error: LocalAtomicWriteError, cleanup: Option<Result<(), LocalIoError>>) -> (res:
        LocalAtomicWriteError)
        requires
            (error@.destination_state == LocalAtomicDestinationState::Unchanged) == (cleanup is Some),
        ensures
            match cleanup {
                Some(c) => res@ == (LocalAtomicWriteErrorView {
                    cleanup_error: match c {
                        Ok(()) => None,
                        Err(e) => Some(e@),
                    },
                    ..error@
                }),
                None => res@ == error@,
            },
    {
        match cleanup {
            Some(Ok(())) => error.with_cleanup_error(None),
            Some(Err(e)) => error.with_cleanup_error(Some(e)),
            None => error,
        }
    }
}

/// When each synchronization is attempted exactly when durability is
/// requested, a commit reports its staged data durable only when the
/// staging file was synchronized successfully, and its parents durable only
/// after a plain
/// installation whose parent chain was synchronized successfully; a
/// preferred durability never turns a failed synchronization into an
/// error, and no durability is reported when none is requested.
pub proof fn lemma_durability_is_reported_only_when_synchronized(
    durability: LocalDurabilityRequirement,
    synced: Option<Result<(), LocalIoErrorView>>,
    installed: LocalAtomicInstallOutcomeView,
    parents_synced: Option<Result<(), LocalIoErrorView>>,
    path: Seq<u8>,
    temporary_path: Seq<u8>,
)
    requires
        (durability != LocalDurabilityRequirement::NotRequired) == (synced is Some),
        (installed is Installed && durability != LocalDurabilityRequirement::NotRequired) == (parents_synced is Some),
    ensures
        spec_sync_staging(durability, synced, path, temporary_path) == Ok::<bool, LocalAtomicWriteErrorView>(true)
            ==> synced == Some(Ok::<(), LocalIoErrorView>(())),
        spec_install_and_sync(installed, durability, parents_synced, path, temporary_path) == Ok::<
            bool,
            LocalAtomicWriteErrorView,
        >(true) ==> installed is Installed && parents_synced == Some(Ok::<(), LocalIoErrorView>(())),
        durability == LocalDurabilityRequirement::Preferred ==> spec_sync_staging(
            durability,
            synced,
            path,
            temporary_path,
        ) is Ok,
        durability == LocalDurabilityRequirement::Preferred && !(installed is Failed) ==> spec_install_and_sync(
            installed,
            durability,
            parents_synced,
            path,
            temporary_path,
        ) is Ok,
        durability == LocalDurabilityRequirement::NotRequired ==> spec_sync_staging(
            durability,
            synced,
            path,
            temporary_path,
        ) == Ok::<bool, LocalAtomicWriteErrorView>(false),
{
    match synced {
        Some(Ok(u)) => {
            assert(u == ());
        },
        Some(Err(_)) => {},
        None => {},
    }
    match parents_synced {
        Some(Ok(u)) => {
            assert(u == ());
        },
        Some(Err(_)) => {},
        None => {},
    }
}

} // verus!
