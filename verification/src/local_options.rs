//! Policies and option values of atomic writes, persistence, and recursive
//! copies.
use vstd::prelude::*;

use core::time::Duration;

verus! {

/// How symbolic links met during path resolution are treated.
#[derive(Clone, Copy, Debug, PartialEq, Eq, Structural)]
pub enum LocalSymlinkPolicy {
    /// Symbolic links are not followed.
    Reject,
    /// Symbolic links are followed while they stay within the namespace.
    FollowWithinScope,
    /// Symbolic links are followed anywhere on the host.
    FollowAcrossScope,
}

/// Whether an operation must synchronize what it publishes.
#[derive(Clone, Copy, Debug, PartialEq, Eq, Structural)]
pub enum LocalDurabilityRequirement {
    /// Synchronization is not attempted.
    NotRequired,
    /// Synchronization is attempted; its failure is reported as a missing
    /// guarantee, not as an error.
    Preferred,
    /// Synchronization is required; the operation fails without it.
    Required,
}

/// How an atomic write publishes its staged file.
#[derive(Clone, Copy, Debug, PartialEq, Eq, Structural)]
pub enum LocalAtomicPublicationMode {
    /// Replace an existing destination or create a missing one.
    ReplaceOrCreate,
    /// Create the destination only when it does not exist yet.
    CreateNew,
}

/// Policy for existing destination file entries during a recursive copy.
#[derive(Clone, Copy, Debug, PartialEq, Eq, Structural)]
pub enum LocalCopyConflictPolicy {
    /// Fail on an existing destination entry.
    Fail,
    /// Replace an existing destination entry.
    Overwrite,
    /// Leave an existing destination entry and count it as skipped.
    Skip,
}

impl Default for LocalCopyConflictPolicy {
    /// The conservative policy: fail.
    fn default() -> (policy: Self)
        ensures
            policy == LocalCopyConflictPolicy::Fail,
    {
        LocalCopyConflictPolicy::Fail
    }
}

/// Policy for source and destination entries of different types during a
/// recursive copy.
#[derive(Clone, Copy, Debug, PartialEq, Eq, Structural)]
pub enum LocalCopyTypeConflictPolicy {
    /// Fail on a type mismatch.
    Fail,
    /// Replace the destination entry.
    Replace,
    /// Leave the destination entry and count the source as skipped.
    Skip,
}

impl Default for LocalCopyTypeConflictPolicy {
    /// The conservative policy: fail.
    fn default() -> (policy: Self)
        ensures
            policy == LocalCopyTypeConflictPolicy::Fail,
    {
        LocalCopyTypeConflictPolicy::Fail
    }
}

// ---------------------------------------------------------------------------
// Atomic writes
// ---------------------------------------------------------------------------

/// Options of an atomic write.
#[derive(Clone, Copy, Debug, PartialEq, Eq)]
pub struct LocalAtomicWriteOptions {
    create_parent: bool,
    open_retry_timeout: Option<Duration>,
    replace_target_symlink: bool,
    publication_mode: LocalAtomicPublicationMode,
    durability: LocalDurabilityRequirement,
}

/// Atomic-write options as plain values.
pub struct LocalAtomicWriteOptionsView {
    pub create_parent: bool,
    pub open_retry_timeout: Option<Duration>,
    pub replace_target_symlink: bool,
    pub publication_mode: LocalAtomicPublicationMode,
    pub durability: LocalDurabilityRequirement,
}

impl View for LocalAtomicWriteOptions {
    type V = LocalAtomicWriteOptionsView;

    closed spec fn view(&self) -> LocalAtomicWriteOptionsView {
        LocalAtomicWriteOptionsView {
            create_parent: self.create_parent,
            open_retry_timeout: self.open_retry_timeout,
            replace_target_symlink: self.replace_target_symlink,
            publication_mode: self.publication_mode,
            durability: self.durability,
        }
    }
}

/// The conservative atomic-write options: no parent creation, unbounded
/// open retries, no symbolic-link replacement, replace-or-create
/// publication, and required durability.
pub open spec fn default_atomic_write_options() -> LocalAtomicWriteOptionsView {
    LocalAtomicWriteOptionsView {
        create_parent: false,
        open_retry_timeout: None,
        replace_target_symlink: false,
        publication_mode: LocalAtomicPublicationMode::ReplaceOrCreate,
        durability: LocalDurabilityRequirement::Required,
    }
}

impl LocalAtomicWriteOptions {
    /// Returns the conservative atomic-write options.
    pub fn new() -> (options: Self)
        ensures
            options@ == default_atomic_write_options(),
    {
        LocalAtomicWriteOptions {
            create_parent: false,
            open_retry_timeout: None,
            replace_target_symlink: false,
            publication_mode: LocalAtomicPublicationMode::ReplaceOrCreate,
            durability: LocalDurabilityRequirement::Required,
        }
    }

    /// Returns whether missing parent directories are created.
    pub fn creates_parent(&self) -> (res: bool)
        ensures
            res == self@.create_parent,
    {
        self.create_parent
    }

    /// Enables creation of missing parent directories.
    pub fn with_create_parent(self) -> (options: Self)
        ensures
            options@ == (LocalAtomicWriteOptionsView { create_parent: true, ..self@ }),
    {
        LocalAtomicWriteOptions { create_parent: true, ..self }
    }

    /// Returns the nonblocking-open retry timeout; `None` retries without
    /// bound.
    pub fn open_retry_timeout(&self) -> (timeout: Option<Duration>)
        ensures
            timeout == self@.open_retry_timeout,
    {
        self.open_retry_timeout
    }

    /// Sets the nonblocking-open retry timeout.
    pub fn with_open_retry_timeout(self, timeout: Duration) -> (options: Self)
        ensures
            options@ == (LocalAtomicWriteOptionsView { open_retry_timeout: Some(timeout), ..self@ }),
    {
        LocalAtomicWriteOptions { open_retry_timeout: Some(timeout), ..self }
    }

    /// Returns the requested durability.
    pub fn durability(&self) -> (durability: LocalDurabilityRequirement)
        ensures
            durability == self@.durability,
    {
        self.durability
    }

    /// Sets the requested durability.
    pub fn with_durability(self, durability: LocalDurabilityRequirement) -> (options: Self)
        ensures
            options@ == (LocalAtomicWriteOptionsView { durability, ..self@ }),
    {
        LocalAtomicWriteOptions { durability, ..self }
    }

    /// Publishes only when the destination does not exist yet.
    pub fn with_create_new(self) -> (options: Self)
        ensures
            options@ == (LocalAtomicWriteOptionsView {
                publication_mode: LocalAtomicPublicationMode::CreateNew,
                ..self@
            }),
    {
        LocalAtomicWriteOptions { publication_mode: LocalAtomicPublicationMode::CreateNew, ..self }
    }

    /// Returns whether a destination symbolic link is replaced rather than
    /// followed.
    pub fn replaces_target_symlink(&self) -> (res: bool)
        ensures
            res == self@.replace_target_symlink,
    {
        self.replace_target_symlink
    }

    /// Returns the publication mode.
    pub fn publication_mode(&self) -> (mode: LocalAtomicPublicationMode)
        ensures
            mode == self@.publication_mode,
    {
        self.publication_mode
    }
}

impl Default for LocalAtomicWriteOptions {
    /// The conservative atomic-write options.
    fn default() -> (options: Self)
        ensures
            options@ == default_atomic_write_options(),
    {
        Self::new()
    }
}

// ---------------------------------------------------------------------------
// Persistence
// ---------------------------------------------------------------------------

/// Options of persisting a temporary resource.
#[derive(Clone, Copy, Debug, PartialEq, Eq, Structural)]
pub struct LocalPersistOptions {
    overwrite: bool,
    create_parent: bool,
}

/// Persistence options as plain values.
pub struct LocalPersistOptionsView {
    pub overwrite: bool,
    pub create_parent: bool,
}

impl View for LocalPersistOptions {
    type V = LocalPersistOptionsView;

    closed spec fn view(&self) -> LocalPersistOptionsView {
        LocalPersistOptionsView { overwrite: self.overwrite, create_parent: self.create_parent }
    }
}

impl LocalPersistOptions {
    /// Returns options that neither overwrite nor create parents.
    pub fn new() -> (options: Self)
        ensures
            options@ == (LocalPersistOptionsView { overwrite: false, create_parent: false }),
    {
        LocalPersistOptions { overwrite: false, create_parent: false }
    }

    /// Returns whether an existing target is replaced.
    pub fn overwrites(&self) -> (res: bool)
        ensures
            res == self@.overwrite,
    {
        self.overwrite
    }

    /// Returns whether missing parent directories are created.
    pub fn creates_parent(&self) -> (res: bool)
        ensures
            res == self@.create_parent,
    {
        self.create_parent
    }

    /// Enables creation of missing parent directories.
    pub fn with_create_parent(self) -> (options: Self)
        ensures
            options@ == (LocalPersistOptionsView { create_parent: true, ..self@ }),
    {
        LocalPersistOptions { create_parent: true, ..self }
    }

    /// Enables replacement of an existing target.
    pub fn with_overwrite(self) -> (options: Self)
        ensures
            options@ == (LocalPersistOptionsView { overwrite: true, ..self@ }),
    {
        LocalPersistOptions { overwrite: true, ..self }
    }
}

impl Default for LocalPersistOptions {
    /// Options that neither overwrite nor create parents.
    fn default() -> (options: Self)
        ensures
            options@ == (LocalPersistOptionsView { overwrite: false, create_parent: false }),
    {
        Self::new()
    }
}

// ---------------------------------------------------------------------------
// Recursive copies
// ---------------------------------------------------------------------------

/// Options of a recursive directory copy.
#[derive(Clone, Copy, Debug, PartialEq, Eq)]
pub struct LocalCopyDirOptions {
    conflict: LocalCopyConflictPolicy,
    type_conflict: LocalCopyTypeConflictPolicy,
    symlink_policy: LocalSymlinkPolicy,
    preserve_permissions: bool,
    open_retry_timeout: Option<Duration>,
    durability: LocalDurabilityRequirement,
}

/// Recursive-copy options as plain values.
pub struct LocalCopyDirOptionsView {
    pub conflict: LocalCopyConflictPolicy,
    pub type_conflict: LocalCopyTypeConflictPolicy,
    pub symlink_policy: LocalSymlinkPolicy,
    pub preserve_permissions: bool,
    pub open_retry_timeout: Option<Duration>,
    pub durability: LocalDurabilityRequirement,
}

impl View for LocalCopyDirOptions {
    type V = LocalCopyDirOptionsView;

    closed spec fn view(&self) -> LocalCopyDirOptionsView {
        LocalCopyDirOptionsView {
            conflict: self.conflict,
            type_conflict: self.type_conflict,
            symlink_policy: self.symlink_policy,
            preserve_permissions: self.preserve_permissions,
            open_retry_timeout: self.open_retry_timeout,
            durability: self.durability,
        }
    }
}

/// The conservative copy options: fail on conflicts, do not follow
/// symbolic links, do not preserve permissions, retry opens without bound,
/// and do not require durability.
pub open spec fn default_copy_dir_options() -> LocalCopyDirOptionsView {
    LocalCopyDirOptionsView {
        conflict: LocalCopyConflictPolicy::Fail,
        type_conflict: LocalCopyTypeConflictPolicy::Fail,
        symlink_policy: LocalSymlinkPolicy::Reject,
        preserve_permissions: false,
        open_retry_timeout: None,
        durability: LocalDurabilityRequirement::NotRequired,
    }
}

impl LocalCopyDirOptions {
    /// Returns the conservative copy options.
    pub fn new() -> (options: Self)
        ensures
            options@ == default_copy_dir_options(),
    {
        LocalCopyDirOptions {
            conflict: LocalCopyConflictPolicy::Fail,
            type_conflict: LocalCopyTypeConflictPolicy::Fail,
            symlink_policy: LocalSymlinkPolicy::Reject,
            preserve_permissions: false,
            open_retry_timeout: None,
            durability: LocalDurabilityRequirement::NotRequired,
        }
    }

    /// Sets the synchronization policy for staged regular files.
    pub fn with_durability(self, durability: LocalDurabilityRequirement) -> (options: Self)
        ensures
            options@ == (LocalCopyDirOptionsView { durability, ..self@ }),
    {
        LocalCopyDirOptions { durability, ..self }
    }

    /// Returns the staged-file synchronization policy.
    pub fn durability(&self) -> (durability: LocalDurabilityRequirement)
        ensures
            durability == self@.durability,
    {
        self.durability
    }

    /// Returns the destination file conflict policy.
    pub fn conflict_policy(&self) -> (policy: LocalCopyConflictPolicy)
        ensures
            policy == self@.conflict,
    {
        self.conflict
    }

    /// Sets the destination file conflict policy.
    pub fn with_conflict(self, conflict: LocalCopyConflictPolicy) -> (options: Self)
        ensures
            options@ == (LocalCopyDirOptionsView { conflict, ..self@ }),
    {
        LocalCopyDirOptions { conflict, ..self }
    }

    /// Returns the entry type-conflict policy.
    pub fn type_conflict_policy(&self) -> (policy: LocalCopyTypeConflictPolicy)
        ensures
            policy == self@.type_conflict,
    {
        self.type_conflict
    }

    /// Sets the entry type-conflict policy.
    pub fn with_type_conflict(self, type_conflict: LocalCopyTypeConflictPolicy) -> (options: Self)
        ensures
            options@ == (LocalCopyDirOptionsView { type_conflict, ..self@ }),
    {
        LocalCopyDirOptions { type_conflict, ..self }
    }

    /// Returns the symbolic-link policy of the source traversal.
    pub fn symlink_policy(&self) -> (policy: LocalSymlinkPolicy)
        ensures
            policy == self@.symlink_policy,
    {
        self.symlink_policy
    }

    /// Sets the symbolic-link policy of the source traversal.
    pub fn with_symlink_policy(self, symlink_policy: LocalSymlinkPolicy) -> (options: Self)
        ensures
            options@ == (LocalCopyDirOptionsView { symlink_policy, ..self@ }),
    {
        LocalCopyDirOptions { symlink_policy, ..self }
    }

    /// Returns whether source permissions are preserved.
    pub fn preserves_permissions(&self) -> (res: bool)
        ensures
            res == self@.preserve_permissions,
    {
        self.preserve_permissions
    }

    /// Enables preservation of source permissions.
    pub fn preserve_permissions(self) -> (options: Self)
        ensures
            options@ == (LocalCopyDirOptionsView { preserve_permissions: true, ..self@ }),
    {
        LocalCopyDirOptions { preserve_permissions: true, ..self }
    }

    /// Returns the nonblocking-open retry timeout; `None` retries without
    /// bound.
    pub fn open_retry_timeout(&self) -> (timeout: Option<Duration>)
        ensures
            timeout == self@.open_retry_timeout,
    {
        self.open_retry_timeout
    }

    /// Sets the nonblocking-open retry timeout.
    pub fn with_open_retry_timeout(self, timeout: Duration) -> (options: Self)
        ensures
            options@ == (LocalCopyDirOptionsView { open_retry_timeout: Some(timeout), ..self@ }),
    {
        LocalCopyDirOptions { open_retry_timeout: Some(timeout), ..self }
    }
}

impl Default for LocalCopyDirOptions {
    /// The conservative copy options.
    fn default() -> (options: Self)
        ensures
            options@ == default_copy_dir_options(),
    {
        Self::new()
    }
}

} // verus!
