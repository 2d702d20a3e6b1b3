//! Operation options, capability facts, and path-limit observations of a
//! local filesystem.
use vstd::prelude::*;

use core::time::Duration;

use crate::local_options::{LocalCopyConflictPolicy, LocalDurabilityRequirement, LocalSymlinkPolicy};

verus! {

/// How a writer treats an existing destination.
#[derive(Clone, Copy, Debug, PartialEq, Eq, Structural)]
pub enum LocalWriteMode {
    /// Create the destination; fail when it exists.
    CreateNew,
    /// Create the destination or replace an existing one.
    CreateOrReplace,
    /// Append to an existing regular file.
    Append,
}

/// Whether an operation must publish atomically.
#[derive(Clone, Copy, Debug, PartialEq, Eq, Structural)]
pub enum LocalAtomicityRequirement {
    /// Atomic publication is not needed.
    NotRequired,
    /// Atomic publication is used when the protocol offers it.
    Preferred,
    /// Atomic publication is required; the operation fails without it.
    Required,
}

/// How a copy chooses between file and directory behavior.
#[derive(Clone, Copy, Debug, PartialEq, Eq, Structural)]
pub enum LocalCopySourceMode {
    /// Chosen from the source metadata.
    Auto,
    /// The source is copied as a single entry.
    Entry,
    /// The source is copied as a directory tree.
    Tree,
}


/// Options of opening a reader.
#[derive(Clone, Copy, Debug, PartialEq, Eq)]
pub struct LocalReadOptions {
    open_retry_timeout: Option<Duration>,
}

/// Options of opening a reader as plain values.
pub struct LocalReadOptionsView {
    pub open_retry_timeout: Option<Duration>,
}

impl View for LocalReadOptions {
    type V = LocalReadOptionsView;

    closed spec fn view(&self) -> LocalReadOptionsView {
        LocalReadOptionsView {
            open_retry_timeout: self.open_retry_timeout,
        }
    }
}

/// Read options that retry opens without bound.
pub open spec fn default_read_options() -> LocalReadOptionsView {
    LocalReadOptionsView {
        open_retry_timeout: None,
    }
}

impl LocalReadOptions {
    /// Returns the default options.
    pub fn new() -> (options: Self)
        ensures
            options@ == default_read_options(),
    {
        LocalReadOptions {
            open_retry_timeout: None,
        }
    }

    /// Returns the nonblocking-open retry timeout; `None` retries without bound.
    pub fn open_retry_timeout(&self) -> (value: Option<Duration>)
        ensures
            value == self@.open_retry_timeout,
    {
        self.open_retry_timeout
    }

    /// Sets the nonblocking-open retry timeout.
    pub fn with_open_retry_timeout(self, timeout: Duration) -> (options: Self)
        ensures
            options@ == (LocalReadOptionsView { open_retry_timeout: Some(timeout), ..self@ }),
    {
        LocalReadOptions { open_retry_timeout: Some(timeout), ..self }
    }


}

/// Options of opening a writer.
#[derive(Clone, Copy, Debug, PartialEq, Eq)]
pub struct LocalWriteOptions {
    mode: LocalWriteMode,
    atomicity: LocalAtomicityRequirement,
    durability: LocalDurabilityRequirement,
    create_parent: bool,
}

/// Options of opening a writer as plain values.
pub struct LocalWriteOptionsView {
    pub mode: LocalWriteMode,
    pub atomicity: LocalAtomicityRequirement,
    pub durability: LocalDurabilityRequirement,
    pub create_parent: bool,
}

impl View for LocalWriteOptions {
    type V = LocalWriteOptionsView;

    closed spec fn view(&self) -> LocalWriteOptionsView {
        LocalWriteOptionsView {
            mode: self.mode,
            atomicity: self.atomicity,
            durability: self.durability,
            create_parent: self.create_parent,
        }
    }
}

/// Write options of `mode` that prefer atomic publication, do not require durability, and do not create parents.
pub open spec fn spec_write_options(mode: LocalWriteMode) -> LocalWriteOptionsView {
    LocalWriteOptionsView {
        mode: mode,
        atomicity: LocalAtomicityRequirement::Preferred,
        durability: LocalDurabilityRequirement::NotRequired,
        create_parent: false,
    }
}

impl LocalWriteOptions {
    /// Returns write options of `mode` with conservative guarantees.
    pub fn new(mode: LocalWriteMode) -> (options: Self)
        ensures
            options@ == spec_write_options(mode),
    {
        LocalWriteOptions {
            mode: mode,
            atomicity: LocalAtomicityRequirement::Preferred,
            durability: LocalDurabilityRequirement::NotRequired,
            create_parent: false,
        }
    }

    /// Returns the write mode.
    pub fn mode(&self) -> (value: LocalWriteMode)
        ensures
            value == self@.mode,
    {
        self.mode
    }

    /// Returns the requested atomicity.
    pub fn atomicity(&self) -> (value: LocalAtomicityRequirement)
        ensures
            value == self@.atomicity,
    {
        self.atomicity
    }

    /// Sets the requested atomicity.
    pub fn with_atomicity(self, atomicity: LocalAtomicityRequirement) -> (options: Self)
        ensures
            options@ == (LocalWriteOptionsView { atomicity: atomicity, ..self@ }),
    {
        LocalWriteOptions { atomicity: atomicity, ..self }
    }

    /// Returns the requested durability.
    pub fn durability(&self) -> (value: LocalDurabilityRequirement)
        ensures
            value == self@.durability,
    {
        self.durability
    }

    /// Sets the requested durability.
    pub fn with_durability(self, durability: LocalDurabilityRequirement) -> (options: Self)
        ensures
            options@ == (LocalWriteOptionsView { durability: durability, ..self@ }),
    {
        LocalWriteOptions { durability: durability, ..self }
    }

    /// Returns whether missing parent directories are created.
    pub fn creates_parent(&self) -> (value: bool)
        ensures
            value == self@.create_parent,
    {
        self.create_parent
    }

    /// Enables creation of missing parent directories.
    pub fn with_create_parent(self) -> (options: Self)
        ensures
            options@ == (LocalWriteOptionsView { create_parent: true, ..self@ }),
    {
        LocalWriteOptions { create_parent: true, ..self }
    }


}

/// Options of listing a directory.
#[derive(Clone, Copy, Debug, PartialEq, Eq)]
pub struct LocalListOptions {
    recursive: bool,
    max_depth: Option<usize>,
    max_entries: Option<u64>,
    max_open_directories: Option<usize>,
    deadline: Option<Duration>,
    symlink_policy: Option<LocalSymlinkPolicy>,
}

/// Options of listing a directory as plain values.
pub struct LocalListOptionsView {
    pub recursive: bool,
    pub max_depth: Option<usize>,
    pub max_entries: Option<u64>,
    pub max_open_directories: Option<usize>,
    pub deadline: Option<Duration>,
    pub symlink_policy: Option<LocalSymlinkPolicy>,
}

impl View for LocalListOptions {
    type V = LocalListOptionsView;

    closed spec fn view(&self) -> LocalListOptionsView {
        LocalListOptionsView {
            recursive: self.recursive,
            max_depth: self.max_depth,
            max_entries: self.max_entries,
            max_open_directories: self.max_open_directories,
            deadline: self.deadline,
            symlink_policy: self.symlink_policy,
        }
    }
}

/// Listing options without recursion, limits, deadline or policy override.
pub open spec fn default_list_options() -> LocalListOptionsView {
    LocalListOptionsView {
        recursive: false,
        max_depth: None,
        max_entries: None,
        max_open_directories: None,
        deadline: None,
        symlink_policy: None,
    }
}

impl LocalListOptions {
    /// Returns the default options.
    pub fn new() -> (options: Self)
        ensures
            options@ == default_list_options(),
    {
        LocalListOptions {
            recursive: false,
            max_depth: None,
            max_entries: None,
            max_open_directories: None,
            deadline: None,
            symlink_policy: None,
        }
    }

    /// Returns whether subdirectories are listed.
    pub fn is_recursive(&self) -> (value: bool)
        ensures
            value == self@.recursive,
    {
        self.recursive
    }

    /// Enables listing of subdirectories.
    pub fn with_recursive(self) -> (options: Self)
        ensures
            options@ == (LocalListOptionsView { recursive: true, ..self@ }),
    {
        LocalListOptions { recursive: true, ..self }
    }

    /// Returns the depth limit, if any.
    pub fn max_depth(&self) -> (value: Option<usize>)
        ensures
            value == self@.max_depth,
    {
        self.max_depth
    }

    /// Sets the depth limit.
    pub fn with_max_depth(self, depth: usize) -> (options: Self)
        ensures
            options@ == (LocalListOptionsView { max_depth: Some(depth), ..self@ }),
    {
        LocalListOptions { max_depth: Some(depth), ..self }
    }

    /// Returns the entry limit, if any.
    pub fn max_entries(&self) -> (value: Option<u64>)
        ensures
            value == self@.max_entries,
    {
        self.max_entries
    }

    /// Sets the entry limit.
    pub fn with_max_entries(self, entries: u64) -> (options: Self)
        ensures
            options@ == (LocalListOptionsView { max_entries: Some(entries), ..self@ }),
    {
        LocalListOptions { max_entries: Some(entries), ..self }
    }

    /// Returns the limit of simultaneously open directories, if any.
    pub fn max_open_directories(&self) -> (value: Option<usize>)
        ensures
            value == self@.max_open_directories,
    {
        self.max_open_directories
    }

    /// Sets the limit of simultaneously open directories.
    pub fn with_max_open_directories(self, count: usize) -> (options: Self)
        ensures
            options@ == (LocalListOptionsView { max_open_directories: Some(count), ..self@ }),
    {
        LocalListOptions { max_open_directories: Some(count), ..self }
    }

    /// Returns the listing deadline, if any.
    pub fn deadline(&self) -> (value: Option<Duration>)
        ensures
            value == self@.deadline,
    {
        self.deadline
    }

    /// Sets the listing deadline.
    pub fn with_deadline(self, deadline: Duration) -> (options: Self)
        ensures
            options@ == (LocalListOptionsView { deadline: Some(deadline), ..self@ }),
    {
        LocalListOptions { deadline: Some(deadline), ..self }
    }

    /// Returns the symbolic-link policy that overrides the filesystem's, if any.
    pub fn symlink_policy(&self) -> (value: Option<LocalSymlinkPolicy>)
        ensures
            value == self@.symlink_policy,
    {
        self.symlink_policy
    }

    /// Overrides the filesystem's symbolic-link policy.
    pub fn with_symlink_policy(self, policy: LocalSymlinkPolicy) -> (options: Self)
        ensures
            options@ == (LocalListOptionsView { symlink_policy: Some(policy), ..self@ }),
    {
        LocalListOptions { symlink_policy: Some(policy), ..self }
    }


}

/// Options of copying an entry or a tree.
#[derive(Clone, Copy, Debug, PartialEq, Eq)]
pub struct LocalCopyOptions {
    source_mode: LocalCopySourceMode,
    conflict: LocalCopyConflictPolicy,
    atomicity: LocalAtomicityRequirement,
    durability: LocalDurabilityRequirement,
    deadline: Option<Duration>,
    symlink_policy_override: Option<LocalSymlinkPolicy>,
    preserve_permissions: bool,
}

/// Options of copying an entry or a tree as plain values.
pub struct LocalCopyOptionsView {
    pub source_mode: LocalCopySourceMode,
    pub conflict: LocalCopyConflictPolicy,
    pub atomicity: LocalAtomicityRequirement,
    pub durability: LocalDurabilityRequirement,
    pub deadline: Option<Duration>,
    pub symlink_policy_override: Option<LocalSymlinkPolicy>,
    pub preserve_permissions: bool,
}

impl View for LocalCopyOptions {
    type V = LocalCopyOptionsView;

    closed spec fn view(&self) -> LocalCopyOptionsView {
        LocalCopyOptionsView {
            source_mode: self.source_mode,
            conflict: self.conflict,
            atomicity: self.atomicity,
            durability: self.durability,
            deadline: self.deadline,
            symlink_policy_override: self.symlink_policy_override,
            preserve_permissions: self.preserve_permissions,
        }
    }
}

/// Copy options that choose the source mode from metadata, fail on conflicts, prefer atomic publication, do not require durability, and keep the filesystem's policy.
pub open spec fn default_copy_options() -> LocalCopyOptionsView {
    LocalCopyOptionsView {
        source_mode: LocalCopySourceMode::Auto,
        conflict: LocalCopyConflictPolicy::Fail,
        atomicity: LocalAtomicityRequirement::Preferred,
        durability: LocalDurabilityRequirement::NotRequired,
        deadline: None,
        symlink_policy_override: None,
        preserve_permissions: false,
    }
}

impl LocalCopyOptions {
    /// Returns the default options.
    pub fn new() -> (options: Self)
        ensures
            options@ == default_copy_options(),
    {
        LocalCopyOptions {
            source_mode: LocalCopySourceMode::Auto,
            conflict: LocalCopyConflictPolicy::Fail,
            atomicity: LocalAtomicityRequirement::Preferred,
            durability: LocalDurabilityRequirement::NotRequired,
            deadline: None,
            symlink_policy_override: None,
            preserve_permissions: false,
        }
    }

    /// Returns how the source is treated.
    pub fn source_mode(&self) -> (value: LocalCopySourceMode)
        ensures
            value == self@.source_mode,
    {
        self.source_mode
    }

    /// Sets how the source is treated.
    pub fn with_source_mode(self, mode: LocalCopySourceMode) -> (options: Self)
        ensures
            options@ == (LocalCopyOptionsView { source_mode: mode, ..self@ }),
    {
        LocalCopyOptions { source_mode: mode, ..self }
    }

    /// Copies the source as a directory tree.
    pub fn with_tree_source(self) -> (options: Self)
        ensures
            options@ == (LocalCopyOptionsView { source_mode: LocalCopySourceMode::Tree, ..self@ }),
    {
        LocalCopyOptions { source_mode: LocalCopySourceMode::Tree, ..self }
    }

    /// Returns the destination conflict policy.
    pub fn conflict_policy(&self) -> (value: LocalCopyConflictPolicy)
        ensures
            value == self@.conflict,
    {
        self.conflict
    }

    /// Sets the destination conflict policy.
    pub fn with_conflict(self, conflict: LocalCopyConflictPolicy) -> (options: Self)
        ensures
            options@ == (LocalCopyOptionsView { conflict: conflict, ..self@ }),
    {
        LocalCopyOptions { conflict: conflict, ..self }
    }

    /// Returns the requested atomicity.
    pub fn atomicity(&self) -> (value: LocalAtomicityRequirement)
        ensures
            value == self@.atomicity,
    {
        self.atomicity
    }

    /// Sets the requested atomicity.
    pub fn with_atomicity(self, atomicity: LocalAtomicityRequirement) -> (options: Self)
        ensures
            options@ == (LocalCopyOptionsView { atomicity: atomicity, ..self@ }),
    {
        LocalCopyOptions { atomicity: atomicity, ..self }
    }

    /// Returns the requested durability.
    pub fn durability(&self) -> (value: LocalDurabilityRequirement)
        ensures
            value == self@.durability,
    {
        self.durability
    }

    /// Sets the requested durability.
    pub fn with_durability(self, durability: LocalDurabilityRequirement) -> (options: Self)
        ensures
            options@ == (LocalCopyOptionsView { durability: durability, ..self@ }),
    {
        LocalCopyOptions { durability: durability, ..self }
    }

    /// Returns the copy deadline, if any.
    pub fn deadline(&self) -> (value: Option<Duration>)
        ensures
            value == self@.deadline,
    {
        self.deadline
    }

    /// Sets the copy deadline.
    pub fn with_deadline(self, deadline: Duration) -> (options: Self)
        ensures
            options@ == (LocalCopyOptionsView { deadline: Some(deadline), ..self@ }),
    {
        LocalCopyOptions { deadline: Some(deadline), ..self }
    }

    /// Returns the symbolic-link policy that overrides the filesystem's, if any.
    pub fn symlink_policy_override(&self) -> (value: Option<LocalSymlinkPolicy>)
        ensures
            value == self@.symlink_policy_override,
    {
        self.symlink_policy_override
    }

    /// Overrides the filesystem's symbolic-link policy.
    pub fn with_symlink_policy(self, policy: LocalSymlinkPolicy) -> (options: Self)
        ensures
            options@ == (LocalCopyOptionsView { symlink_policy_override: Some(policy), ..self@ }),
    {
        LocalCopyOptions { symlink_policy_override: Some(policy), ..self }
    }

    /// Returns whether source permissions are preserved.
    pub fn preserves_permissions(&self) -> (value: bool)
        ensures
            value == self@.preserve_permissions,
    {
        self.preserve_permissions
    }

    /// Enables preservation of source permissions.
    pub fn with_preserve_permissions(self) -> (options: Self)
        ensures
            options@ == (LocalCopyOptionsView { preserve_permissions: true, ..self@ }),
    {
        LocalCopyOptions { preserve_permissions: true, ..self }
    }


}

/// Options of creating a directory.
#[derive(Clone, Copy, Debug, PartialEq, Eq)]
pub struct LocalCreateDirectoryOptions {
    recursive: bool,
    exists_ok: bool,
}

/// Options of creating a directory as plain values.
pub struct LocalCreateDirectoryOptionsView {
    pub recursive: bool,
    pub exists_ok: bool,
}

impl View for LocalCreateDirectoryOptions {
    type V = LocalCreateDirectoryOptionsView;

    closed spec fn view(&self) -> LocalCreateDirectoryOptionsView {
        LocalCreateDirectoryOptionsView {
            recursive: self.recursive,
            exists_ok: self.exists_ok,
        }
    }
}

/// Options that create one directory and reject an existing one.
pub open spec fn default_create_directory_options() -> LocalCreateDirectoryOptionsView {
    LocalCreateDirectoryOptionsView {
        recursive: false,
        exists_ok: false,
    }
}

impl LocalCreateDirectoryOptions {
    /// Returns the default options.
    pub fn new() -> (options: Self)
        ensures
            options@ == default_create_directory_options(),
    {
        LocalCreateDirectoryOptions {
            recursive: false,
            exists_ok: false,
        }
    }

    /// Returns whether missing ancestors are created.
    pub fn is_recursive(&self) -> (value: bool)
        ensures
            value == self@.recursive,
    {
        self.recursive
    }

    /// Enables creation of missing ancestors.
    pub fn with_recursive(self) -> (options: Self)
        ensures
            options@ == (LocalCreateDirectoryOptionsView { recursive: true, ..self@ }),
    {
        LocalCreateDirectoryOptions { recursive: true, ..self }
    }

    /// Returns whether an existing directory is accepted.
    pub fn exists_ok(&self) -> (value: bool)
        ensures
            value == self@.exists_ok,
    {
        self.exists_ok
    }

    /// Accepts an existing directory.
    pub fn with_exists_ok(self) -> (options: Self)
        ensures
            options@ == (LocalCreateDirectoryOptionsView { exists_ok: true, ..self@ }),
    {
        LocalCreateDirectoryOptions { exists_ok: true, ..self }
    }


}

/// Options of deleting an entry.
#[derive(Clone, Copy, Debug, PartialEq, Eq)]
pub struct LocalDeleteOptions {
    recursive: bool,
    missing_ok: bool,
}

/// Options of deleting an entry as plain values.
pub struct LocalDeleteOptionsView {
    pub recursive: bool,
    pub missing_ok: bool,
}

impl View for LocalDeleteOptions {
    type V = LocalDeleteOptionsView;

    closed spec fn view(&self) -> LocalDeleteOptionsView {
        LocalDeleteOptionsView {
            recursive: self.recursive,
            missing_ok: self.missing_ok,
        }
    }
}

/// Options that delete one entry and reject a missing one.
pub open spec fn default_delete_options() -> LocalDeleteOptionsView {
    LocalDeleteOptionsView {
        recursive: false,
        missing_ok: false,
    }
}

impl LocalDeleteOptions {
    /// Returns the default options.
    pub fn new() -> (options: Self)
        ensures
            options@ == default_delete_options(),
    {
        LocalDeleteOptions {
            recursive: false,
            missing_ok: false,
        }
    }

    /// Returns whether directory contents are deleted.
    pub fn is_recursive(&self) -> (value: bool)
        ensures
            value == self@.recursive,
    {
        self.recursive
    }

    /// Enables deletion of directory contents.
    pub fn with_recursive(self) -> (options: Self)
        ensures
            options@ == (LocalDeleteOptionsView { recursive: true, ..self@ }),
    {
        LocalDeleteOptions { recursive: true, ..self }
    }

    /// Returns whether a missing entry is accepted.
    pub fn missing_ok(&self) -> (value: bool)
        ensures
            value == self@.missing_ok,
    {
        self.missing_ok
    }

    /// Accepts a missing entry.
    pub fn with_missing_ok(self) -> (options: Self)
        ensures
            options@ == (LocalDeleteOptionsView { missing_ok: true, ..self@ }),
    {
        LocalDeleteOptions { missing_ok: true, ..self }
    }


}

/// Options of renaming an entry.
#[derive(Clone, Copy, Debug, PartialEq, Eq)]
pub struct LocalRenameOptions {
    replace: bool,
    durability: LocalDurabilityRequirement,
}

/// Options of renaming an entry as plain values.
pub struct LocalRenameOptionsView {
    pub replace: bool,
    pub durability: LocalDurabilityRequirement,
}

impl View for LocalRenameOptions {
    type V = LocalRenameOptionsView;

    closed spec fn view(&self) -> LocalRenameOptionsView {
        LocalRenameOptionsView {
            replace: self.replace,
            durability: self.durability,
        }
    }
}

/// Options that keep an existing destination and do not require durability.
pub open spec fn default_rename_options() -> LocalRenameOptionsView {
    LocalRenameOptionsView {
        replace: false,
        durability: LocalDurabilityRequirement::NotRequired,
    }
}

impl LocalRenameOptions {
    /// Returns the default options.
    pub fn new() -> (options: Self)
        ensures
            options@ == default_rename_options(),
    {
        LocalRenameOptions {
            replace: false,
            durability: LocalDurabilityRequirement::NotRequired,
        }
    }

    /// Returns whether an existing destination is replaced.
    pub fn replaces(&self) -> (value: bool)
        ensures
            value == self@.replace,
    {
        self.replace
    }

    /// Enables replacement of an existing destination.
    pub fn with_replace(self) -> (options: Self)
        ensures
            options@ == (LocalRenameOptionsView { replace: true, ..self@ }),
    {
        LocalRenameOptions { replace: true, ..self }
    }

    /// Returns the requested durability.
    pub fn durability(&self) -> (value: LocalDurabilityRequirement)
        ensures
            value == self@.durability,
    {
        self.durability
    }

    /// Sets the requested durability.
    pub fn with_durability(self, durability: LocalDurabilityRequirement) -> (options: Self)
        ensures
            options@ == (LocalRenameOptionsView { durability: durability, ..self@ }),
    {
        LocalRenameOptions { durability: durability, ..self }
    }


}

/// Options of creating a temporary file.
#[derive(Debug)]
pub struct LocalTempFileOptions {
    prefix: Option<String>,
    suffix: Option<String>,
    max_attempts: Option<usize>,
    parent: Option<Vec<u8>>,
}

/// Options of creating a temporary file as plain values.
pub struct LocalTempFileOptionsView {
    pub prefix: Option<Seq<char>>,
    pub suffix: Option<Seq<char>>,
    pub max_attempts: Option<usize>,
    pub parent: Option<Seq<u8>>,
}

impl Clone for LocalTempFileOptions {
    /// Copies every option.
    fn clone(&self) -> (copy: Self)
        ensures
            copy@ == self@,
    {
        LocalTempFileOptions {
            prefix: match &self.prefix {
                Some(p) => Some(p.clone()),
                None => None,
            },
            suffix: match &self.suffix {
                Some(p) => Some(p.clone()),
                None => None,
            },
            max_attempts: self.max_attempts,
            parent: match &self.parent {
                Some(p) => Some(crate::path_model::copy_bytes(p.as_slice())),
                None => None,
            },
        }
    }
}

impl View for LocalTempFileOptions {
    type V = LocalTempFileOptionsView;

    closed spec fn view(&self) -> LocalTempFileOptionsView {
        LocalTempFileOptionsView {
            prefix: match self.prefix { Some(p) => Some(p@), None => None },
            suffix: match self.suffix { Some(p) => Some(p@), None => None },
            max_attempts: self.max_attempts,
            parent: match self.parent { Some(p) => Some(p@), None => None },
        }
    }
}

/// Options without affixes, attempt limit or parent.
pub open spec fn default_temp_file_options() -> LocalTempFileOptionsView {
    LocalTempFileOptionsView {
        prefix: None,
        suffix: None,
        max_attempts: None,
        parent: None,
    }
}

impl LocalTempFileOptions {
    /// Returns the default options.
    pub fn new() -> (options: Self)
        ensures
            options@ == default_temp_file_options(),
    {
        LocalTempFileOptions {
            prefix: None,
            suffix: None,
            max_attempts: None,
            parent: None,
        }
    }

    /// Returns the name prefix, if any.
    pub fn prefix(&self) -> (value: Option<&str>)
        ensures
            match self@.prefix { Some(p) => (value matches Some(v) && v@ == p), None => value is None },
    {
        match &self.prefix {
            Some(p) => Some(p.as_str()),
            None => None,
        }
    }

    /// Sets the name prefix.
    pub fn with_prefix(self, prefix: &str) -> (options: Self)
        ensures
            options@ == (LocalTempFileOptionsView { prefix: Some(prefix@), ..self@ }),
    {
        LocalTempFileOptions { prefix: Some(String::from_str(prefix)), ..self }
    }

    /// Returns the name suffix, if any.
    pub fn suffix(&self) -> (value: Option<&str>)
        ensures
            match self@.suffix { Some(p) => (value matches Some(v) && v@ == p), None => value is None },
    {
        match &self.suffix {
            Some(p) => Some(p.as_str()),
            None => None,
        }
    }

    /// Sets the name suffix.
    pub fn with_suffix(self, suffix: &str) -> (options: Self)
        ensures
            options@ == (LocalTempFileOptionsView { suffix: Some(suffix@), ..self@ }),
    {
        LocalTempFileOptions { suffix: Some(String::from_str(suffix)), ..self }
    }

    /// Returns the limit of name attempts, if any.
    pub fn max_attempts(&self) -> (value: Option<usize>)
        ensures
            value == self@.max_attempts,
    {
        self.max_attempts
    }

    /// Sets the limit of name attempts.
    pub fn with_max_attempts(self, attempts: usize) -> (options: Self)
        ensures
            options@ == (LocalTempFileOptionsView { max_attempts: Some(attempts), ..self@ }),
    {
        LocalTempFileOptions { max_attempts: Some(attempts), ..self }
    }

    /// Returns the parent directory, if any; the current directory is used otherwise.
    pub fn parent(&self) -> (value: Option<&[u8]>)
        ensures
            match self@.parent { Some(p) => (value matches Some(v) && v@ == p), None => value is None },
    {
        match &self.parent {
            Some(p) => Some(p.as_slice()),
            None => None,
        }
    }

    /// Sets the parent directory.
    pub fn with_parent(self, parent: &[u8]) -> (options: Self)
        ensures
            options@ == (LocalTempFileOptionsView { parent: Some(parent@), ..self@ }),
    {
        LocalTempFileOptions { parent: Some(crate::path_model::copy_bytes(parent)), ..self }
    }


}

/// Options of creating a temporary directory.
#[derive(Debug)]
pub struct LocalTempDirectoryOptions {
    prefix: Option<String>,
    suffix: Option<String>,
    max_attempts: Option<usize>,
    parent: Option<Vec<u8>>,
}

/// Options of creating a temporary directory as plain values.
pub struct LocalTempDirectoryOptionsView {
    pub prefix: Option<Seq<char>>,
    pub suffix: Option<Seq<char>>,
    pub max_attempts: Option<usize>,
    pub parent: Option<Seq<u8>>,
}

impl Clone for LocalTempDirectoryOptions {
    /// Copies every option.
    fn clone(&self) -> (copy: Self)
        ensures
            copy@ == self@,
    {
        LocalTempDirectoryOptions {
            prefix: match &self.prefix {
                Some(p) => Some(p.clone()),
                None => None,
            },
            suffix: match &self.suffix {
                Some(p) => Some(p.clone()),
                None => None,
            },
            max_attempts: self.max_attempts,
            parent: match &self.parent {
                Some(p) => Some(crate::path_model::copy_bytes(p.as_slice())),
                None => None,
            },
        }
    }
}

impl View for LocalTempDirectoryOptions {
    type V = LocalTempDirectoryOptionsView;

    closed spec fn view(&self) -> LocalTempDirectoryOptionsView {
        LocalTempDirectoryOptionsView {
            prefix: match self.prefix { Some(p) => Some(p@), None => None },
            suffix: match self.suffix { Some(p) => Some(p@), None => None },
            max_attempts: self.max_attempts,
            parent: match self.parent { Some(p) => Some(p@), None => None },
        }
    }
}

/// Options without affixes, attempt limit or parent.
pub open spec fn default_temp_directory_options() -> LocalTempDirectoryOptionsView {
    LocalTempDirectoryOptionsView {
        prefix: None,
        suffix: None,
        max_attempts: None,
        parent: None,
    }
}

impl LocalTempDirectoryOptions {
    /// Returns the default options.
    pub fn new() -> (options: Self)
        ensures
            options@ == default_temp_directory_options(),
    {
        LocalTempDirectoryOptions {
            prefix: None,
            suffix: None,
            max_attempts: None,
            parent: None,
        }
    }

    /// Returns the name prefix, if any.
    pub fn prefix(&self) -> (value: Option<&str>)
        ensures
            match self@.prefix { Some(p) => (value matches Some(v) && v@ == p), None => value is None },
    {
        match &self.prefix {
            Some(p) => Some(p.as_str()),
            None => None,
        }
    }

    /// Sets the name prefix.
    pub fn with_prefix(self, prefix: &str) -> (options: Self)
        ensures
            options@ == (LocalTempDirectoryOptionsView { prefix: Some(prefix@), ..self@ }),
    {
        LocalTempDirectoryOptions { prefix: Some(String::from_str(prefix)), ..self }
    }

    /// Returns the name suffix, if any.
    pub fn suffix(&self) -> (value: Option<&str>)
        ensures
            match self@.suffix { Some(p) => (value matches Some(v) && v@ == p), None => value is None },
    {
        match &self.suffix {
            Some(p) => Some(p.as_str()),
            None => None,
        }
    }

    /// Sets the name suffix.
    pub fn with_suffix(self, suffix: &str) -> (options: Self)
        ensures
            options@ == (LocalTempDirectoryOptionsView { suffix: Some(suffix@), ..self@ }),
    {
        LocalTempDirectoryOptions { suffix: Some(String::from_str(suffix)), ..self }
    }

    /// Returns the limit of name attempts, if any.
    pub fn max_attempts(&self) -> (value: Option<usize>)
        ensures
            value == self@.max_attempts,
    {
        self.max_attempts
    }

    /// Sets the limit of name attempts.
    pub fn with_max_attempts(self, attempts: usize) -> (options: Self)
        ensures
            options@ == (LocalTempDirectoryOptionsView { max_attempts: Some(attempts), ..self@ }),
    {
        LocalTempDirectoryOptions { max_attempts: Some(attempts), ..self }
    }

    /// Returns the parent directory, if any; the current directory is used otherwise.
    pub fn parent(&self) -> (value: Option<&[u8]>)
        ensures
            match self@.parent { Some(p) => (value matches Some(v) && v@ == p), None => value is None },
    {
        match &self.parent {
            Some(p) => Some(p.as_slice()),
            None => None,
        }
    }

    /// Sets the parent directory.
    pub fn with_parent(self, parent: &[u8]) -> (options: Self)
        ensures
            options@ == (LocalTempDirectoryOptionsView { parent: Some(parent@), ..self@ }),
    {
        LocalTempDirectoryOptions { parent: Some(crate::path_model::copy_bytes(parent)), ..self }
    }


}

/// A size limit observation.
#[derive(Clone, Copy, Debug, PartialEq, Eq, Structural)]
pub enum SizeLimit {
    /// The limit is known.
    Known(u64),
    /// The limit depends on the path it is asked for.
    VariesByPath,
    /// No defensible fixed bound is known.
    Unknown,
}

/// Unit in which path lengths are counted.
#[derive(Clone, Copy, Debug, PartialEq, Eq, Structural)]
pub enum LocalPathLengthUnit {
    /// Bytes of the native encoding.
    Bytes,
    /// UTF-16 code units.
    Utf16CodeUnits,
}

impl LocalPathLengthUnit {
    /// The unit of native paths on this platform: bytes.
    pub fn native() -> (unit: Self)
        ensures
            unit == LocalPathLengthUnit::Bytes,
    {
        LocalPathLengthUnit::Bytes
    }
}

/// Path-length limits of a filesystem, with their unit.
#[derive(Clone, Copy, Debug, PartialEq, Eq, Structural)]
pub struct LocalFileSystemLimits {
    component: SizeLimit,
    path: SizeLimit,
    unit: LocalPathLengthUnit,
}

/// Path-length limits as plain values.
pub struct LocalFileSystemLimitsView {
    pub component: SizeLimit,
    pub path: SizeLimit,
    pub unit: LocalPathLengthUnit,
}

impl View for LocalFileSystemLimits {
    type V = LocalFileSystemLimitsView;

    closed spec fn view(&self) -> LocalFileSystemLimitsView {
        LocalFileSystemLimitsView { component: self.component, path: self.path, unit: self.unit }
    }
}

impl LocalFileSystemLimits {
    /// Creates limit observations.
    pub fn new(component: SizeLimit, path: SizeLimit, unit: LocalPathLengthUnit) -> (limits: Self)
        ensures
            limits@ == (LocalFileSystemLimitsView { component, path, unit }),
    {
        LocalFileSystemLimits { component, path, unit }
    }

    /// Returns the component-length limit.
    pub fn component_length(&self) -> (limit: SizeLimit)
        ensures
            limit == self@.component,
    {
        self.component
    }

    /// Returns the whole-path length limit.
    pub fn path_length(&self) -> (limit: SizeLimit)
        ensures
            limit == self@.path,
    {
        self.path
    }

    /// Returns the unit of the limits.
    pub fn unit(&self) -> (unit: LocalPathLengthUnit)
        ensures
            unit == self@.unit,
    {
        self.unit
    }
}

/// Space observations of a filesystem, in bytes.
#[derive(Clone, Copy, Debug, PartialEq, Eq, Structural)]
pub struct LocalFileSystemSpace {
    /// Total capacity.
    pub total: u64,
    /// Space available to the caller.
    pub available: u64,
    /// Free space.
    pub free: u64,
}

/// What a build of the filesystem implements.
#[derive(Clone, Copy, Debug, PartialEq, Eq, Structural)]
pub struct LocalFileSystemCapabilities {
    atomic_rename: bool,
    durable_rename: bool,
    durable_write: bool,
    durable_file_copy: bool,
}

/// Capability facts as plain values.
pub struct LocalFileSystemCapabilitiesView {
    pub atomic_rename: bool,
    pub durable_rename: bool,
    pub durable_write: bool,
    pub durable_file_copy: bool,
}

impl View for LocalFileSystemCapabilities {
    type V = LocalFileSystemCapabilitiesView;

    closed spec fn view(&self) -> LocalFileSystemCapabilitiesView {
        LocalFileSystemCapabilitiesView {
            atomic_rename: self.atomic_rename,
            durable_rename: self.durable_rename,
            durable_write: self.durable_write,
            durable_file_copy: self.durable_file_copy,
        }
    }
}

impl LocalFileSystemCapabilities {
    /// Creates capability facts.
    pub fn new(atomic_rename: bool, durable_rename: bool, durable_write: bool, durable_file_copy: bool) -> (capabilities: Self)
        ensures
            capabilities@ == (LocalFileSystemCapabilitiesView {
                atomic_rename,
                durable_rename,
                durable_write,
                durable_file_copy,
            }),
    {
        LocalFileSystemCapabilities { atomic_rename, durable_rename, durable_write, durable_file_copy }
    }

    /// Returns whether renames publish atomically.
    pub fn supports_atomic_rename(&self) -> (res: bool)
        ensures
            res == self@.atomic_rename,
    {
        self.atomic_rename
    }

    /// Returns whether renames can be made durable.
    pub fn supports_durable_rename(&self) -> (res: bool)
        ensures
            res == self@.durable_rename,
    {
        self.durable_rename
    }

    /// Returns whether writer publication can be made durable.
    pub fn supports_durable_write(&self) -> (res: bool)
        ensures
            res == self@.durable_write,
    {
        self.durable_write
    }

    /// Returns whether file copies can be made durable.
    pub fn supports_durable_file_copy(&self) -> (res: bool)
        ensures
            res == self@.durable_file_copy,
    {
        self.durable_file_copy
    }
}

} // verus!
