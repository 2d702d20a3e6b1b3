//! A policy-aware local filesystem: its namespace, current directory,
//! symbolic-link policy, capabilities, and per-operation default options.
//!
//! Operations are prepared here and performed natively by the caller: each
//! operation validates its options, resolves its paths from one
//! current-directory snapshot, rejects operands that it must not touch, and
//! maps native failures to structured errors with their context.
use vstd::prelude::*;

use crate::local_file_error::{
    spec_io_error, LocalFileError, LocalFileErrorKind, LocalFileErrorView, LocalFileOperation, LocalIoError,
    LocalIoErrorView, LocalResult,
};
use crate::local_file_system_validation::{
    opt_path, problem_of, spec_copy_options_problem, spec_list_options_problem, spec_rename_options_problem,
    spec_symlink_policy_problem, spec_temp_options_problem, spec_write_options_problem, validate_copy_options,
    validate_list_options, validate_rename_options, validate_scope_symlink_policy, validate_temp_options,
    validate_write_options, with_current_directory, with_opt_current_directory,
};
use crate::local_fs_options::{
    LocalCopySourceMode,
    default_copy_options, default_create_directory_options, default_delete_options, default_list_options,
    default_read_options, default_rename_options, default_temp_directory_options, default_temp_file_options,
    spec_write_options, LocalCopyOptions, LocalCopyOptionsView, LocalCreateDirectoryOptions,
    LocalCreateDirectoryOptionsView, LocalDeleteOptions, LocalDeleteOptionsView, LocalFileSystemCapabilities,
    LocalFileSystemCapabilitiesView, LocalFileSystemLimits, LocalFileSystemLimitsView, LocalListOptions,
    LocalListOptionsView, LocalPathLengthUnit, LocalReadOptions, LocalReadOptionsView, LocalRenameOptions,
    LocalRenameOptionsView, LocalTempDirectoryOptions, LocalTempDirectoryOptionsView, LocalTempFileOptions,
    LocalTempFileOptionsView, LocalWriteMode, LocalWriteOptions, LocalWriteOptionsView, SizeLimit,
};
use crate::local_file_metadata::{LocalFileKind, LocalFileMetadata};
use crate::local_namespace::{
    is_valid_current_directory, lemma_resolution_stays_normal, spec_bad_current_directory_reason, spec_resolve,
    spec_resolve_error, LocalFileSystemScope, LocalNamespacePath, LocalNamespacePathView, LocalPathResolver,
    LocalPathResolverView,
};
use crate::local_options::LocalSymlinkPolicy;
use crate::path_model::{
    components, copy_bytes, is_absolute, is_absolute_exec, join_all, path_push, path_push_exec, scan_path, slash, views,
};

verus! {

/// The default options of each operation of a filesystem.
#[derive(Debug)]
pub struct LocalFileSystemDefaults {
    /// Options of opening readers.
    pub read: LocalReadOptions,
    /// Options of opening writers.
    pub write: LocalWriteOptions,
    /// Options of listing directories.
    pub list: LocalListOptions,
    /// Options of copying.
    pub copy: LocalCopyOptions,
    /// Options of creating directories.
    pub create_directory: LocalCreateDirectoryOptions,
    /// Options of deleting entries.
    pub delete: LocalDeleteOptions,
    /// Options of renaming entries.
    pub rename: LocalRenameOptions,
    /// Options of creating temporary files.
    pub temp_file: LocalTempFileOptions,
    /// Options of creating temporary directories.
    pub temp_directory: LocalTempDirectoryOptions,
}

/// Default operation options as plain values.
pub struct LocalFileSystemDefaultsView {
    pub read: LocalReadOptionsView,
    pub write: LocalWriteOptionsView,
    pub list: LocalListOptionsView,
    pub copy: LocalCopyOptionsView,
    pub create_directory: LocalCreateDirectoryOptionsView,
    pub delete: LocalDeleteOptionsView,
    pub rename: LocalRenameOptionsView,
    pub temp_file: LocalTempFileOptionsView,
    pub temp_directory: LocalTempDirectoryOptionsView,
}

impl Clone for LocalFileSystemDefaults {
    /// Copies every default.
    fn clone(&self) -> (copy: Self)
        ensures
            copy@ == self@,
    {
        LocalFileSystemDefaults {
            read: self.read,
            write: self.write,
            list: self.list,
            copy: self.copy,
            create_directory: self.create_directory,
            delete: self.delete,
            rename: self.rename,
            temp_file: self.temp_file.clone(),
            temp_directory: self.temp_directory.clone(),
        }
    }
}

impl View for LocalFileSystemDefaults {
    type V = LocalFileSystemDefaultsView;

    open spec fn view(&self) -> LocalFileSystemDefaultsView {
        LocalFileSystemDefaultsView {
            read: self.read@,
            write: self.write@,
            list: self.list@,
            copy: self.copy@,
            create_directory: self.create_directory@,
            delete: self.delete@,
            rename: self.rename@,
            temp_file: self.temp_file@,
            temp_directory: self.temp_directory@,
        }
    }
}

/// The defaults of a new filesystem: writers create new files, and every
/// other operation uses its conservative options.
pub open spec fn spec_default_defaults() -> LocalFileSystemDefaultsView {
    LocalFileSystemDefaultsView {
        read: default_read_options(),
        write: spec_write_options(LocalWriteMode::CreateNew),
        list: default_list_options(),
        copy: default_copy_options(),
        create_directory: default_create_directory_options(),
        delete: default_delete_options(),
        rename: default_rename_options(),
        temp_file: default_temp_file_options(),
        temp_directory: default_temp_directory_options(),
    }
}

impl LocalFileSystemDefaults {
    /// Returns the defaults of a new filesystem.
    pub fn new() -> (defaults: Self)
        ensures
            defaults@ == spec_default_defaults(),
    {
        LocalFileSystemDefaults {
            read: LocalReadOptions::new(),
            write: LocalWriteOptions::new(LocalWriteMode::CreateNew),
            list: LocalListOptions::new(),
            copy: LocalCopyOptions::new(),
            create_directory: LocalCreateDirectoryOptions::new(),
            delete: LocalDeleteOptions::new(),
            rename: LocalRenameOptions::new(),
            temp_file: LocalTempFileOptions::new(),
            temp_directory: LocalTempDirectoryOptions::new(),
        }
    }
}

/// What opening a root directory established: the path it was opened by,
/// kept for diagnostics only, and the capabilities and limits of the opened
/// authority.
#[derive(Clone, Copy, Debug)]
pub struct LocalRootAuthority<'a> {
    /// Non-authoritative path of the opened root.
    pub diagnostic_root: &'a [u8],
    /// Capabilities of the opened authority.
    pub capabilities: LocalFileSystemCapabilities,
    /// Path-length limits of the opened authority.
    pub limits: LocalFileSystemLimits,
}

/// A local filesystem over the host namespace or beneath an opened root.
#[derive(Debug)]
pub struct LocalFileSystem {
    scope: LocalFileSystemScope,
    diagnostic_root: Option<Vec<u8>>,
    capabilities: LocalFileSystemCapabilities,
    limits: LocalFileSystemLimits,
    current_directory: Option<Vec<u8>>,
    symlink_policy: LocalSymlinkPolicy,
    defaults: LocalFileSystemDefaults,
}

/// A filesystem as plain values. The current directory is held only
/// beneath an opened root; the host's is the process's.
pub struct LocalFileSystemView {
    pub scope: LocalFileSystemScope,
    pub diagnostic_root: Option<Seq<u8>>,
    pub capabilities: LocalFileSystemCapabilitiesView,
    pub limits: LocalFileSystemLimitsView,
    pub current_directory: Option<Seq<u8>>,
    pub symlink_policy: LocalSymlinkPolicy,
    pub defaults: LocalFileSystemDefaultsView,
}

impl View for LocalFileSystem {
    type V = LocalFileSystemView;

    closed spec fn view(&self) -> LocalFileSystemView {
        LocalFileSystemView {
            scope: self.scope,
            diagnostic_root: match self.diagnostic_root {
                Some(r) => Some(r@),
                None => None,
            },
            capabilities: self.capabilities@,
            limits: self.limits@,
            current_directory: match self.current_directory {
                Some(c) => Some(c@),
                None => None,
            },
            symlink_policy: self.symlink_policy,
            defaults: self.defaults@,
        }
    }
}

impl Clone for LocalFileSystem {
    /// Snapshots every piece of configuration.
    fn clone(&self) -> (copy: Self)
        ensures
            copy@ == self@,
    {
        proof {
            use_type_invariant(self);
        }
        LocalFileSystem {
            scope: self.scope,
            diagnostic_root: match &self.diagnostic_root {
                Some(r) => Some(copy_bytes(r.as_slice())),
                None => None,
            },
            capabilities: self.capabilities,
            limits: self.limits,
            current_directory: match &self.current_directory {
                Some(c) => Some(copy_bytes(c.as_slice())),
                None => None,
            },
            symlink_policy: self.symlink_policy,
            defaults: self.defaults.clone(),
        }
    }
}

/// The invariant of a filesystem: exactly a Rooted filesystem holds a
/// current directory and a diagnostic root, its current directory is a
/// normalized absolute path, and it never follows links across scope.
pub open spec fn file_system_wf(fs: LocalFileSystemView) -> bool {
    &&& (fs.scope == LocalFileSystemScope::Rooted) == (fs.current_directory is Some)
    &&& (fs.scope == LocalFileSystemScope::Rooted) == (fs.diagnostic_root is Some)
    &&& (fs.current_directory matches Some(c) ==> is_valid_current_directory(c))
    &&& !(fs.scope == LocalFileSystemScope::Rooted && fs.symlink_policy == LocalSymlinkPolicy::FollowAcrossScope)
}

/// The capabilities of the host build: atomic and durable renames, durable
/// writes, and durable file copies.
pub open spec fn spec_host_capabilities() -> LocalFileSystemCapabilitiesView {
    LocalFileSystemCapabilitiesView {
        atomic_rename: true,
        durable_rename: true,
        durable_write: true,
        durable_file_copy: true,
    }
}

/// A new host filesystem: host capabilities, limits that vary by path in
/// native units, the process's current directory, links followed across
/// scope, and the default options.
pub open spec fn spec_host_file_system() -> LocalFileSystemView {
    LocalFileSystemView {
        scope: LocalFileSystemScope::Host,
        diagnostic_root: None,
        capabilities: spec_host_capabilities(),
        limits: LocalFileSystemLimitsView {
            component: SizeLimit::VariesByPath,
            path: SizeLimit::VariesByPath,
            unit: LocalPathLengthUnit::Bytes,
        },
        current_directory: None,
        symlink_policy: LocalSymlinkPolicy::FollowAcrossScope,
        defaults: spec_default_defaults(),
    }
}

/// A new Rooted filesystem over an opened root: its capabilities and
/// limits, `/` as current directory, links followed within scope, and the
/// default options.
pub open spec fn spec_rooted_file_system(
    diagnostic_root: Seq<u8>,
    capabilities: LocalFileSystemCapabilitiesView,
    limits: LocalFileSystemLimitsView,
) -> LocalFileSystemView {
    LocalFileSystemView {
        scope: LocalFileSystemScope::Rooted,
        diagnostic_root: Some(diagnostic_root),
        capabilities,
        limits,
        current_directory: Some(seq![slash()]),
        symlink_policy: LocalSymlinkPolicy::FollowWithinScope,
        defaults: spec_default_defaults(),
    }
}

/// The outcome of a configuration change: the filesystem after it, and the
/// problem that rejected it, if any.
pub open spec fn configured(
    before: LocalFileSystemView,
    after: LocalFileSystemView,
    res: LocalResult<()>,
    problem: Option<LocalFileErrorView>,
    changed: LocalFileSystemView,
) -> bool {
    match problem {
        None => res is Ok && after == changed,
        Some(e) => (res matches Err(r) && r@ == with_opt_current_directory(e, before.current_directory))
            && after == before,
    }
}

impl LocalFileSystem {
    #[verifier::type_invariant]
    closed spec fn inv(self) -> bool {
        file_system_wf(self@)
    }

    /// Creates a filesystem bound to the host namespace. It holds no current
    /// directory: each relative-path operation takes the process's.
    pub fn host() -> (res: LocalResult<Self>)
        ensures
            res matches Ok(fs) && fs@ == spec_host_file_system(),
    {
        Ok(
            LocalFileSystem {
                scope: LocalFileSystemScope::Host,
                diagnostic_root: None,
                capabilities: LocalFileSystemCapabilities::new(true, true, true, true),
                limits: LocalFileSystemLimits::new(
                    SizeLimit::VariesByPath,
                    SizeLimit::VariesByPath,
                    LocalPathLengthUnit::native(),
                ),
                current_directory: None,
                symlink_policy: LocalSymlinkPolicy::FollowAcrossScope,
                defaults: LocalFileSystemDefaults::new(),
            },
        )
    }

    /// Creates a filesystem beneath a root that was opened natively; a
    /// failure to open it is passed on unchanged.
    pub fn rooted(opened: LocalResult<LocalRootAuthority>) -> (res: LocalResult<Self>)
        ensures
            match opened {
                Ok(a) => (res matches Ok(fs) && fs@ == spec_rooted_file_system(
                    a.diagnostic_root@,
                    a.capabilities@,
                    a.limits@,
                )),
                Err(e) => (res matches Err(r) && r@ == e@),
            },
    {
        match opened {
            Err(error) => Err(error),
            Ok(authority) => {
                let root: Vec<u8> = vec![0x2fu8];
                assert(root@ =~= seq![slash()]);
                proof {
                    crate::local_paths::lemma_root_shape();
                }
                assert(crate::path_model::is_absolute(root@));
                Ok(
                    LocalFileSystem {
                        scope: LocalFileSystemScope::Rooted,
                        diagnostic_root: Some(copy_bytes(authority.diagnostic_root)),
                        capabilities: authority.capabilities,
                        limits: authority.limits,
                        current_directory: Some(root),
                        symlink_policy: LocalSymlinkPolicy::FollowWithinScope,
                        defaults: LocalFileSystemDefaults::new(),
                    },
                )
            },
        }
    }

    /// Returns the namespace of the filesystem.
    pub fn scope(&self) -> (scope: LocalFileSystemScope)
        ensures
            scope == self@.scope,
    {
        self.scope
    }

    /// Returns the capability facts of the build.
    pub fn capabilities(&self) -> (capabilities: LocalFileSystemCapabilities)
        ensures
            capabilities@ == self@.capabilities,
    {
        self.capabilities
    }

    /// Returns the path-length limits.
    pub fn limits(&self) -> (limits: LocalFileSystemLimits)
        ensures
            limits@ == self@.limits,
    {
        self.limits
    }

    /// Returns the default symbolic-link policy.
    pub fn symlink_policy(&self) -> (policy: LocalSymlinkPolicy)
        ensures
            policy == self@.symlink_policy,
    {
        self.symlink_policy
    }

    /// Returns the path by which the root was opened, for a Rooted
    /// filesystem; it is kept for diagnostics only.
    pub fn diagnostic_root(&self) -> (root: Option<&[u8]>)
        ensures
            match self@.diagnostic_root {
                Some(r) => (root matches Some(x) && x@ == r),
                None => root is None,
            },
    {
        match &self.diagnostic_root {
            Some(r) => Some(r.as_slice()),
            None => None,
        }
    }

    /// Returns the virtual current directory of a Rooted filesystem.
    pub fn virtual_current_directory(&self) -> (current: Option<&[u8]>)
        ensures
            match self@.current_directory {
                Some(c) => (current matches Some(x) && x@ == c),
                None => current is None,
            },
    {
        match &self.current_directory {
            Some(c) => Some(c.as_slice()),
            None => None,
        }
    }

    /// Returns the current directory: the process's for the host, taken
    /// from `process` (whose failure is reported as a current-directory
    /// error), and the virtual one beneath an opened root.
    pub fn current_directory(&self, process: Result<Vec<u8>, LocalIoError>) -> (res: LocalResult<Vec<u8>>)
        ensures
            match self@.current_directory {
                Some(c) => (res matches Ok(p) && p@ == c),
                None => match process {
                    Ok(p) => (res matches Ok(r) && r@ == p@),
                    Err(e) => (res matches Err(r) && r@ == spec_io_error(
                        LocalFileOperation::CurrentDirectory,
                        None,
                        None,
                        e@,
                    )),
                },
            },
    {
        match &self.current_directory {
            Some(c) => Ok(copy_bytes(c.as_slice())),
            None => match process {
                Ok(p) => Ok(p),
                Err(e) => Err(LocalFileError::from_io(LocalFileOperation::CurrentDirectory, None, None, e)),
            },
        }
    }

    /// Sets the default symbolic-link policy; a Rooted filesystem rejects
    /// following links across scope and stays unchanged.
    pub fn set_symlink_policy(&mut self, policy: LocalSymlinkPolicy) -> (res: LocalResult<()>)
        ensures
            configured(
                old(self)@,
                final(self)@,
                res,
                spec_symlink_policy_problem(old(self)@.scope, policy, LocalFileOperation::Configure, None),
                LocalFileSystemView { symlink_policy: policy, ..old(self)@ },
            ),
    {
        proof {
            use_type_invariant(&*self);
        }
        match validate_scope_symlink_policy(self.scope, policy, LocalFileOperation::Configure, None) {
            Err(error) => Err(with_current_directory(error, self.virtual_current_directory())),
            Ok(()) => {
                self.symlink_policy = policy;
                Ok(())
            },
        }
    }

    /// Returns the default read options.
    pub fn default_read_options(&self) -> (options: &LocalReadOptions)
        ensures
            options@ == self@.defaults.read,
    {
        &self.defaults.read
    }

    /// Sets the default read options.
    pub fn set_default_read_options(&mut self, options: LocalReadOptions) -> (res: LocalResult<()>)
        ensures
            res is Ok,
            final(self)@ == (LocalFileSystemView {
                defaults: LocalFileSystemDefaultsView { read: options@, ..old(self)@.defaults },
                ..old(self)@
            }),
    {
        proof {
            use_type_invariant(&*self);
        }
        self.defaults.read = options;
        Ok(())
    }

    /// Returns the default write options.
    pub fn default_write_options(&self) -> (options: &LocalWriteOptions)
        ensures
            options@ == self@.defaults.write,
    {
        &self.defaults.write
    }

    /// Sets the default write options; options that request an unavailable
    /// guarantee are rejected and the filesystem stays unchanged.
    pub fn set_default_write_options(&mut self, options: LocalWriteOptions) -> (res: LocalResult<()>)
        ensures
            configured(
                old(self)@,
                final(self)@,
                res,
                spec_write_options_problem(options@, old(self)@.capabilities, LocalFileOperation::Configure),
                LocalFileSystemView {
                    defaults: LocalFileSystemDefaultsView { write: options@, ..old(self)@.defaults },
                    ..old(self)@
                },
            ),
    {
        proof {
            use_type_invariant(&*self);
        }
        match validate_write_options(&options, self.capabilities, LocalFileOperation::Configure) {
            Err(error) => Err(with_current_directory(error, self.virtual_current_directory())),
            Ok(()) => {
                self.defaults.write = options;
                Ok(())
            },
        }
    }

    /// Returns the default listing options.
    pub fn default_list_options(&self) -> (options: &LocalListOptions)
        ensures
            options@ == self@.defaults.list,
    {
        &self.defaults.list
    }

    /// Sets the default listing options; invalid options are rejected and
    /// the filesystem stays unchanged. Whether a deadline fits the clock is
    /// read from the clock.
    pub fn set_default_list_options(&mut self, options: LocalListOptions) -> (res: LocalResult<()>)
        ensures
            configured(
                old(self)@,
                final(self)@,
                res,
                spec_list_options_problem(old(self)@.scope, old(self)@.symlink_policy, options@, None, true),
                LocalFileSystemView {
                    defaults: LocalFileSystemDefaultsView { list: options@, ..old(self)@.defaults },
                    ..old(self)@
                },
            ) || configured(
                old(self)@,
                final(self)@,
                res,
                spec_list_options_problem(old(self)@.scope, old(self)@.symlink_policy, options@, None, false),
                LocalFileSystemView {
                    defaults: LocalFileSystemDefaultsView { list: options@, ..old(self)@.defaults },
                    ..old(self)@
                },
            ),
    {
        proof {
            use_type_invariant(&*self);
        }
        let res = validate_list_options(self.scope, self.symlink_policy, &options, None);
        match res {
            Err(error) => Err(with_current_directory(error, self.virtual_current_directory())),
            Ok(()) => {
                self.defaults.list = options;
                Ok(())
            },
        }
    }

    /// Returns the default copy options.
    pub fn default_copy_options(&self) -> (options: &LocalCopyOptions)
        ensures
            options@ == self@.defaults.copy,
    {
        &self.defaults.copy
    }

    /// Sets the default copy options; invalid options are rejected and the
    /// filesystem stays unchanged. Whether a deadline fits the clock is read
    /// from the clock.
    pub fn set_default_copy_options(&mut self, options: LocalCopyOptions) -> (res: LocalResult<()>)
        ensures
            configured(
                old(self)@,
                final(self)@,
                res,
                spec_copy_options_problem(
                    old(self)@.scope,
                    old(self)@.symlink_policy,
                    options@,
                    old(self)@.capabilities,
                    None,
                    None,
                    true,
                ),
                LocalFileSystemView {
                    defaults: LocalFileSystemDefaultsView { copy: options@, ..old(self)@.defaults },
                    ..old(self)@
                },
            ) || configured(
                old(self)@,
                final(self)@,
                res,
                spec_copy_options_problem(
                    old(self)@.scope,
                    old(self)@.symlink_policy,
                    options@,
                    old(self)@.capabilities,
                    None,
                    None,
                    false,
                ),
                LocalFileSystemView {
                    defaults: LocalFileSystemDefaultsView { copy: options@, ..old(self)@.defaults },
                    ..old(self)@
                },
            ),
    {
        proof {
            use_type_invariant(&*self);
        }
        let res = validate_copy_options(self.scope, self.symlink_policy, &options, self.capabilities, None, None);
        match res {
            Err(error) => Err(with_current_directory(error, self.virtual_current_directory())),
            Ok(()) => {
                self.defaults.copy = options;
                Ok(())
            },
        }
    }

    /// Returns the default directory-creation options.
    pub fn default_create_directory_options(&self) -> (options: &LocalCreateDirectoryOptions)
        ensures
            options@ == self@.defaults.create_directory,
    {
        &self.defaults.create_directory
    }

    /// Sets the default directory-creation options.
    pub fn set_default_create_directory_options(&mut self, options: LocalCreateDirectoryOptions) -> (res:
        LocalResult<()>)
        ensures
            res is Ok,
            final(self)@ == (LocalFileSystemView {
                defaults: LocalFileSystemDefaultsView { create_directory: options@, ..old(self)@.defaults },
                ..old(self)@
            }),
    {
        proof {
            use_type_invariant(&*self);
        }
        self.defaults.create_directory = options;
        Ok(())
    }

    /// Returns the default deletion options.
    pub fn default_delete_options(&self) -> (options: &LocalDeleteOptions)
        ensures
            options@ == self@.defaults.delete,
    {
        &self.defaults.delete
    }

    /// Sets the default deletion options.
    pub fn set_default_delete_options(&mut self, options: LocalDeleteOptions) -> (res: LocalResult<()>)
        ensures
            res is Ok,
            final(self)@ == (LocalFileSystemView {
                defaults: LocalFileSystemDefaultsView { delete: options@, ..old(self)@.defaults },
                ..old(self)@
            }),
    {
        proof {
            use_type_invariant(&*self);
        }
        self.defaults.delete = options;
        Ok(())
    }

    /// Returns the default rename options.
    pub fn default_rename_options(&self) -> (options: &LocalRenameOptions)
        ensures
            options@ == self@.defaults.rename,
    {
        &self.defaults.rename
    }

    /// Sets the default rename options; options that request an unavailable
    /// guarantee are rejected and the filesystem stays unchanged.
    pub fn set_default_rename_options(&mut self, options: LocalRenameOptions) -> (res: LocalResult<()>)
        ensures
            configured(
                old(self)@,
                final(self)@,
                res,
                spec_rename_options_problem(options@, old(self)@.capabilities, LocalFileOperation::Configure),
                LocalFileSystemView {
                    defaults: LocalFileSystemDefaultsView { rename: options@, ..old(self)@.defaults },
                    ..old(self)@
                },
            ),
    {
        proof {
            use_type_invariant(&*self);
        }
        match validate_rename_options(&options, self.capabilities, LocalFileOperation::Configure) {
            Err(error) => Err(with_current_directory(error, self.virtual_current_directory())),
            Ok(()) => {
                self.defaults.rename = options;
                Ok(())
            },
        }
    }

    /// Returns the default temporary-file options.
    pub fn default_temp_file_options(&self) -> (options: &LocalTempFileOptions)
        ensures
            options@ == self@.defaults.temp_file,
    {
        &self.defaults.temp_file
    }

    /// Sets the default temporary-file options; invalid options are
    /// rejected and the filesystem stays unchanged.
    pub fn set_default_temp_file_options(&mut self, options: LocalTempFileOptions) -> (res: LocalResult<()>)
        ensures
            configured(
                old(self)@,
                final(self)@,
                res,
                spec_temp_options_problem(
                    options@.prefix,
                    options@.suffix,
                    options@.max_attempts,
                    LocalFileOperation::Configure,
                ),
                LocalFileSystemView {
                    defaults: LocalFileSystemDefaultsView { temp_file: options@, ..old(self)@.defaults },
                    ..old(self)@
                },
            ),
    {
        proof {
            use_type_invariant(&*self);
        }
        let checked = validate_temp_options(
            options.prefix(),
            options.suffix(),
            options.max_attempts(),
            LocalFileOperation::Configure,
        );
        match checked {
            Err(error) => Err(with_current_directory(error, self.virtual_current_directory())),
            Ok(()) => {
                self.defaults.temp_file = options;
                Ok(())
            },
        }
    }

    /// Returns the default temporary-directory options.
    pub fn default_temp_directory_options(&self) -> (options: &LocalTempDirectoryOptions)
        ensures
            options@ == self@.defaults.temp_directory,
    {
        &self.defaults.temp_directory
    }

    /// Sets the default temporary-directory options; invalid options are
    /// rejected and the filesystem stays unchanged.
    pub fn set_default_temp_directory_options(&mut self, options: LocalTempDirectoryOptions) -> (res: LocalResult<
        (),
    >)
        ensures
            configured(
                old(self)@,
                final(self)@,
                res,
                spec_temp_options_problem(
                    options@.prefix,
                    options@.suffix,
                    options@.max_attempts,
                    LocalFileOperation::Configure,
                ),
                LocalFileSystemView {
                    defaults: LocalFileSystemDefaultsView { temp_directory: options@, ..old(self)@.defaults },
                    ..old(self)@
                },
            ),
    {
        proof {
            use_type_invariant(&*self);
        }
        let checked = validate_temp_options(
            options.prefix(),
            options.suffix(),
            options.max_attempts(),
            LocalFileOperation::Configure,
        );
        match checked {
            Err(error) => Err(with_current_directory(error, self.virtual_current_directory())),
            Ok(()) => {
                self.defaults.temp_directory = options;
                Ok(())
            },
        }
    }
}

// ---------------------------------------------------------------------------
// Path resolution for operations
// ---------------------------------------------------------------------------

/// The plain value of a native current-directory reading.
pub open spec fn process_view(process: Result<Vec<u8>, LocalIoError>) -> Result<Seq<u8>, LocalIoErrorView> {
    match process {
        Ok(p) => Ok(p@),
        Err(e) => Err(e@),
    }
}

/// The current-directory snapshot of one operation on `path`: the virtual
/// one beneath an opened root, and the process's on the host, whose
/// failure is reported as a failure of the operation on `path`.
pub open spec fn spec_snapshot(
    fs: LocalFileSystemView,
    path: Seq<u8>,
    operation: LocalFileOperation,
    process: Result<Seq<u8>, LocalIoErrorView>,
) -> Result<Seq<u8>, LocalFileErrorView> {
    match fs.current_directory {
        Some(c) => Ok(c),
        None => match process {
            Ok(p) => Ok(p),
            Err(e) => Err(spec_io_error(operation, Some(path), None, e)),
        },
    }
}

/// The resolver of one operation: absolute host paths need no current
/// directory; otherwise the snapshot, which must be a normalized absolute
/// path, is the base.
pub open spec fn spec_resolver_for(
    fs: LocalFileSystemView,
    path: Seq<u8>,
    needs_directory: bool,
    operation: LocalFileOperation,
    process: Result<Seq<u8>, LocalIoErrorView>,
) -> Result<LocalPathResolverView, LocalFileErrorView> {
    if fs.scope == LocalFileSystemScope::Host && !needs_directory {
        Ok(LocalPathResolverView { scope: LocalFileSystemScope::Host, current_directory: None })
    } else {
        match spec_snapshot(fs, path, operation, process) {
            Err(e) => Err(e),
            Ok(c) => if is_valid_current_directory(c) {
                Ok(LocalPathResolverView { scope: fs.scope, current_directory: Some(c) })
            } else {
                Err(
                    LocalFileErrorView {
                        operation,
                        path: Some(c),
                        ..spec_resolve_error(spec_bad_current_directory_reason())
                    },
                )
            },
        }
    }
}

/// The resolution of an operation path, with the operation, the path and
/// the snapshot attached to a rejection.
pub open spec fn spec_resolve_operation_path(
    resolver: LocalPathResolverView,
    path: Seq<u8>,
    operation: LocalFileOperation,
) -> Result<LocalNamespacePathView, LocalFileErrorView> {
    match spec_resolve(resolver.scope, resolver.current_directory, path) {
        Ok(v) => Ok(v),
        Err(reason) => Err(
            with_opt_current_directory(
                LocalFileErrorView { operation, path: Some(path), ..spec_resolve_error(reason) },
                resolver.current_directory,
            ),
        ),
    }
}

/// Whether a resolved path is the root of a Rooted namespace.
pub open spec fn spec_is_root_operand(scope: LocalFileSystemScope, path: LocalNamespacePathView) -> bool {
    scope == LocalFileSystemScope::Rooted && path.authority_relative.len() == 0
}

/// The rejection of removing or replacing the Rooted virtual root.
pub open spec fn spec_root_operand_error(
    path: LocalNamespacePathView,
    operation: LocalFileOperation,
    current_directory: Option<Seq<u8>>,
) -> LocalFileErrorView {
    with_opt_current_directory(
        LocalFileErrorView {
            path: Some(path.namespace_absolute),
            ..crate::local_file_system_validation::reasoned_error(
                LocalFileErrorKind::InvalidPath,
                operation,
                "the Rooted virtual root cannot be removed or replaced"@,
            )
        },
        current_directory,
    )
}

/// The rejection of a directory-qualified path used as a file.
pub open spec fn spec_directory_qualified_error(
    path: LocalNamespacePathView,
    operation: LocalFileOperation,
    current_directory: Option<Seq<u8>>,
) -> LocalFileErrorView {
    with_opt_current_directory(
        LocalFileErrorView {
            path: Some(path.namespace_absolute),
            ..crate::local_file_system_validation::reasoned_error(
                LocalFileErrorKind::InvalidPath,
                operation,
                "a directory-qualified path cannot be used as a file"@,
            )
        },
        current_directory,
    )
}

/// A native failure of an operation on `path`, with the operation, the
/// path, the snapshot and the second operand attached.
pub open spec fn spec_operation_error(
    error: LocalFileErrorView,
    operation: LocalFileOperation,
    path: Seq<u8>,
    target: Option<Seq<u8>>,
    current_directory: Option<Seq<u8>>,
) -> LocalFileErrorView {
    crate::local_file_system_validation::with_opt_target(
        with_opt_current_directory(LocalFileErrorView { operation, path: Some(path), ..error }, current_directory),
        target,
    )
}

/// Attaches the operation, its path, the current-directory snapshot and the
/// second operand to a native failure.
pub fn operation_error(
    error: LocalFileError,
    operation: LocalFileOperation,
    path: &[u8],
    target: Option<&[u8]>,
    current_directory: Option<&[u8]>,
) -> (result: LocalFileError)
    ensures
        result@ == spec_operation_error(error@, operation, path@, opt_path(target), opt_path(current_directory)),
{
    let error = with_current_directory(error.with_operation(operation).with_path(copy_bytes(path)), current_directory);
    crate::local_file_system_validation::attach_target(error, target)
}

/// The path reported for a failed namespace change: the fallback, unless
/// publication was incomplete and the native error names a path, which is
/// reported as a namespace path.
pub open spec fn spec_operation_failure_path(
    error: LocalFileErrorView,
    scope: LocalFileSystemScope,
    fallback: Seq<u8>,
) -> Seq<u8> {
    if error.kind != LocalFileErrorKind::PublicationIncomplete {
        fallback
    } else {
        match error.path {
            None => fallback,
            Some(p) => match scope {
                LocalFileSystemScope::Host => p,
                LocalFileSystemScope::Rooted => path_push(seq![slash()], p),
            },
        }
    }
}

/// Chooses the path reported for a failed namespace change.
pub fn operation_failure_path(error: &LocalFileError, scope: LocalFileSystemScope, fallback: &[u8]) -> (path: Vec<u8>)
    ensures
        path@ == spec_operation_failure_path(error@, scope, fallback@),
{
    if error.kind() != LocalFileErrorKind::PublicationIncomplete {
        return copy_bytes(fallback);
    }
    match error.path() {
        None => copy_bytes(fallback),
        Some(p) => match scope {
            LocalFileSystemScope::Host => copy_bytes(p),
            LocalFileSystemScope::Rooted => {
                let root: [u8; 1] = [0x2fu8];
                assert(root@ =~= seq![slash()]);
                path_push_exec(&root, p)
            },
        },
    }
}

/// A prepared operation on one path, with the snapshot it was resolved
/// from and the policy it runs under.
#[derive(Debug)]
pub struct LocalOperationRequest {
    path: LocalNamespacePath,
    current_directory: Option<Vec<u8>>,
    symlink_policy: LocalSymlinkPolicy,
}

/// A prepared operation as plain values.
pub struct LocalOperationRequestView {
    pub path: LocalNamespacePathView,
    pub current_directory: Option<Seq<u8>>,
    pub symlink_policy: LocalSymlinkPolicy,
}

impl View for LocalOperationRequest {
    type V = LocalOperationRequestView;

    closed spec fn view(&self) -> LocalOperationRequestView {
        LocalOperationRequestView {
            path: self.path@,
            current_directory: match self.current_directory {
                Some(c) => Some(c@),
                None => None,
            },
            symlink_policy: self.symlink_policy,
        }
    }
}

impl LocalOperationRequest {
    /// Returns the resolved path.
    pub fn path(&self) -> (path: &LocalNamespacePath)
        ensures
            path@ == self@.path,
    {
        &self.path
    }

    /// Returns the current-directory snapshot the path was resolved from.
    pub fn current_directory(&self) -> (current: Option<&[u8]>)
        ensures
            opt_path(current) == self@.current_directory,
    {
        match &self.current_directory {
            Some(c) => Some(c.as_slice()),
            None => None,
        }
    }

    /// Returns the symbolic-link policy of the operation.
    pub fn symlink_policy(&self) -> (policy: LocalSymlinkPolicy)
        ensures
            policy == self@.symlink_policy,
    {
        self.symlink_policy
    }
}

/// The preparation of an operation on `path`: resolution from the
/// operation's snapshot, then the rejection of the Rooted root and of a
/// directory-qualified file when the operation asks for them.
pub open spec fn spec_prepare(
    fs: LocalFileSystemView,
    path: Seq<u8>,
    operation: LocalFileOperation,
    process: Result<Seq<u8>, LocalIoErrorView>,
    reject_root: bool,
    reject_directory: bool,
) -> Result<LocalOperationRequestView, LocalFileErrorView> {
    match spec_resolver_for(fs, path, !is_absolute(path), operation, process) {
        Err(e) => Err(e),
        Ok(r) => match spec_resolve_operation_path(r, path, operation) {
            Err(e) => Err(e),
            Ok(v) => if reject_root && spec_is_root_operand(fs.scope, v) {
                Err(spec_root_operand_error(v, operation, r.current_directory))
            } else if reject_directory && v.directory_required {
                Err(spec_directory_qualified_error(v, operation, r.current_directory))
            } else {
                Ok(
                    LocalOperationRequestView {
                        path: v,
                        current_directory: r.current_directory,
                        symlink_policy: fs.symlink_policy,
                    },
                )
            },
        },
    }
}

/// The outcome of a preparation as plain values.
pub open spec fn request_result(res: LocalResult<LocalOperationRequest>) -> Result<
    LocalOperationRequestView,
    LocalFileErrorView,
> {
    match res {
        Ok(r) => Ok(r@),
        Err(e) => Err(e@),
    }
}

impl LocalFileSystem {
    /// Creates the resolver of one operation; `needs_directory` asks for a
    /// current-directory snapshot even on the host.
    fn resolver_for(
        &self,
        path: &[u8],
        needs_directory: bool,
        operation: LocalFileOperation,
        process: Result<Vec<u8>, LocalIoError>,
    ) -> (res: LocalResult<LocalPathResolver>)
        ensures
            match spec_resolver_for(self@, path@, needs_directory, operation, process_view(process)) {
                Ok(v) => (res matches Ok(r) && r@ == v),
                Err(e) => (res matches Err(r) && r@ == e),
            },
    {
        if self.scope == LocalFileSystemScope::Host && !needs_directory {
            return Ok(LocalPathResolver::absolute_host());
        }
        let snapshot: Vec<u8> = match &self.current_directory {
            Some(c) => copy_bytes(c.as_slice()),
            None => match process {
                Ok(p) => p,
                Err(e) => {
                    return Err(LocalFileError::from_io(operation, Some(copy_bytes(path)), None, e));
                },
            },
        };
        match LocalPathResolver::new(self.scope, snapshot.as_slice()) {
            Ok(r) => Ok(r),
            Err(e) => Err(e.with_operation(operation)),
        }
    }

    /// Resolves an operation path, attaching the operation, the path and the
    /// snapshot to a rejection.
    fn resolve_operation_path(
        resolver: &LocalPathResolver,
        path: &[u8],
        operation: LocalFileOperation,
    ) -> (res: LocalResult<LocalNamespacePath>)
        requires
            crate::local_namespace::resolver_wf(resolver@),
        ensures
            match spec_resolve_operation_path(resolver@, path@, operation) {
                Ok(v) => (res matches Ok(r) && r@ == v),
                Err(e) => (res matches Err(r) && r@ == e),
            },
    {
        match resolver.resolve(path) {
            Ok(v) => Ok(v),
            Err(error) => Err(
                with_current_directory(
                    error.with_operation(operation).with_path(copy_bytes(path)),
                    resolver.current_directory(),
                ),
            ),
        }
    }

    /// Reports whether a resolved path is the Rooted virtual root.
    pub fn is_root_operand(&self, path: &LocalNamespacePath) -> (res: bool)
        ensures
            res == spec_is_root_operand(self@.scope, path@),
    {
        self.scope == LocalFileSystemScope::Rooted && path.authority_relative().len() == 0
    }

    /// Rejects an operation that may remove or replace the Rooted virtual
    /// root.
    pub fn reject_root_operand(
        &self,
        path: &LocalNamespacePath,
        operation: LocalFileOperation,
        current_directory: Option<&[u8]>,
    ) -> (res: LocalResult<()>)
        ensures
            problem_of(res) == if spec_is_root_operand(self@.scope, path@) {
                Some(spec_root_operand_error(path@, operation, opt_path(current_directory)))
            } else {
                None
            },
    {
        if !self.is_root_operand(path) {
            return Ok(());
        }
        let error = LocalFileError::new(LocalFileErrorKind::InvalidPath, operation).with_reason(
            "the Rooted virtual root cannot be removed or replaced",
        ).with_path(copy_bytes(path.namespace_absolute()));
        Err(with_current_directory(error, current_directory))
    }

    /// Rejects a directory-qualified path used as a file.
    pub fn reject_directory_qualified_file(
        path: &LocalNamespacePath,
        operation: LocalFileOperation,
        current_directory: Option<&[u8]>,
    ) -> (res: LocalResult<()>)
        ensures
            problem_of(res) == if path@.directory_required {
                Some(spec_directory_qualified_error(path@, operation, opt_path(current_directory)))
            } else {
                None
            },
    {
        if !path.directory_required() {
            return Ok(());
        }
        let error = LocalFileError::new(LocalFileErrorKind::InvalidPath, operation).with_reason(
            "a directory-qualified path cannot be used as a file",
        ).with_path(copy_bytes(path.namespace_absolute()));
        Err(with_current_directory(error, current_directory))
    }

    /// Enforces directory-qualified syntax against the entry's native kind:
    /// a path written as a directory must name one. `kind` is the native
    /// lookup of the entry, consulted only for such a path.
    pub fn validate_directory_requirement(
        path: &LocalNamespacePath,
        operation: LocalFileOperation,
        current_directory: Option<&[u8]>,
        kind: LocalResult<LocalFileKind>,
    ) -> (res: LocalResult<()>)
        ensures
            problem_of(res) == if !path@.directory_required {
                None
            } else {
                match kind {
                    Err(e) => Some(
                        spec_operation_error(
                            e@,
                            operation,
                            path@.namespace_absolute,
                            None,
                            opt_path(current_directory),
                        ),
                    ),
                    Ok(k) => if k == LocalFileKind::Directory {
                        None
                    } else {
                        Some(
                            with_opt_current_directory(
                                LocalFileErrorView {
                                    path: Some(path@.namespace_absolute),
                                    ..crate::local_file_error::spec_bare_error(
                                        LocalFileErrorKind::NotDirectory,
                                        operation,
                                    )
                                },
                                opt_path(current_directory),
                            ),
                        )
                    },
                }
            },
    {
        if !path.directory_required() {
            return Ok(());
        }
        match kind {
            Err(e) => Err(operation_error(e, operation, path.namespace_absolute(), None, current_directory)),
            Ok(k) => {
                if k == LocalFileKind::Directory {
                    Ok(())
                } else {
                    let error = LocalFileError::new(LocalFileErrorKind::NotDirectory, operation).with_path(
                        copy_bytes(path.namespace_absolute()),
                    );
                    Err(with_current_directory(error, current_directory))
                }
            },
        }
    }

    /// Prepares an operation on `path`: resolution from the operation's
    /// snapshot, then the requested rejections. A prepared path is a
    /// normalized absolute namespace path.
    fn prepare(
        &self,
        path: &[u8],
        operation: LocalFileOperation,
        process: Result<Vec<u8>, LocalIoError>,
        reject_root: bool,
        reject_directory: bool,
    ) -> (res: LocalResult<LocalOperationRequest>)
        ensures
            request_result(res) == spec_prepare(
                self@,
                path@,
                operation,
                process_view(process),
                reject_root,
                reject_directory,
            ),
            res matches Ok(r) ==> is_valid_current_directory(r@.path.namespace_absolute),
    {
        proof {
            use_type_invariant(self);
        }
        let resolver = match self.resolver_for(path, !is_absolute_exec(path), operation, process) {
            Ok(r) => r,
            Err(e) => return Err(e),
        };
        let resolved = match Self::resolve_operation_path(&resolver, path, operation) {
            Ok(v) => v,
            Err(e) => return Err(e),
        };
        proof {
            lemma_resolution_stays_normal(resolver@.scope, resolver@.current_directory, path@);
        }
        if reject_root {
            match self.reject_root_operand(&resolved, operation, resolver.current_directory()) {
                Err(e) => return Err(e),
                Ok(()) => {},
            }
        }
        if reject_directory {
            match Self::reject_directory_qualified_file(&resolved, operation, resolver.current_directory()) {
                Err(e) => return Err(e),
                Ok(()) => {},
            }
        }
        let current_directory = match resolver.current_directory() {
            Some(c) => Some(copy_bytes(c)),
            None => None,
        };
        Ok(LocalOperationRequest { path: resolved, current_directory, symlink_policy: self.symlink_policy })
    }
}

// ---------------------------------------------------------------------------
// Prepared operations
// ---------------------------------------------------------------------------

/// The preparation of a listing: the prepared path, then the listing
/// options checked against it.
pub open spec fn spec_list_plan(
    fs: LocalFileSystemView,
    path: Seq<u8>,
    options: LocalListOptionsView,
    process: Result<Seq<u8>, LocalIoErrorView>,
    deadline_fits: bool,
) -> Result<LocalOperationRequestView, LocalFileErrorView> {
    match spec_prepare(fs, path, LocalFileOperation::List, process, false, false) {
        Err(e) => Err(e),
        Ok(r) => match spec_list_options_problem(
            fs.scope,
            fs.symlink_policy,
            options,
            Some(r.path.namespace_absolute),
            deadline_fits,
        ) {
            Some(e) => Err(with_opt_current_directory(e, r.current_directory)),
            None => Ok(r),
        },
    }
}

/// What creating a directory comes to: nothing to do for an existing Rooted
/// root that may exist, or the creation of a prepared path.
#[derive(Debug)]
pub enum LocalCreateDirectoryPlan {
    /// The directory is the Rooted root, which already exists.
    Existing,
    /// The directory is to be created natively.
    Create(LocalOperationRequest),
}

/// The outcome of preparing a directory creation as plain values: `None`
/// for an existing root.
pub open spec fn create_plan_result(res: LocalResult<LocalCreateDirectoryPlan>) -> Result<
    Option<LocalOperationRequestView>,
    LocalFileErrorView,
> {
    match res {
        Ok(LocalCreateDirectoryPlan::Existing) => Ok(None),
        Ok(LocalCreateDirectoryPlan::Create(r)) => Ok(Some(r@)),
        Err(e) => Err(e@),
    }
}

/// The preparation of a directory creation: the Rooted root already
/// exists, which is accepted only when existing directories are.
pub open spec fn spec_create_directory_plan(
    fs: LocalFileSystemView,
    path: Seq<u8>,
    options: LocalCreateDirectoryOptionsView,
    process: Result<Seq<u8>, LocalIoErrorView>,
) -> Result<Option<LocalOperationRequestView>, LocalFileErrorView> {
    match spec_prepare(fs, path, LocalFileOperation::CreateDirectory, process, false, false) {
        Err(e) => Err(e),
        Ok(r) => if spec_is_root_operand(fs.scope, r.path) {
            if options.exists_ok {
                Ok(None)
            } else {
                Err(
                    with_opt_current_directory(
                        LocalFileErrorView {
                            path: Some(r.path.namespace_absolute),
                            ..crate::local_file_error::spec_bare_error(
                                LocalFileErrorKind::AlreadyExists,
                                LocalFileOperation::CreateDirectory,
                            )
                        },
                        r.current_directory,
                    ),
                )
            }
        } else {
            Ok(Some(r))
        },
    }
}

/// The preparation of reading a prefix: the prepared path, which must not
/// be directory-qualified when it is opened.
pub open spec fn spec_read_plan(
    fs: LocalFileSystemView,
    path: Seq<u8>,
    process: Result<Seq<u8>, LocalIoErrorView>,
) -> Result<LocalOperationRequestView, LocalFileErrorView> {
    match spec_prepare(fs, path, LocalFileOperation::Read, process, false, false) {
        Err(e) => Err(e),
        Ok(r) => if r.path.directory_required {
            Err(spec_directory_qualified_error(r.path, LocalFileOperation::OpenReader, r.current_directory))
        } else {
            Ok(r)
        },
    }
}

/// The preparation of opening a reader: the path is resolved, and a
/// directory-qualified one is refused.
pub open spec fn spec_open_reader_plan(
    fs: LocalFileSystemView,
    path: Seq<u8>,
    process: Result<Seq<u8>, LocalIoErrorView>,
) -> Result<LocalOperationRequestView, LocalFileErrorView> {
    match spec_prepare(fs, path, LocalFileOperation::OpenReader, process, false, false) {
        Err(e) => Err(e),
        Ok(r) => if r.path.directory_required {
            Err(spec_directory_qualified_error(r.path, LocalFileOperation::OpenReader, r.current_directory))
        } else {
            Ok(r)
        },
    }
}

/// The preparation of creating a temporary entry: the attempt limit, then
/// the parent (the current directory when there is none).
pub open spec fn spec_temp_plan(
    fs: LocalFileSystemView,
    parent: Option<Seq<u8>>,
    max_attempts: Option<usize>,
    operation: LocalFileOperation,
    process: Result<Seq<u8>, LocalIoErrorView>,
) -> Result<LocalOperationRequestView, LocalFileErrorView> {
    match crate::local_file_system_validation::spec_temp_attempts_problem(max_attempts, operation) {
        Some(e) => Err(with_opt_current_directory(e, fs.current_directory)),
        None => spec_prepare(
            fs,
            match parent {
                Some(p) => p,
                None => Seq::empty(),
            },
            operation,
            process,
            false,
            false,
        ),
    }
}

/// The outcome of completing a metadata query: a native failure gets its
/// context, and an entry that a directory-qualified path names must be a
/// directory.
pub open spec fn spec_finish_metadata(
    request: LocalOperationRequestView,
    native: Result<LocalFileKind, LocalFileErrorView>,
) -> Option<LocalFileErrorView> {
    match native {
        Err(e) => Some(
            spec_operation_error(
                e,
                LocalFileOperation::Metadata,
                request.path.namespace_absolute,
                None,
                request.current_directory,
            ),
        ),
        Ok(kind) => if request.path.directory_required && kind != LocalFileKind::Directory {
            Some(
                with_opt_current_directory(
                    LocalFileErrorView {
                        path: Some(request.path.namespace_absolute),
                        ..crate::local_file_error::spec_bare_error(
                            LocalFileErrorKind::NotDirectory,
                            LocalFileOperation::Metadata,
                        )
                    },
                    request.current_directory,
                ),
            )
        } else {
            None
        },
    }
}

/// The number of bytes to read next while reading a prefix of at most
/// `max_bytes`: what is missing, bounded by the buffer.
pub open spec fn spec_prefix_chunk_len(collected: nat, max_bytes: nat, buffer_len: nat) -> nat {
    if max_bytes - collected < buffer_len {
        (max_bytes - collected) as nat
    } else {
        buffer_len
    }
}

/// The number of bytes to read next while reading a prefix.
pub fn prefix_chunk_len(collected: usize, max_bytes: usize, buffer_len: usize) -> (len: usize)
    requires
        collected <= max_bytes,
    ensures
        len == spec_prefix_chunk_len(collected as nat, max_bytes as nat, buffer_len as nat),
{
    let missing = max_bytes - collected;
    if missing < buffer_len {
        missing
    } else {
        buffer_len
    }
}

/// The bytes collected while reading a prefix of at most `max_bytes` after
/// one more chunk arrives: the chunk is appended and the result cut to the
/// limit. Reading stops at the end of the content (an empty chunk) or once
/// the limit is reached.
pub open spec fn spec_prefix_step(collected: Seq<u8>, max_bytes: nat, chunk: Seq<u8>) -> (Seq<u8>, bool) {
    let joined = collected + chunk;
    let next = if joined.len() <= max_bytes {
        joined
    } else {
        joined.take(max_bytes as int)
    };
    (next, chunk.len() == 0 || next.len() >= max_bytes)
}

/// Starts reading a prefix of at most `max_bytes`: nothing is collected yet,
/// and nothing is to be read at all when the limit is zero.
pub fn read_prefix_start(max_bytes: usize) -> (start: (Vec<u8>, bool))
    ensures
        start.0@ == Seq::<u8>::empty(),
        start.1 == (max_bytes == 0),
{
    (Vec::new(), max_bytes == 0)
}

/// Takes one chunk read while reading a prefix of at most `max_bytes`: it is
/// appended to the collected bytes, which are cut to the limit, and the
/// result says whether reading is done.
pub fn read_prefix_step(collected: &mut Vec<u8>, max_bytes: usize, chunk: &[u8]) -> (done: bool)
    requires
        old(collected)@.len() <= max_bytes,
    ensures
        final(collected)@ == spec_prefix_step(old(collected)@, max_bytes as nat, chunk@).0,
        done == spec_prefix_step(old(collected)@, max_bytes as nat, chunk@).1,
        final(collected)@.len() <= max_bytes,
{
    let ghost start = collected@;
    let mut i: usize = 0;
    while i < chunk.len() && collected.len() < max_bytes
        invariant
            i <= chunk@.len(),
            start.len() <= max_bytes,
            collected@ == start + chunk@.take(i as int),
            collected@.len() <= max_bytes,
        decreases chunk@.len() - i,
    {
        collected.push(chunk[i]);
        assert(chunk@.take(i + 1) =~= chunk@.take(i as int).push(chunk@[i as int]));
        i = i + 1;
    }
    proof {
        let joined = start + chunk@;
        if joined.len() <= max_bytes {
            assert(i == chunk@.len());
            assert(chunk@.take(i as int) =~= chunk@);
        } else {
            assert(collected@.len() == max_bytes);
            assert(collected@ =~= joined.take(max_bytes as int));
        }
    }
    chunk.len() == 0 || collected.len() >= max_bytes
}

/// Reading a prefix chunk by chunk yields the content's first bytes: when
/// the bytes collected so far are the content's first ones and the next
/// chunk holds the content's next bytes (empty only at its end), the bytes
/// collected after the step are again the content's first ones and within
/// the limit; and once reading is done they are exactly the first
/// `min(max_bytes, content.len())` bytes of the content.
pub proof fn lemma_prefix_steps_read_the_prefix(content: Seq<u8>, collected: Seq<u8>, max_bytes: nat, chunk: Seq<u8>)
    requires
        collected.len() < max_bytes,
        collected == content.take(collected.len() as int),
        collected.len() + chunk.len() <= content.len(),
        chunk == content.subrange(collected.len() as int, (collected.len() + chunk.len()) as int),
        chunk.len() == 0 ==> collected.len() == content.len(),
    ensures
        ({
            let (next, done) = spec_prefix_step(collected, max_bytes, chunk);
            &&& next.len() <= max_bytes
            &&& next == content.take(next.len() as int)
            &&& done ==> next == content.take(if content.len() < max_bytes {
                content.len() as int
            } else {
                max_bytes as int
            })
        }),
{
    let joined = collected + chunk;
    assert(joined =~= content.take(joined.len() as int));
    if joined.len() > max_bytes {
        assert(joined.take(max_bytes as int) =~= content.take(max_bytes as int));
    }
}

impl LocalFileSystem {
    /// Prepares listing `path` with the default listing options.
    pub fn list(&self, path: &[u8], process: Result<Vec<u8>, LocalIoError>) -> (res: LocalResult<
        LocalOperationRequest,
    >)
        ensures
            request_result(res) == spec_list_plan(
                self@,
                path@,
                self@.defaults.list,
                process_view(process),
                true,
            ) || request_result(res) == spec_list_plan(
                self@,
                path@,
                self@.defaults.list,
                process_view(process),
                false,
            ),
    {
        self.list_with_options(path, &self.defaults.list, process)
    }

    /// Prepares listing `path` with `options`. Whether a deadline fits the
    /// clock is read from the clock.
    pub fn list_with_options(
        &self,
        path: &[u8],
        options: &LocalListOptions,
        process: Result<Vec<u8>, LocalIoError>,
    ) -> (res: LocalResult<LocalOperationRequest>)
        ensures
            request_result(res) == spec_list_plan(self@, path@, options@, process_view(process), true)
                || request_result(res) == spec_list_plan(
                self@,
                path@,
                options@,
                process_view(process),
                false,
            ),
    {
        let request = match self.prepare(path, LocalFileOperation::List, process, false, false) {
            Ok(r) => r,
            Err(e) => return Err(e),
        };
        match validate_list_options(
            self.scope,
            self.symlink_policy,
            options,
            Some(request.path.namespace_absolute()),
        ) {
            Err(e) => Err(with_current_directory(e, request.current_directory())),
            Ok(()) => Ok(request),
        }
    }

    /// Prepares creating the directory `path` with the default options.
    pub fn create_directory(&self, path: &[u8], process: Result<Vec<u8>, LocalIoError>) -> (res: LocalResult<
        LocalCreateDirectoryPlan,
    >)
        ensures
            create_plan_result(res) == spec_create_directory_plan(
                self@,
                path@,
                self@.defaults.create_directory,
                process_view(process),
            ),
    {
        self.create_directory_with_options(path, &self.defaults.create_directory, process)
    }

    /// Prepares creating the directory `path` with `options`.
    pub fn create_directory_with_options(
        &self,
        path: &[u8],
        options: &LocalCreateDirectoryOptions,
        process: Result<Vec<u8>, LocalIoError>,
    ) -> (res: LocalResult<LocalCreateDirectoryPlan>)
        ensures
            create_plan_result(res) == spec_create_directory_plan(self@, path@, options@, process_view(process)),
    {
        let request = match self.prepare(path, LocalFileOperation::CreateDirectory, process, false, false) {
            Ok(r) => r,
            Err(e) => return Err(e),
        };
        if self.is_root_operand(&request.path) {
            if options.exists_ok() {
                return Ok(LocalCreateDirectoryPlan::Existing);
            }
            let error = LocalFileError::new(LocalFileErrorKind::AlreadyExists, LocalFileOperation::CreateDirectory)
                .with_path(copy_bytes(request.path.namespace_absolute()));
            return Err(with_current_directory(error, request.current_directory()));
        }
        Ok(LocalCreateDirectoryPlan::Create(request))
    }

    /// Prepares deleting the file `path` with the default options.
    pub fn delete_file(&self, path: &[u8], process: Result<Vec<u8>, LocalIoError>) -> (res: LocalResult<
        LocalOperationRequest,
    >)
        ensures
            request_result(res) == spec_prepare(
                self@,
                path@,
                LocalFileOperation::DeleteFile,
                process_view(process),
                true,
                true,
            ),
    {
        self.delete_file_with_options(path, &self.defaults.delete, process)
    }

    /// Prepares deleting the file `path`; neither the Rooted root nor a
    /// directory-qualified path may be deleted as a file. The options are
    /// passed to the native deletion.
    pub fn delete_file_with_options(
        &self,
        path: &[u8],
        options: &LocalDeleteOptions,
        process: Result<Vec<u8>, LocalIoError>,
    ) -> (res: LocalResult<LocalOperationRequest>)
        ensures
            request_result(res) == spec_prepare(
                self@,
                path@,
                LocalFileOperation::DeleteFile,
                process_view(process),
                true,
                true,
            ),
    {
        self.prepare(path, LocalFileOperation::DeleteFile, process, true, true)
    }

    /// Prepares deleting the directory `path` with the default options.
    pub fn delete_directory(&self, path: &[u8], process: Result<Vec<u8>, LocalIoError>) -> (res: LocalResult<
        LocalOperationRequest,
    >)
        ensures
            request_result(res) == spec_prepare(
                self@,
                path@,
                LocalFileOperation::DeleteDirectory,
                process_view(process),
                true,
                false,
            ),
    {
        self.delete_directory_with_options(path, &self.defaults.delete, process)
    }

    /// Prepares deleting the directory `path`; the Rooted root may not be
    /// deleted. The options are passed to the native deletion.
    pub fn delete_directory_with_options(
        &self,
        path: &[u8],
        options: &LocalDeleteOptions,
        process: Result<Vec<u8>, LocalIoError>,
    ) -> (res: LocalResult<LocalOperationRequest>)
        ensures
            request_result(res) == spec_prepare(
                self@,
                path@,
                LocalFileOperation::DeleteDirectory,
                process_view(process),
                true,
                false,
            ),
    {
        self.prepare(path, LocalFileOperation::DeleteDirectory, process, true, false)
    }

    /// Prepares reading the metadata of `path`.
    pub fn metadata(&self, path: &[u8], process: Result<Vec<u8>, LocalIoError>) -> (res: LocalResult<
        LocalOperationRequest,
    >)
        ensures
            request_result(res) == spec_prepare(
                self@,
                path@,
                LocalFileOperation::Metadata,
                process_view(process),
                false,
                false,
            ),
    {
        self.prepare(path, LocalFileOperation::Metadata, process, false, false)
    }

    /// Completes a metadata query with its native outcome.
    pub fn finish_metadata(request: &LocalOperationRequest, native: LocalResult<LocalFileMetadata>) -> (res:
        LocalResult<LocalFileMetadata>)
        ensures
            match native {
                Err(e) => (res matches Err(r) && Some(r@) == spec_finish_metadata(request@, Err(e@))),
                Ok(m) => match spec_finish_metadata(request@, Ok(m@.kind)) {
                    None => (res matches Ok(r) && r@ == m@),
                    Some(e) => (res matches Err(r) && r@ == e),
                },
            },
    {
        match native {
            Err(e) => Err(
                operation_error(
                    e,
                    LocalFileOperation::Metadata,
                    request.path.namespace_absolute(),
                    None,
                    request.current_directory(),
                ),
            ),
            Ok(metadata) => {
                if request.path.directory_required() && metadata.kind() != LocalFileKind::Directory {
                    let error = LocalFileError::new(LocalFileErrorKind::NotDirectory, LocalFileOperation::Metadata)
                        .with_path(copy_bytes(request.path.namespace_absolute()));
                    Err(with_current_directory(error, request.current_directory()))
                } else {
                    Ok(metadata)
                }
            },
        }
    }

    /// Prepares reading at most `max_bytes` from the start of `path` with
    /// the default read options.
    pub fn read_prefix(&self, path: &[u8], max_bytes: usize, process: Result<Vec<u8>, LocalIoError>) -> (res:
        LocalResult<LocalOperationRequest>)
        ensures
            request_result(res) == spec_read_plan(self@, path@, process_view(process)),
    {
        self.read_prefix_with_options(path, max_bytes, &self.defaults.read, process)
    }

    /// Prepares opening a reader on `path` with the default reader options.
    pub fn open_reader(&self, path: &[u8], process: Result<Vec<u8>, LocalIoError>) -> (res: LocalResult<
        LocalOperationRequest,
    >)
        ensures
            request_result(res) == spec_open_reader_plan(self@, path@, process_view(process)),
    {
        self.open_reader_with_options(path, &self.defaults.read, process)
    }

    /// Prepares opening a reader on `path`; a directory-qualified path
    /// cannot be opened as a file. The options are passed to the native
    /// reader.
    pub fn open_reader_with_options(
        &self,
        path: &[u8],
        options: &LocalReadOptions,
        process: Result<Vec<u8>, LocalIoError>,
    ) -> (res: LocalResult<LocalOperationRequest>)
        ensures
            request_result(res) == spec_open_reader_plan(self@, path@, process_view(process)),
    {
        let request = match self.prepare(path, LocalFileOperation::OpenReader, process, false, false) {
            Ok(r) => r,
            Err(e) => return Err(e),
        };
        match Self::reject_directory_qualified_file(
            &request.path,
            LocalFileOperation::OpenReader,
            request.current_directory(),
        ) {
            Err(e) => Err(e),
            Ok(()) => Ok(request),
        }
    }

    /// Prepares reading at most `max_bytes` from the start of `path`; a
    /// directory-qualified path cannot be opened as a file. The options are
    /// passed to the native reader.
    pub fn read_prefix_with_options(
        &self,
        path: &[u8],
        max_bytes: usize,
        options: &LocalReadOptions,
        process: Result<Vec<u8>, LocalIoError>,
    ) -> (res: LocalResult<LocalOperationRequest>)
        ensures
            request_result(res) == spec_read_plan(self@, path@, process_view(process)),
    {
        let request = match self.prepare(path, LocalFileOperation::Read, process, false, false) {
            Ok(r) => r,
            Err(e) => return Err(e),
        };
        match Self::reject_directory_qualified_file(
            &request.path,
            LocalFileOperation::OpenReader,
            request.current_directory(),
        ) {
            Err(e) => Err(e),
            Ok(()) => Ok(request),
        }
    }

    /// The failure of a native read while reading a prefix, with its
    /// context.
    pub fn read_failure(request: &LocalOperationRequest, source: LocalIoError) -> (error: LocalFileError)
        ensures
            error@ == with_opt_current_directory(
                spec_io_error(LocalFileOperation::Read, Some(request@.path.namespace_absolute), None, source@),
                request@.current_directory,
            ),
    {
        with_current_directory(
            LocalFileError::from_io(
                LocalFileOperation::Read,
                Some(copy_bytes(request.path.namespace_absolute())),
                None,
                source,
            ),
            request.current_directory(),
        )
    }

    /// Prepares opening a writer on `path` with the default write options.
    pub fn open_writer(&self, path: &[u8], process: Result<Vec<u8>, LocalIoError>) -> (res: LocalResult<
        LocalOperationRequest,
    >)
        ensures
            request_result(res) == spec_prepare(
                self@,
                path@,
                LocalFileOperation::OpenWriter,
                process_view(process),
                true,
                true,
            ),
    {
        self.open_writer_with_options(path, &self.defaults.write, process)
    }

    /// Prepares opening a writer on `path`; neither the Rooted root nor a
    /// directory-qualified path may be written as a file. The options are
    /// passed to the native writer.
    pub fn open_writer_with_options(
        &self,
        path: &[u8],
        options: &LocalWriteOptions,
        process: Result<Vec<u8>, LocalIoError>,
    ) -> (res: LocalResult<LocalOperationRequest>)
        ensures
            request_result(res) == spec_prepare(
                self@,
                path@,
                LocalFileOperation::OpenWriter,
                process_view(process),
                true,
                true,
            ),
    {
        self.prepare(path, LocalFileOperation::OpenWriter, process, true, true)
    }

    fn prepare_temp(
        &self,
        parent: Option<&[u8]>,
        max_attempts: Option<usize>,
        operation: LocalFileOperation,
        process: Result<Vec<u8>, LocalIoError>,
    ) -> (res: LocalResult<LocalOperationRequest>)
        ensures
            request_result(res) == spec_temp_plan(self@, opt_path(parent), max_attempts, operation, process_view(process)),
    {
        match crate::local_file_system_validation::validate_temp_attempts(max_attempts, operation) {
            Err(e) => return Err(with_current_directory(e, self.virtual_current_directory())),
            Ok(()) => {},
        }
        match parent {
            Some(p) => self.prepare(p, operation, process, false, false),
            None => {
                let empty: [u8; 0] = [];
                assert(empty@ =~= Seq::<u8>::empty());
                self.prepare(&empty, operation, process, false, false)
            },
        }
    }

    /// Prepares creating a temporary file with the default options.
    pub fn create_temp_file(&self, process: Result<Vec<u8>, LocalIoError>) -> (res: LocalResult<
        LocalOperationRequest,
    >)
        ensures
            request_result(res) == spec_temp_plan(
                self@,
                self@.defaults.temp_file.parent,
                self@.defaults.temp_file.max_attempts,
                LocalFileOperation::CreateTempFile,
                process_view(process),
            ),
    {
        self.create_temp_file_with_options(&self.defaults.temp_file, process)
    }

    /// Prepares creating a temporary file in the parent of `options`.
    pub fn create_temp_file_with_options(
        &self,
        options: &LocalTempFileOptions,
        process: Result<Vec<u8>, LocalIoError>,
    ) -> (res: LocalResult<LocalOperationRequest>)
        ensures
            request_result(res) == spec_temp_plan(
                self@,
                options@.parent,
                options@.max_attempts,
                LocalFileOperation::CreateTempFile,
                process_view(process),
            ),
    {
        self.prepare_temp(options.parent(), options.max_attempts(), LocalFileOperation::CreateTempFile, process)
    }

    /// Prepares creating a temporary directory with the default options.
    pub fn create_temp_directory(&self, process: Result<Vec<u8>, LocalIoError>) -> (res: LocalResult<
        LocalOperationRequest,
    >)
        ensures
            request_result(res) == spec_temp_plan(
                self@,
                self@.defaults.temp_directory.parent,
                self@.defaults.temp_directory.max_attempts,
                LocalFileOperation::CreateTempDirectory,
                process_view(process),
            ),
    {
        self.create_temp_directory_with_options(&self.defaults.temp_directory, process)
    }

    /// Prepares creating a temporary directory in the parent of `options`.
    pub fn create_temp_directory_with_options(
        &self,
        options: &LocalTempDirectoryOptions,
        process: Result<Vec<u8>, LocalIoError>,
    ) -> (res: LocalResult<LocalOperationRequest>)
        ensures
            request_result(res) == spec_temp_plan(
                self@,
                options@.parent,
                options@.max_attempts,
                LocalFileOperation::CreateTempDirectory,
                process_view(process),
            ),
    {
        self.prepare_temp(options.parent(), options.max_attempts(), LocalFileOperation::CreateTempDirectory, process)
    }

    /// Prepares changing the virtual current directory of a Rooted
    /// filesystem to `path`.
    pub fn current_directory_request(&self, path: &[u8], process: Result<Vec<u8>, LocalIoError>) -> (res:
        LocalResult<LocalOperationRequest>)
        ensures
            request_result(res) == spec_prepare(
                self@,
                path@,
                LocalFileOperation::SetCurrentDirectory,
                process_view(process),
                false,
                false,
            ),
            res matches Ok(r) ==> is_valid_current_directory(r@.path.namespace_absolute),
    {
        self.prepare(path, LocalFileOperation::SetCurrentDirectory, process, false, false)
    }

    /// Moves the virtual current directory of a Rooted filesystem to a
    /// prepared path once the native check that it names a directory
    /// succeeded; a failed check gets its context and changes nothing.
    pub fn set_current_directory(&mut self, request: &LocalOperationRequest, validated: LocalResult<()>) -> (res:
        LocalResult<()>)
        requires
            old(self)@.scope == LocalFileSystemScope::Rooted,
            is_valid_current_directory(request@.path.namespace_absolute),
        ensures
            match validated {
                Ok(()) => res is Ok && final(self)@ == (LocalFileSystemView {
                    current_directory: Some(request@.path.namespace_absolute),
                    ..old(self)@
                }),
                Err(e) => (res matches Err(r) && r@ == spec_operation_error(
                    e@,
                    LocalFileOperation::SetCurrentDirectory,
                    request@.path.namespace_absolute,
                    None,
                    request@.current_directory,
                )) && final(self)@ == old(self)@,
            },
    {
        proof {
            use_type_invariant(&*self);
        }
        match validated {
            Err(e) => Err(
                operation_error(
                    e,
                    LocalFileOperation::SetCurrentDirectory,
                    request.path.namespace_absolute(),
                    None,
                    request.current_directory(),
                ),
            ),
            Ok(()) => {
                self.current_directory = Some(copy_bytes(request.path.namespace_absolute()));
                Ok(())
            },
        }
    }
}

// ---------------------------------------------------------------------------
// Copies and renames
// ---------------------------------------------------------------------------

/// A prepared operation on two paths resolved from one snapshot.
#[derive(Debug)]
pub struct LocalTransferRequest {
    source: LocalNamespacePath,
    destination: LocalNamespacePath,
    current_directory: Option<Vec<u8>>,
    symlink_policy: LocalSymlinkPolicy,
}

/// A prepared two-path operation as plain values.
pub struct LocalTransferRequestView {
    pub source: LocalNamespacePathView,
    pub destination: LocalNamespacePathView,
    pub current_directory: Option<Seq<u8>>,
    pub symlink_policy: LocalSymlinkPolicy,
}

impl View for LocalTransferRequest {
    type V = LocalTransferRequestView;

    closed spec fn view(&self) -> LocalTransferRequestView {
        LocalTransferRequestView {
            source: self.source@,
            destination: self.destination@,
            current_directory: match self.current_directory {
                Some(c) => Some(c@),
                None => None,
            },
            symlink_policy: self.symlink_policy,
        }
    }
}

impl LocalTransferRequest {
    /// Returns the resolved source.
    pub fn source(&self) -> (path: &LocalNamespacePath)
        ensures
            path@ == self@.source,
    {
        &self.source
    }

    /// Returns the resolved destination.
    pub fn destination(&self) -> (path: &LocalNamespacePath)
        ensures
            path@ == self@.destination,
    {
        &self.destination
    }

    /// Returns the current-directory snapshot both paths were resolved from.
    pub fn current_directory(&self) -> (current: Option<&[u8]>)
        ensures
            opt_path(current) == self@.current_directory,
    {
        match &self.current_directory {
            Some(c) => Some(c.as_slice()),
            None => None,
        }
    }

    /// Returns the symbolic-link policy of the operation.
    pub fn symlink_policy(&self) -> (policy: LocalSymlinkPolicy)
        ensures
            policy == self@.symlink_policy,
    {
        self.symlink_policy
    }
}

/// A prepared copy: its two paths and the options it runs with.
#[derive(Debug)]
pub struct LocalCopyRequest {
    transfer: LocalTransferRequest,
    options: LocalCopyOptions,
}

impl LocalCopyRequest {
    /// Returns the two paths of the copy.
    pub fn transfer(&self) -> (transfer: &LocalTransferRequest)
        ensures
            transfer@ == self.spec_transfer(),
    {
        &self.transfer
    }

    /// Returns the options the copy runs with.
    pub fn options(&self) -> (options: &LocalCopyOptions)
        ensures
            options@ == self.spec_options(),
    {
        &self.options
    }

    /// The two paths of the copy as plain values.
    pub closed spec fn spec_transfer(&self) -> LocalTransferRequestView {
        self.transfer@
    }

    /// The options of the copy as plain values.
    pub closed spec fn spec_options(&self) -> LocalCopyOptionsView {
        self.options@
    }
}

/// A failure with the source and destination attached as its operands.
pub open spec fn with_operands(error: LocalFileErrorView, source: Seq<u8>, destination: Seq<u8>) -> LocalFileErrorView {
    LocalFileErrorView { path: Some(source), target: Some(destination), ..error }
}

/// The resolution of both operands of a two-path operation from one
/// snapshot, then the rejection of the Rooted root as either operand.
pub open spec fn spec_transfer_plan(
    fs: LocalFileSystemView,
    source: Seq<u8>,
    destination: Seq<u8>,
    operation: LocalFileOperation,
    process: Result<Seq<u8>, LocalIoErrorView>,
) -> Result<LocalTransferRequestView, LocalFileErrorView> {
    match spec_resolver_for(fs, source, !(is_absolute(source) && is_absolute(destination)), operation, process) {
        Err(e) => Err(LocalFileErrorView { target: Some(destination), ..e }),
        Ok(r) => match spec_resolve_operation_path(r, source, operation) {
            Err(e) => Err(LocalFileErrorView { target: Some(destination), ..e }),
            Ok(s) => match spec_resolve_operation_path(r, destination, operation) {
                Err(e) => Err(with_operands(e, source, destination)),
                Ok(d) => if spec_is_root_operand(fs.scope, s) {
                    Err(
                        LocalFileErrorView {
                            target: Some(d.namespace_absolute),
                            ..spec_root_operand_error(s, operation, r.current_directory)
                        },
                    )
                } else if spec_is_root_operand(fs.scope, d) {
                    Err(
                        with_operands(
                            spec_root_operand_error(d, operation, r.current_directory),
                            s.namespace_absolute,
                            d.namespace_absolute,
                        ),
                    )
                } else {
                    Ok(
                        LocalTransferRequestView {
                            source: s,
                            destination: d,
                            current_directory: r.current_directory,
                            symlink_policy: fs.symlink_policy,
                        },
                    )
                },
            },
        },
    }
}

/// The outcome of a two-path preparation as plain values.
pub open spec fn transfer_result(res: LocalResult<LocalTransferRequest>) -> Result<
    LocalTransferRequestView,
    LocalFileErrorView,
> {
    match res {
        Ok(r) => Ok(r@),
        Err(e) => Err(e@),
    }
}

/// The reason an entry-mode copy rejects directory-qualified paths.
pub open spec fn spec_entry_mode_reason() -> Seq<char> {
    "directory-qualified copy paths are incompatible with entry source mode"@
}

/// The preparation of a copy: its options are validated first, then both
/// operands are resolved, and a directory-qualified operand makes the copy
/// a tree copy unless entry mode was asked for, which is rejected.
pub open spec fn spec_copy_plan(
    fs: LocalFileSystemView,
    source: Seq<u8>,
    destination: Seq<u8>,
    options: LocalCopyOptionsView,
    process: Result<Seq<u8>, LocalIoErrorView>,
    deadline_fits: bool,
) -> Result<(LocalTransferRequestView, LocalCopyOptionsView), LocalFileErrorView> {
    match spec_copy_options_problem(
        fs.scope,
        fs.symlink_policy,
        options,
        fs.capabilities,
        Some(source),
        Some(destination),
        deadline_fits,
    ) {
        Some(e) => Err(with_opt_current_directory(with_operands(e, source, destination), fs.current_directory)),
        None => match spec_transfer_plan(fs, source, destination, LocalFileOperation::Copy, process) {
            Err(e) => Err(e),
            Ok(t) => if t.source.directory_required || t.destination.directory_required {
                match options.source_mode {
                    LocalCopySourceMode::Auto => Ok(
                        (t, LocalCopyOptionsView { source_mode: LocalCopySourceMode::Tree, ..options }),
                    ),
                    LocalCopySourceMode::Tree => Ok((t, options)),
                    LocalCopySourceMode::Entry => Err(
                        with_opt_current_directory(
                            with_operands(
                                crate::local_file_system_validation::reasoned_error(
                                    LocalFileErrorKind::NotDirectory,
                                    LocalFileOperation::Copy,
                                    spec_entry_mode_reason(),
                                ),
                                t.source.namespace_absolute,
                                t.destination.namespace_absolute,
                            ),
                            t.current_directory,
                        ),
                    ),
                }
            } else {
                Ok((t, options))
            },
        },
    }
}

/// The outcome of preparing a copy as plain values.
pub open spec fn copy_result(res: LocalResult<LocalCopyRequest>) -> Result<
    (LocalTransferRequestView, LocalCopyOptionsView),
    LocalFileErrorView,
> {
    match res {
        Ok(r) => Ok((r.spec_transfer(), r.spec_options())),
        Err(e) => Err(e@),
    }
}

/// The preparation of a rename: its options are validated first, then both
/// operands are resolved.
pub open spec fn spec_rename_plan(
    fs: LocalFileSystemView,
    source: Seq<u8>,
    destination: Seq<u8>,
    options: LocalRenameOptionsView,
    process: Result<Seq<u8>, LocalIoErrorView>,
) -> Result<LocalTransferRequestView, LocalFileErrorView> {
    match spec_rename_options_problem(options, fs.capabilities, LocalFileOperation::Rename) {
        Some(e) => Err(with_opt_current_directory(with_operands(e, source, destination), fs.current_directory)),
        None => spec_transfer_plan(fs, source, destination, LocalFileOperation::Rename, process),
    }
}

/// The checks of the operands of a prepared rename against their native
/// kinds: each directory-qualified operand must name a directory.
pub open spec fn spec_rename_operand_problem(
    request: LocalTransferRequestView,
    source_kind: Result<LocalFileKind, LocalFileErrorView>,
    destination_kind: Result<LocalFileKind, LocalFileErrorView>,
) -> Option<LocalFileErrorView> {
    match spec_directory_requirement_problem(
        request.source,
        LocalFileOperation::Rename,
        request.current_directory,
        source_kind,
    ) {
        Some(e) => Some(LocalFileErrorView { target: Some(request.destination.namespace_absolute), ..e }),
        None => match spec_directory_requirement_problem(
            request.destination,
            LocalFileOperation::Rename,
            request.current_directory,
            destination_kind,
        ) {
            Some(e) => Some(
                with_operands(e, request.source.namespace_absolute, request.destination.namespace_absolute),
            ),
            None => None,
        },
    }
}

/// The check of a path written as a directory against its native kind.
pub open spec fn spec_directory_requirement_problem(
    path: LocalNamespacePathView,
    operation: LocalFileOperation,
    current_directory: Option<Seq<u8>>,
    kind: Result<LocalFileKind, LocalFileErrorView>,
) -> Option<LocalFileErrorView> {
    if !path.directory_required {
        None
    } else {
        match kind {
            Err(e) => Some(spec_operation_error(e, operation, path.namespace_absolute, None, current_directory)),
            Ok(k) => if k == LocalFileKind::Directory {
                None
            } else {
                Some(
                    with_opt_current_directory(
                        LocalFileErrorView {
                            path: Some(path.namespace_absolute),
                            ..crate::local_file_error::spec_bare_error(LocalFileErrorKind::NotDirectory, operation)
                        },
                        current_directory,
                    ),
                )
            },
        }
    }
}

/// The plain value of a native kind lookup.
pub open spec fn kind_view(kind: LocalResult<LocalFileKind>) -> Result<LocalFileKind, LocalFileErrorView> {
    match kind {
        Ok(k) => Ok(k),
        Err(e) => Err(e@),
    }
}

impl LocalFileSystem {
    fn prepare_transfer(
        &self,
        source: &[u8],
        destination: &[u8],
        operation: LocalFileOperation,
        process: Result<Vec<u8>, LocalIoError>,
    ) -> (res: LocalResult<LocalTransferRequest>)
        ensures
            transfer_result(res) == spec_transfer_plan(self@, source@, destination@, operation, process_view(process)),
    {
        proof {
            use_type_invariant(self);
        }
        let both_absolute = is_absolute_exec(source) && is_absolute_exec(destination);
        let resolver = match self.resolver_for(source, !both_absolute, operation, process) {
            Ok(r) => r,
            Err(e) => return Err(e.with_target(copy_bytes(destination))),
        };
        let resolved_source = match Self::resolve_operation_path(&resolver, source, operation) {
            Ok(v) => v,
            Err(e) => return Err(e.with_target(copy_bytes(destination))),
        };
        let resolved_destination = match Self::resolve_operation_path(&resolver, destination, operation) {
            Ok(v) => v,
            Err(e) => return Err(e.with_path(copy_bytes(source)).with_target(copy_bytes(destination))),
        };
        match self.reject_root_operand(&resolved_source, operation, resolver.current_directory()) {
            Err(e) => return Err(e.with_target(copy_bytes(resolved_destination.namespace_absolute()))),
            Ok(()) => {},
        }
        match self.reject_root_operand(&resolved_destination, operation, resolver.current_directory()) {
            Err(e) => return Err(
                e.with_path(copy_bytes(resolved_source.namespace_absolute())).with_target(
                    copy_bytes(resolved_destination.namespace_absolute()),
                ),
            ),
            Ok(()) => {},
        }
        let current_directory = match resolver.current_directory() {
            Some(c) => Some(copy_bytes(c)),
            None => None,
        };
        Ok(
            LocalTransferRequest {
                source: resolved_source,
                destination: resolved_destination,
                current_directory,
                symlink_policy: self.symlink_policy,
            },
        )
    }

    /// Prepares copying `source` to `destination` with the default copy
    /// options.
    pub fn copy(&self, source: &[u8], destination: &[u8], process: Result<Vec<u8>, LocalIoError>) -> (res:
        LocalResult<LocalCopyRequest>)
        ensures
            copy_result(res) == spec_copy_plan(
                self@,
                source@,
                destination@,
                self@.defaults.copy,
                process_view(process),
                true,
            ) || copy_result(res) == spec_copy_plan(
                self@,
                source@,
                destination@,
                self@.defaults.copy,
                process_view(process),
                false,
            ),
    {
        self.copy_with_options(source, destination, &self.defaults.copy, process)
    }

    /// Prepares copying `source` to `destination` with `options`; every
    /// failure leaves the destination unchanged. Whether a deadline fits the
    /// clock is read from the clock.
    pub fn copy_with_options(
        &self,
        source: &[u8],
        destination: &[u8],
        options: &LocalCopyOptions,
        process: Result<Vec<u8>, LocalIoError>,
    ) -> (res: LocalResult<LocalCopyRequest>)
        ensures
            copy_result(res) == spec_copy_plan(self@, source@, destination@, options@, process_view(process), true)
                || copy_result(res) == spec_copy_plan(
                self@,
                source@,
                destination@,
                options@,
                process_view(process),
                false,
            ),
    {
        match validate_copy_options(
            self.scope,
            self.symlink_policy,
            options,
            self.capabilities,
            Some(source),
            Some(destination),
        ) {
            Err(e) => return Err(
                with_current_directory(
                    e.with_path(copy_bytes(source)).with_target(copy_bytes(destination)),
                    self.virtual_current_directory(),
                ),
            ),
            Ok(()) => {},
        }
        let transfer = match self.prepare_transfer(source, destination, LocalFileOperation::Copy, process) {
            Ok(t) => t,
            Err(e) => return Err(e),
        };
        let options = *options;
        if transfer.source.directory_required() || transfer.destination.directory_required() {
            match options.source_mode() {
                LocalCopySourceMode::Auto => Ok(LocalCopyRequest { transfer, options: options.with_tree_source() }),
                LocalCopySourceMode::Tree => Ok(LocalCopyRequest { transfer, options }),
                LocalCopySourceMode::Entry => {
                    let error = LocalFileError::new(LocalFileErrorKind::NotDirectory, LocalFileOperation::Copy)
                        .with_reason("directory-qualified copy paths are incompatible with entry source mode")
                        .with_path(copy_bytes(transfer.source.namespace_absolute()))
                        .with_target(copy_bytes(transfer.destination.namespace_absolute()));
                    Err(with_current_directory(error, transfer.current_directory()))
                },
            }
        } else {
            Ok(LocalCopyRequest { transfer, options })
        }
    }

    /// Prepares renaming `source` to `destination` with the default rename
    /// options.
    pub fn rename(&self, source: &[u8], destination: &[u8], process: Result<Vec<u8>, LocalIoError>) -> (res:
        LocalResult<LocalTransferRequest>)
        ensures
            transfer_result(res) == spec_rename_plan(
                self@,
                source@,
                destination@,
                self@.defaults.rename,
                process_view(process),
            ),
    {
        self.rename_with_options(source, destination, &self.defaults.rename, process)
    }

    /// Prepares renaming `source` to `destination` with `options`; every
    /// failure leaves both entries unchanged. The operands still need
    /// [`LocalFileSystem::check_rename_operands`] against their native kinds.
    pub fn rename_with_options(
        &self,
        source: &[u8],
        destination: &[u8],
        options: &LocalRenameOptions,
        process: Result<Vec<u8>, LocalIoError>,
    ) -> (res: LocalResult<LocalTransferRequest>)
        ensures
            transfer_result(res) == spec_rename_plan(self@, source@, destination@, options@, process_view(process)),
    {
        match validate_rename_options(options, self.capabilities, LocalFileOperation::Rename) {
            Err(e) => return Err(
                with_current_directory(
                    e.with_path(copy_bytes(source)).with_target(copy_bytes(destination)),
                    self.virtual_current_directory(),
                ),
            ),
            Ok(()) => {},
        }
        self.prepare_transfer(source, destination, LocalFileOperation::Rename, process)
    }

    /// Checks the operands of a prepared rename against their native kinds.
    pub fn check_rename_operands(
        request: &LocalTransferRequest,
        source_kind: LocalResult<LocalFileKind>,
        destination_kind: LocalResult<LocalFileKind>,
    ) -> (res: LocalResult<()>)
        ensures
            problem_of(res) == spec_rename_operand_problem(request@, kind_view(source_kind), kind_view(destination_kind)),
    {
        match Self::validate_directory_requirement(
            &request.source,
            LocalFileOperation::Rename,
            request.current_directory(),
            source_kind,
        ) {
            Err(e) => return Err(e.with_target(copy_bytes(request.destination.namespace_absolute()))),
            Ok(()) => {},
        }
        match Self::validate_directory_requirement(
            &request.destination,
            LocalFileOperation::Rename,
            request.current_directory(),
            destination_kind,
        ) {
            Err(e) => Err(
                e.with_path(copy_bytes(request.source.namespace_absolute())).with_target(
                    copy_bytes(request.destination.namespace_absolute()),
                ),
            ),
            Ok(()) => Ok(()),
        }
    }
}

// ---------------------------------------------------------------------------
// Capability probes
// ---------------------------------------------------------------------------

/// The rejection of probing an entry that is neither a regular file nor a
/// directory.
pub open spec fn spec_probe_kind_error() -> LocalIoErrorView {
    LocalIoErrorView {
        kind: crate::local_file_error::LocalIoErrorKind::InvalidInput,
        message: "capability probing requires a regular file or directory"@,
    }
}

/// Decides how a probe candidate is opened from its kind: a directory as a
/// directory (`true`), a regular file as a file (`false`); anything else is
/// refused.
pub fn probe_candidate_kind(kind: LocalFileKind) -> (res: Result<bool, LocalIoError>)
    ensures
        kind == LocalFileKind::Directory ==> res == Ok::<bool, LocalIoError>(true),
        kind == LocalFileKind::File ==> res == Ok::<bool, LocalIoError>(false),
        kind != LocalFileKind::Directory && kind != LocalFileKind::File ==> (res matches Err(e) && e@
            == spec_probe_kind_error()),
{
    if kind == LocalFileKind::Directory {
        Ok(true)
    } else if kind == LocalFileKind::File {
        Ok(false)
    } else {
        Err(
            LocalIoError::new(
                crate::local_file_error::LocalIoErrorKind::InvalidInput,
                "capability probing requires a regular file or directory",
            ),
        )
    }
}

/// The next candidate of a probe that found nothing at `candidate`: its
/// parent, while it has components; `None` once the root was reached.
pub open spec fn spec_probe_parent(candidate: Seq<u8>) -> Option<Seq<u8>> {
    if components(candidate).len() == 0 {
        None
    } else {
        Some(join_all(seq![slash()], components(candidate).drop_last()))
    }
}

/// Decides where a probe continues after opening `candidate` failed: a
/// missing candidate is retried at its parent while there is one; any other
/// failure, or a missing root, ends the probe.
pub fn probe_retry_parent(candidate: &[u8], failure: &LocalIoError) -> (next: Option<Vec<u8>>)
    ensures
        failure@.kind != crate::local_file_error::LocalIoErrorKind::NotFound ==> next is None,
        failure@.kind == crate::local_file_error::LocalIoErrorKind::NotFound ==> match spec_probe_parent(candidate@) {
            Some(p) => (next matches Some(n) && n@ == p),
            None => next is None,
        },
{
    if failure.kind != crate::local_file_error::LocalIoErrorKind::NotFound {
        return None;
    }
    let (parts, _) = scan_path(candidate);
    if parts.len() == 0 {
        return None;
    }
    let mut parent_parts: Vec<Vec<u8>> = Vec::new();
    let mut i: usize = 0;
    let n = parts.len() - 1;
    assert(views(parts@).take(0) =~= Seq::<Seq<u8>>::empty());
    while i < n
        invariant
            n == parts@.len() - 1,
            i <= n,
            views(parent_parts@) == views(parts@).take(i as int),
        decreases n - i,
    {
        let ghost before = views(parent_parts@);
        parent_parts.push(copy_bytes(parts[i].as_slice()));
        assert(views(parent_parts@) =~= before.push(parts@[i as int]@));
        assert(views(parent_parts@) =~= views(parts@).take(i + 1));
        i = i + 1;
    }
    assert(views(parts@).take(i as int) =~= views(parts@).drop_last());
    let root: [u8; 1] = [0x2fu8];
    assert(root@ =~= seq![slash()]);
    let mut out = copy_bytes(&root);
    let mut k: usize = 0;
    let ghost stack = views(parent_parts@);
    assert(stack.take(0) =~= Seq::<Seq<u8>>::empty());
    while k < parent_parts.len()
        invariant
            k <= parent_parts@.len(),
            stack == views(parent_parts@),
            out@ == join_all(seq![slash()], stack.take(k as int)),
        decreases parent_parts@.len() - k,
    {
        assert(stack.take(k + 1).drop_last() =~= stack.take(k as int));
        assert(stack.take(k + 1).last() == parent_parts@[k as int]@);
        out = path_push_exec(out.as_slice(), parent_parts[k].as_slice());
        k = k + 1;
    }
    assert(stack.take(k as int) =~= stack);
    Some(out)
}

impl LocalFileSystem {
    /// Prepares reading the path-length limits of the filesystem holding
    /// `path`.
    pub fn limits_at(&self, path: &[u8], process: Result<Vec<u8>, LocalIoError>) -> (res: LocalResult<
        LocalOperationRequest,
    >)
        ensures
            request_result(res) == spec_prepare(
                self@,
                path@,
                LocalFileOperation::Capabilities,
                process_view(process),
                false,
                false,
            ),
    {
        self.prepare(path, LocalFileOperation::Capabilities, process, false, false)
    }

    /// Prepares reading the space of the filesystem holding `path`.
    pub fn space_at(&self, path: &[u8], process: Result<Vec<u8>, LocalIoError>) -> (res: LocalResult<
        LocalOperationRequest,
    >)
        ensures
            request_result(res) == spec_prepare(
                self@,
                path@,
                LocalFileOperation::Capabilities,
                process_view(process),
                false,
                false,
            ),
    {
        self.prepare(path, LocalFileOperation::Capabilities, process, false, false)
    }

    /// The failure of a native probe of a prepared path, as a capability
    /// failure at that path.
    pub fn probe_failure(request: &LocalOperationRequest, source: LocalIoError) -> (error: LocalFileError)
        ensures
            error@ == spec_io_error(
                LocalFileOperation::Capabilities,
                Some(request@.path.namespace_absolute),
                None,
                source@,
            ),
    {
        LocalFileError::from_io(
            LocalFileOperation::Capabilities,
            Some(copy_bytes(request.path.namespace_absolute())),
            None,
            source,
        )
    }

    /// Completes a capability probe with its native outcome; a failure gets
    /// the operation, the path and the snapshot.
    pub fn finish_probe<T>(request: &LocalOperationRequest, native: LocalResult<T>) -> (res: LocalResult<T>)
        ensures
            match native {
                Ok(v) => res == Ok::<T, LocalFileError>(v),
                Err(e) => (res matches Err(r) && r@ == spec_operation_error(
                    e@,
                    LocalFileOperation::Capabilities,
                    request@.path.namespace_absolute,
                    None,
                    request@.current_directory,
                )),
            },
    {
        match native {
            Ok(v) => Ok(v),
            Err(e) => Err(
                operation_error(
                    e,
                    LocalFileOperation::Capabilities,
                    request.path.namespace_absolute(),
                    None,
                    request.current_directory(),
                ),
            ),
        }
    }
}

// ---------------------------------------------------------------------------
// Laws
// ---------------------------------------------------------------------------

/// Changing the symbolic-link policy keeps the filesystem well formed: it
/// succeeds unless a Rooted filesystem is asked to follow links across
/// scope, and then nothing changes.
pub proof fn lemma_symlink_policy_change_keeps_scope(
    before: LocalFileSystemView,
    after: LocalFileSystemView,
    res: LocalResult<()>,
    policy: LocalSymlinkPolicy,
)
    requires
        file_system_wf(before),
        configured(
            before,
            after,
            res,
            spec_symlink_policy_problem(before.scope, policy, LocalFileOperation::Configure, None),
            LocalFileSystemView { symlink_policy: policy, ..before },
        ),
    ensures
        file_system_wf(after),
        res is Ok <==> !(before.scope == LocalFileSystemScope::Rooted && policy
            == LocalSymlinkPolicy::FollowAcrossScope),
        res is Ok ==> after.symlink_policy == policy,
        res is Err ==> after == before,
{
}

/// A copy whose source or destination is written as a directory never runs
/// in entry mode: it is prepared as a tree copy or rejected.
pub proof fn lemma_directory_qualified_copies_are_tree_copies(
    fs: LocalFileSystemView,
    source: Seq<u8>,
    destination: Seq<u8>,
    options: LocalCopyOptionsView,
    process: Result<Seq<u8>, LocalIoErrorView>,
    deadline_fits: bool,
)
    requires
        spec_copy_plan(fs, source, destination, options, process, deadline_fits) is Ok,
    ensures
        spec_copy_plan(fs, source, destination, options, process, deadline_fits) matches Ok((t, o)) && ((
        t.source.directory_required || t.destination.directory_required) ==> o.source_mode
            == LocalCopySourceMode::Tree) && (!(t.source.directory_required || t.destination.directory_required)
            ==> o == options),
{
}

/// A prepared operation never touches the Rooted root when it asks for
/// that rejection, and never treats a directory-qualified path as a file
/// when it asks for that one.
pub proof fn lemma_prepared_operations_respect_rejections(
    fs: LocalFileSystemView,
    path: Seq<u8>,
    operation: LocalFileOperation,
    process: Result<Seq<u8>, LocalIoErrorView>,
    reject_root: bool,
    reject_directory: bool,
)
    requires
        spec_prepare(fs, path, operation, process, reject_root, reject_directory) is Ok,
    ensures
        spec_prepare(fs, path, operation, process, reject_root, reject_directory) matches Ok(r) && (reject_root
            ==> !spec_is_root_operand(fs.scope, r.path)) && (reject_directory ==> !r.path.directory_required),
{
}

} // verus!
