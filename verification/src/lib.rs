//! Policy-aware local filesystem logic: canonical path-component text,
//! lexical path composition, portable file names, operation options, and the
//! structured errors reported by local filesystem operations.
use vstd::prelude::*;

pub mod display_text;
pub mod local_atomic_write_error;
pub mod local_atomic_writer;
pub mod local_copy_dir;
pub mod local_file_error;
pub mod local_file_metadata;
pub mod local_file_system;
pub mod local_file_system_validation;
pub mod local_filenames;
pub mod local_fs_options;
pub mod local_namespace;
pub mod local_path_codec;
pub mod local_options;
pub mod local_paths;
pub mod local_persist_error;
pub mod local_relative_path;
pub mod local_root_atomic_writer;
pub mod local_temp_dir;
pub mod local_temp_file;
pub mod path_model;

pub use local_atomic_write_error::{LocalAtomicDestinationState, LocalAtomicWriteError, LocalAtomicWriteStage};
pub use local_atomic_writer::{LocalAtomicInstallOutcome, LocalAtomicWriter};
pub use local_root_atomic_writer::LocalRootAtomicWriter;
pub use local_copy_dir::{LocalCopyDirError, LocalCopyDirStage, LocalCopyDirStats};
pub use local_file_system::{LocalFileSystem, LocalFileSystemDefaults, LocalRootAuthority};
pub use local_file_metadata::{LocalFileKind, LocalFileMetadata, LocalFilePermissions};
pub use local_filenames::{LocalFileNames, LocalFilenames, LocalNameEntropy};
pub use local_path_codec::LocalPathCodec;
pub use local_path_codec::LocalPathCodecError;
pub use local_fs_options::{
    LocalAtomicityRequirement, LocalCopyOptions, LocalCopySourceMode, LocalCreateDirectoryOptions, LocalDeleteOptions,
    LocalFileSystemCapabilities, LocalFileSystemLimits, LocalFileSystemSpace, LocalListOptions, LocalPathLengthUnit,
    LocalReadOptions, LocalRenameOptions, LocalTempDirectoryOptions, LocalTempFileOptions, LocalWriteMode,
    LocalWriteOptions, SizeLimit,
};
pub use local_namespace::{LocalFileSystemScope, LocalNamespacePath, LocalPathResolver};
pub use local_options::{
    LocalAtomicPublicationMode, LocalAtomicWriteOptions, LocalCopyConflictPolicy, LocalCopyDirOptions,
    LocalCopyTypeConflictPolicy, LocalDurabilityRequirement, LocalPersistOptions, LocalSymlinkPolicy,
};
pub use local_paths::LocalPaths;
pub use local_persist_error::{
    LocalPersistError, LocalPersistErrorParts, LocalPersistFailureState, LocalPersistStage,
    LocalTempSourceState,
};
pub use local_relative_path::LocalRelativePath;
pub use local_temp_dir::LocalTempDir;
pub use local_temp_file::LocalTempFile;
pub use local_file_error::{
    LocalFileError, LocalFileErrorKind, LocalFileOperation, LocalIoError, LocalIoErrorKind,
    LocalResult,
};

verus! {

} // verus!
