use qubit_local_files::local_file_system::{read_prefix_start, read_prefix_step};
use std::time::Duration;

use qubit_local_files::local_file_system::LocalCreateDirectoryPlan;
use qubit_local_files::{
    LocalAtomicityRequirement, LocalCopyOptions, LocalCopySourceMode, LocalCreateDirectoryOptions,
    LocalDurabilityRequirement, LocalFileErrorKind, LocalFileKind, LocalFileOperation, LocalFileSystem,
    LocalFileSystemCapabilities, LocalFileSystemLimits, LocalFileSystemScope, LocalIoError, LocalIoErrorKind,
    LocalListOptions, LocalPathLengthUnit, LocalPathResolver, LocalRenameOptions, LocalRootAuthority,
    LocalSymlinkPolicy, LocalTempDirectoryOptions, LocalTempFileOptions, LocalWriteMode, LocalWriteOptions,
    SizeLimit,
};

fn cwd() -> Result<Vec<u8>, LocalIoError> {
    Ok(b"/work/dir".to_vec())
}

fn rooted_with(capabilities: LocalFileSystemCapabilities) -> LocalFileSystem {
    let limits = LocalFileSystemLimits::new(SizeLimit::Known(255), SizeLimit::Unknown, LocalPathLengthUnit::Bytes);
    LocalFileSystem::rooted(Ok(LocalRootAuthority { diagnostic_root: b"/srv/root", capabilities, limits })).unwrap()
}

fn rooted() -> LocalFileSystem {
    rooted_with(LocalFileSystemCapabilities::new(true, true, true, true))
}

#[test]
fn resolver_normalizes_relative_paths_from_the_current_directory() {
    let resolver = LocalPathResolver::new(LocalFileSystemScope::Host, b"/work/dir").unwrap();
    let path = resolver.resolve(b"../other/./file.txt").unwrap();
    assert_eq!(path.namespace_absolute(), b"/work/other/file.txt".as_slice());
    assert_eq!(path.authority_relative(), b"/work/other/file.txt".as_slice());
    assert!(!path.directory_required());
    let dir = resolver.resolve(b"sub/").unwrap();
    assert_eq!(dir.namespace_absolute(), b"/work/dir/sub".as_slice());
    assert!(dir.directory_required());
    let here = resolver.resolve(b"").unwrap();
    assert_eq!(here.namespace_absolute(), b"/work/dir".as_slice());
    assert!(here.directory_required());
}

#[test]
fn resolver_rejects_climbing_above_the_root() {
    let resolver = LocalPathResolver::new(LocalFileSystemScope::Rooted, b"/").unwrap();
    let error = resolver.resolve(b"../etc").unwrap_err();
    assert_eq!(error.kind(), LocalFileErrorKind::InvalidPath);
    assert_eq!(error.reason(), Some("the path climbs above the namespace root"));
    let inside = resolver.resolve(b"/a/../b").unwrap();
    assert_eq!(inside.namespace_absolute(), b"/b".as_slice());
    assert_eq!(inside.authority_relative(), b"b".as_slice());
    let root = resolver.resolve(b"/").unwrap();
    assert_eq!(root.authority_relative(), b"".as_slice());
}

#[test]
fn resolver_requires_a_normalized_current_directory() {
    assert!(LocalPathResolver::new(LocalFileSystemScope::Host, b"relative").is_err());
    assert!(LocalPathResolver::new(LocalFileSystemScope::Host, b"/a/../b").is_err());
    let host = LocalPathResolver::absolute_host();
    assert!(host.resolve(b"/abs").is_ok());
    let error = host.resolve(b"rel").unwrap_err();
    assert_eq!(error.reason(), Some("a relative path needs a current directory"));
}

#[test]
fn host_filesystem_starts_with_defaults() {
    let fs = LocalFileSystem::host().unwrap();
    assert_eq!(fs.scope(), LocalFileSystemScope::Host);
    assert_eq!(fs.symlink_policy(), LocalSymlinkPolicy::FollowAcrossScope);
    assert_eq!(fs.diagnostic_root(), None);
    assert!(fs.capabilities().supports_atomic_rename());
    assert_eq!(fs.limits().unit(), LocalPathLengthUnit::Bytes);
    assert_eq!(fs.default_write_options().mode(), LocalWriteMode::CreateNew);
    assert_eq!(fs.current_directory(cwd()).unwrap(), b"/work/dir".to_vec());
    let error = fs.current_directory(Err(LocalIoError::from_kind(LocalIoErrorKind::NotFound))).unwrap_err();
    assert_eq!(error.operation(), LocalFileOperation::CurrentDirectory);
}

#[test]
fn rooted_filesystem_starts_at_its_root() {
    let fs = rooted();
    assert_eq!(fs.scope(), LocalFileSystemScope::Rooted);
    assert_eq!(fs.symlink_policy(), LocalSymlinkPolicy::FollowWithinScope);
    assert_eq!(fs.diagnostic_root(), Some(b"/srv/root".as_slice()));
    assert_eq!(fs.current_directory(Err(LocalIoError::other("unused"))).unwrap(), b"/".to_vec());
    assert_eq!(fs.limits().component_length(), SizeLimit::Known(255));
    let failed = LocalFileSystem::rooted(Err(qubit_local_files::LocalFileError::new(
        LocalFileErrorKind::NotDirectory,
        LocalFileOperation::BindPath,
    )));
    assert_eq!(failed.unwrap_err().kind(), LocalFileErrorKind::NotDirectory);
}

#[test]
fn rooted_filesystem_rejects_following_links_across_scope() {
    let mut fs = rooted();
    let error = fs.set_symlink_policy(LocalSymlinkPolicy::FollowAcrossScope).unwrap_err();
    assert_eq!(error.kind(), LocalFileErrorKind::InvalidOptions);
    assert_eq!(error.current_directory(), Some(b"/".as_slice()));
    assert_eq!(fs.symlink_policy(), LocalSymlinkPolicy::FollowWithinScope);
    fs.set_symlink_policy(LocalSymlinkPolicy::Reject).unwrap();
    assert_eq!(fs.symlink_policy(), LocalSymlinkPolicy::Reject);
    let mut host = LocalFileSystem::host().unwrap();
    host.set_symlink_policy(LocalSymlinkPolicy::FollowAcrossScope).unwrap();
}

#[test]
fn default_options_are_validated_before_they_are_stored() {
    let mut fs = rooted_with(LocalFileSystemCapabilities::new(true, false, false, false));
    let durable = LocalWriteOptions::new(LocalWriteMode::CreateOrReplace).with_durability(LocalDurabilityRequirement::Required);
    let error = fs.set_default_write_options(durable).unwrap_err();
    assert_eq!(error.kind(), LocalFileErrorKind::RequirementNotMet);
    assert_eq!(fs.default_write_options().mode(), LocalWriteMode::CreateNew);
    let append = LocalWriteOptions::new(LocalWriteMode::Append).with_atomicity(LocalAtomicityRequirement::Required);
    assert!(fs.set_default_write_options(append).is_err());
    fs.set_default_write_options(LocalWriteOptions::new(LocalWriteMode::Append)).unwrap();
    assert_eq!(fs.default_write_options().mode(), LocalWriteMode::Append);

    let rename = LocalRenameOptions::new().with_durability(LocalDurabilityRequirement::Required);
    assert_eq!(fs.set_default_rename_options(rename).unwrap_err().kind(), LocalFileErrorKind::RequirementNotMet);

    let list = LocalListOptions::new().with_max_open_directories(0);
    assert_eq!(fs.set_default_list_options(list).unwrap_err().kind(), LocalFileErrorKind::InvalidOptions);
    let list = LocalListOptions::new().with_symlink_policy(LocalSymlinkPolicy::FollowAcrossScope);
    assert!(fs.set_default_list_options(list).is_err());
    fs.set_default_list_options(LocalListOptions::new().with_max_depth(3).with_deadline(Duration::from_secs(5))).unwrap();
    assert_eq!(fs.default_list_options().max_depth(), Some(3));

    let tree = LocalCopyOptions::new().with_tree_source().with_atomicity(LocalAtomicityRequirement::Required);
    assert_eq!(fs.set_default_copy_options(tree).unwrap_err().kind(), LocalFileErrorKind::RequirementNotMet);
    let durable_copy = LocalCopyOptions::new().with_durability(LocalDurabilityRequirement::Required);
    assert!(fs.set_default_copy_options(durable_copy).is_err());

    let temp = LocalTempFileOptions::new().with_max_attempts(0);
    let error = fs.set_default_temp_file_options(temp).unwrap_err();
    assert_eq!(error.reason(), Some("temporary entry attempt count must be greater than zero"));
    let temp = LocalTempDirectoryOptions::new().with_prefix("a/b");
    let error = fs.set_default_temp_directory_options(temp).unwrap_err();
    assert_eq!(error.kind(), LocalFileErrorKind::InvalidOptions);
    assert_eq!(error.io_error_kind(), Some(LocalIoErrorKind::InvalidInput));
    fs.set_default_temp_directory_options(LocalTempDirectoryOptions::new().with_prefix("job-")).unwrap();
    assert_eq!(fs.default_temp_directory_options().prefix(), Some("job-"));
}

#[test]
fn operations_resolve_paths_from_one_snapshot() {
    let fs = LocalFileSystem::host().unwrap();
    let request = fs.metadata(b"notes/today.md", cwd()).unwrap();
    assert_eq!(request.path().namespace_absolute(), b"/work/dir/notes/today.md".as_slice());
    assert_eq!(request.current_directory(), Some(b"/work/dir".as_slice()));
    let absolute = fs.metadata(b"/etc/hosts", Err(LocalIoError::other("unused"))).unwrap();
    assert_eq!(absolute.current_directory(), None);
    let error = fs.metadata(b"rel", Err(LocalIoError::from_kind(LocalIoErrorKind::NotFound))).unwrap_err();
    assert_eq!(error.operation(), LocalFileOperation::Metadata);
    assert_eq!(error.path(), Some(b"rel".as_slice()));
}

#[test]
fn files_cannot_be_directory_qualified() {
    let fs = LocalFileSystem::host().unwrap();
    let error = fs.delete_file(b"dir/", cwd()).unwrap_err();
    assert_eq!(error.kind(), LocalFileErrorKind::InvalidPath);
    assert_eq!(error.reason(), Some("a directory-qualified path cannot be used as a file"));
    assert_eq!(error.path(), Some(b"/work/dir/dir".as_slice()));
    assert!(fs.open_writer(b"out/.", cwd()).is_err());
    let error = fs.read_prefix(b"in/", 10, cwd()).unwrap_err();
    assert_eq!(error.operation(), LocalFileOperation::OpenReader);
    assert!(fs.delete_directory(b"dir/", cwd()).is_ok());
}

#[test]
fn the_rooted_root_is_protected() {
    let fs = rooted();
    let error = fs.delete_directory(b"/", cwd()).unwrap_err();
    assert_eq!(error.reason(), Some("the Rooted virtual root cannot be removed or replaced"));
    assert!(fs.open_writer(b"..", cwd()).is_err());
    match fs.create_directory(b"/", cwd()).unwrap_err().kind() {
        LocalFileErrorKind::AlreadyExists => {}
        other => panic!("unexpected {other:?}"),
    }
    let exists_ok = LocalCreateDirectoryOptions::new().with_exists_ok();
    assert!(matches!(fs.create_directory_with_options(b"/", &exists_ok, cwd()).unwrap(), LocalCreateDirectoryPlan::Existing));
    assert!(matches!(fs.create_directory(b"sub", cwd()).unwrap(), LocalCreateDirectoryPlan::Create(_)));
}

#[test]
fn metadata_of_a_directory_qualified_path_must_be_a_directory() {
    let fs = LocalFileSystem::host().unwrap();
    let request = fs.metadata(b"dir/", cwd()).unwrap();
    let file = qubit_local_files::LocalFileMetadata::from_parts(LocalFileKind::File, 3, None, None, None);
    let error = LocalFileSystem::finish_metadata(&request, Ok(file)).unwrap_err();
    assert_eq!(error.kind(), LocalFileErrorKind::NotDirectory);
    let dir = qubit_local_files::LocalFileMetadata::from_parts(LocalFileKind::Directory, 0, None, None, None);
    assert_eq!(LocalFileSystem::finish_metadata(&request, Ok(dir)).unwrap().kind(), LocalFileKind::Directory);
}

#[test]
fn directory_qualified_copies_become_tree_copies() {
    let fs = LocalFileSystem::host().unwrap();
    let request = fs.copy(b"src/", b"dst", cwd()).unwrap();
    assert_eq!(request.options().source_mode(), LocalCopySourceMode::Tree);
    assert_eq!(request.transfer().destination().namespace_absolute(), b"/work/dir/dst".as_slice());
    let plain = fs.copy(b"a", b"b", cwd()).unwrap();
    assert_eq!(plain.options().source_mode(), LocalCopySourceMode::Auto);
    let entry = LocalCopyOptions::new().with_source_mode(LocalCopySourceMode::Entry);
    let error = fs.copy_with_options(b"src/", b"dst", &entry, cwd()).unwrap_err();
    assert_eq!(error.kind(), LocalFileErrorKind::NotDirectory);
    assert_eq!(error.target(), Some(b"/work/dir/dst".as_slice()));
}

#[test]
fn renames_check_their_operands() {
    let fs = rooted();
    let request = fs.rename(b"a/", b"b", cwd()).unwrap();
    let error = LocalFileSystem::check_rename_operands(&request, Ok(LocalFileKind::File), Ok(LocalFileKind::File)).unwrap_err();
    assert_eq!(error.kind(), LocalFileErrorKind::NotDirectory);
    assert_eq!(error.target(), Some(b"/b".as_slice()));
    assert!(LocalFileSystem::check_rename_operands(&request, Ok(LocalFileKind::Directory), Ok(LocalFileKind::File)).is_ok());
    let error = fs.rename(b"/", b"b", cwd()).unwrap_err();
    assert_eq!(error.target(), Some(b"/b".as_slice()));
    let no_atomic = rooted_with(LocalFileSystemCapabilities::new(false, false, true, true));
    assert_eq!(no_atomic.rename(b"a", b"b", cwd()).unwrap_err().kind(), LocalFileErrorKind::RequirementNotMet);
}

#[test]
fn rooted_current_directory_moves_to_validated_directories() {
    let mut fs = rooted();
    let request = fs.current_directory_request(b"data/../logs", cwd()).unwrap();
    fs.set_current_directory(&request, Ok(())).unwrap();
    assert_eq!(fs.current_directory(cwd()).unwrap(), b"/logs".to_vec());
    let next = fs.metadata(b"today", cwd()).unwrap();
    assert_eq!(next.path().namespace_absolute(), b"/logs/today".as_slice());
    let request = fs.current_directory_request(b"missing", cwd()).unwrap();
    let error = fs.set_current_directory(&request, Err(qubit_local_files::LocalFileError::new(
        LocalFileErrorKind::NotFound,
        LocalFileOperation::Metadata,
    ))).unwrap_err();
    assert_eq!(error.operation(), LocalFileOperation::SetCurrentDirectory);
    assert_eq!(fs.current_directory(cwd()).unwrap(), b"/logs".to_vec());
}

#[test]
fn temporary_entries_resolve_their_parent() {
    let fs = LocalFileSystem::host().unwrap();
    let request = fs.create_temp_file(cwd()).unwrap();
    assert_eq!(request.path().namespace_absolute(), b"/work/dir".as_slice());
    let options = LocalTempDirectoryOptions::new().with_parent(b"/tmp");
    let request = fs.create_temp_directory_with_options(&options, cwd()).unwrap();
    assert_eq!(request.path().namespace_absolute(), b"/tmp".as_slice());
    let options = LocalTempDirectoryOptions::new().with_max_attempts(0);
    assert!(fs.create_temp_directory_with_options(&options, cwd()).is_err());
}

#[test]
fn listing_checks_options_against_the_path() {
    let fs = rooted();
    let options = LocalListOptions::new().with_max_open_directories(0);
    let error = fs.list_with_options(b"sub", &options, cwd()).unwrap_err();
    assert_eq!(error.operation(), LocalFileOperation::List);
    assert_eq!(error.path(), Some(b"/sub".as_slice()));
    assert!(fs.list(b"sub", cwd()).is_ok());
}

#[test]
fn probes_climb_to_existing_ancestors() {
    let missing = LocalIoError::from_kind(LocalIoErrorKind::NotFound);
    assert_eq!(qubit_local_files::local_file_system::probe_retry_parent(b"/a/b/c", &missing), Some(b"/a/b".to_vec()));
    assert_eq!(qubit_local_files::local_file_system::probe_retry_parent(b"/a", &missing), Some(b"/".to_vec()));
    assert_eq!(qubit_local_files::local_file_system::probe_retry_parent(b"/", &missing), None);
    let denied = LocalIoError::from_kind(LocalIoErrorKind::PermissionDenied);
    assert_eq!(qubit_local_files::local_file_system::probe_retry_parent(b"/a", &denied), None);
    assert_eq!(qubit_local_files::local_file_system::probe_candidate_kind(LocalFileKind::Directory).unwrap(), true);
    assert!(qubit_local_files::local_file_system::probe_candidate_kind(LocalFileKind::Socket).is_err());
    assert_eq!(qubit_local_files::local_file_system::prefix_chunk_len(0, 10, 8192), 10);
    assert_eq!(qubit_local_files::local_file_system::prefix_chunk_len(4, 20000, 8192), 8192);
}

#[test]
fn prefix_reads_stop_at_the_limit_or_the_end() {
    let (mut collected, done) = read_prefix_start(5);
    assert!(!done);
    assert!(collected.is_empty());
    assert!(!read_prefix_step(&mut collected, 5, b"abc"));
    assert!(read_prefix_step(&mut collected, 5, b"defg"));
    assert_eq!(collected, b"abcde".to_vec());
    let (mut short, _) = read_prefix_start(10);
    assert!(!read_prefix_step(&mut short, 10, b"xy"));
    assert!(read_prefix_step(&mut short, 10, b""));
    assert_eq!(short, b"xy".to_vec());
    let (empty, done) = read_prefix_start(0);
    assert!(done);
    assert!(empty.is_empty());
}
