use qubit_local_files::local_atomic_writer::{ancestor_chain, missing_parent_dirs};
use std::time::Duration;

use qubit_local_files::local_temp_dir::{child_dir_step, child_file_step, ensure_existing_path_inside};

use qubit_local_files::{
    LocalAtomicDestinationState, LocalAtomicInstallOutcome, LocalAtomicPublicationMode, LocalAtomicWriteError,
    LocalAtomicWriteOptions,
    LocalAtomicWriteStage, LocalAtomicWriter, LocalCopyConflictPolicy, LocalCopyDirError, LocalCopyDirOptions,
    LocalCopyDirStage, LocalCopyDirStats, LocalCopyTypeConflictPolicy, LocalDurabilityRequirement, LocalFileKind,
    LocalFileMetadata, LocalFilePermissions, LocalIoError, LocalIoErrorKind, LocalPersistFailureState,
    LocalPersistOptions, LocalPersistStage, LocalSymlinkPolicy, LocalTempDir, LocalTempSourceState,
};

fn writer(durability: LocalDurabilityRequirement, preserve: bool) -> LocalAtomicWriter {
    let options = LocalAtomicWriteOptions::new().with_durability(durability);
    LocalAtomicWriter::new(
        b"out.txt",
        b"/work/out.txt".to_vec(),
        vec![b"/work".to_vec(), b"/work/deep".to_vec()],
        (preserve, preserve),
        &options,
        b"/work/.atomic-write-1.tmp".to_vec(),
    )
}

#[test]
fn atomic_write_options_have_conservative_defaults() {
    let options = LocalAtomicWriteOptions::default();
    assert!(!options.creates_parent());
    assert_eq!(options.open_retry_timeout(), None);
    assert_eq!(options.durability(), LocalDurabilityRequirement::Required);
    assert_eq!(options.publication_mode(), LocalAtomicPublicationMode::ReplaceOrCreate);
    assert!(!options.replaces_target_symlink());
    let changed = options
        .with_create_parent()
        .with_open_retry_timeout(Duration::from_millis(5))
        .with_durability(LocalDurabilityRequirement::Preferred)
        .with_create_new();
    assert!(changed.creates_parent());
    assert_eq!(changed.open_retry_timeout(), Some(Duration::from_millis(5)));
    assert_eq!(changed.durability(), LocalDurabilityRequirement::Preferred);
    assert_eq!(changed.publication_mode(), LocalAtomicPublicationMode::CreateNew);
}

#[test]
fn persist_and_copy_options_build_up() {
    let options = LocalPersistOptions::new();
    assert!(!options.overwrites() && !options.creates_parent());
    let options = options.with_overwrite().with_create_parent();
    assert!(options.overwrites() && options.creates_parent());
    let copy = LocalCopyDirOptions::default();
    assert_eq!(copy.conflict_policy(), LocalCopyConflictPolicy::Fail);
    assert_eq!(copy.type_conflict_policy(), LocalCopyTypeConflictPolicy::Fail);
    assert_eq!(copy.symlink_policy(), LocalSymlinkPolicy::Reject);
    assert!(!copy.preserves_permissions());
    assert_eq!(copy.durability(), LocalDurabilityRequirement::NotRequired);
    let copy = copy
        .with_conflict(LocalCopyConflictPolicy::Skip)
        .with_type_conflict(LocalCopyTypeConflictPolicy::Replace)
        .preserve_permissions()
        .with_open_retry_timeout(Duration::ZERO);
    assert_eq!(copy.conflict_policy(), LocalCopyConflictPolicy::Skip);
    assert_eq!(copy.type_conflict_policy(), LocalCopyTypeConflictPolicy::Replace);
    assert!(copy.preserves_permissions());
    assert_eq!(copy.open_retry_timeout(), Some(Duration::ZERO));
    assert_eq!(LocalCopyConflictPolicy::default(), LocalCopyConflictPolicy::Fail);
    assert_eq!(LocalCopyTypeConflictPolicy::default(), LocalCopyTypeConflictPolicy::Fail);
}

#[test]
fn copy_stats_report_progress() {
    let stats = LocalCopyDirStats::default();
    assert_eq!(stats.files(), 0);
    assert!(stats.atomic_publication());
    assert!(stats.files_durable());
    let stats = LocalCopyDirStats { files: 2, bytes: 10, non_atomic_publication: true, ..stats };
    assert_eq!(stats.files(), 2);
    assert_eq!(stats.bytes(), 10);
    assert!(!stats.atomic_publication());
    assert_eq!(
        stats.to_display_string(),
        "LocalCopyDirStats { files: 2, directories: 0, bytes: 10, skipped: 0, overwritten: 0, \
         non_atomic_publication: true, files_durable: true }"
    );
}

#[test]
fn copy_errors_keep_their_context() {
    let stats = LocalCopyDirStats { files: 1, ..LocalCopyDirStats::default() };
    let error = LocalCopyDirError::new(
        LocalCopyDirStage::CopyFileContents,
        b"src/a".to_vec(),
        b"dst/a".to_vec(),
        stats,
        LocalIoError::other("disk"),
    );
    assert_eq!(error.stage(), LocalCopyDirStage::CopyFileContents);
    assert_eq!(error.source_path(), b"src/a".as_slice());
    assert_eq!(error.destination_path(), b"dst/a".as_slice());
    assert_eq!(error.stats().files(), 1);
    assert_eq!(error.kind(), LocalIoErrorKind::Other);
    assert!(error.temporary_path().is_none());
    assert!(!error.to_display_string().contains("staging"));
    let error = error.with_staging_context(b"dst/.tmp".to_vec(), Some(LocalIoError::other("busy")));
    assert_eq!(error.temporary_path(), Some(b"dst/.tmp".as_slice()));
    assert_eq!(error.cleanup_error().map(|e| e.message()), Some("busy"));
    let text = error.to_display_string();
    assert!(text.starts_with("failed to copy 'src/a' to 'dst/a' during CopyFileContents after LocalCopyDirStats { files: 1,"));
    assert!(text.ends_with(": disk; staging path 'dst/.tmp'; staging cleanup also failed: busy"));
    let (stage, _, _, stats, temporary, cleanup, source) = error.into_parts();
    assert_eq!(stage, LocalCopyDirStage::CopyFileContents);
    assert_eq!(stats.files, 1);
    assert_eq!(temporary, Some(b"dst/.tmp".to_vec()));
    assert!(cleanup.is_some());
    assert_eq!(source.message(), "disk");
}

#[test]
fn metadata_and_permissions_expose_their_facts() {
    let metadata = LocalFileMetadata::from_native(LocalFileKind::File, 0, None, None, None, true, Some(0o100644));
    assert!(metadata.is_empty());
    assert_eq!(metadata.kind(), LocalFileKind::File);
    assert!(metadata.permissions().is_read_only());
    assert_eq!(metadata.permissions().unix_mode(), Some(0o644));
    assert_eq!(metadata.modified_at(), None);
    let permissions = LocalFilePermissions::new(false, None);
    assert!(!permissions.is_read_only());
    assert_eq!(permissions.unix_mode(), None);
    let sized = LocalFileMetadata::from_parts(LocalFileKind::Directory, 7, None, None, None);
    assert_eq!(sized.len(), 7);
    assert!(!sized.permissions().is_read_only());
}

#[test]
fn atomic_writer_decides_staging_synchronization() {
    let required = writer(LocalDurabilityRequirement::Required, false);
    assert!(required.syncs_temporary_file());
    assert_eq!(required.sync_temporary_file(Some(Ok(()))).unwrap(), true);
    let error = required.sync_temporary_file(Some(Err(LocalIoError::other("io")))).unwrap_err();
    assert_eq!(error.stage(), LocalAtomicWriteStage::SyncTemporaryFile);
    assert_eq!(error.destination_state(), LocalAtomicDestinationState::Unchanged);
    let preferred = writer(LocalDurabilityRequirement::Preferred, false);
    assert_eq!(preferred.sync_temporary_file(Some(Err(LocalIoError::other("io")))).unwrap(), false);
    let relaxed = writer(LocalDurabilityRequirement::NotRequired, false);
    assert!(!relaxed.syncs_temporary_file());
    assert_eq!(relaxed.sync_temporary_file(None).unwrap(), false);
}

#[test]
fn atomic_writer_decides_installation_outcomes() {
    let required = writer(LocalDurabilityRequirement::Required, false);
    assert_eq!(required.install_and_sync_parent(LocalAtomicInstallOutcome::Installed, Some(Ok(()))).unwrap(), true);
    let error = required.install_and_sync_parent(LocalAtomicInstallOutcome::Installed, Some(Err(LocalIoError::other("sync")))).unwrap_err();
    assert_eq!(error.stage(), LocalAtomicWriteStage::SyncParent);
    assert_eq!(error.destination_state(), LocalAtomicDestinationState::Replaced);
    let preferred = writer(LocalDurabilityRequirement::Preferred, false);
    assert_eq!(preferred.install_and_sync_parent(LocalAtomicInstallOutcome::Installed, Some(Err(LocalIoError::other("sync")))).unwrap(), false);
    let relaxed = writer(LocalDurabilityRequirement::NotRequired, false);
    assert_eq!(relaxed.install_and_sync_parent(LocalAtomicInstallOutcome::Installed, None).unwrap(), false);
    let failed = LocalAtomicWriteError::new(
        LocalAtomicWriteStage::ReplaceDestination,
        b"out.txt".to_vec(),
        None,
        LocalAtomicDestinationState::Indeterminate,
        LocalIoError::other("rename"),
    );
    let error = relaxed.install_and_sync_parent(LocalAtomicInstallOutcome::Failed(failed), None).unwrap_err();
    assert_eq!(error.destination_state(), LocalAtomicDestinationState::Indeterminate);
    assert_eq!(required.install_and_sync_parent(LocalAtomicInstallOutcome::Recovered, None).unwrap(), false);
    assert!(LocalAtomicWriter::commit_attempt(true, true));
    assert!(!LocalAtomicWriter::commit_attempt(true, false));
    assert_eq!(required.parent_sync_order(), vec![b"/work".to_vec(), b"/work".to_vec(), b"/".to_vec()]);
}

#[test]
fn atomic_writer_reports_a_vanished_destination() {
    let preserving = writer(LocalDurabilityRequirement::Required, true);
    let error = preserving.open_destination_for_commit::<u8>(Some(Ok(None))).unwrap_err();
    assert_eq!(error.destination_state(), LocalAtomicDestinationState::Missing);
    assert_eq!(error.kind(), LocalIoErrorKind::NotFound);
    assert_eq!(preserving.open_destination_for_commit(Some(Ok(Some(3u8)))).unwrap(), Some(3));
    let plain = writer(LocalDurabilityRequirement::Required, false);
    assert_eq!(plain.open_destination_for_commit::<u8>(None).unwrap(), None);
    assert!(plain.reject_unsupported_metadata_preservation().is_ok());
    assert!(preserving.reject_unsupported_metadata_preservation().is_err());
}

#[test]
fn atomic_writer_inspects_the_destination() {
    let replace = LocalAtomicWriteOptions::new();
    let missing = Err(LocalIoError::from_kind(LocalIoErrorKind::NotFound));
    assert_eq!(qubit_local_files::local_atomic_writer::inspect_destination(&replace, missing, b"x").unwrap(), (false, false));
    assert_eq!(qubit_local_files::local_atomic_writer::inspect_destination(&replace, Ok(LocalFileKind::File), b"x").unwrap(), (true, true));
    let error = qubit_local_files::local_atomic_writer::inspect_destination(&replace, Ok(LocalFileKind::Directory), b"x").unwrap_err();
    assert_eq!(error.stage(), LocalAtomicWriteStage::InspectDestination);
    assert_eq!(error.kind(), LocalIoErrorKind::InvalidInput);
    let create_new = LocalAtomicWriteOptions::new().with_create_new();
    let error = qubit_local_files::local_atomic_writer::inspect_destination(&create_new, Ok(LocalFileKind::File), b"x").unwrap_err();
    assert_eq!(error.kind(), LocalIoErrorKind::AlreadyExists);
    let denied = Err(LocalIoError::new(LocalIoErrorKind::PermissionDenied, "denied"));
    let error = qubit_local_files::local_atomic_writer::inspect_destination(&replace, denied, b"x").unwrap_err();
    assert_eq!(error.source_error().message(), "read destination metadata 'x': denied");
    assert_eq!(qubit_local_files::local_atomic_writer::parent_dir_for(b"/a/b/c"), b"/a/b".to_vec());
    assert_eq!(qubit_local_files::local_atomic_writer::parent_dir_for(b"/a"), b"/".to_vec());
}

#[test]
fn atomic_writer_cleans_up_after_failed_writes() {
    let w = writer(LocalDurabilityRequirement::Required, false);
    let error = w.write_with(Err(LocalIoError::other("write")), Some(Err(LocalIoError::other("rm")))).unwrap_err();
    assert_eq!(error.stage(), LocalAtomicWriteStage::WriteTemporaryFile);
    assert_eq!(error.cleanup_error().map(|e| e.message()), Some("rm"));
    assert!(w.write_with(Ok(()), None).is_ok());
    let error = w.abort(Err(LocalIoError::other("rm"))).unwrap_err();
    assert_eq!(error.stage(), LocalAtomicWriteStage::CleanupTemporaryFile);
    let unchanged = LocalAtomicWriteError::new(
        LocalAtomicWriteStage::SyncTemporaryFile,
        b"out.txt".to_vec(),
        None,
        LocalAtomicDestinationState::Unchanged,
        LocalIoError::other("sync"),
    );
    let finished = LocalAtomicWriter::finalize_failed_commit(unchanged, Some(Err(LocalIoError::other("rm"))));
    assert!(finished.cleanup_error().is_some());
}

#[test]
fn temporary_directories_join_safe_children() {
    let dir = LocalTempDir::in_dir(Ok(b"/tmp/work".to_vec())).unwrap();
    assert_eq!(dir.path(), b"/tmp/work".as_slice());
    assert_eq!(dir.child_path(b"a/b.txt").unwrap(), b"/tmp/work/a/b.txt".to_vec());
    let error = dir.child_path(b"../escape").unwrap_err();
    assert_eq!(error.kind(), LocalIoErrorKind::InvalidInput);
    assert_eq!(error.message(), "child path must be relative and safe: ../escape");
    assert_eq!(dir.ensure_child_dir(b"x/y").unwrap(), vec![b"/tmp/work/x".to_vec(), b"/tmp/work/x/y".to_vec()]);
    assert_eq!(
        dir.open_child_writer(b"logs/run.txt").unwrap(),
        (b"/tmp/work/logs/run.txt".to_vec(), Some(b"logs".to_vec()))
    );
    assert_eq!(dir.open_child_writer(b"run.txt").unwrap(), (b"/tmp/work/run.txt".to_vec(), None));
    assert!(dir.open_child_writer(b"/etc/passwd").is_err());
    let kept = dir.keep();
    assert_eq!(kept, b"/tmp/work".to_vec());
}

#[test]
fn temporary_directory_steps_refuse_unsafe_entries() {
    assert_eq!(child_dir_step(b"/t/a", Err(LocalIoError::from_kind(LocalIoErrorKind::NotFound))).unwrap(), true);
    assert_eq!(child_dir_step(b"/t/a", Ok(LocalFileKind::Directory)).unwrap(), false);
    assert_eq!(child_dir_step(b"/t/a", Ok(LocalFileKind::Symlink)).unwrap_err().kind(), LocalIoErrorKind::InvalidInput);
    assert_eq!(child_dir_step(b"/t/a", Ok(LocalFileKind::File)).unwrap_err().kind(), LocalIoErrorKind::AlreadyExists);
    assert_eq!(child_file_step(b"/t/f", Ok(LocalFileKind::File)).unwrap(), true);
    assert!(child_file_step(b"/t/f", Ok(LocalFileKind::Symlink)).is_err());
    assert!(ensure_existing_path_inside(b"/t", b"/t/a/b").is_ok());
    assert!(ensure_existing_path_inside(b"/t", b"/tmp").is_err());
}

#[test]
fn temporary_directories_persist_or_come_back() {
    let dir = LocalTempDir::in_dir(Ok(b"/tmp/work".to_vec())).unwrap();
    let target = dir.persist(b"out", Ok(b"/srv/out".to_vec()), Some(Ok(())), Some(Ok(()))).unwrap();
    assert_eq!(target, b"/srv/out".to_vec());
    let dir = LocalTempDir::in_dir(Ok(b"/tmp/work".to_vec())).unwrap();
    let error = dir.persist(b"out", Ok(b"/srv/out".to_vec()), Some(Ok(())), Some(Err(LocalIoError::from_kind(LocalIoErrorKind::AlreadyExists)))).unwrap_err();
    assert_eq!(error.stage(), LocalPersistStage::InstallDestination);
    assert_eq!(error.state(), LocalPersistFailureState::NotPublished);
    assert_eq!(error.source_state(), LocalTempSourceState::Owned);
    assert_eq!(error.resource().path(), b"/tmp/work".as_slice());
    let dir = LocalTempDir::in_dir(Ok(b"/tmp/work".to_vec())).unwrap();
    let error = dir.persist(b"out", Err(LocalIoError::other("cwd")), None, None).unwrap_err();
    assert_eq!(error.stage(), LocalPersistStage::ResolveTarget);
    assert_eq!(error.resolved_target(), None);
}

#[test]
fn atomic_writer_checks_destination_presence_before_install() {
    let preserved = writer(LocalDurabilityRequirement::Required, true);
    assert!(preserved.verify_non_unix_destination_for_commit(Some(Ok(LocalFileKind::File))).is_ok());
    let gone = preserved
        .verify_non_unix_destination_for_commit(Some(Err(LocalIoError::from_kind(LocalIoErrorKind::NotFound))))
        .unwrap_err();
    assert_eq!(gone.stage(), LocalAtomicWriteStage::ReplaceDestination);
    assert_eq!(gone.destination_state(), LocalAtomicDestinationState::Missing);
    assert_eq!(gone.source_error().message(), "atomic write destination disappeared");
    let replaced_kind = preserved.verify_non_unix_destination_for_commit(Some(Ok(LocalFileKind::Symlink))).unwrap_err();
    assert_eq!(replaced_kind.kind(), LocalIoErrorKind::InvalidInput);
    assert_eq!(replaced_kind.destination_state(), LocalAtomicDestinationState::Unchanged);
    let fresh = writer(LocalDurabilityRequirement::Required, false);
    assert!(fresh.verify_non_unix_destination_for_commit(None).is_ok());
}

#[test]
fn atomic_writer_finds_missing_parents_from_the_deepest_up() {
    let chain = ancestor_chain(b"/work/a/b");
    assert_eq!(chain, vec![b"/work/a/b".to_vec(), b"/work/a".to_vec(), b"/work".to_vec(), b"/".to_vec()]);
    assert_eq!(missing_parent_dirs(&chain, &[false, false, true]), vec![b"/work/a".to_vec(), b"/work/a/b".to_vec()]);
    assert_eq!(missing_parent_dirs(&chain, &[true]), Vec::<Vec<u8>>::new());
    assert_eq!(ancestor_chain(b"/"), vec![b"/".to_vec()]);
}

#[test]
fn atomic_writer_returns_itself_only_before_installation() {
    let staged = writer(LocalDurabilityRequirement::Required, false);
    let (error, kept) = staged
        .commit_recoverable_with_durability(Ok(()), Some(Err(LocalIoError::other("fsync"))), None, None, None)
        .unwrap_err();
    assert_eq!(error.stage(), LocalAtomicWriteStage::SyncTemporaryFile);
    let kept = kept.expect("a writer whose staging is open comes back");
    assert_eq!(kept.temporary_path(), b"/work/.atomic-write-1.tmp");
    let (error, gone) = kept
        .commit_recoverable_with_durability(
            Ok(()),
            Some(Ok(())),
            Some(Ok(())),
            Some(LocalAtomicInstallOutcome::Installed),
            Some(Err(LocalIoError::other("fsync"))),
        )
        .unwrap_err();
    assert_eq!(error.stage(), LocalAtomicWriteStage::SyncParent);
    assert!(gone.is_none());
    let durable = writer(LocalDurabilityRequirement::Required, false).commit_recoverable_with_durability(
        Ok(()),
        Some(Ok(())),
        Some(Ok(())),
        Some(LocalAtomicInstallOutcome::Installed),
        Some(Ok(())),
    );
    assert_eq!(durable.unwrap(), true);
    let relaxed = writer(LocalDurabilityRequirement::NotRequired, false).commit_recoverable_with_durability(
        Ok(()),
        None,
        Some(Ok(())),
        Some(LocalAtomicInstallOutcome::Installed),
        None,
    );
    assert_eq!(relaxed.unwrap(), false);
}
