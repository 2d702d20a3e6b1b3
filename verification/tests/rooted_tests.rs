use std::time::Duration;

use qubit_local_files::local_root_atomic_writer::{
    classify_rooted_destination, inspect_rooted_destination, inspection_accepts_symlink, rooted_parent_mode,
    rooted_staging_path, rooted_staging_step, LocalRootedParentMode, LocalRootedStagingStep,
    ROOTED_STAGING_ATTEMPTS,
};
use qubit_local_files::local_relative_path::split_final_component;
use qubit_local_files::{
    LocalAtomicDestinationState, LocalAtomicInstallOutcome, LocalAtomicWriteOptions, LocalAtomicWriteStage,
    LocalDurabilityRequirement, LocalFileKind, LocalIoError, LocalIoErrorKind, LocalPersistFailureState,
    LocalPersistStage, LocalRelativePath, LocalRootAtomicWriter, LocalTempFile, LocalTempSourceState,
};

fn rooted(durability: LocalDurabilityRequirement, preserve: bool) -> LocalRootAtomicWriter {
    let path = LocalRelativePath::new(b"logs/app/out.txt").unwrap();
    let options = LocalAtomicWriteOptions::new()
        .with_durability(durability)
        .with_open_retry_timeout(Duration::from_millis(5));
    LocalRootAtomicWriter::new(
        &path,
        vec![b"logs".to_vec(), b"logs/app".to_vec()],
        (preserve, preserve),
        &options,
        b"/root/logs/app/.qubit-atomic-1.tmp".to_vec(),
    )
}

#[test]
fn rooted_parent_mode_follows_parent_creation() {
    let options = LocalAtomicWriteOptions::new();
    assert_eq!(rooted_parent_mode(&options), LocalRootedParentMode::OpenExisting);
    assert_eq!(rooted_parent_mode(&options.with_create_parent()), LocalRootedParentMode::CreateMissingAndTrackSync);
    assert!(!inspection_accepts_symlink(&options));
    assert!(inspection_accepts_symlink(&options.with_create_new()));
}

#[test]
fn rooted_inspection_rejects_existing_create_new_destination() {
    let create_new = LocalAtomicWriteOptions::new().with_create_new();
    let error = inspect_rooted_destination(&create_new, Ok((true, false)), b"a.txt").unwrap_err();
    assert_eq!(error.stage(), LocalAtomicWriteStage::InspectDestination);
    assert_eq!(error.kind(), LocalIoErrorKind::AlreadyExists);
    assert_eq!(error.source_error().message(), "rooted atomic create-new destination already exists");
    assert_eq!(inspect_rooted_destination(&create_new, Ok((false, false)), b"a.txt").unwrap(), (false, false));
    let replace = LocalAtomicWriteOptions::new();
    assert_eq!(inspect_rooted_destination(&replace, Ok((true, true)), b"a.txt").unwrap(), (true, true));
    let failure = inspect_rooted_destination(&replace, Err(LocalIoError::other("lstat")), b"a.txt").unwrap_err();
    assert_eq!(failure.destination_state(), LocalAtomicDestinationState::Unchanged);
    assert_eq!(failure.temporary_path(), None);
}

#[test]
fn rooted_classification_follows_entry_kind() {
    let options = LocalAtomicWriteOptions::new();
    let missing = Err(LocalIoError::from_kind(LocalIoErrorKind::NotFound));
    assert_eq!(classify_rooted_destination(&options, missing, None, b"a").unwrap(), (false, false));
    assert_eq!(classify_rooted_destination(&options, Ok(()), Some(Ok(LocalFileKind::File)), b"a").unwrap(), (true, true));
    let link = classify_rooted_destination(&options, Ok(()), Some(Ok(LocalFileKind::Symlink)), b"a").unwrap_err();
    assert_eq!(link.kind(), LocalIoErrorKind::InvalidInput);
    assert_eq!(link.source_error().message(), "rooted atomic destination is not a regular file");
    let directory = classify_rooted_destination(&options, Ok(()), Some(Ok(LocalFileKind::Directory)), b"a");
    assert!(directory.is_err());
    let create_new = LocalAtomicWriteOptions::new().with_create_new();
    let exists = classify_rooted_destination(&create_new, Ok(()), None, b"a").unwrap_err();
    assert_eq!(exists.kind(), LocalIoErrorKind::AlreadyExists);
    let denied = classify_rooted_destination(&options, Err(LocalIoError::from_kind(LocalIoErrorKind::PermissionDenied)), None, b"a");
    assert_eq!(denied.unwrap_err().kind(), LocalIoErrorKind::PermissionDenied);
}

#[test]
fn rooted_staging_paths_sit_beside_the_destination() {
    assert_eq!(split_final_component(b"a/b/c.txt"), (b"a/b".to_vec(), b"c.txt".to_vec()));
    assert_eq!(split_final_component(b"c.txt"), (Vec::new(), b"c.txt".to_vec()));
    let nested = LocalRelativePath::new(b"a/b/c.txt").unwrap();
    assert_eq!(rooted_staging_path(&nested, b".qubit-atomic-x.tmp").unwrap(), b"a/b/.qubit-atomic-x.tmp".to_vec());
    let top = LocalRelativePath::new(b"c.txt").unwrap();
    assert_eq!(rooted_staging_path(&top, b"s.tmp").unwrap(), b"s.tmp".to_vec());
    let error = rooted_staging_path(&top, b"../escape").unwrap_err();
    assert_eq!(error.stage(), LocalAtomicWriteStage::CreateTemporaryFile);
    assert_eq!(error.kind(), LocalIoErrorKind::InvalidInput);
}

#[test]
fn rooted_staging_allocation_is_bounded() {
    let collision = || Err(LocalIoError::from_kind(LocalIoErrorKind::AlreadyExists));
    assert!(matches!(rooted_staging_step(0, Ok(()), b"a", b"/r/a"), LocalRootedStagingStep::Opened));
    assert!(matches!(rooted_staging_step(0, collision(), b"a", b"/r/a"), LocalRootedStagingStep::Retry));
    assert!(matches!(
        rooted_staging_step(ROOTED_STAGING_ATTEMPTS - 2, collision(), b"a", b"/r/a"),
        LocalRootedStagingStep::Retry
    ));
    match rooted_staging_step(ROOTED_STAGING_ATTEMPTS - 1, collision(), b"a", b"/r/a") {
        LocalRootedStagingStep::Failed(error) => {
            assert_eq!(error.kind(), LocalIoErrorKind::AlreadyExists);
            assert_eq!(error.temporary_path(), Some(&b"/r/a"[..]));
        }
        _ => panic!("the last collision must end the allocation"),
    }
    match rooted_staging_step(3, Err(LocalIoError::other("disk")), b"a", b"/r/a") {
        LocalRootedStagingStep::Failed(error) => assert_eq!(error.stage(), LocalAtomicWriteStage::CreateTemporaryFile),
        _ => panic!("other failures end the allocation"),
    }
}

#[test]
fn rooted_writer_records_its_preparation() {
    let writer = rooted(LocalDurabilityRequirement::Required, true);
    assert_eq!(writer.path(), b"logs/app/out.txt");
    assert_eq!(writer.final_name(), b"out.txt");
    assert!(writer.destination_existed());
    assert!(writer.preserves_destination_metadata());
    assert_eq!(writer.open_retry_timeout(), Some(Duration::from_millis(5)));
    assert_eq!(
        writer.parent_sync_order(),
        vec![b"logs/app".to_vec(), b"logs/app".to_vec(), b"logs".to_vec()]
    );
    assert!(writer.reject_required_durability().is_err());
    assert!(rooted(LocalDurabilityRequirement::Preferred, false).reject_required_durability().is_ok());
}

#[test]
fn rooted_commit_steps_classify_failures() {
    let writer = rooted(LocalDurabilityRequirement::Required, true);
    let gone = writer.open_destination_for_commit::<u8>(Some(Ok(None))).unwrap_err();
    assert_eq!(gone.destination_state(), LocalAtomicDestinationState::Missing);
    assert_eq!(gone.source_error().message(), "rooted atomic destination disappeared");
    assert_eq!(writer.open_destination_for_commit(Some(Ok(Some(7u8)))).unwrap(), Some(7));
    assert_eq!(writer.read_destination_metadata(Ok(3u8)).unwrap(), 3);
    let applied = writer.preserve_destination_metadata(Err(LocalIoError::other("acl"))).unwrap_err();
    assert_eq!(applied.stage(), LocalAtomicWriteStage::ApplyDestinationMetadata);
    assert_eq!(writer.sync_temporary_file(Some(Ok(()))).unwrap(), true);
    let changed = writer.verify_destination_identity(false).unwrap_err();
    assert_eq!(changed.destination_state(), LocalAtomicDestinationState::Indeterminate);
    assert_eq!(changed.stage(), LocalAtomicWriteStage::ReplaceDestination);
    assert!(writer.verify_destination_identity(true).is_ok());
    assert_eq!(writer.replace_destination(Ok(())).unwrap(), false);
    let rename = writer.replace_destination(Err(LocalIoError::other("rename"))).unwrap_err();
    assert_eq!(rename.destination_state(), LocalAtomicDestinationState::Unchanged);
    let cleanup = writer.abort(Err(LocalIoError::other("unlink"))).unwrap_err();
    assert_eq!(cleanup.stage(), LocalAtomicWriteStage::CleanupTemporaryFile);
}

#[test]
fn rooted_installation_reports_durability() {
    let writer = rooted(LocalDurabilityRequirement::Required, false);
    assert_eq!(writer.install_and_sync_parent(LocalAtomicInstallOutcome::Installed, Some(Ok(()))).unwrap(), true);
    let error = writer
        .install_and_sync_parent(LocalAtomicInstallOutcome::Installed, Some(Err(LocalIoError::other("fsync"))))
        .unwrap_err();
    assert_eq!(error.stage(), LocalAtomicWriteStage::SyncParent);
    assert_eq!(error.destination_state(), LocalAtomicDestinationState::Replaced);
    assert_eq!(writer.install_and_sync_parent(LocalAtomicInstallOutcome::Recovered, None).unwrap(), false);
    let preferred = rooted(LocalDurabilityRequirement::Preferred, false);
    assert_eq!(
        preferred.install_and_sync_parent(LocalAtomicInstallOutcome::Installed, Some(Err(LocalIoError::other("x")))).unwrap(),
        false
    );
}

#[test]
fn temp_file_handle_closes_before_release() {
    let mut file = LocalTempFile::in_dir(Ok(b"/tmp/.tmp-1".to_vec())).unwrap();
    assert_eq!(file.path(), b"/tmp/.tmp-1");
    assert!(file.as_file().is_ok());
    file.close();
    let closed = file.as_file().unwrap_err();
    assert_eq!(closed.kind(), LocalIoErrorKind::NotFound);
    assert_eq!(closed.message(), "temporary file handle is closed");
    assert_eq!(file.keep(), b"/tmp/.tmp-1".to_vec());
    assert!(LocalTempFile::in_dir(Err(LocalIoError::other("full"))).is_err());
}

#[test]
fn temp_file_persistence_returns_the_closed_file_on_failure() {
    let file = LocalTempFile::in_dir(Ok(b"/tmp/.tmp-2".to_vec())).unwrap();
    let done = file.persist_with(b"out.json", Ok(b"/work/out.json".to_vec()), Some(Ok(())), Some(Ok(()))).unwrap();
    assert_eq!(done, b"/work/out.json".to_vec());
    let file = LocalTempFile::in_dir(Ok(b"/tmp/.tmp-3".to_vec())).unwrap();
    let conflict = file
        .persist_with(
            b"out.json",
            Ok(b"/work/out.json".to_vec()),
            Some(Ok(())),
            Some(Err(LocalIoError::from_kind(LocalIoErrorKind::AlreadyExists))),
        )
        .unwrap_err();
    assert_eq!(conflict.stage(), LocalPersistStage::InstallDestination);
    assert_eq!(conflict.state(), LocalPersistFailureState::NotPublished);
    assert_eq!(conflict.source_state(), LocalTempSourceState::Owned);
    assert!(conflict.resource().as_file().is_err());
    assert_eq!(conflict.resource().path(), b"/tmp/.tmp-3");
    let file = LocalTempFile::in_dir(Ok(b"/tmp/.tmp-4".to_vec())).unwrap();
    let unresolved = file.persist_with(b"out.json", Err(LocalIoError::other("cwd")), None, None).unwrap_err();
    assert_eq!(unresolved.stage(), LocalPersistStage::ResolveTarget);
    assert_eq!(unresolved.resolved_target(), None);
}
