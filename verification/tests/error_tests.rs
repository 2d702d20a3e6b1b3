use qubit_local_files::{
    LocalAtomicDestinationState, LocalAtomicWriteError, LocalAtomicWriteStage, LocalFileErrorKind,
    LocalFileOperation, LocalIoError, LocalIoErrorKind, LocalPersistError, LocalPersistErrorParts,
    LocalPersistFailureState, LocalPersistStage, LocalTempSourceState,
};

fn error() -> LocalAtomicWriteError {
    LocalAtomicWriteError::new(
        LocalAtomicWriteStage::ReplaceDestination,
        b"target".to_vec(),
        Some(b"staging".to_vec()),
        LocalAtomicDestinationState::Replaced,
        LocalIoError::other("boom"),
    )
}

#[test]
fn exposes_context_and_formats_secondary_errors() {
    let error = error()
        .with_cleanup_error(Some(LocalIoError::other("cleanup")))
        .with_parent_sync_error(Some(LocalIoError::other("sync")));
    assert_eq!(error.stage(), LocalAtomicWriteStage::ReplaceDestination);
    assert_eq!(error.path(), b"target".as_slice());
    assert_eq!(error.temporary_path(), Some(b"staging".as_slice()));
    assert_eq!(error.destination_state(), LocalAtomicDestinationState::Replaced);
    assert!(error.cleanup_error().is_some());
    assert!(error.parent_sync_error().is_some());
    assert_eq!(error.source_error().kind(), LocalIoErrorKind::Other);
    assert_eq!(error.kind(), LocalIoErrorKind::Other);
    let display = error.to_display_string();
    assert!(display.contains("staging cleanup"));
    assert!(display.contains("parent synchronization"));
    assert!(error.source().is_some());
}

#[test]
fn splits_staging_parts_without_optional_context() {
    let (path, cleanup, source) = error().into_staging_parts();
    assert_eq!(path, Some(b"staging".to_vec()));
    assert!(cleanup.is_none());
    assert_eq!(source.kind(), LocalIoErrorKind::Other);
    let no_staging = LocalAtomicWriteError::new(
        LocalAtomicWriteStage::PrepareParent,
        b"target".to_vec(),
        None,
        LocalAtomicDestinationState::Unchanged,
        LocalIoError::other("boom"),
    );
    assert!(!no_staging.to_display_string().contains("staging path"));
    let cleanup_only = error().with_cleanup_error(Some(LocalIoError::other("cleanup")));
    assert!(cleanup_only.to_display_string().contains("staging cleanup"));
    let parent_only = error().with_parent_sync_error(Some(LocalIoError::other("sync")));
    assert!(parent_only.to_display_string().contains("parent synchronization"));
    let plain = error().with_cleanup_error(None).with_parent_sync_error(None);
    assert!(plain.to_display_string().contains("atomic write"));
}

#[test]
fn atomic_write_error_text_is_exact() {
    let error = error().with_cleanup_error(Some(LocalIoError::other("cleanup")));
    assert_eq!(
        error.to_display_string(),
        "atomic write to 'target' failed during ReplaceDestination \
         (destination_state=Replaced): boom; staging path 'staging'; \
         staging cleanup also failed: cleanup"
    );
}

#[test]
fn test_persist_error_exposes_recoverable_context_and_resource() {
    let mut error = LocalPersistError::new(
        LocalIoError::from_kind(LocalIoErrorKind::NotFound),
        String::from("temporary"),
        b"requested".to_vec(),
        Some(b"/resolved".to_vec()),
        LocalPersistStage::PrepareParent,
        LocalPersistFailureState::NotPublished,
        LocalTempSourceState::Owned,
    )
    .with_current_directory(b"/workspace".to_vec());

    assert_eq!(LocalFileErrorKind::NotFound, error.kind());
    assert_eq!(LocalPersistStage::PrepareParent, error.stage());
    assert_eq!(LocalPersistFailureState::NotPublished, error.state());
    assert_eq!(b"requested".as_slice(), error.requested_target());
    assert_eq!(Some(b"/resolved".as_slice()), error.resolved_target());
    assert_eq!("temporary", error.resource());
    error.resource_mut().push_str("-updated");
    assert_eq!("temporary-updated", error.resource());
    assert!(error.to_display_string().contains("resolved as '/resolved'"));
    assert!(error.source().is_some());
    assert_eq!(Some(b"/workspace".as_slice()), error.error().current_directory());
}

#[test]
fn test_persist_error_parts_preserve_indeterminate_install_state() {
    let error = LocalPersistError::new(
        LocalIoError::from_kind(LocalIoErrorKind::PermissionDenied),
        7_u8,
        b"requested".to_vec(),
        None,
        LocalPersistStage::InstallDestination,
        LocalPersistFailureState::Indeterminate,
        LocalTempSourceState::Indeterminate,
    );

    let LocalPersistErrorParts {
        error: source,
        resource,
        requested_target: requested,
        resolved_target: resolved,
        stage,
        state,
        ..
    } = error.into_parts();
    assert_eq!(Some(LocalIoErrorKind::PermissionDenied), source.io_error_kind());
    assert_eq!(7, resource);
    assert_eq!(b"requested".to_vec(), requested);
    assert_eq!(None, resolved);
    assert_eq!(LocalPersistStage::InstallDestination, stage);
    assert_eq!(LocalPersistFailureState::Indeterminate, state);
    assert_eq!(LocalFileOperation::PersistTemp, source.operation());
}

#[test]
fn test_persist_error_retains_explicit_durability_failure_states() {
    let source_error = LocalPersistError::new(
        LocalIoError::from_kind(LocalIoErrorKind::Other),
        (),
        b"requested".to_vec(),
        Some(b"/resolved".to_vec()),
        LocalPersistStage::SynchronizeSource,
        LocalPersistFailureState::NotPublished,
        LocalTempSourceState::Owned,
    );
    assert_eq!(LocalPersistFailureState::NotPublished, source_error.state());

    let destination_error = LocalPersistError::new(
        LocalIoError::from_kind(LocalIoErrorKind::Other),
        (),
        b"requested".to_vec(),
        Some(b"/resolved".to_vec()),
        LocalPersistStage::SynchronizeDestination,
        LocalPersistFailureState::Published,
        LocalTempSourceState::CleanupRequired,
    );
    assert_eq!(LocalPersistFailureState::Published, destination_error.state());
}

#[test]
fn persist_error_text_is_exact() {
    let error = LocalPersistError::new(
        LocalIoError::other("disk full"),
        (),
        b"out.txt".to_vec(),
        Some(b"/work/out.txt".to_vec()),
        LocalPersistStage::InstallDestination,
        LocalPersistFailureState::Indeterminate,
        LocalTempSourceState::Indeterminate,
    );
    assert_eq!(
        error.to_display_string(),
        "failed to persist temporary resource during InstallDestination to requested \
         target 'out.txt' (resolved as '/work/out.txt'): PersistTemp failed (Io) at \
         'out.txt' to '/work/out.txt': disk full"
    );
    let unresolved = LocalPersistError::new(
        LocalIoError::from_kind(LocalIoErrorKind::NotFound),
        (),
        b"out.txt".to_vec(),
        None,
        LocalPersistStage::ResolveTarget,
        LocalPersistFailureState::NotPublished,
        LocalTempSourceState::Owned,
    );
    assert!(!unresolved.to_display_string().contains("resolved as"));
    assert_eq!(unresolved.kind(), LocalFileErrorKind::NotFound);
}

#[test]
fn native_rename_failures_classify_publication() {
    assert_eq!(
        LocalPersistFailureState::from_native_error(LocalIoErrorKind::AlreadyExists),
        LocalPersistFailureState::NotPublished
    );
    assert_eq!(
        LocalPersistFailureState::from_native_error(LocalIoErrorKind::Unsupported),
        LocalPersistFailureState::NotPublished
    );
    assert_eq!(
        LocalPersistFailureState::from_native_error(LocalIoErrorKind::PermissionDenied),
        LocalPersistFailureState::Indeterminate
    );
    assert_eq!(
        LocalPersistFailureState::from_native_error(LocalIoErrorKind::Other),
        LocalPersistFailureState::Indeterminate
    );
}

#[test]
fn persist_error_with_kind_and_resource_keeps_context() {
    let error = LocalPersistError::new(
        LocalIoError::other("busy"),
        1_u32,
        b"a".to_vec(),
        None,
        LocalPersistStage::InstallDestination,
        LocalPersistFailureState::Indeterminate,
        LocalTempSourceState::Indeterminate,
    )
    .with_kind(LocalFileErrorKind::PublicationIncomplete)
    .with_resource("moved");
    assert_eq!(error.kind(), LocalFileErrorKind::PublicationIncomplete);
    assert_eq!(*error.resource(), "moved");
    assert_eq!(error.stage(), LocalPersistStage::InstallDestination);
    assert_eq!(error.source_state(), LocalTempSourceState::Indeterminate);
}
