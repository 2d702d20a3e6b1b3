//! Validation of filesystem options against the namespace, the symbolic-link
//! policy, and the capabilities of the build.
use vstd::prelude::*;

use core::time::Duration;
use std::time::Instant;

use crate::local_file_error::{
    spec_bare_error, spec_io_error, LocalFileError, LocalFileErrorKind, LocalFileErrorView, LocalFileOperation,
    LocalResult,
};
use crate::local_filenames::{opt_str, spec_temp_affix_problem, validate_temp_affixes};
use crate::local_fs_options::{
    LocalAtomicityRequirement, LocalCopyOptions, LocalCopySourceMode, LocalFileSystemCapabilities,
    LocalFileSystemCapabilitiesView, LocalListOptions, LocalListOptionsView, LocalRenameOptions,
    LocalRenameOptionsView, LocalCopyOptionsView, LocalWriteMode, LocalWriteOptions, LocalWriteOptionsView,
};
use crate::local_namespace::LocalFileSystemScope;
use crate::local_options::{LocalDurabilityRequirement, LocalSymlinkPolicy};
use crate::path_model::copy_bytes;

verus! {

/// The problem reported by a validation result, if any.
pub open spec fn problem_of(res: LocalResult<()>) -> Option<LocalFileErrorView> {
    match res {
        Ok(()) => None,
        Err(e) => Some(e@),
    }
}

/// The bytes of an optional borrowed path.
pub open spec fn opt_path(path: Option<&[u8]>) -> Option<Seq<u8>> {
    match path {
        Some(p) => Some(p@),
        None => None,
    }
}

/// An error with the operation path attached when there is one.
pub open spec fn with_opt_path(error: LocalFileErrorView, path: Option<Seq<u8>>) -> LocalFileErrorView {
    match path {
        Some(p) => LocalFileErrorView { path: Some(p), ..error },
        None => error,
    }
}

/// An error with the second operand attached when there is one.
pub open spec fn with_opt_target(error: LocalFileErrorView, target: Option<Seq<u8>>) -> LocalFileErrorView {
    match target {
        Some(p) => LocalFileErrorView { target: Some(p), ..error },
        None => error,
    }
}

/// An error with the current-directory snapshot attached when there is
/// one.
pub open spec fn with_opt_current_directory(
    error: LocalFileErrorView,
    current_directory: Option<Seq<u8>>,
) -> LocalFileErrorView {
    match current_directory {
        Some(c) => LocalFileErrorView { current_directory: Some(c), ..error },
        None => error,
    }
}

/// A failure of `kind` during `operation` explained by `reason`.
pub open spec fn reasoned_error(
    kind: LocalFileErrorKind,
    operation: LocalFileOperation,
    reason: Seq<char>,
) -> LocalFileErrorView {
    LocalFileErrorView { reason: Some(reason), ..spec_bare_error(kind, operation) }
}

/// Attaches the operation path when there is one.
pub fn attach_path(error: LocalFileError, path: Option<&[u8]>) -> (result: LocalFileError)
    ensures
        result@ == with_opt_path(error@, opt_path(path)),
{
    match path {
        Some(p) => error.with_path(copy_bytes(p)),
        None => error,
    }
}

/// Attaches the second operand when there is one.
pub fn attach_target(error: LocalFileError, target: Option<&[u8]>) -> (result: LocalFileError)
    ensures
        result@ == with_opt_target(error@, opt_path(target)),
{
    match target {
        Some(p) => error.with_target(copy_bytes(p)),
        None => error,
    }
}

/// Attaches the current-directory snapshot when there is one.
pub fn with_current_directory(error: LocalFileError, current_directory: Option<&[u8]>) -> (result: LocalFileError)
    ensures
        result@ == with_opt_current_directory(error@, opt_path(current_directory)),
{
    match current_directory {
        Some(c) => error.with_current_directory(copy_bytes(c)),
        None => error,
    }
}

/// The rejection of following links across scope in a Rooted namespace.
pub open spec fn spec_symlink_policy_problem(
    scope: LocalFileSystemScope,
    policy: LocalSymlinkPolicy,
    operation: LocalFileOperation,
    path: Option<Seq<u8>>,
) -> Option<LocalFileErrorView> {
    if scope == LocalFileSystemScope::Rooted && policy == LocalSymlinkPolicy::FollowAcrossScope {
        Some(
            with_opt_path(
                reasoned_error(
                    LocalFileErrorKind::InvalidOptions,
                    operation,
                    "FollowAcrossScope is incompatible with a Rooted filesystem"@,
                ),
                path,
            ),
        )
    } else {
        None
    }
}

/// Rejects a symbolic-link policy that a namespace cannot honor.
pub fn validate_scope_symlink_policy(
    scope: LocalFileSystemScope,
    policy: LocalSymlinkPolicy,
    operation: LocalFileOperation,
    path: Option<&[u8]>,
) -> (res: LocalResult<()>)
    ensures
        problem_of(res) == spec_symlink_policy_problem(scope, policy, operation, opt_path(path)),
{
    if scope == LocalFileSystemScope::Rooted && policy == LocalSymlinkPolicy::FollowAcrossScope {
        let error = LocalFileError::new(LocalFileErrorKind::InvalidOptions, operation).with_reason(
            "FollowAcrossScope is incompatible with a Rooted filesystem",
        );
        return Err(attach_path(error, path));
    }
    Ok(())
}

/// A reading of the standard library's monotonic clock, carried through
/// unchanged.
#[verifier::external_type_specification]
#[verifier::external_body]
pub struct ExInstant(Instant);

/// Reads the monotonic clock.
///
/// Wraps `Instant::now`; the reading depends on the time, so nothing is
/// stated of it.
#[verifier::external_body]
fn instant_now() -> Instant {
    Instant::now()
}

/// Adds `duration` to a clock reading.
///
/// Wraps `Instant::checked_add`, which returns `None` when the sum cannot be
/// represented; where that limit lies depends on the platform's clock, so
/// nothing is stated of the result.
#[verifier::external_body]
fn instant_checked_add(base: Instant, duration: Duration) -> Option<Instant> {
    base.checked_add(duration)
}

/// Whether a deadline of `duration` from now can be represented on the
/// monotonic clock.
fn deadline_fits_clock(duration: Duration) -> bool {
    instant_checked_add(instant_now(), duration).is_some()
}

/// The first problem of listing options: a zero open-directory limit, a
/// deadline that does not fit the clock, then a link policy the namespace
/// cannot honor. The operation is `List` when a path is given and
/// `Configure` otherwise.
pub open spec fn spec_list_options_problem(
    scope: LocalFileSystemScope,
    default_policy: LocalSymlinkPolicy,
    options: LocalListOptionsView,
    path: Option<Seq<u8>>,
    deadline_fits: bool,
) -> Option<LocalFileErrorView> {
    let operation = if path is Some {
        LocalFileOperation::List
    } else {
        LocalFileOperation::Configure
    };
    if options.max_open_directories == Some(0usize) {
        Some(
            with_opt_path(
                reasoned_error(
                    LocalFileErrorKind::InvalidOptions,
                    operation,
                    "maximum open directory count must be greater than zero"@,
                ),
                path,
            ),
        )
    } else if options.deadline is Some && !deadline_fits {
        Some(
            with_opt_path(
                reasoned_error(
                    LocalFileErrorKind::InvalidOptions,
                    operation,
                    "listing deadline exceeds the monotonic clock range"@,
                ),
                path,
            ),
        )
    } else {
        spec_symlink_policy_problem(
            scope,
            match options.symlink_policy {
                Some(p) => p,
                None => default_policy,
            },
            operation,
            path,
        )
    }
}

/// Validates listing options, given whether their deadline fits the clock.
pub fn validate_list_options_at(
    scope: LocalFileSystemScope,
    default_policy: LocalSymlinkPolicy,
    options: &LocalListOptions,
    path: Option<&[u8]>,
    deadline_fits: bool,
) -> (res: LocalResult<()>)
    ensures
        problem_of(res) == spec_list_options_problem(scope, default_policy, options@, opt_path(path), deadline_fits),
{
    let operation = if path.is_some() {
        LocalFileOperation::List
    } else {
        LocalFileOperation::Configure
    };
    if options.max_open_directories() == Some(0usize) {
        let error = LocalFileError::new(LocalFileErrorKind::InvalidOptions, operation).with_reason(
            "maximum open directory count must be greater than zero",
        );
        return Err(attach_path(error, path));
    }
    if options.deadline().is_some() && !deadline_fits {
        let error = LocalFileError::new(LocalFileErrorKind::InvalidOptions, operation).with_reason(
            "listing deadline exceeds the monotonic clock range",
        );
        return Err(attach_path(error, path));
    }
    let policy = match options.symlink_policy() {
        Some(p) => p,
        None => default_policy,
    };
    validate_scope_symlink_policy(scope, policy, operation, path)
}

/// Validates listing options; whether a deadline fits the clock is read
/// from the clock, so the result is one of the two outcomes the validation
/// has for it.
pub fn validate_list_options(
    scope: LocalFileSystemScope,
    default_policy: LocalSymlinkPolicy,
    options: &LocalListOptions,
    path: Option<&[u8]>,
) -> (res: LocalResult<()>)
    ensures
        problem_of(res) == spec_list_options_problem(scope, default_policy, options@, opt_path(path), true)
            || problem_of(res) == spec_list_options_problem(
            scope,
            default_policy,
            options@,
            opt_path(path),
            false,
        ),
{
    let fits = match options.deadline() {
        Some(d) => deadline_fits_clock(d),
        None => true,
    };
    validate_list_options_at(scope, default_policy, options, path, fits)
}

/// The first problem of copy options: a link policy the namespace cannot
/// honor, a deadline that does not fit the clock, then a guarantee that is
/// unavailable (required atomicity of a tree copy, or required durability
/// of a tree copy or of a build without durable file copies). The operation
/// is `Copy` when a source is given and `Configure` otherwise.
pub open spec fn spec_copy_options_problem(
    scope: LocalFileSystemScope,
    default_policy: LocalSymlinkPolicy,
    options: LocalCopyOptionsView,
    capabilities: LocalFileSystemCapabilitiesView,
    source: Option<Seq<u8>>,
    destination: Option<Seq<u8>>,
    deadline_fits: bool,
) -> Option<LocalFileErrorView> {
    let operation = if source is Some {
        LocalFileOperation::Copy
    } else {
        LocalFileOperation::Configure
    };
    let tree = options.source_mode == LocalCopySourceMode::Tree;
    let policy = match options.symlink_policy_override {
        Some(p) => p,
        None => default_policy,
    };
    if spec_symlink_policy_problem(scope, policy, operation, source) is Some {
        spec_symlink_policy_problem(scope, policy, operation, source)
    } else if options.deadline is Some && !deadline_fits {
        Some(
            with_opt_target(
                with_opt_path(
                    reasoned_error(
                        LocalFileErrorKind::InvalidOptions,
                        operation,
                        "copy deadline exceeds the monotonic clock range"@,
                    ),
                    source,
                ),
                destination,
            ),
        )
    } else if (tree && options.atomicity == LocalAtomicityRequirement::Required) || (options.durability
        == LocalDurabilityRequirement::Required && (tree || !capabilities.durable_file_copy)) {
        Some(
            with_opt_target(
                with_opt_path(
                    reasoned_error(
                        LocalFileErrorKind::RequirementNotMet,
                        operation,
                        "the requested copy guarantee is unavailable for these options"@,
                    ),
                    source,
                ),
                destination,
            ),
        )
    } else {
        None
    }
}

/// Validates copy options, given whether their deadline fits the clock.
pub fn validate_copy_options_at(
    scope: LocalFileSystemScope,
    default_policy: LocalSymlinkPolicy,
    options: &LocalCopyOptions,
    capabilities: LocalFileSystemCapabilities,
    source: Option<&[u8]>,
    destination: Option<&[u8]>,
    deadline_fits: bool,
) -> (res: LocalResult<()>)
    ensures
        problem_of(res) == spec_copy_options_problem(
            scope,
            default_policy,
            options@,
            capabilities@,
            opt_path(source),
            opt_path(destination),
            deadline_fits,
        ),
{
    let operation = if source.is_some() {
        LocalFileOperation::Copy
    } else {
        LocalFileOperation::Configure
    };
    let policy = match options.symlink_policy_override() {
        Some(p) => p,
        None => default_policy,
    };
    match validate_scope_symlink_policy(scope, policy, operation, source) {
        Err(error) => return Err(error),
        Ok(()) => {},
    }
    if options.deadline().is_some() && !deadline_fits {
        let error = LocalFileError::new(LocalFileErrorKind::InvalidOptions, operation).with_reason(
            "copy deadline exceeds the monotonic clock range",
        );
        return Err(attach_target(attach_path(error, source), destination));
    }
    let tree = options.source_mode() == LocalCopySourceMode::Tree;
    if (tree && options.atomicity() == LocalAtomicityRequirement::Required) || (options.durability()
        == LocalDurabilityRequirement::Required && (tree || !capabilities.supports_durable_file_copy())) {
        let error = LocalFileError::new(LocalFileErrorKind::RequirementNotMet, operation).with_reason(
            "the requested copy guarantee is unavailable for these options",
        );
        return Err(attach_target(attach_path(error, source), destination));
    }
    Ok(())
}

/// Validates copy options; whether a deadline fits the clock is read from
/// the clock, so the result is one of the two outcomes the validation has
/// for it.
pub fn validate_copy_options(
    scope: LocalFileSystemScope,
    default_policy: LocalSymlinkPolicy,
    options: &LocalCopyOptions,
    capabilities: LocalFileSystemCapabilities,
    source: Option<&[u8]>,
    destination: Option<&[u8]>,
) -> (res: LocalResult<()>)
    ensures
        problem_of(res) == spec_copy_options_problem(
            scope,
            default_policy,
            options@,
            capabilities@,
            opt_path(source),
            opt_path(destination),
            true,
        ) || problem_of(res) == spec_copy_options_problem(
            scope,
            default_policy,
            options@,
            capabilities@,
            opt_path(source),
            opt_path(destination),
            false,
        ),
{
    let fits = match options.deadline() {
        Some(d) => deadline_fits_clock(d),
        None => true,
    };
    validate_copy_options_at(scope, default_policy, options, capabilities, source, destination, fits)
}

/// The rejection of a zero attempt limit for temporary entries.
pub open spec fn spec_temp_attempts_problem(
    max_attempts: Option<usize>,
    operation: LocalFileOperation,
) -> Option<LocalFileErrorView> {
    if max_attempts == Some(0usize) {
        Some(
            reasoned_error(
                LocalFileErrorKind::InvalidOptions,
                operation,
                "temporary entry attempt count must be greater than zero"@,
            ),
        )
    } else {
        None
    }
}

/// Rejects a zero attempt limit for temporary entries.
pub fn validate_temp_attempts(max_attempts: Option<usize>, operation: LocalFileOperation) -> (res: LocalResult<()>)
    ensures
        problem_of(res) == spec_temp_attempts_problem(max_attempts, operation),
{
    if max_attempts != Some(0usize) {
        return Ok(());
    }
    Err(
        LocalFileError::new(LocalFileErrorKind::InvalidOptions, operation).with_reason(
            "temporary entry attempt count must be greater than zero",
        ),
    )
}

/// The rejection of a writer guarantee that is unavailable: required
/// atomicity of an append, or required durability of a staged write on a
/// build without durable writes.
pub open spec fn spec_write_options_problem(
    options: LocalWriteOptionsView,
    capabilities: LocalFileSystemCapabilitiesView,
    operation: LocalFileOperation,
) -> Option<LocalFileErrorView> {
    let append = options.mode == LocalWriteMode::Append;
    if (append && options.atomicity == LocalAtomicityRequirement::Required) || (!append && options.durability
        == LocalDurabilityRequirement::Required && !capabilities.durable_write) {
        Some(
            reasoned_error(
                LocalFileErrorKind::RequirementNotMet,
                operation,
                "the requested writer guarantee is unavailable for these options"@,
            ),
        )
    } else {
        None
    }
}

/// Rejects a writer guarantee that is unavailable.
pub fn validate_write_options(
    options: &LocalWriteOptions,
    capabilities: LocalFileSystemCapabilities,
    operation: LocalFileOperation,
) -> (res: LocalResult<()>)
    ensures
        problem_of(res) == spec_write_options_problem(options@, capabilities@, operation),
{
    let append = options.mode() == LocalWriteMode::Append;
    if (append && options.atomicity() == LocalAtomicityRequirement::Required) || (!append
        && options.durability() == LocalDurabilityRequirement::Required
        && !capabilities.supports_durable_write()) {
        return Err(
            LocalFileError::new(LocalFileErrorKind::RequirementNotMet, operation).with_reason(
                "the requested writer guarantee is unavailable for these options",
            ),
        );
    }
    Ok(())
}

/// The rejection of a rename guarantee that is unavailable: a build
/// without atomic renames, or required durability on a build without
/// durable renames.
pub open spec fn spec_rename_options_problem(
    options: LocalRenameOptionsView,
    capabilities: LocalFileSystemCapabilitiesView,
    operation: LocalFileOperation,
) -> Option<LocalFileErrorView> {
    if !capabilities.atomic_rename || (options.durability == LocalDurabilityRequirement::Required
        && !capabilities.durable_rename) {
        Some(
            reasoned_error(
                LocalFileErrorKind::RequirementNotMet,
                operation,
                "the requested rename guarantee is unavailable on this build"@,
            ),
        )
    } else {
        None
    }
}

/// Rejects a rename guarantee that is unavailable.
pub fn validate_rename_options(
    options: &LocalRenameOptions,
    capabilities: LocalFileSystemCapabilities,
    operation: LocalFileOperation,
) -> (res: LocalResult<()>)
    ensures
        problem_of(res) == spec_rename_options_problem(options@, capabilities@, operation),
{
    if !capabilities.supports_atomic_rename() || (options.durability() == LocalDurabilityRequirement::Required
        && !capabilities.supports_durable_rename()) {
        return Err(
            LocalFileError::new(LocalFileErrorKind::RequirementNotMet, operation).with_reason(
                "the requested rename guarantee is unavailable on this build",
            ),
        );
    }
    Ok(())
}

/// The first problem of temporary-entry options: a zero attempt limit,
/// then an unsafe affix, reported as invalid options that keep the affix
/// error.
pub open spec fn spec_temp_options_problem(
    prefix: Option<Seq<char>>,
    suffix: Option<Seq<char>>,
    max_attempts: Option<usize>,
    operation: LocalFileOperation,
) -> Option<LocalFileErrorView> {
    if spec_temp_attempts_problem(max_attempts, operation) is Some {
        spec_temp_attempts_problem(max_attempts, operation)
    } else {
        match spec_temp_affix_problem(prefix, suffix) {
            Some(e) => Some(
                LocalFileErrorView {
                    kind: LocalFileErrorKind::InvalidOptions,
                    ..spec_io_error(operation, None, None, e)
                },
            ),
            None => None,
        }
    }
}

/// Validates temporary-entry options.
pub fn validate_temp_options(
    prefix: Option<&str>,
    suffix: Option<&str>,
    max_attempts: Option<usize>,
    operation: LocalFileOperation,
) -> (res: LocalResult<()>)
    ensures
        problem_of(res) == spec_temp_options_problem(opt_str(prefix), opt_str(suffix), max_attempts, operation),
{
    match validate_temp_attempts(max_attempts, operation) {
        Err(error) => return Err(error),
        Ok(()) => {},
    }
    match validate_temp_affixes(prefix, suffix) {
        Ok(()) => Ok(()),
        Err(error) => Err(
            LocalFileError::from_io(operation, None, None, error).with_kind(LocalFileErrorKind::InvalidOptions),
        ),
    }
}

} // verus!
