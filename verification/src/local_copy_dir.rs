//! Progress and failures of a recursive directory copy.
use vstd::prelude::*;

use crate::display_text::{concat_text, display_opt_path, display_path, optional_part, push_optional_path, push_optional_text, spec_display_path};
use crate::local_atomic_write_error::{opt_io_view, opt_message};
use crate::local_file_error::{opt_bytes, optional_path, LocalIoError, LocalIoErrorKind, LocalIoErrorView};

verus! {

/// Stage at which a recursive copy failed.
#[derive(Clone, Copy, Debug, PartialEq, Eq, Structural)]
pub enum LocalCopyDirStage {
    /// Inspecting the source root failed.
    InspectSource,
    /// Inspecting a source entry failed.
    InspectSourceEntry,
    /// Reading a source directory failed.
    ReadSourceDirectory,
    /// Preparing a destination entry failed.
    PrepareDestination,
    /// Copying file contents failed.
    CopyFileContents,
    /// Preserving permissions failed.
    PreservePermissions,
    /// Committing a staged file failed.
    CommitFile,
    /// Removing an uncommitted staging file failed.
    CleanupTemporaryFile,
    /// Updating the progress counters failed.
    UpdateStatistics,
}

/// The name under which a copy stage is displayed.
pub open spec fn spec_copy_stage_name(stage: LocalCopyDirStage) -> Seq<char> {
    match stage {
        LocalCopyDirStage::InspectSource => "InspectSource"@,
        LocalCopyDirStage::InspectSourceEntry => "InspectSourceEntry"@,
        LocalCopyDirStage::ReadSourceDirectory => "ReadSourceDirectory"@,
        LocalCopyDirStage::PrepareDestination => "PrepareDestination"@,
        LocalCopyDirStage::CopyFileContents => "CopyFileContents"@,
        LocalCopyDirStage::PreservePermissions => "PreservePermissions"@,
        LocalCopyDirStage::CommitFile => "CommitFile"@,
        LocalCopyDirStage::CleanupTemporaryFile => "CleanupTemporaryFile"@,
        LocalCopyDirStage::UpdateStatistics => "UpdateStatistics"@,
    }
}

/// The name under which a copy stage is displayed.
pub fn copy_stage_name(stage: LocalCopyDirStage) -> (name: &'static str)
    ensures
        name@ == spec_copy_stage_name(stage),
{
    match stage {
        LocalCopyDirStage::InspectSource => "InspectSource",
        LocalCopyDirStage::InspectSourceEntry => "InspectSourceEntry",
        LocalCopyDirStage::ReadSourceDirectory => "ReadSourceDirectory",
        LocalCopyDirStage::PrepareDestination => "PrepareDestination",
        LocalCopyDirStage::CopyFileContents => "CopyFileContents",
        LocalCopyDirStage::PreservePermissions => "PreservePermissions",
        LocalCopyDirStage::CommitFile => "CommitFile",
        LocalCopyDirStage::CleanupTemporaryFile => "CleanupTemporaryFile",
        LocalCopyDirStage::UpdateStatistics => "UpdateStatistics",
    }
}

/// Progress of a recursive copy.
#[derive(Clone, Copy, Debug, PartialEq, Eq, Structural)]
pub struct LocalCopyDirStats {
    /// Number of regular files and symbolic-link entries copied.
    pub files: u64,
    /// Number of destination directories created.
    pub directories: u64,
    /// Number of bytes copied from regular files.
    pub bytes: u64,
    /// Number of source entries skipped because of destination conflicts.
    pub skipped: u64,
    /// Number of existing destination entries replaced.
    pub overwritten: u64,
    /// Whether some completed publication was not atomic.
    pub non_atomic_publication: bool,
    /// Whether every copied regular file was synchronized, with no copied
    /// symbolic-link entry.
    pub files_durable: bool,
}

/// Empty progress, with durability kept until disproven.
pub open spec fn empty_copy_stats() -> LocalCopyDirStats {
    LocalCopyDirStats {
        files: 0,
        directories: 0,
        bytes: 0,
        skipped: 0,
        overwritten: 0,
        non_atomic_publication: false,
        files_durable: true,
    }
}

impl Default for LocalCopyDirStats {
    /// Empty progress, with durability kept until disproven.
    fn default() -> (stats: Self)
        ensures
            stats == empty_copy_stats(),
    {
        LocalCopyDirStats {
            files: 0,
            directories: 0,
            bytes: 0,
            skipped: 0,
            overwritten: 0,
            non_atomic_publication: false,
            files_durable: true,
        }
    }
}

impl LocalCopyDirStats {
    /// Returns the number of regular files and symbolic-link entries copied.
    pub fn files(&self) -> (n: u64)
        ensures
            n == self.files,
    {
        self.files
    }

    /// Returns the number of destination directories created.
    pub fn directories(&self) -> (n: u64)
        ensures
            n == self.directories,
    {
        self.directories
    }

    /// Returns the number of bytes copied from regular files.
    pub fn bytes(&self) -> (n: u64)
        ensures
            n == self.bytes,
    {
        self.bytes
    }

    /// Returns the number of source entries skipped.
    pub fn skipped(&self) -> (n: u64)
        ensures
            n == self.skipped,
    {
        self.skipped
    }

    /// Returns the number of destination entries overwritten.
    pub fn overwritten(&self) -> (n: u64)
        ensures
            n == self.overwritten,
    {
        self.overwritten
    }

    /// Reports whether every completed publication was atomic.
    pub fn atomic_publication(&self) -> (res: bool)
        ensures
            res == !self.non_atomic_publication,
    {
        !self.non_atomic_publication
    }

    /// Reports whether every copied file was synchronized before publication.
    pub fn files_durable(&self) -> (res: bool)
        ensures
            res == self.files_durable,
    {
        self.files_durable
    }
}

/// Decimal digit character of a value below 10.
pub open spec fn decimal_char(d: nat) -> char {
    (48 + d) as char
}

/// The decimal digits of `n`, without leading zeros (`0` for zero).
pub open spec fn decimal_digits(n: nat) -> Seq<char>
    decreases n,
{
    if n < 10 {
        seq![decimal_char(n)]
    } else {
        decimal_digits(n / 10).push(decimal_char(n % 10))
    }
}

/// The displayed text of a boolean.
pub open spec fn bool_text(b: bool) -> Seq<char> {
    if b {
        "true"@
    } else {
        "false"@
    }
}

/// The displayed text of copy progress, field by field.
pub open spec fn spec_copy_stats_text(stats: LocalCopyDirStats) -> Seq<char> {
    "LocalCopyDirStats { files: "@ + decimal_digits(stats.files as nat) + ", directories: "@
        + decimal_digits(stats.directories as nat) + ", bytes: "@ + decimal_digits(stats.bytes as nat)
        + ", skipped: "@ + decimal_digits(stats.skipped as nat) + ", overwritten: "@
        + decimal_digits(stats.overwritten as nat) + ", non_atomic_publication: "@ + bool_text(
        stats.non_atomic_publication,
    ) + ", files_durable: "@ + bool_text(stats.files_durable) + " }"@
}

fn decimal_digit_text(d: u64) -> (text: &'static str)
    requires
        d < 10,
    ensures
        text@ == seq![decimal_char(d as nat)],
{
    proof {
        reveal_strlit("0");
        reveal_strlit("1");
        reveal_strlit("2");
        reveal_strlit("3");
        reveal_strlit("4");
        reveal_strlit("5");
        reveal_strlit("6");
        reveal_strlit("7");
        reveal_strlit("8");
        reveal_strlit("9");
    }
    match d {
        0 => "0",
        1 => "1",
        2 => "2",
        3 => "3",
        4 => "4",
        5 => "5",
        6 => "6",
        7 => "7",
        8 => "8",
        _ => "9",
    }
}

/// Appends the decimal digits of `n`.
pub fn push_decimal(text: String, n: u64) -> (out: String)
    ensures
        out@ == text@ + decimal_digits(n as nat),
    decreases n,
{
    if n < 10 {
        concat_text(text, decimal_digit_text(n))
    } else {
        let head = push_decimal(text, n / 10);
        let out = concat_text(head, decimal_digit_text(n % 10));
        assert(out@ =~= text@ + decimal_digits(n as nat));
        out
    }
}

fn bool_name(b: bool) -> (text: &'static str)
    ensures
        text@ == bool_text(b),
{
    if b {
        "true"
    } else {
        "false"
    }
}

impl LocalCopyDirStats {
    /// Returns the displayed text of the progress.
    pub fn to_display_string(&self) -> (text: String)
        ensures
            text@ == spec_copy_stats_text(*self),
    {
        let text = push_decimal(String::from_str("LocalCopyDirStats { files: "), self.files);
        let text = push_decimal(concat_text(text, ", directories: "), self.directories);
        let text = push_decimal(concat_text(text, ", bytes: "), self.bytes);
        let text = push_decimal(concat_text(text, ", skipped: "), self.skipped);
        let text = push_decimal(concat_text(text, ", overwritten: "), self.overwritten);
        let text = concat_text(concat_text(text, ", non_atomic_publication: "), bool_name(self.non_atomic_publication));
        let text = concat_text(concat_text(text, ", files_durable: "), bool_name(self.files_durable));
        concat_text(text, " }")
    }
}

/// Failure of a recursive copy, with the entries being processed, the
/// progress made, and the staging context.
#[derive(Debug)]
pub struct LocalCopyDirError {
    stage: LocalCopyDirStage,
    source_path: Vec<u8>,
    destination_path: Vec<u8>,
    stats: LocalCopyDirStats,
    temporary_path: Option<Vec<u8>>,
    cleanup_error: Option<LocalIoError>,
    error: LocalIoError,
}

/// A recursive-copy failure as plain values.
pub struct LocalCopyDirErrorView {
    pub stage: LocalCopyDirStage,
    pub source_path: Seq<u8>,
    pub destination_path: Seq<u8>,
    pub stats: LocalCopyDirStats,
    pub temporary_path: Option<Seq<u8>>,
    pub cleanup_error: Option<LocalIoErrorView>,
    pub error: LocalIoErrorView,
}

impl View for LocalCopyDirError {
    type V = LocalCopyDirErrorView;

    closed spec fn view(&self) -> LocalCopyDirErrorView {
        LocalCopyDirErrorView {
            stage: self.stage,
            source_path: self.source_path@,
            destination_path: self.destination_path@,
            stats: self.stats,
            temporary_path: opt_bytes(self.temporary_path),
            cleanup_error: opt_io_view(self.cleanup_error),
            error: self.error@,
        }
    }
}

/// The displayed text of a recursive-copy failure.
pub open spec fn spec_copy_dir_error_text(error: LocalCopyDirErrorView) -> Seq<char> {
    "failed to copy '"@ + spec_display_path(error.source_path) + "' to '"@ + spec_display_path(
        error.destination_path,
    ) + "' during "@ + spec_copy_stage_name(error.stage) + " after "@ + spec_copy_stats_text(error.stats)
        + ": "@ + error.error.message + optional_part(
        "; staging path '"@,
        display_opt_path(error.temporary_path),
        "'"@,
    ) + optional_part("; staging cleanup also failed: "@, opt_message(error.cleanup_error), ""@)
}

/// The seven parts of a recursive-copy failure.
pub type LocalCopyDirErrorParts = (
    LocalCopyDirStage,
    Vec<u8>,
    Vec<u8>,
    LocalCopyDirStats,
    Option<Vec<u8>>,
    Option<LocalIoError>,
    LocalIoError,
);

impl LocalCopyDirError {
    /// Creates a recursive-copy error without staging context.
    pub fn new(
        stage: LocalCopyDirStage,
        source_path: Vec<u8>,
        destination_path: Vec<u8>,
        stats: LocalCopyDirStats,
        error: LocalIoError,
    ) -> (result: Self)
        ensures
            result@ == (LocalCopyDirErrorView {
                stage,
                source_path: source_path@,
                destination_path: destination_path@,
                stats,
                temporary_path: None,
                cleanup_error: None,
                error: error@,
            }),
    {
        LocalCopyDirError {
            stage,
            source_path,
            destination_path,
            stats,
            temporary_path: None,
            cleanup_error: None,
            error,
        }
    }

    /// Returns the stage at which the copy failed.
    pub fn stage(&self) -> (stage: LocalCopyDirStage)
        ensures
            stage == self@.stage,
    {
        self.stage
    }

    /// Returns the source entry being processed.
    pub fn source_path(&self) -> (path: &[u8])
        ensures
            path@ == self@.source_path,
    {
        self.source_path.as_slice()
    }

    /// Returns the destination entry being processed.
    pub fn destination_path(&self) -> (path: &[u8])
        ensures
            path@ == self@.destination_path,
    {
        self.destination_path.as_slice()
    }

    /// Returns the progress made before the failure.
    pub fn stats(&self) -> (stats: &LocalCopyDirStats)
        ensures
            *stats == self@.stats,
    {
        &self.stats
    }

    /// Returns the staging path, when staging had started.
    pub fn temporary_path(&self) -> (path: Option<&[u8]>)
        ensures
            match self@.temporary_path {
                Some(p) => (path matches Some(r) && r@ == p),
                None => path is None,
            },
    {
        optional_path(&self.temporary_path)
    }

    /// Returns the secondary staging cleanup error, when cleanup failed.
    pub fn cleanup_error(&self) -> (error: Option<&LocalIoError>)
        ensures
            match self@.cleanup_error {
                Some(e) => (error matches Some(r) && r@ == e),
                None => error is None,
            },
    {
        self.cleanup_error.as_ref()
    }

    /// Returns the I/O error that caused the copy to fail.
    pub fn error(&self) -> (error: &LocalIoError)
        ensures
            error@ == self@.error,
    {
        &self.error
    }

    /// Returns the kind of the causing I/O error.
    pub fn kind(&self) -> (kind: LocalIoErrorKind)
        ensures
            kind == self@.error.kind,
    {
        self.error.kind
    }

    /// Splits the error into its parts.
    pub fn into_parts(self) -> (parts: LocalCopyDirErrorParts)
        ensures
            parts.0 == self@.stage,
            parts.1@ == self@.source_path,
            parts.2@ == self@.destination_path,
            parts.3 == self@.stats,
            opt_bytes(parts.4) == self@.temporary_path,
            opt_io_view(parts.5) == self@.cleanup_error,
            parts.6@ == self@.error,
    {
        (
            self.stage,
            self.source_path,
            self.destination_path,
            self.stats,
            self.temporary_path,
            self.cleanup_error,
            self.error,
        )
    }

    /// Attaches the staging path and the cleanup failure, if any.
    pub fn with_staging_context(self, temporary_path: Vec<u8>, cleanup_error: Option<LocalIoError>) -> (result: Self)
        ensures
            result@ == (LocalCopyDirErrorView {
                temporary_path: Some(temporary_path@),
                cleanup_error: opt_io_view(cleanup_error),
                ..self@
            }),
    {
        LocalCopyDirError { temporary_path: Some(temporary_path), cleanup_error, ..self }
    }

    /// Returns the displayed text of the failure.
    pub fn to_display_string(&self) -> (text: String)
        ensures
            text@ == spec_copy_dir_error_text(self@),
    {
        let text = concat_text(String::from_str("failed to copy '"), display_path(self.source_path.as_slice()).as_str());
        let text = concat_text(text, "' to '");
        let text = concat_text(text, display_path(self.destination_path.as_slice()).as_str());
        let text = concat_text(concat_text(text, "' during "), copy_stage_name(self.stage));
        let text = concat_text(concat_text(text, " after "), self.stats.to_display_string().as_str());
        let text = concat_text(concat_text(text, ": "), self.error.message.as_str());
        let text = push_optional_path(text, "; staging path '", &self.temporary_path, "'");
        let cleanup: Option<&str> = match &self.cleanup_error {
            Some(e) => Some(e.message.as_str()),
            None => None,
        };
        push_optional_text(text, "; staging cleanup also failed: ", cleanup, "")
    }
}

} // verus!
