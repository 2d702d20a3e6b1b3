//! Structured errors reported by local filesystem operations, and the plain
//! model of a native I/O failure that they retain.
use vstd::prelude::*;

use crate::display_text::{concat_text, display_opt_path, optional_part, push_optional_path, push_optional_text};
use crate::local_path_codec::LocalPathCodecError;

verus! {

/// Classification of a native I/O failure.
#[derive(Clone, Copy, Debug, PartialEq, Eq, Structural)]
pub enum LocalIoErrorKind {
    NotFound,
    PermissionDenied,
    AlreadyExists,
    WouldBlock,
    InvalidInput,
    NotADirectory,
    IsADirectory,
    DirectoryNotEmpty,
    CrossesDevices,
    TimedOut,
    Interrupted,
    Unsupported,
    UnexpectedEof,
    Other,
}

/// A native I/O failure held as plain values: its kind and its message.
#[derive(Debug)]
pub struct LocalIoError {
    pub kind: LocalIoErrorKind,
    pub message: String,
}

/// The standard description of an I/O error kind, used as the message of an
/// error built from a kind alone.
pub open spec fn spec_kind_description(kind: LocalIoErrorKind) -> Seq<char> {
    match kind {
        LocalIoErrorKind::NotFound => "entity not found"@,
        LocalIoErrorKind::PermissionDenied => "permission denied"@,
        LocalIoErrorKind::AlreadyExists => "entity already exists"@,
        LocalIoErrorKind::WouldBlock => "operation would block"@,
        LocalIoErrorKind::InvalidInput => "invalid input parameter"@,
        LocalIoErrorKind::NotADirectory => "not a directory"@,
        LocalIoErrorKind::IsADirectory => "is a directory"@,
        LocalIoErrorKind::DirectoryNotEmpty => "directory not empty"@,
        LocalIoErrorKind::CrossesDevices => "cross-device link or rename"@,
        LocalIoErrorKind::TimedOut => "timed out"@,
        LocalIoErrorKind::Interrupted => "operation interrupted"@,
        LocalIoErrorKind::Unsupported => "unsupported"@,
        LocalIoErrorKind::UnexpectedEof => "unexpected end of file"@,
        LocalIoErrorKind::Other => "other error"@,
    }
}

fn kind_description(kind: LocalIoErrorKind) -> (text: String)
    ensures
        text@ == spec_kind_description(kind),
{
    match kind {
        LocalIoErrorKind::NotFound => String::from_str("entity not found"),
        LocalIoErrorKind::PermissionDenied => String::from_str("permission denied"),
        LocalIoErrorKind::AlreadyExists => String::from_str("entity already exists"),
        LocalIoErrorKind::WouldBlock => String::from_str("operation would block"),
        LocalIoErrorKind::InvalidInput => String::from_str("invalid input parameter"),
        LocalIoErrorKind::NotADirectory => String::from_str("not a directory"),
        LocalIoErrorKind::IsADirectory => String::from_str("is a directory"),
        LocalIoErrorKind::DirectoryNotEmpty => String::from_str("directory not empty"),
        LocalIoErrorKind::CrossesDevices => String::from_str("cross-device link or rename"),
        LocalIoErrorKind::TimedOut => String::from_str("timed out"),
        LocalIoErrorKind::Interrupted => String::from_str("operation interrupted"),
        LocalIoErrorKind::Unsupported => String::from_str("unsupported"),
        LocalIoErrorKind::UnexpectedEof => String::from_str("unexpected end of file"),
        LocalIoErrorKind::Other => String::from_str("other error"),
    }
}

impl LocalIoError {
    /// Creates an I/O error of `kind` with an explicit message.
    pub fn new(kind: LocalIoErrorKind, message: &str) -> (error: Self)
        ensures
            error@ == (LocalIoErrorView { kind, message: message@ }),
    {
        LocalIoError { kind, message: String::from_str(message) }
    }

    /// Creates an I/O error of kind `Other` with an explicit message.
    pub fn other(message: &str) -> (error: Self)
        ensures
            error@ == (LocalIoErrorView { kind: LocalIoErrorKind::Other, message: message@ }),
    {
        LocalIoError { kind: LocalIoErrorKind::Other, message: String::from_str(message) }
    }

    /// Creates an I/O error from its kind alone; the message is the kind's
    /// standard description.
    pub fn from_kind(kind: LocalIoErrorKind) -> (error: Self)
        ensures
            error@ == (LocalIoErrorView { kind, message: spec_kind_description(kind) }),
    {
        LocalIoError { kind, message: kind_description(kind) }
    }

    /// Returns the error kind.
    pub fn kind(&self) -> (kind: LocalIoErrorKind)
        ensures
            kind == self.kind,
    {
        self.kind
    }

    /// Returns the message, which is also the error's displayed text.
    pub fn message(&self) -> (message: &str)
        ensures
            message@ == self.message@,
    {
        self.message.as_str()
    }

    /// Returns the displayed text of the error, which is its message.
    pub fn to_display_string(&self) -> (text: String)
        ensures
            text@ == self.message@,
    {
        String::from_str(self.message.as_str())
    }

}

/// Stable classification of a local filesystem failure.
#[derive(Clone, Copy, Debug, PartialEq, Eq, Structural)]
pub enum LocalFileErrorKind {
    NotFound,
    PermissionDenied,
    AlreadyExists,
    NotDirectory,
    IsDirectory,
    DirectoryNotEmpty,
    CrossesDevices,
    InvalidPath,
    InvalidInput,
    InvalidOptions,
    Unsupported,
    RequirementNotMet,
    PublicationIncomplete,
    TimedOut,
    Io,
}

/// Operation during which a local filesystem failure occurred.
#[derive(Clone, Copy, Debug, PartialEq, Eq, Structural)]
pub enum LocalFileOperation {
    ComposePath,
    BindPath,
    ValidateName,
    GenerateName,
    PersistTemp,
    Configure,
    CurrentDirectory,
    SetCurrentDirectory,
    Capabilities,
    Metadata,
    OpenReader,
    OpenWriter,
    Read,
    List,
    CreateDirectory,
    DeleteFile,
    DeleteDirectory,
    Copy,
    Rename,
    CreateTempFile,
    CreateTempDirectory,
}

/// The stable kind that classifies a native I/O failure.
pub open spec fn spec_kind_of_io(kind: LocalIoErrorKind) -> LocalFileErrorKind {
    match kind {
        LocalIoErrorKind::NotFound => LocalFileErrorKind::NotFound,
        LocalIoErrorKind::PermissionDenied => LocalFileErrorKind::PermissionDenied,
        LocalIoErrorKind::AlreadyExists => LocalFileErrorKind::AlreadyExists,
        LocalIoErrorKind::NotADirectory => LocalFileErrorKind::NotDirectory,
        LocalIoErrorKind::IsADirectory => LocalFileErrorKind::IsDirectory,
        LocalIoErrorKind::DirectoryNotEmpty => LocalFileErrorKind::DirectoryNotEmpty,
        LocalIoErrorKind::CrossesDevices => LocalFileErrorKind::CrossesDevices,
        LocalIoErrorKind::InvalidInput => LocalFileErrorKind::InvalidInput,
        LocalIoErrorKind::Unsupported => LocalFileErrorKind::Unsupported,
        LocalIoErrorKind::TimedOut => LocalFileErrorKind::TimedOut,
        _ => LocalFileErrorKind::Io,
    }
}

/// Classifies a native I/O failure.
pub fn kind_of_io(kind: LocalIoErrorKind) -> (result: LocalFileErrorKind)
    ensures
        result == spec_kind_of_io(kind),
{
    match kind {
        LocalIoErrorKind::NotFound => LocalFileErrorKind::NotFound,
        LocalIoErrorKind::PermissionDenied => LocalFileErrorKind::PermissionDenied,
        LocalIoErrorKind::AlreadyExists => LocalFileErrorKind::AlreadyExists,
        LocalIoErrorKind::NotADirectory => LocalFileErrorKind::NotDirectory,
        LocalIoErrorKind::IsADirectory => LocalFileErrorKind::IsDirectory,
        LocalIoErrorKind::DirectoryNotEmpty => LocalFileErrorKind::DirectoryNotEmpty,
        LocalIoErrorKind::CrossesDevices => LocalFileErrorKind::CrossesDevices,
        LocalIoErrorKind::InvalidInput => LocalFileErrorKind::InvalidInput,
        LocalIoErrorKind::Unsupported => LocalFileErrorKind::Unsupported,
        LocalIoErrorKind::TimedOut => LocalFileErrorKind::TimedOut,
        _ => LocalFileErrorKind::Io,
    }
}

/// A native I/O failure as plain values.
pub struct LocalIoErrorView {
    pub kind: LocalIoErrorKind,
    pub message: Seq<char>,
}

impl View for LocalIoError {
    type V = LocalIoErrorView;

    open spec fn view(&self) -> LocalIoErrorView {
        LocalIoErrorView { kind: self.kind, message: self.message@ }
    }
}

/// Structured local filesystem failure with its operation, path context,
/// and retained cause.
#[derive(Debug)]
pub struct LocalFileError {
    kind: LocalFileErrorKind,
    operation: LocalFileOperation,
    path: Option<Vec<u8>>,
    target: Option<Vec<u8>>,
    current_directory: Option<Vec<u8>>,
    reason: Option<String>,
    io_error: Option<LocalIoError>,
    path_codec_error: Option<LocalPathCodecError>,
}

/// A local filesystem failure as plain values.
pub struct LocalFileErrorView {
    pub kind: LocalFileErrorKind,
    pub operation: LocalFileOperation,
    pub path: Option<Seq<u8>>,
    pub target: Option<Seq<u8>>,
    pub current_directory: Option<Seq<u8>>,
    pub reason: Option<Seq<char>>,
    pub io_error: Option<LocalIoErrorView>,
    pub path_codec_error: Option<LocalPathCodecError>,
}

/// The bytes of an optional owned path.
pub open spec fn opt_bytes(path: Option<Vec<u8>>) -> Option<Seq<u8>> {
    match path {
        Some(p) => Some(p@),
        None => None,
    }
}

impl View for LocalFileError {
    type V = LocalFileErrorView;

    closed spec fn view(&self) -> LocalFileErrorView {
        LocalFileErrorView {
            kind: self.kind,
            operation: self.operation,
            path: opt_bytes(self.path),
            target: opt_bytes(self.target),
            current_directory: opt_bytes(self.current_directory),
            reason: match self.reason {
                Some(r) => Some(r@),
                None => None,
            },
            io_error: match self.io_error {
                Some(e) => Some(e@),
                None => None,
            },
            path_codec_error: self.path_codec_error,
        }
    }
}

/// A failure of `kind` raised by `operation`, without context.
pub open spec fn spec_bare_error(kind: LocalFileErrorKind, operation: LocalFileOperation) -> LocalFileErrorView {
    LocalFileErrorView {
        kind,
        operation,
        path: None,
        target: None,
        current_directory: None,
        reason: None,
        io_error: None,
        path_codec_error: None,
    }
}

/// A failure that wraps a native I/O error; its kind classifies the error.
pub open spec fn spec_io_error(
    operation: LocalFileOperation,
    path: Option<Seq<u8>>,
    target: Option<Seq<u8>>,
    source: LocalIoErrorView,
) -> LocalFileErrorView {
    LocalFileErrorView {
        kind: spec_kind_of_io(source.kind),
        operation,
        path,
        target,
        current_directory: None,
        reason: None,
        io_error: Some(source),
        path_codec_error: None,
    }
}

/// The name under which an error kind is displayed.
pub open spec fn spec_error_kind_name(value: LocalFileErrorKind) -> Seq<char> {
    match value {
        LocalFileErrorKind::NotFound => "NotFound"@,
        LocalFileErrorKind::PermissionDenied => "PermissionDenied"@,
        LocalFileErrorKind::AlreadyExists => "AlreadyExists"@,
        LocalFileErrorKind::NotDirectory => "NotDirectory"@,
        LocalFileErrorKind::IsDirectory => "IsDirectory"@,
        LocalFileErrorKind::DirectoryNotEmpty => "DirectoryNotEmpty"@,
        LocalFileErrorKind::CrossesDevices => "CrossesDevices"@,
        LocalFileErrorKind::InvalidPath => "InvalidPath"@,
        LocalFileErrorKind::InvalidInput => "InvalidInput"@,
        LocalFileErrorKind::InvalidOptions => "InvalidOptions"@,
        LocalFileErrorKind::Unsupported => "Unsupported"@,
        LocalFileErrorKind::RequirementNotMet => "RequirementNotMet"@,
        LocalFileErrorKind::PublicationIncomplete => "PublicationIncomplete"@,
        LocalFileErrorKind::TimedOut => "TimedOut"@,
        LocalFileErrorKind::Io => "Io"@,
    }
}

/// The name under which an error kind is displayed.
pub fn error_kind_name(value: LocalFileErrorKind) -> (name: &'static str)
    ensures
        name@ == spec_error_kind_name(value),
{
    match value {
        LocalFileErrorKind::NotFound => "NotFound",
        LocalFileErrorKind::PermissionDenied => "PermissionDenied",
        LocalFileErrorKind::AlreadyExists => "AlreadyExists",
        LocalFileErrorKind::NotDirectory => "NotDirectory",
        LocalFileErrorKind::IsDirectory => "IsDirectory",
        LocalFileErrorKind::DirectoryNotEmpty => "DirectoryNotEmpty",
        LocalFileErrorKind::CrossesDevices => "CrossesDevices",
        LocalFileErrorKind::InvalidPath => "InvalidPath",
        LocalFileErrorKind::InvalidInput => "InvalidInput",
        LocalFileErrorKind::InvalidOptions => "InvalidOptions",
        LocalFileErrorKind::Unsupported => "Unsupported",
        LocalFileErrorKind::RequirementNotMet => "RequirementNotMet",
        LocalFileErrorKind::PublicationIncomplete => "PublicationIncomplete",
        LocalFileErrorKind::TimedOut => "TimedOut",
        LocalFileErrorKind::Io => "Io",
    }
}

/// The name under which an operation is displayed.
pub open spec fn spec_operation_name(value: LocalFileOperation) -> Seq<char> {
    match value {
        LocalFileOperation::ComposePath => "ComposePath"@,
        LocalFileOperation::BindPath => "BindPath"@,
        LocalFileOperation::ValidateName => "ValidateName"@,
        LocalFileOperation::GenerateName => "GenerateName"@,
        LocalFileOperation::PersistTemp => "PersistTemp"@,
        LocalFileOperation::Configure => "Configure"@,
        LocalFileOperation::CurrentDirectory => "CurrentDirectory"@,
        LocalFileOperation::SetCurrentDirectory => "SetCurrentDirectory"@,
        LocalFileOperation::Capabilities => "Capabilities"@,
        LocalFileOperation::Metadata => "Metadata"@,
        LocalFileOperation::OpenReader => "OpenReader"@,
        LocalFileOperation::OpenWriter => "OpenWriter"@,
        LocalFileOperation::Read => "Read"@,
        LocalFileOperation::List => "List"@,
        LocalFileOperation::CreateDirectory => "CreateDirectory"@,
        LocalFileOperation::DeleteFile => "DeleteFile"@,
        LocalFileOperation::DeleteDirectory => "DeleteDirectory"@,
        LocalFileOperation::Copy => "Copy"@,
        LocalFileOperation::Rename => "Rename"@,
        LocalFileOperation::CreateTempFile => "CreateTempFile"@,
        LocalFileOperation::CreateTempDirectory => "CreateTempDirectory"@,
    }
}

/// The name under which an operation is displayed.
pub fn operation_name(value: LocalFileOperation) -> (name: &'static str)
    ensures
        name@ == spec_operation_name(value),
{
    match value {
        LocalFileOperation::ComposePath => "ComposePath",
        LocalFileOperation::BindPath => "BindPath",
        LocalFileOperation::ValidateName => "ValidateName",
        LocalFileOperation::GenerateName => "GenerateName",
        LocalFileOperation::PersistTemp => "PersistTemp",
        LocalFileOperation::Configure => "Configure",
        LocalFileOperation::CurrentDirectory => "CurrentDirectory",
        LocalFileOperation::SetCurrentDirectory => "SetCurrentDirectory",
        LocalFileOperation::Capabilities => "Capabilities",
        LocalFileOperation::Metadata => "Metadata",
        LocalFileOperation::OpenReader => "OpenReader",
        LocalFileOperation::OpenWriter => "OpenWriter",
        LocalFileOperation::Read => "Read",
        LocalFileOperation::List => "List",
        LocalFileOperation::CreateDirectory => "CreateDirectory",
        LocalFileOperation::DeleteFile => "DeleteFile",
        LocalFileOperation::DeleteDirectory => "DeleteDirectory",
        LocalFileOperation::Copy => "Copy",
        LocalFileOperation::Rename => "Rename",
        LocalFileOperation::CreateTempFile => "CreateTempFile",
        LocalFileOperation::CreateTempDirectory => "CreateTempDirectory",
    }
}

/// The displayed text of a local filesystem failure: the operation and the
/// kind, then each piece of context that is present.
pub open spec fn spec_file_error_text(error: LocalFileErrorView) -> Seq<char> {
    spec_operation_name(error.operation) + " failed ("@ + spec_error_kind_name(error.kind) + ")"@
        + optional_part(" at '"@, display_opt_path(error.path), "'"@)
        + optional_part(" to '"@, display_opt_path(error.target), "'"@)
        + optional_part(" from current directory '"@, display_opt_path(error.current_directory), "'"@)
        + optional_part(": "@, error.reason, Seq::empty())
        + optional_part(
            ": "@,
            match error.io_error {
                Some(e) => Some(e.message),
                None => None,
            },
            Seq::empty(),
        )
}

/// Result of a local filesystem operation.
pub type LocalResult<T> = Result<T, LocalFileError>;

/// Borrows the bytes of an optional owned path.
pub fn optional_path(path: &Option<Vec<u8>>) -> (result: Option<&[u8]>)
    ensures
        match path {
            Some(p) => (result matches Some(r) && r@ == p@),
            None => result is None,
        },
{
    match path {
        Some(p) => Some(p.as_slice()),
        None => None,
    }
}

impl LocalFileError {
    /// Creates an error of `kind` raised by `operation`, without context.
    pub fn new(kind: LocalFileErrorKind, operation: LocalFileOperation) -> (error: Self)
        ensures
            error@ == spec_bare_error(kind, operation),
    {
        LocalFileError {
            kind,
            operation,
            path: None,
            target: None,
            current_directory: None,
            reason: None,
            io_error: None,
            path_codec_error: None,
        }
    }

    /// Wraps a native I/O failure; its kind classifies the error.
    pub fn from_io(
        operation: LocalFileOperation,
        path: Option<Vec<u8>>,
        target: Option<Vec<u8>>,
        source: LocalIoError,
    ) -> (error: Self)
        ensures
            error@ == spec_io_error(operation, opt_bytes(path), opt_bytes(target), source@),
    {
        LocalFileError {
            kind: kind_of_io(source.kind),
            operation,
            path,
            target,
            current_directory: None,
            reason: None,
            io_error: Some(source),
            path_codec_error: None,
        }
    }

    /// Wraps a path-codec failure as an invalid-path error.
    pub fn from_path_codec(
        operation: LocalFileOperation,
        path: Option<Vec<u8>>,
        source: LocalPathCodecError,
    ) -> (error: Self)
        ensures
            error@ == (LocalFileErrorView {
                path: opt_bytes(path),
                path_codec_error: Some(source),
                ..spec_bare_error(LocalFileErrorKind::InvalidPath, operation)
            }),
    {
        LocalFileError {
            kind: LocalFileErrorKind::InvalidPath,
            operation,
            path,
            target: None,
            current_directory: None,
            reason: None,
            io_error: None,
            path_codec_error: Some(source),
        }
    }

    /// Attaches the operation path.
    pub fn with_path(self, path: Vec<u8>) -> (error: Self)
        ensures
            error@ == (LocalFileErrorView { path: Some(path@), ..self@ }),
    {
        LocalFileError { path: Some(path), ..self }
    }

    /// Attaches the second operand of a two-path operation.
    pub fn with_target(self, target: Vec<u8>) -> (error: Self)
        ensures
            error@ == (LocalFileErrorView { target: Some(target@), ..self@ }),
    {
        LocalFileError { target: Some(target), ..self }
    }

    /// Attaches the working-directory snapshot used to bind a relative path.
    pub fn with_current_directory(self, current_directory: Vec<u8>) -> (error: Self)
        ensures
            error@ == (LocalFileErrorView { current_directory: Some(current_directory@), ..self@ }),
    {
        LocalFileError { current_directory: Some(current_directory), ..self }
    }

    /// Attaches a human-readable reason.
    pub fn with_reason(self, reason: &str) -> (error: Self)
        ensures
            error@ == (LocalFileErrorView { reason: Some(reason@), ..self@ }),
    {
        LocalFileError { reason: Some(String::from_str(reason)), ..self }
    }

    /// Replaces the operation.
    pub fn with_operation(self, operation: LocalFileOperation) -> (error: Self)
        ensures
            error@ == (LocalFileErrorView { operation, ..self@ }),
    {
        LocalFileError { operation, ..self }
    }

    /// Replaces the stable kind while retaining every cause.
    pub fn with_kind(self, kind: LocalFileErrorKind) -> (error: Self)
        ensures
            error@ == (LocalFileErrorView { kind, ..self@ }),
    {
        LocalFileError { kind, ..self }
    }

    /// Returns the stable kind.
    pub fn kind(&self) -> (kind: LocalFileErrorKind)
        ensures
            kind == self@.kind,
    {
        self.kind
    }

    /// Returns the operation.
    pub fn operation(&self) -> (operation: LocalFileOperation)
        ensures
            operation == self@.operation,
    {
        self.operation
    }

    /// Returns the operation path, when known.
    pub fn path(&self) -> (path: Option<&[u8]>)
        ensures
            match self@.path {
                Some(p) => (path matches Some(r) && r@ == p),
                None => path is None,
            },
    {
        optional_path(&self.path)
    }

    /// Returns the second operand, when known.
    pub fn target(&self) -> (target: Option<&[u8]>)
        ensures
            match self@.target {
                Some(p) => (target matches Some(r) && r@ == p),
                None => target is None,
            },
    {
        optional_path(&self.target)
    }

    /// Returns the working-directory snapshot, when one was used.
    pub fn current_directory(&self) -> (current: Option<&[u8]>)
        ensures
            match self@.current_directory {
                Some(p) => (current matches Some(r) && r@ == p),
                None => current is None,
            },
    {
        optional_path(&self.current_directory)
    }

    /// Returns the reason, when one was attached.
    pub fn reason(&self) -> (reason: Option<&str>)
        ensures
            match self@.reason {
                Some(r) => (reason matches Some(x) && x@ == r),
                None => reason is None,
            },
    {
        match &self.reason {
            Some(r) => Some(r.as_str()),
            None => None,
        }
    }

    /// Returns the kind of the retained native I/O failure, when there is
    /// one.
    pub fn io_error_kind(&self) -> (kind: Option<LocalIoErrorKind>)
        ensures
            match self@.io_error {
                Some(e) => kind == Some(e.kind),
                None => kind is None,
            },
    {
        match &self.io_error {
            Some(error) => Some(error.kind),
            None => None,
        }
    }

    /// Returns the retained path-codec failure, when there is one.
    pub fn path_codec_error(&self) -> (error: Option<LocalPathCodecError>)
        ensures
            error == self@.path_codec_error,
    {
        self.path_codec_error
    }

    /// Returns the displayed text of the error.
    pub fn to_display_string(&self) -> (text: String)
        ensures
            text@ == spec_file_error_text(self@),
    {
        proof {
            reveal_strlit("");
        }
        let text = concat_text(String::from_str(operation_name(self.operation)), " failed (");
        let text = concat_text(concat_text(text, error_kind_name(self.kind)), ")");
        let text = push_optional_path(text, " at '", &self.path, "'");
        let text = push_optional_path(text, " to '", &self.target, "'");
        let text = push_optional_path(text, " from current directory '", &self.current_directory, "'");
        let reason: Option<&str> = match &self.reason {
            Some(r) => Some(r.as_str()),
            None => None,
        };
        let text = push_optional_text(text, ": ", reason, "");
        let message: Option<&str> = match &self.io_error {
            Some(e) => Some(e.message.as_str()),
            None => None,
        };
        push_optional_text(text, ": ", message, "")
    }
}

} // verus!
