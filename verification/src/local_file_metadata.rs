//! Metadata of a local filesystem entry: its kind, length, timestamps, and
//! permissions.
use vstd::prelude::*;

use std::time::SystemTime;

verus! {

/// The standard library's wall-clock time, carried through unchanged.
#[verifier::external_type_specification]
#[verifier::external_body]
pub struct ExSystemTime(SystemTime);

/// Type of a local filesystem entry.
#[derive(Clone, Copy, Debug, PartialEq, Eq, Hash, Structural)]
pub enum LocalFileKind {
    /// A regular file.
    File,
    /// A directory.
    Directory,
    /// A symbolic link.
    Symlink,
    /// A named pipe.
    Fifo,
    /// A socket.
    Socket,
    /// A block device.
    BlockDevice,
    /// A character device.
    CharDevice,
    /// Any other entry type.
    Other,
}

/// Portable permission facts of an entry.
#[derive(Clone, Copy, Debug, PartialEq, Eq, Structural)]
pub struct LocalFilePermissions {
    read_only: bool,
    unix_mode: Option<u32>,
}

/// Permission facts as plain values.
pub struct LocalFilePermissionsView {
    pub read_only: bool,
    pub unix_mode: Option<u32>,
}

impl View for LocalFilePermissions {
    type V = LocalFilePermissionsView;

    closed spec fn view(&self) -> LocalFilePermissionsView {
        LocalFilePermissionsView { read_only: self.read_only, unix_mode: self.unix_mode }
    }
}

impl LocalFilePermissions {
    /// Creates permission facts.
    pub fn new(read_only: bool, unix_mode: Option<u32>) -> (permissions: Self)
        ensures
            permissions@ == (LocalFilePermissionsView { read_only, unix_mode }),
    {
        LocalFilePermissions { read_only, unix_mode }
    }

    /// Returns whether the entry is read-only.
    pub fn is_read_only(self) -> (res: bool)
        ensures
            res == self@.read_only,
    {
        self.read_only
    }

    /// Returns the Unix permission bits, when the platform has them.
    pub fn unix_mode(self) -> (mode: Option<u32>)
        ensures
            mode == self@.unix_mode,
    {
        self.unix_mode
    }
}

/// Metadata of a local filesystem entry.
#[derive(Clone, Debug)]
pub struct LocalFileMetadata {
    kind: LocalFileKind,
    len: u64,
    accessed_at: Option<SystemTime>,
    modified_at: Option<SystemTime>,
    created_at: Option<SystemTime>,
    permissions: LocalFilePermissions,
}

/// Entry metadata as plain values.
pub struct LocalFileMetadataView {
    pub kind: LocalFileKind,
    pub len: u64,
    pub accessed_at: Option<SystemTime>,
    pub modified_at: Option<SystemTime>,
    pub created_at: Option<SystemTime>,
    pub permissions: LocalFilePermissionsView,
}

impl View for LocalFileMetadata {
    type V = LocalFileMetadataView;

    closed spec fn view(&self) -> LocalFileMetadataView {
        LocalFileMetadataView {
            kind: self.kind,
            len: self.len,
            accessed_at: self.accessed_at,
            modified_at: self.modified_at,
            created_at: self.created_at,
            permissions: self.permissions@,
        }
    }
}

/// The Unix permission bits kept from a native mode: the low twelve bits.
pub open spec fn spec_permission_bits(mode: u32) -> u32 {
    mode % 4096
}

impl LocalFileMetadata {
    /// Creates metadata from its parts, with writable permissions and no
    /// Unix mode.
    pub fn from_parts(
        kind: LocalFileKind,
        len: u64,
        accessed_at: Option<SystemTime>,
        modified_at: Option<SystemTime>,
        created_at: Option<SystemTime>,
    ) -> (metadata: Self)
        ensures
            metadata@ == (LocalFileMetadataView {
                kind,
                len,
                accessed_at,
                modified_at,
                created_at,
                permissions: LocalFilePermissionsView { read_only: false, unix_mode: None },
            }),
    {
        LocalFileMetadata {
            kind,
            len,
            accessed_at,
            modified_at,
            created_at,
            permissions: LocalFilePermissions::new(false, None),
        }
    }

    /// Creates metadata from native facts: the kind, length and timestamps
    /// as read, the read-only flag, and the permission bits of the native
    /// mode when there is one.
    pub fn from_native(
        kind: LocalFileKind,
        len: u64,
        accessed_at: Option<SystemTime>,
        modified_at: Option<SystemTime>,
        created_at: Option<SystemTime>,
        read_only: bool,
        mode: Option<u32>,
    ) -> (metadata: Self)
        ensures
            metadata@ == (LocalFileMetadataView {
                kind,
                len,
                accessed_at,
                modified_at,
                created_at,
                permissions: LocalFilePermissionsView {
                    read_only,
                    unix_mode: match mode {
                        Some(m) => Some(spec_permission_bits(m)),
                        None => None,
                    },
                },
            }),
    {
        let unix_mode = match mode {
            Some(m) => Some(m % 4096),
            None => None,
        };
        LocalFileMetadata {
            kind,
            len,
            accessed_at,
            modified_at,
            created_at,
            permissions: LocalFilePermissions::new(read_only, unix_mode),
        }
    }

    /// Returns the entry type.
    pub fn kind(&self) -> (kind: LocalFileKind)
        ensures
            kind == self@.kind,
    {
        self.kind
    }

    /// Returns the length in bytes.
    pub fn len(&self) -> (len: u64)
        ensures
            len == self@.len,
    {
        self.len
    }

    /// Returns whether the length is zero.
    pub fn is_empty(&self) -> (res: bool)
        ensures
            res == (self@.len == 0),
    {
        self.len == 0
    }

    /// Returns the last access time, when the platform reports it.
    pub fn accessed_at(&self) -> (time: Option<SystemTime>)
        ensures
            time == self@.accessed_at,
    {
        self.accessed_at
    }

    /// Returns the last modification time, when the platform reports it.
    pub fn modified_at(&self) -> (time: Option<SystemTime>)
        ensures
            time == self@.modified_at,
    {
        self.modified_at
    }

    /// Returns the creation time, when the platform reports it.
    pub fn created_at(&self) -> (time: Option<SystemTime>)
        ensures
            time == self@.created_at,
    {
        self.created_at
    }

    /// Returns the permission facts.
    pub fn permissions(&self) -> (permissions: LocalFilePermissions)
        ensures
            permissions@ == self@.permissions,
    {
        self.permissions
    }
}

} // verus!
