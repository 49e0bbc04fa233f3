//! What database to open, and opening it.

use std::path::PathBuf;
use vstd::prelude::*;

verus! {

/// The database is opened for reading and writing if possible.
pub const SQLITE_OPEN_READ_WRITE: i32 = 2;

/// The database is created if it does not already exist.
pub const SQLITE_OPEN_CREATE: i32 = 4;

/// The flags that a database is opened with, as the bits that SQLite takes.
#[derive(Clone, Copy, Debug, PartialEq, Eq, Structural)]
pub struct OpenFlags {
    pub bits: i32,
}

/// A database to open, and how.
///
/// A request is plain data, so that it can be made in one place and carried out in another: the
/// background thread opens the database, so that a slow open never blocks the calling task.
pub enum OpenRequest {
    /// The database at a path.
    Path { path: PathBuf, flags: OpenFlags },
    /// The database at a path, through the named VFS.
    PathAndVfs { path: PathBuf, flags: OpenFlags, vfs: String },
    /// A fresh in-memory database, with the default flags.
    Memory,
    /// A fresh in-memory database.
    MemoryWithFlags { flags: OpenFlags },
    /// A fresh in-memory database, through the named VFS.
    MemoryWithFlagsAndVfs { flags: OpenFlags, vfs: String },
}

/// `std::ffi::OsStr::as_encoded_bytes` of a path: the bytes that stand for it on this platform, in
/// a superset of UTF-8, valid Unicode or not. Which bytes a path has is left to the call itself.
#[verifier::external_body]
fn path_bytes(path: &PathBuf) -> (bytes: &[u8]) {
    path.as_os_str().as_encoded_bytes()
}

/// The bytes of the path hold a NUL, which no C string can.
pub closed spec fn path_holds_nul(path: PathBuf) -> bool {
    exists|bytes: &[u8]| #[trigger]
        call_ensures(path_bytes, (&path,), bytes) && bytes@.contains(0u8)
}

/// The path has bytes without a NUL among them.
pub closed spec fn path_lacks_nul(path: PathBuf) -> bool {
    exists|bytes: &[u8]| #[trigger]
        call_ensures(path_bytes, (&path,), bytes) && !bytes@.contains(0u8)
}

/// Whether the path holds a NUL. Opening such a path fails.
pub fn has_nul(path: &PathBuf) -> (found: bool)
    ensures
        found ==> path_holds_nul(*path),
        !found ==> path_lacks_nul(*path),
{
    let bytes = path_bytes(path);
    let mut i: usize = 0;
    while i < bytes.len()
        invariant
            i <= bytes.len(),
            forall|j: int| 0 <= j < i ==> bytes@[j] != 0,
            call_ensures(path_bytes, (path,), bytes),
        decreases bytes.len() - i,
    {
        if bytes[i] == 0 {
            assert(bytes@[i as int] == 0);
            return true;
        }
        i += 1;
    }
    false
}

/// `rusqlite::Connection::open_with_flags`. It fails if the path holds a NUL, which no C string
/// can. What comes back otherwise depends on what is on disk and on SQLite, and is left open.
#[verifier::external_body]
fn open_path(path: PathBuf, flags: OpenFlags) -> (opened: Result<
    rusqlite::Connection,
    rusqlite::Error,
>)
    ensures
        path_holds_nul(path) ==> opened is Err,
    opens_invariants [crate::footprint::number(OpenRequest::Path { path, flags })]
{
    rusqlite::Connection::open_with_flags(path, rusqlite::OpenFlags::from_bits_retain(flags.bits))
}

/// `rusqlite::Connection::open_with_flags_and_vfs`. It fails if the path or the VFS name holds a
/// NUL, which no C string can. What comes back otherwise depends on what is on disk and on SQLite,
/// and is left open.
#[verifier::external_body]
fn open_path_and_vfs(path: PathBuf, flags: OpenFlags, vfs: String) -> (opened: Result<
    rusqlite::Connection,
    rusqlite::Error,
>)
    ensures
        path_holds_nul(path) || vfs@.contains('\0') ==> opened is Err,
    opens_invariants [crate::footprint::number(OpenRequest::PathAndVfs { path, flags, vfs })]
{
    let flags = rusqlite::OpenFlags::from_bits_retain(flags.bits);
    rusqlite::Connection::open_with_flags_and_vfs(path, flags, vfs.as_str())
}

/// `rusqlite::Connection::open_in_memory_with_flags`. What comes back is SQLite's to decide, so
/// nothing is claimed of it.
#[verifier::external_body]
fn open_memory(flags: OpenFlags) -> (opened: Result<rusqlite::Connection, rusqlite::Error>)
    opens_invariants [crate::footprint::number(OpenRequest::MemoryWithFlags { flags })]
{
    rusqlite::Connection::open_in_memory_with_flags(
        rusqlite::OpenFlags::from_bits_retain(flags.bits),
    )
}

/// `rusqlite::Connection::open_in_memory_with_flags_and_vfs`. It fails if the VFS name holds a
/// NUL, which no C string can. What comes back otherwise is SQLite's to decide, and is left open.
#[verifier::external_body]
fn open_memory_and_vfs(flags: OpenFlags, vfs: String) -> (opened: Result<
    rusqlite::Connection,
    rusqlite::Error,
>)
    ensures
        vfs@.contains('\0') ==> opened is Err,
    opens_invariants [crate::footprint::number(OpenRequest::MemoryWithFlagsAndVfs { flags, vfs })]
{
    let flags = rusqlite::OpenFlags::from_bits_retain(flags.bits);
    rusqlite::Connection::open_in_memory_with_flags_and_vfs(flags, vfs.as_str())
}

/// `opened` is what opening the database at `path` with `flags` gave.
pub closed spec fn path_gave(
    path: PathBuf,
    flags: OpenFlags,
    opened: Result<rusqlite::Connection, rusqlite::Error>,
) -> bool {
    call_ensures(open_path, (path, flags), opened)
}

/// `opened` is what opening the database at `path` with `flags` through the VFS `vfs` gave.
pub closed spec fn path_and_vfs_gave(
    path: PathBuf,
    flags: OpenFlags,
    vfs: String,
    opened: Result<rusqlite::Connection, rusqlite::Error>,
) -> bool {
    call_ensures(open_path_and_vfs, (path, flags, vfs), opened)
}

/// `opened` is what opening a fresh in-memory database with `flags` gave.
pub closed spec fn memory_gave(
    flags: OpenFlags,
    opened: Result<rusqlite::Connection, rusqlite::Error>,
) -> bool {
    call_ensures(open_memory, (flags,), opened)
}

/// `opened` is what opening a fresh in-memory database with `flags` through the VFS `vfs` gave.
pub closed spec fn memory_and_vfs_gave(
    flags: OpenFlags,
    vfs: String,
    opened: Result<rusqlite::Connection, rusqlite::Error>,
) -> bool {
    call_ensures(open_memory_and_vfs, (flags, vfs), opened)
}

/// The call that a request leads to is made with the request's own path, flags and VFS, and what
/// it returned is what the request is given.
proof fn asked_call_is_made(
    request: OpenRequest,
    opened: Result<rusqlite::Connection, rusqlite::Error>,
)
    requires
        request.may_give(opened),
    ensures
        match request {
            OpenRequest::Path { path, flags } => call_ensures(open_path, (path, flags), opened),
            OpenRequest::PathAndVfs { path, flags, vfs } => call_ensures(
                open_path_and_vfs,
                (path, flags, vfs),
                opened,
            ),
            OpenRequest::Memory => call_ensures(
                rusqlite::Connection::open_in_memory,
                (),
                opened,
            ),
            OpenRequest::MemoryWithFlags { flags } => call_ensures(open_memory, (flags,), opened),
            OpenRequest::MemoryWithFlagsAndVfs { flags, vfs } => call_ensures(
                open_memory_and_vfs,
                (flags, vfs),
                opened,
            ),
        },
{
}

/// A connection that is given for a path is one to the database at this very path, opened with
/// these very flags, and with no others.
pub proof fn path_is_opened_as_asked(
    path: PathBuf,
    flags: OpenFlags,
    opened: Result<rusqlite::Connection, rusqlite::Error>,
)
    requires
        (OpenRequest::Path { path, flags }).may_give(opened),
    ensures
        path_gave(path, flags, opened),
{
    asked_call_is_made(OpenRequest::Path { path, flags }, opened);
}

/// A connection that is given for a path and a VFS is one to the database at this very path,
/// opened with these very flags through this very VFS.
pub proof fn path_and_vfs_are_opened_as_asked(
    path: PathBuf,
    flags: OpenFlags,
    vfs: String,
    opened: Result<rusqlite::Connection, rusqlite::Error>,
)
    requires
        (OpenRequest::PathAndVfs { path, flags, vfs }).may_give(opened),
    ensures
        path_and_vfs_gave(path, flags, vfs, opened),
{
    asked_call_is_made(OpenRequest::PathAndVfs { path, flags, vfs }, opened);
}

/// A connection that is given for an in-memory database is one to a fresh in-memory database, with
/// the flags and the VFS that were asked for, if any were.
pub proof fn memory_is_opened_as_asked(
    flags: OpenFlags,
    vfs: String,
    opened: Result<rusqlite::Connection, rusqlite::Error>,
)
    ensures
        OpenRequest::Memory.may_give(opened) ==> call_ensures(
            rusqlite::Connection::open_in_memory,
            (),
            opened,
        ),
        (OpenRequest::MemoryWithFlags { flags }).may_give(opened) ==> memory_gave(flags, opened),
        (OpenRequest::MemoryWithFlagsAndVfs { flags, vfs }).may_give(opened)
            ==> memory_and_vfs_gave(flags, vfs, opened),
{
    if OpenRequest::Memory.may_give(opened) {
        asked_call_is_made(OpenRequest::Memory, opened);
    }
    if (OpenRequest::MemoryWithFlags { flags }).may_give(opened) {
        asked_call_is_made(OpenRequest::MemoryWithFlags { flags }, opened);
    }
    if (OpenRequest::MemoryWithFlagsAndVfs { flags, vfs }).may_give(opened) {
        asked_call_is_made(OpenRequest::MemoryWithFlagsAndVfs { flags, vfs }, opened);
    }
}

/// The names for what the calls gave stand for these calls and no others.
proof fn names_stand_for_the_calls(
    path: PathBuf,
    flags: OpenFlags,
    vfs: String,
    opened: Result<rusqlite::Connection, rusqlite::Error>,
)
    ensures
        path_gave(path, flags, opened) ==> call_ensures(open_path, (path, flags), opened),
        path_and_vfs_gave(path, flags, vfs, opened) ==> call_ensures(
            open_path_and_vfs,
            (path, flags, vfs),
            opened,
        ),
        memory_gave(flags, opened) ==> call_ensures(open_memory, (flags,), opened),
        memory_and_vfs_gave(flags, vfs, opened) ==> call_ensures(
            open_memory_and_vfs,
            (flags, vfs),
            opened,
        ),
{
}

/// A path holds a NUL if and only if there is one among the bytes that it has.
proof fn nul_is_among_the_bytes(path: PathBuf)
    ensures
        path_holds_nul(path) <==> exists|bytes: &[u8]| #[trigger]
            call_ensures(path_bytes, (&path,), bytes) && bytes@.contains(0u8),
        path_lacks_nul(path) <==> exists|bytes: &[u8]| #[trigger]
            call_ensures(path_bytes, (&path,), bytes) && !bytes@.contains(0u8),
{
}

/// A NUL counts wherever it stands, in the path or in the name of the VFS.
pub proof fn nul_counts_anywhere(path: PathBuf, flags: OpenFlags, vfs: String)
    ensures
        path_holds_nul(path) ==> (OpenRequest::Path { path, flags }).holds_nul() && (
        OpenRequest::PathAndVfs { path, flags, vfs }).holds_nul(),
        vfs@.contains('\0') ==> (OpenRequest::PathAndVfs { path, flags, vfs }).holds_nul() && (
        OpenRequest::MemoryWithFlagsAndVfs { flags, vfs }).holds_nul(),
{
}

impl OpenRequest {
    /// `opened` may be what SQLite gives for this request: it is a result of the one call that
    /// the request stands for, made with the path, flags and VFS that the request holds.
    pub closed spec fn may_give(
        self,
        opened: Result<rusqlite::Connection, rusqlite::Error>,
    ) -> bool {
        match self {
            OpenRequest::Path { path, flags } => call_ensures(open_path, (path, flags), opened),
            OpenRequest::PathAndVfs { path, flags, vfs } => call_ensures(
                open_path_and_vfs,
                (path, flags, vfs),
                opened,
            ),
            OpenRequest::Memory => call_ensures(
                rusqlite::Connection::open_in_memory,
                (),
                opened,
            ),
            OpenRequest::MemoryWithFlags { flags } => call_ensures(open_memory, (flags,), opened),
            OpenRequest::MemoryWithFlagsAndVfs { flags, vfs } => call_ensures(
                open_memory_and_vfs,
                (flags, vfs),
                opened,
            ),
        }
    }

    /// The path or the VFS name holds a NUL, so that it cannot be converted to a C-compatible
    /// string.
    pub open spec fn holds_nul(self) -> bool {
        match self {
            OpenRequest::Path { path, .. } => path_holds_nul(path),
            OpenRequest::PathAndVfs { path, vfs, .. } => path_holds_nul(path) || vfs@.contains(
                '\0',
            ),
            OpenRequest::Memory => false,
            OpenRequest::MemoryWithFlags { .. } => false,
            OpenRequest::MemoryWithFlagsAndVfs { vfs, .. } => vfs@.contains('\0'),
        }
    }

    /// A request that cannot be converted to C-compatible strings is never given a connection.
    pub proof fn nul_gives_an_error(
        self,
        opened: Result<rusqlite::Connection, rusqlite::Error>,
    )
        requires
            self.may_give(opened),
            self.holds_nul(),
        ensures
            opened is Err,
    {
    }

    /// Opens the database.
    ///
    /// # Failure
    ///
    /// Will return `Err` if the path or the VFS name cannot be converted to a C-compatible string
    /// or if the underlying SQLite open call fails.
    pub fn open(self) -> (opened: Result<rusqlite::Connection, rusqlite::Error>)
        ensures
            self.may_give(opened),
            match self {
                OpenRequest::Path { path, flags } => path_gave(path, flags, opened),
                OpenRequest::PathAndVfs { path, flags, vfs } => path_and_vfs_gave(
                    path,
                    flags,
                    vfs,
                    opened,
                ),
                OpenRequest::Memory => call_ensures(
                    rusqlite::Connection::open_in_memory,
                    (),
                    opened,
                ),
                OpenRequest::MemoryWithFlags { flags } => memory_gave(flags, opened),
                OpenRequest::MemoryWithFlagsAndVfs { flags, vfs } => memory_and_vfs_gave(
                    flags,
                    vfs,
                    opened,
                ),
            },
            self.holds_nul() ==> opened is Err,
        opens_invariants [crate::footprint::number(self)]
    {
        match self {
            OpenRequest::Path { path, flags } => open_path(path, flags),
            OpenRequest::PathAndVfs { path, flags, vfs } => open_path_and_vfs(path, flags, vfs),
            OpenRequest::Memory => rusqlite::Connection::open_in_memory(),
            OpenRequest::MemoryWithFlags { flags } => open_memory(flags),
            OpenRequest::MemoryWithFlagsAndVfs { flags, vfs } => open_memory_and_vfs(flags, vfs),
        }
    }
}

} // verus!
