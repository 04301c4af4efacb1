//! Trusted wrappers around the platform primitives the staging protocol
//! uses: temporary-directory creation, file creation, raw file-descriptor
//! I/O, the atomic rename and the durability syncs.
//!
//! Raw platform calls report failure as the raw error code (an `i32`);
//! temporary-directory creation reports a standard I/O error.

use crate::paths::joined;
use crate::staged::SeekPos;
use vstd::prelude::*;

verus! {

/// Declares `tempfile::TempDir`: an exclusively owned temporary directory,
/// removed together with its contents (best effort) when dropped.
#[verifier::external_type_specification]
#[verifier::external_body]
pub struct ExTempDir(tempfile::TempDir);

/// Relies on `std::path::Path::is_dir`: tells whether the path currently
/// names a directory on disk.
#[verifier::external_body]
pub(crate) fn path_is_dir(path: &str) -> bool {
    std::path::Path::new(path).is_dir()
}

/// Relies on `tempfile::Builder::tempdir_in` and `tempfile::TempDir::path`:
/// creates a new directory named `prefix` plus a nonempty random
/// alphanumeric suffix inside `parent`, and returns it with its location.
/// The location is always an absolute path; when `parent` is absolute (and
/// `prefix` is not), it is `parent` joined with the new directory's name,
/// while a relative `parent` is first resolved against the current
/// directory.
#[verifier::external_body]
pub(crate) fn create_temp_dir(parent: &str, prefix: &str) -> (r: Result<
    (tempfile::TempDir, String),
    std::io::Error,
>)
    ensures
        r matches Ok(t) ==> {
            &&& t.1@.len() > 0
            &&& t.1@[0] == '/'
            &&& (parent@.len() > 0 && parent@[0] == '/' && (prefix@.len() == 0 || prefix@[0]
                != '/') ==> exists|rand: Seq<char>|
                rand.len() > 0 && !rand.contains('/') && t.1@ == joined(parent@, prefix@ + rand))
        },
{
    let dir = tempfile::Builder::new().prefix(prefix).tempdir_in(std::path::Path::new(parent))?;
    let path = dir.path().to_string_lossy().into_owned();
    Ok((dir, path))
}

/// Relies on `nix::fcntl::open` with `O_RDWR | O_CREAT | O_TRUNC` and mode
/// `0o666`: creates or truncates the file at `path` and opens it for
/// reading and writing, returning the new (nonnegative) file descriptor.
#[verifier::external_body]
pub(crate) fn create_rw_file(path: &str) -> (r: Result<i32, i32>)
    ensures
        r matches Ok(fd) ==> fd >= 0,
{
    let flags = nix::fcntl::OFlag::O_RDWR | nix::fcntl::OFlag::O_CREAT | nix::fcntl::OFlag::O_TRUNC;
    match nix::fcntl::open(path, flags, nix::sys::stat::Mode::from_bits_truncate(0o666)) {
        Ok(fd) => Ok(fd),
        Err(e) => Err(e as i32),
    }
}

/// Relies on `nix::fcntl::open` with `O_RDONLY`: opens the existing file or
/// directory at `path` for reading, returning the new (nonnegative) file
/// descriptor. Used to obtain a descriptor for the directory sync.
#[verifier::external_body]
pub(crate) fn open_read_only(path: &str) -> (r: Result<i32, i32>)
    ensures
        r matches Ok(fd) ==> fd >= 0,
{
    match nix::fcntl::open(path, nix::fcntl::OFlag::O_RDONLY, nix::sys::stat::Mode::empty()) {
        Ok(fd) => Ok(fd),
        Err(e) => Err(e as i32),
    }
}

/// Relies on `nix::unistd::write`: writes some prefix of `buf` to `fd` and
/// returns how many bytes were written, never more than `buf` holds.
#[verifier::external_body]
pub(crate) fn write_fd(fd: i32, buf: &[u8]) -> (r: Result<usize, i32>)
    ensures
        r matches Ok(n) ==> n <= buf@.len(),
{
    match nix::unistd::write(fd, buf) {
        Ok(n) => Ok(n),
        Err(e) => Err(e as i32),
    }
}

/// Relies on `nix::unistd::read`: reads at most `buf.len()` bytes from `fd`
/// into the front of `buf` and returns how many were read (zero at end of
/// file); the buffer keeps its length, and on success the bytes past the
/// returned count keep their old values.
#[verifier::external_body]
pub(crate) fn read_fd(fd: i32, buf: &mut Vec<u8>) -> (r: Result<usize, i32>)
    ensures
        final(buf)@.len() == old(buf)@.len(),
        r matches Ok(n) ==> n <= final(buf)@.len() && (forall|i: int|
            n <= i < final(buf)@.len() ==> final(buf)@[i] == old(buf)@[i]),
{
    match nix::unistd::read(fd, buf.as_mut_slice()) {
        Ok(n) => Ok(n),
        Err(e) => Err(e as i32),
    }
}

/// Relies on `nix::unistd::lseek`: moves the file offset of `fd` and
/// returns the resulting offset from the start of the file; seeking to an
/// absolute position yields exactly that position.
#[verifier::external_body]
pub(crate) fn seek_fd(fd: i32, pos: &SeekPos) -> (r: Result<u64, i32>)
    ensures
        r matches Ok(p) ==> (*pos matches SeekPos::Start(o) ==> p == o),
{
    let res = match pos {
        SeekPos::Start(o) => nix::unistd::lseek(fd, *o as i64, nix::unistd::Whence::SeekSet),
        SeekPos::Current(d) => nix::unistd::lseek(fd, *d, nix::unistd::Whence::SeekCur),
        SeekPos::End(d) => nix::unistd::lseek(fd, *d, nix::unistd::Whence::SeekEnd),
    };
    match res {
        Ok(p) => Ok(p as u64),
        Err(e) => Err(e as i32),
    }
}

/// Relies on `nix::unistd::fsync`: durably syncs the data and metadata of
/// the open file or directory behind `fd` to storage.
#[verifier::external_body]
pub(crate) fn fsync_fd(fd: i32) -> Result<(), i32> {
    match nix::unistd::fsync(fd) {
        Ok(()) => Ok(()),
        Err(e) => Err(e as i32),
    }
}

/// Relies on `nix::unistd::close`: releases the file descriptor.
#[verifier::external_body]
pub(crate) fn close_fd(fd: i32) -> Result<(), i32> {
    match nix::unistd::close(fd) {
        Ok(()) => Ok(()),
        Err(e) => Err(e as i32),
    }
}

/// Relies on `nix::fcntl::renameat` with no directory descriptors, that is
/// plain `rename(2)`: atomically renames `from` onto `to`, replacing any
/// file already there; atomic only within one filesystem, which is why the
/// temporary directory is created inside the final path's parent.
#[verifier::external_body]
pub(crate) fn rename_path(from: &str, to: &str) -> Result<(), i32> {
    match nix::fcntl::renameat(None, from, None, to) {
        Ok(()) => Ok(()),
        Err(e) => Err(e as i32),
    }
}

/// Relies on `std::io::ErrorKind::UnexpectedEof.into()`: the error the
/// standard library reports when end of file comes before a read completes.
#[verifier::external_body]
pub(crate) fn unexpected_eof_error() -> std::io::Error {
    std::io::ErrorKind::UnexpectedEof.into()
}

/// Relies on `std::io::ErrorKind::WriteZero.into()`: the error the standard
/// library reports when a write call makes no progress.
#[verifier::external_body]
pub(crate) fn write_zero_error() -> std::io::Error {
    std::io::ErrorKind::WriteZero.into()
}

} // verus!
