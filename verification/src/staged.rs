//! The staged-file state machine: validated construction of a temporary
//! file next to the final path, a byte-stream interface to it while it is
//! staged, and the commit protocol that durably publishes it.

use crate::errors::{BoxError, Error};
use crate::paths::{
    final_path_file_name, final_path_parent, has_usable_parent, join_under, joined, leaf_of,
    lemma_parent_of_absolute, parent_of,
};
use crate::sys::{
    close_fd, create_rw_file, create_temp_dir, fsync_fd, open_read_only, path_is_dir, read_fd,
    rename_path, seek_fd, unexpected_eof_error, write_fd, write_zero_error,
};
use vstd::prelude::*;
use vstd::slice::slice_subrange;

verus! {

/// A position to seek to in the staged file.
#[derive(Clone, Copy, Debug)]
pub enum SeekPos {
    /// An absolute offset from the start of the file.
    Start(u64),
    /// A signed offset from the current position.
    Current(i64),
    /// A signed offset from the end of the file.
    End(i64),
}

/// The staged file's resources while they are held: the open descriptor of
/// the temporary file, the temporary directory that owns its storage, and
/// the temporary file's path. `Committed` holds nothing; it is only ever
/// observed while a terminal operation is dismantling the value.
#[derive(Debug)]
enum State {
    Staged { temp_file_fd: i32, temp_dir: tempfile::TempDir, temp_file_path: String },
    Committed,
}

/// Creates a temporary file which can then be committed to a final path.
///
/// The temporary file lives in a uniquely named temporary directory inside
/// the final path's parent, under the same leaf name as the final path, so
/// that committing is an atomic same-filesystem rename.
#[derive(Debug)]
pub struct StagedFile {
    final_path: String,
    state: State,
}

impl StagedFile {
    /// The desired final path of the file.
    pub closed spec fn spec_final_path(self) -> Seq<char> {
        self.final_path@
    }

    /// Whether the file is still staged: its temporary resources are held
    /// and its byte stream may be used.
    pub closed spec fn is_staged(self) -> bool {
        self.state is Staged
    }

    /// The descriptor of the open temporary file, while staged.
    pub closed spec fn temp_file_fd(self) -> i32 {
        self.state->Staged_temp_file_fd
    }

    /// The path of the temporary file, while staged.
    pub closed spec fn spec_temp_file_path(self) -> Seq<char> {
        self.state->Staged_temp_file_path@
    }

    /// Well-formedness: while staged, the final path has a usable parent
    /// and a usable leaf name, and the temporary file sits directly under
    /// some nonempty absolute directory, under the final path's own leaf
    /// name.
    pub closed spec fn wf(self) -> bool {
        self.is_staged() ==> {
            &&& has_usable_parent(self.final_path@)
            &&& leaf_of(self.final_path@) is Some
            &&& exists|td: Seq<char>|
                #![auto]
                td.len() > 0 && td[0] == '/' && self.spec_temp_file_path() == joined(
                    td,
                    leaf_of(self.final_path@)->Some_0,
                )
            &&& self.temp_file_fd() >= 0
        }
    }
}

/// The temporary-directory prefix that construction uses: the caller's, or
/// the fixed default.
pub open spec fn chosen_prefix(temp_dir_prefix: Option<&str>) -> Seq<char> {
    match temp_dir_prefix {
        Some(p) => p@,
        None => ".staged"@,
    }
}

/// Whether the staged file's temporary file lies in a fresh directory
/// directly inside the final path's parent, named `prefix` plus a nonempty
/// suffix without separators, and carries the final path's leaf name.
pub open spec fn staged_in_fresh_dir(sf: StagedFile, prefix: Seq<char>) -> bool {
    exists|rand: Seq<char>|
        #![auto]
        rand.len() > 0 && !rand.contains('/') && sf.spec_temp_file_path() == joined(
            joined(parent_of(sf.spec_final_path())->Some_0, prefix + rand),
            leaf_of(sf.spec_final_path())->Some_0,
        )
}

impl StagedFile {
    /// Instantiates a new staged file with the desired final path.
    ///
    /// The desired final path is where the file contents should be if the
    /// staged file is committed. A temporary directory and file are created
    /// during this function call. A file already at the final path is not
    /// touched; only commit will overwrite it.
    ///
    /// # Errors
    ///
    /// If the final path is invalid (e.g. is a directory) or if the final
    /// path's parent directory cannot be determined, an [`Error`] will be
    /// returned. Any I/O error which occurs when creating the temporary
    /// directory or file will also be returned.
    pub fn with_final_path(final_path: &str) -> (r: Result<StagedFile, Error>)
        ensures
            r matches Ok(sf) ==> {
                &&& sf.wf()
                &&& sf.is_staged()
                &&& sf.spec_final_path() == final_path@
                &&& has_usable_parent(final_path@)
                &&& leaf_of(final_path@) is Some
                &&& (final_path@.len() > 0 && final_path@[0] == '/' ==> staged_in_fresh_dir(
                    sf,
                    chosen_prefix(None),
                ))
            },
            (r matches Err(e) && e matches Error::InvalidParentFinalPath) ==> !has_usable_parent(
                final_path@,
            ),
            !has_usable_parent(final_path@) ==> (r matches Err(e) && (e matches Error::InvalidFinalPath || e matches Error::InvalidParentFinalPath)),
            has_usable_parent(final_path@) && leaf_of(final_path@) is None ==> (r matches Err(e) && e matches Error::InvalidFinalPath),
            (r matches Err(e) && (e matches Error::Io(_) || e matches Error::Other(_)))
                ==> has_usable_parent(final_path@) && leaf_of(final_path@) is Some,
    {
        proof {
            reveal_strlit(".staged");
        }
        Self::with_final_path_and_temp_dir_prefix(final_path, None)
    }

    /// Instantiates a new staged file with the desired final path and a
    /// temporary directory prefix (the default prefix is chosen when none
    /// is given).
    ///
    /// Behaves as [`StagedFile::with_final_path`] otherwise.
    ///
    /// # Errors
    ///
    /// If the final path is invalid (e.g. is a directory) or if the final
    /// path's parent directory cannot be determined, an [`Error`] will be
    /// returned. Any I/O error which occurs when creating the temporary
    /// directory or file will also be returned.
    pub fn with_final_path_and_temp_dir_prefix(
        final_path: &str,
        temp_dir_prefix: Option<&str>,
    ) -> (r: Result<StagedFile, Error>)
        ensures
            r matches Ok(sf) ==> {
                &&& sf.wf()
                &&& sf.is_staged()
                &&& sf.spec_final_path() == final_path@
                &&& has_usable_parent(final_path@)
                &&& leaf_of(final_path@) is Some
                &&& (final_path@.len() > 0 && final_path@[0] == '/' && (chosen_prefix(
                    temp_dir_prefix,
                ).len() == 0 || chosen_prefix(temp_dir_prefix)[0] != '/') ==> staged_in_fresh_dir(
                    sf,
                    chosen_prefix(temp_dir_prefix),
                ))
            },
            (r matches Err(e) && e matches Error::InvalidParentFinalPath) ==> !has_usable_parent(
                final_path@,
            ),
            !has_usable_parent(final_path@) ==> (r matches Err(e) && (e matches Error::InvalidFinalPath || e matches Error::InvalidParentFinalPath)),
            has_usable_parent(final_path@) && leaf_of(final_path@) is None ==> (r matches Err(e) && e matches Error::InvalidFinalPath),
            (r matches Err(e) && (e matches Error::Io(_) || e matches Error::Other(_)))
                ==> has_usable_parent(final_path@) && leaf_of(final_path@) is Some,
    {
        if path_is_dir(final_path) {
            return Err(Error::InvalidFinalPath);
        }
        let parent = match final_path_parent(final_path) {
            Ok(p) => p,
            Err(e) => {
                return Err(e);
            },
        };
        let leaf = match final_path_file_name(final_path) {
            Ok(l) => l,
            Err(e) => {
                return Err(e);
            },
        };
        let prefix = match temp_dir_prefix {
            Some(p) => p,
            None => ".staged",
        };
        let (temp_dir, temp_dir_path) = match create_temp_dir(parent, prefix) {
            Ok(t) => t,
            Err(e) => {
                return Err(Error::Io(e));
            },
        };
        let temp_file_path = join_under(temp_dir_path.as_str(), leaf);
        let temp_file_fd = match create_rw_file(temp_file_path.as_str()) {
            Ok(fd) => fd,
            Err(code) => {
                return Err(Error::Other(BoxError::new(code)));
            },
        };
        let sf = StagedFile {
            final_path: final_path.to_owned(),
            state: State::Staged { temp_file_fd, temp_dir, temp_file_path },
        };
        proof {
            assert(sf.spec_temp_file_path() == joined(temp_dir_path@, leaf@));
            if final_path@.len() > 0 && final_path@[0] == '/' && (prefix@.len() == 0 || prefix@[0]
                != '/') {
                lemma_parent_of_absolute(final_path@);
                let rand = choose|rand: Seq<char>|
                    rand.len() > 0 && !rand.contains('/') && temp_dir_path@ == joined(
                        parent@,
                        prefix@ + rand,
                    );
                assert(rand.len() > 0 && !rand.contains('/') && sf.spec_temp_file_path() == joined(
                    joined(parent_of(sf.spec_final_path())->Some_0, prefix@ + rand),
                    leaf_of(sf.spec_final_path())->Some_0,
                ));
            }
        }
        Ok(sf)
    }

    /// The open temporary file's descriptor.
    fn as_fd(&self) -> (r: i32)
        requires
            self.is_staged(),
        ensures
            r == self.temp_file_fd(),
    {
        match &self.state {
            State::Staged { temp_file_fd, .. } => *temp_file_fd,
            State::Committed => {
                proof {
                    assert(false);
                }
                0
            },
        }
    }

    /// Commits the temporary file contents into the desired final path,
    /// consuming the staged file; once it returns, the byte stream can no
    /// longer be used.
    ///
    /// The protocol runs in strict order: the temporary file's data and
    /// metadata are synced to storage, its descriptor is released, the
    /// temporary file is atomically renamed onto the final path, and the
    /// final path's parent directory is opened and synced so that the
    /// rename itself is durable. The temporary directory, now empty, is
    /// removed last. If a file exists at the desired final file path, it is
    /// overwritten.
    ///
    /// # Errors
    ///
    /// The first failing platform call aborts the sequence and its error is
    /// returned; nothing is retried. The temporary resources are still
    /// released (best effort) on such a failure.
    pub fn commit(self) -> (r: Result<(), Error>)
        requires
            self.wf(),
            self.is_staged(),
        ensures
            r matches Err(e) ==> e matches Error::Other(_),
    {
        let mut this = self;
        let mut state = State::Committed;
        core::mem::swap(&mut this.state, &mut state);
        match state {
            State::Staged { temp_file_fd, temp_dir, temp_file_path } => {
                if let Err(code) = fsync_fd(temp_file_fd) {
                    let _ = close_fd(temp_file_fd);
                    return Err(Error::Other(BoxError::new(code)));
                }
                if let Err(code) = close_fd(temp_file_fd) {
                    return Err(Error::Other(BoxError::new(code)));
                }
                if let Err(code) = rename_path(temp_file_path.as_str(), this.final_path.as_str()) {
                    return Err(Error::Other(BoxError::new(code)));
                }
                let parent = match final_path_parent(this.final_path.as_str()) {
                    Ok(p) => p,
                    Err(_) => {
                        // Unreachable: well-formedness guarantees the
                        // final path has a usable parent.
                        proof {
                            assert(false);
                        }
                        return Err(Error::Other(BoxError::new(0)));
                    },
                };
                let parent_fd = match open_read_only(parent) {
                    Ok(fd) => fd,
                    Err(code) => {
                        return Err(Error::Other(BoxError::new(code)));
                    },
                };
                if let Err(code) = fsync_fd(parent_fd) {
                    let _ = close_fd(parent_fd);
                    return Err(Error::Other(BoxError::new(code)));
                }
                if let Err(code) = close_fd(parent_fd) {
                    return Err(Error::Other(BoxError::new(code)));
                }
                // `temp_dir` goes out of scope here, removing the now
                // empty temporary directory.
                Ok(())
            },
            State::Committed => {
                // Unreachable: the value taken out of a staged file's
                // state slot is always the staged variant.
                proof {
                    assert(false);
                }
                Ok(())
            },
        }
    }

    /// Writes some prefix of `buf` into the staged file at its current
    /// position, returning how many bytes were written.
    pub fn write(&self, buf: &[u8]) -> (r: Result<usize, Error>)
        requires
            self.is_staged(),
        ensures
            r matches Ok(n) ==> n <= buf@.len(),
            r matches Err(e) ==> e matches Error::Other(_),
    {
        match write_fd(self.as_fd(), buf) {
            Ok(n) => Ok(n),
            Err(code) => Err(Error::Other(BoxError::new(code))),
        }
    }

    /// Writes all of `buf` into the staged file at its current position.
    pub fn write_all(&self, buf: &[u8]) -> (r: Result<(), Error>)
        requires
            self.is_staged(),
        ensures
            r matches Err(e) ==> e matches Error::Other(_) || e matches Error::Io(_),
    {
        let mut written: usize = 0;
        while written < buf.len()
            invariant
                written <= buf@.len(),
                self.is_staged(),
            decreases buf@.len() - written,
        {
            let rest = slice_subrange(buf, written, buf.len());
            let n = match self.write(rest) {
                Ok(n) => n,
                Err(e) => {
                    return Err(e);
                },
            };
            if n == 0 {
                return Err(Error::Io(write_zero_error()));
            }
            written = written + n;
        }
        Ok(())
    }

    /// Flushes the staged file's byte stream. Writes go straight to the
    /// temporary file, so there is nothing buffered to flush and the call
    /// always succeeds; durability comes only with commit.
    pub fn flush(&self) -> (r: Result<(), Error>)
        requires
            self.is_staged(),
        ensures
            r is Ok,
    {
        Ok(())
    }

    /// Reads at most `buf.len()` bytes from the staged file's current
    /// position into the front of `buf`, returning how many were read
    /// (zero at end of file); bytes past that count keep their old values.
    pub fn read(&self, buf: &mut Vec<u8>) -> (r: Result<usize, Error>)
        requires
            self.is_staged(),
        ensures
            final(buf)@.len() == old(buf)@.len(),
            r matches Ok(n) ==> n <= final(buf)@.len() && (forall|i: int|
                n <= i < final(buf)@.len() ==> final(buf)@[i] == old(buf)@[i]),
            r matches Err(e) ==> e matches Error::Other(_),
    {
        match read_fd(self.as_fd(), buf) {
            Ok(n) => Ok(n),
            Err(code) => Err(Error::Other(BoxError::new(code))),
        }
    }

    /// Reads exactly `buf.len()` bytes from the staged file's current
    /// position, replacing `buf`'s contents with them; fails without
    /// touching `buf` if a platform call fails or end of file comes first.
    pub fn read_exact(&self, buf: &mut Vec<u8>) -> (r: Result<(), Error>)
        requires
            self.is_staged(),
        ensures
            r matches Ok(()) ==> final(buf)@.len() == old(buf)@.len(),
            r matches Err(e) ==> (e matches Error::Other(_) || e matches Error::Io(_))
                && *final(buf) == *old(buf),
    {
        let want = buf.len();
        let mut out: Vec<u8> = Vec::new();
        while out.len() < want
            invariant
                self.is_staged(),
                out@.len() <= want,
            decreases want - out@.len(),
        {
            let mut chunk: Vec<u8> = Vec::new();
            let mut j: usize = out.len();
            while j < want
                invariant
                    out@.len() <= j <= want,
                    chunk@.len() == j - out@.len(),
                decreases want - j,
            {
                chunk.push(0u8);
                j = j + 1;
            }
            let n = match read_fd(self.as_fd(), &mut chunk) {
                Ok(n) => n,
                Err(code) => {
                    return Err(Error::Other(BoxError::new(code)));
                },
            };
            if n == 0 {
                return Err(Error::Io(unexpected_eof_error()));
            }
            let ghost out0 = out@;
            let mut i: usize = 0;
            while i < n
                invariant
                    i <= n <= chunk@.len(),
                    out@.len() == out0.len() + i,
                    out0.len() + chunk@.len() <= want,
                decreases n - i,
            {
                let b = chunk[i];
                out.push(b);
                i = i + 1;
            }
        }
        *buf = out;
        Ok(())
    }

    /// Moves the staged file's read/write position and returns the
    /// resulting offset from the start of the file; seeking to an absolute
    /// position yields exactly that position.
    pub fn seek(&self, pos: SeekPos) -> (r: Result<u64, Error>)
        requires
            self.is_staged(),
        ensures
            r matches Ok(p) ==> (pos matches SeekPos::Start(o) ==> p == o),
            r matches Err(e) ==> e matches Error::Other(_),
    {
        match seek_fd(self.as_fd(), &pos) {
            Ok(p) => Ok(p),
            Err(code) => Err(Error::Other(BoxError::new(code))),
        }
    }

    /// Returns the staged file's current read/write position.
    pub fn stream_position(&self) -> (r: Result<u64, Error>)
        requires
            self.is_staged(),
        ensures
            r matches Err(e) ==> e matches Error::Other(_),
    {
        self.seek(SeekPos::Current(0))
    }
}

impl Drop for StagedFile {
    /// Abandonment: dropping a staged file that was never committed
    /// releases the temporary file's descriptor and removes the temporary
    /// directory with its contents, leaving the final path untouched.
    /// Relies on `nix::unistd::close` and on `tempfile::TempDir`'s own drop
    /// for the best-effort cleanup; errors during teardown are swallowed.
    #[verifier::external_body]
    fn drop(&mut self)
        opens_invariants none
        no_unwind
    {
        let mut state = State::Committed;
        core::mem::swap(&mut self.state, &mut state);
        if let State::Staged { temp_file_fd, temp_dir, temp_file_path: _ } = state {
            let _ = nix::unistd::close(temp_file_fd);
            let _ = temp_dir;
        }
    }
}

} // verus!
