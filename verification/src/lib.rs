//! `StagedFile` helps write data to a temporary file, and then gives the
//! option to commit the temporary file to a desired final file path.
//!
//! First, a staged file is created with the desired final path of the file.
//! The staged file starts as a newly created temporary file inside a
//! uniquely named temporary directory that lives next to the final path.
//!
//! Then, data is written out through the staged file's read/write/seek
//! methods.
//!
//! Finally, the file is committed by calling `StagedFile::commit`, which
//! durably and atomically publishes the temporary file's contents at the
//! final path. If the contents are not to be committed, the `StagedFile` is
//! simply dropped, which cleans up the temporary resources and leaves the
//! final path untouched.

mod errors;
mod paths;
mod staged;
mod sys;

pub use errors::BoxError;
pub use errors::Error;
pub use paths::final_path_file_name;
pub use paths::final_path_parent;
pub use staged::SeekPos;
pub use staged::StagedFile;
