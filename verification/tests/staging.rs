use staged_file::{Error, SeekPos, StagedFile};
use std::path::Path;

/// Reads a whole file through raw platform calls.
fn read_file(path: &str) -> Vec<u8> {
    let fd = nix::fcntl::open(
        path,
        nix::fcntl::OFlag::O_RDONLY,
        nix::sys::stat::Mode::empty(),
    )
    .unwrap();
    let mut out = Vec::new();
    let mut buf = vec![0u8; 4096];
    loop {
        let n = nix::unistd::read(fd, &mut buf).unwrap();
        if n == 0 {
            break;
        }
        out.extend_from_slice(&buf[..n]);
    }
    nix::unistd::close(fd).unwrap();
    out
}

/// Counts the entries of a directory, `.` and `..` excluded.
fn count_entries(path: &str) -> usize {
    let dir = nix::dir::Dir::open(
        path,
        nix::fcntl::OFlag::O_RDONLY,
        nix::sys::stat::Mode::empty(),
    )
    .unwrap();
    let mut dir = dir;
    let mut count = 0;
    for entry in dir.iter() {
        let entry = entry.unwrap();
        let name = entry.file_name().to_str().unwrap().to_string();
        if name != "." && name != ".." {
            count += 1;
        }
    }
    count
}

#[test]
fn commit_staged_file() {
    let temp_dir = tempfile::tempdir().unwrap();
    let final_path_buf = temp_dir.path().join("test1");
    let final_path = final_path_buf.to_str().unwrap();
    let staged_file = StagedFile::with_final_path(final_path).unwrap();

    let text = b"Hello World!";

    staged_file.write_all(text).unwrap();
    staged_file.flush().unwrap();

    staged_file.commit().unwrap();

    assert!(Path::new(final_path).exists());
    assert_eq!(read_file(final_path), text);
}

#[test]
fn no_commit_staged_file() {
    let temp_dir = tempfile::tempdir().unwrap();
    let final_path_buf = temp_dir.path().join("test2");
    let final_path = final_path_buf.to_str().unwrap();
    let staged_file = StagedFile::with_final_path(final_path).unwrap();

    let text = b"Hello World!";

    staged_file.write_all(text).unwrap();
    staged_file.flush().unwrap();

    drop(staged_file);

    assert!(!Path::new(final_path).exists());
}

#[test]
fn abandonment_cleans_temp_dir_and_keeps_old_content() {
    let temp_dir = tempfile::tempdir().unwrap();
    let parent = temp_dir.path().to_str().unwrap();
    let final_path_buf = temp_dir.path().join("out.txt");
    let final_path = final_path_buf.to_str().unwrap();

    let first = StagedFile::with_final_path(final_path).unwrap();
    first.write_all(b"old content").unwrap();
    first.commit().unwrap();
    assert_eq!(read_file(final_path), b"old content");
    assert_eq!(count_entries(parent), 1);

    let second = StagedFile::with_final_path(final_path).unwrap();
    second.write_all(b"new content").unwrap();
    assert_eq!(count_entries(parent), 2);
    drop(second);

    assert_eq!(read_file(final_path), b"old content");
    assert_eq!(count_entries(parent), 1);
}

#[test]
fn commit_overwrites_existing_file() {
    let temp_dir = tempfile::tempdir().unwrap();
    let final_path_buf = temp_dir.path().join("out.txt");
    let final_path = final_path_buf.to_str().unwrap();

    let first = StagedFile::with_final_path(final_path).unwrap();
    first.write_all(b"a much longer first version").unwrap();
    first.commit().unwrap();

    let second = StagedFile::with_final_path(final_path).unwrap();
    second.write_all(b"short").unwrap();
    second.commit().unwrap();

    assert_eq!(read_file(final_path), b"short");
}

#[test]
fn two_staged_files_for_one_final_path_coexist() {
    let temp_dir = tempfile::tempdir().unwrap();
    let parent = temp_dir.path().to_str().unwrap();
    let final_path_buf = temp_dir.path().join("out.txt");
    let final_path = final_path_buf.to_str().unwrap();

    let first = StagedFile::with_final_path(final_path).unwrap();
    let second = StagedFile::with_final_path(final_path).unwrap();
    assert_eq!(count_entries(parent), 2);

    first.write_all(b"first wins?").unwrap();
    second.write_all(b"second wins").unwrap();

    first.commit().unwrap();
    second.commit().unwrap();

    assert_eq!(read_file(final_path), b"second wins");
    assert_eq!(count_entries(parent), 1);
}

#[test]
fn construct_on_directory_fails() {
    let temp_dir = tempfile::tempdir().unwrap();
    let parent = temp_dir.path().to_str().unwrap();
    let r = StagedFile::with_final_path(parent);
    assert!(matches!(r, Err(Error::InvalidFinalPath)));
    assert_eq!(count_entries(parent), 0);
}

#[test]
fn construct_on_bare_relative_name_fails() {
    let r = StagedFile::with_final_path("relative-name");
    assert!(matches!(r, Err(Error::InvalidParentFinalPath)));
}

#[test]
fn construct_under_missing_parent_is_io_error() {
    let temp_dir = tempfile::tempdir().unwrap();
    let final_path_buf = temp_dir.path().join("missing").join("out.txt");
    let final_path = final_path_buf.to_str().unwrap();
    let r = StagedFile::with_final_path(final_path);
    assert!(matches!(r, Err(Error::Io(_))));
}

#[test]
fn construct_with_dot_dot_leaf_fails() {
    let temp_dir = tempfile::tempdir().unwrap();
    let final_path_buf = temp_dir.path().join("sub").join("..");
    let final_path = final_path_buf.to_str().unwrap();
    let r = StagedFile::with_final_path(final_path);
    assert!(matches!(r, Err(Error::InvalidFinalPath)));
}

#[test]
fn custom_temp_dir_prefix_is_used() {
    let temp_dir = tempfile::tempdir().unwrap();
    let parent = temp_dir.path().to_str().unwrap();
    let final_path_buf = temp_dir.path().join("out.txt");
    let final_path = final_path_buf.to_str().unwrap();

    let staged =
        StagedFile::with_final_path_and_temp_dir_prefix(final_path, Some("my-prefix")).unwrap();

    let mut dir = nix::dir::Dir::open(
        parent,
        nix::fcntl::OFlag::O_RDONLY,
        nix::sys::stat::Mode::empty(),
    )
    .unwrap();
    let mut seen_prefixed = false;
    for entry in dir.iter() {
        let entry = entry.unwrap();
        let name = entry.file_name().to_str().unwrap().to_string();
        if name.starts_with("my-prefix") && name.len() > "my-prefix".len() {
            seen_prefixed = true;
        }
    }
    assert!(seen_prefixed);

    staged.write_all(b"Hello World!").unwrap();
    staged.commit().unwrap();
    assert_eq!(read_file(final_path), b"Hello World!");
    assert_eq!(count_entries(parent), 1);
}

#[test]
fn seek_and_read_back_through_staged_file() {
    let temp_dir = tempfile::tempdir().unwrap();
    let final_path_buf = temp_dir.path().join("out.txt");
    let final_path = final_path_buf.to_str().unwrap();

    let staged = StagedFile::with_final_path(final_path).unwrap();
    staged.write_all(b"Hello World!").unwrap();

    let pos = staged.seek(SeekPos::Start(6)).unwrap();
    assert_eq!(pos, 6);
    assert_eq!(staged.stream_position().unwrap(), 6);

    let mut buf = vec![0u8; 6];
    let n = staged.read(&mut buf).unwrap();
    assert_eq!(n, 6);
    assert_eq!(buf, b"World!");

    staged.commit().unwrap();
    assert_eq!(read_file(final_path), b"Hello World!");
}

#[test]
fn partial_write_reports_count() {
    let temp_dir = tempfile::tempdir().unwrap();
    let final_path_buf = temp_dir.path().join("out.txt");
    let final_path = final_path_buf.to_str().unwrap();

    let staged = StagedFile::with_final_path(final_path).unwrap();
    let n = staged.write(b"abc").unwrap();
    assert!(n <= 3);
}

#[test]
fn invalid_seek_is_other_error_with_code() {
    let temp_dir = tempfile::tempdir().unwrap();
    let final_path_buf = temp_dir.path().join("out.txt");
    let final_path = final_path_buf.to_str().unwrap();

    let staged = StagedFile::with_final_path(final_path).unwrap();
    let r = staged.seek(SeekPos::End(-9999));
    match r {
        Err(Error::Other(e)) => {
            assert!(e.code() != 0);
        }
        _ => panic!("expected a platform error"),
    }
}

#[test]
fn read_exact_round_trips_written_bytes() {
    let temp_dir = tempfile::tempdir().unwrap();
    let final_path_buf = temp_dir.path().join("out.txt");
    let final_path = final_path_buf.to_str().unwrap();

    let staged = StagedFile::with_final_path(final_path).unwrap();
    staged.write_all(b"Hello World!").unwrap();
    staged.seek(SeekPos::Start(0)).unwrap();

    let mut buf = vec![0u8; 5];
    staged.read_exact(&mut buf).unwrap();
    assert_eq!(buf, b"Hello");
}

#[test]
fn read_exact_past_end_of_file_fails() {
    let temp_dir = tempfile::tempdir().unwrap();
    let final_path_buf = temp_dir.path().join("out.txt");
    let final_path = final_path_buf.to_str().unwrap();

    let staged = StagedFile::with_final_path(final_path).unwrap();
    staged.write_all(b"abc").unwrap();
    staged.seek(SeekPos::Start(0)).unwrap();

    let mut buf = vec![0u8; 10];
    let r = staged.read_exact(&mut buf);
    assert!(matches!(r, Err(Error::Io(_))));
    assert_eq!(buf, vec![0u8; 10]);
}
