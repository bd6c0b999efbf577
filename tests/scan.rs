use std::io::Write;
use std::path::Path;
use tempfile::{Builder, NamedTempFile, TempDir};
use visual_compare::error::{FileError, OsError};
use visual_compare::scan::{entry_error, listing_error, EntryInfo, FolderScan};

fn os_error(e: std::io::Error) -> OsError {
    OsError { not_found: e.kind() == std::io::ErrorKind::NotFound, detail: e.to_string() }
}

fn list(dir: &str) -> Result<Vec<EntryInfo>, FileError> {
    let entries = Path::new(dir).read_dir().map_err(|e| listing_error(dir, os_error(e)))?;
    let mut listing = Vec::new();
    for entry in entries {
        let path = entry.map_err(|e| entry_error(os_error(e)))?.path();
        listing.push(EntryInfo {
            path: path.to_str().map(|s| s.to_string()),
            is_dir: path.is_dir(),
            is_file: path.is_file(),
        });
    }
    Ok(listing)
}

fn scan(root: &str) -> Result<Vec<String>, FileError> {
    let folder = Path::new(root);
    let mut state = FolderScan::start(root.to_string(), folder.exists(), folder.is_dir())?;
    while let Some(dir) = state.next_dir() {
        let listing = list(&dir)?;
        state.absorb(&listing);
    }
    Ok(state.finish())
}

fn file_in(dir: &Path, name: &str, ext: &str) -> NamedTempFile {
    let mut f = Builder::new().prefix(name).suffix(ext).rand_bytes(0).tempfile_in(dir).unwrap();
    f.write_all(b"x").unwrap();
    f
}

fn dir_in(dir: &Path, name: &str) -> TempDir {
    Builder::new().prefix(name).rand_bytes(0).tempdir_in(dir).unwrap()
}

fn text(p: &Path) -> String {
    p.to_str().unwrap().to_string()
}

fn entry(path: &str, is_dir: bool, is_file: bool) -> EntryInfo {
    EntryInfo { path: Some(path.to_string()), is_dir, is_file }
}

#[test]
fn scan_finds_images_in_nested_folders() {
    let root = tempfile::tempdir().unwrap();
    let _a = file_in(root.path(), "a", ".png");
    let sub = dir_in(root.path(), "sub");
    let _b = file_in(sub.path(), "b", ".JPG");
    let _c = file_in(sub.path(), "c", ".txt");
    let _empty = dir_in(sub.path(), "empty_dir");
    let r = text(root.path());
    let found = scan(&r).unwrap();
    assert_eq!(found, vec![format!("{}/a.png", r), format!("{}/sub/b.JPG", r)]);
}

#[test]
fn scan_of_missing_folder_fails() {
    let root = tempfile::tempdir().unwrap();
    let r = format!("{}/absent", text(root.path()));
    let err = scan(&r).unwrap_err();
    assert!(matches!(err, FileError::NotFound(_)));
    assert_eq!(err.message(), "Folder does not exist");
}

#[test]
fn scan_of_a_file_fails() {
    let file = NamedTempFile::new().unwrap();
    let err = scan(&text(file.path())).unwrap_err();
    assert!(matches!(err, FileError::NotADirectory(_)));
    assert_eq!(err.message(), "Path is not a directory");
}

#[test]
fn scan_output_is_sorted_and_images_only() {
    let root = tempfile::tempdir().unwrap();
    let _files: Vec<NamedTempFile> = ["z", "m", "B", "a"]
        .iter()
        .flat_map(|n| vec![file_in(root.path(), n, ".gif"), file_in(root.path(), n, ".md")])
        .collect();
    let found = scan(&text(root.path())).unwrap();
    assert_eq!(found.len(), 4);
    let mut sorted = found.clone();
    sorted.sort();
    assert_eq!(found, sorted);
    assert!(found.iter().all(|p| p.ends_with(".gif")));
}

#[test]
fn interleaved_scans_stay_apart() {
    let one = tempfile::tempdir().unwrap();
    let two = tempfile::tempdir().unwrap();
    let _x = file_in(one.path(), "x", ".bmp");
    let one_sub = dir_in(one.path(), "deep");
    let _y = file_in(one_sub.path(), "y", ".avif");
    let _z = file_in(two.path(), "z", ".webp");
    let (r1, r2) = (text(one.path()), text(two.path()));
    let mut s1 = FolderScan::start(r1.clone(), true, true).unwrap();
    let mut s2 = FolderScan::start(r2.clone(), true, true).unwrap();
    loop {
        let d1 = s1.next_dir();
        let d2 = s2.next_dir();
        if d1.is_none() && d2.is_none() {
            break;
        }
        if let Some(d) = d1 {
            s1.absorb(&list(&d).unwrap());
        }
        if let Some(d) = d2 {
            s2.absorb(&list(&d).unwrap());
        }
    }
    assert_eq!(s1.finish(), vec![format!("{}/deep/y.avif", r1), format!("{}/x.bmp", r1)]);
    assert_eq!(s2.finish(), vec![format!("{}/z.webp", r2)]);
}

#[test]
fn absorb_sorts_entries_into_found_and_pending() {
    let mut s = FolderScan::start("/r".to_string(), true, true).unwrap();
    assert_eq!(s.next_dir(), Some("/r".to_string()));
    assert_eq!(s.next_dir(), None);
    let listing = vec![
        entry("/r/b.PNG", false, true),
        entry("/r/d", true, false),
        entry("/r/n.txt", false, true),
        entry("/r/link.jpg", false, false),
        EntryInfo { path: None, is_dir: true, is_file: false },
        entry("/r/a.jpeg", false, true),
    ];
    s.absorb(&listing);
    assert_eq!(s.found, vec!["/r/b.PNG".to_string(), "/r/a.jpeg".to_string()]);
    assert_eq!(s.pending, vec!["/r/d".to_string()]);
    assert_eq!(s.next_dir(), Some("/r/d".to_string()));
    assert_eq!(s.finish(), vec!["/r/a.jpeg".to_string(), "/r/b.PNG".to_string()]);
}

#[test]
fn listing_errors_name_the_folder() {
    let e = OsError { not_found: false, detail: "Permission denied".to_string() };
    let err = listing_error("/r/locked", e);
    assert!(matches!(err, FileError::Io(_)));
    assert_eq!(err.message(), "Failed to read directory /r/locked: Permission denied");
    let e = OsError { not_found: false, detail: "bad".to_string() };
    assert_eq!(entry_error(e).message(), "Failed to read directory entry: bad");
}
