//! File metadata and image information built from what the file system
//! reported about a path.
use vstd::prelude::*;
use crate::classify::{file_name, file_name_of};
use crate::error::{FileError, OsError};

verus! {

/// What a stat of a path reported.
#[derive(Debug)]
pub struct FileStat {
    /// The length in bytes.
    pub size: u64,
    /// Seconds since the Unix epoch of the last modification, where the
    /// system reports one at or after the epoch.
    pub modified_secs: Option<u64>,
}

/// Metadata of a file.
#[derive(Debug)]
pub struct FileMetadata {
    pub path: String,
    pub name: String,
    pub size: u64,
    pub last_modified: u64,
}

/// Metadata of an image file, with its dimensions and format.
#[derive(Debug)]
pub struct ImageInfo {
    pub path: String,
    pub name: String,
    pub size: u64,
    pub last_modified: u64,
    pub width: u32,
    pub height: u32,
    pub format: String,
}

/// The width reported for every image: no decoding takes place.
pub const PLACEHOLDER_WIDTH: u32 = 1920;

/// The height reported for every image: no decoding takes place.
pub const PLACEHOLDER_HEIGHT: u32 = 1080;

/// The name shown for a path: its final component, or `unknown` where it has
/// none.
pub open spec fn display_name(path: Seq<char>) -> Seq<char> {
    match file_name_of(path) {
        Some(n) => n,
        None => "unknown"@,
    }
}

/// The modification time shown: the reported one, or the epoch.
pub open spec fn shown_modified(stat: FileStat) -> u64 {
    match stat.modified_secs {
        Some(s) => s,
        None => 0,
    }
}

/// The message that a failed stat starts with.
pub open spec fn metadata_context() -> Seq<char> {
    "Failed to read file metadata: "@
}

/// The name shown for a path: its final component, or `unknown`.
pub fn name_of(path: &str) -> (r: String)
    ensures
        r@ == display_name(path@),
{
    match file_name(path) {
        Some(n) => n,
        None => String::from_str("unknown"),
    }
}

fn modified_of(stat: &FileStat) -> (r: u64)
    ensures
        r == shown_modified(*stat),
{
    match stat.modified_secs {
        Some(s) => s,
        None => 0,
    }
}

/// The metadata of the file at `path`, from the result of its stat. A failed
/// stat is an error; the name and the modification time fall back to
/// `unknown` and the epoch.
pub fn get_file_metadata(path: String, stat: Result<FileStat, OsError>) -> (r: Result<
    FileMetadata,
    FileError,
>)
    ensures
        stat is Ok <==> r is Ok,
        r matches Ok(m) ==> {
            &&& m.path@ == path@
            &&& m.name@ == display_name(path@)
            &&& m.size == stat->Ok_0.size
            &&& m.last_modified == shown_modified(stat->Ok_0)
        },
        r matches Err(e) ==> {
            &&& stat->Err_0.not_found <==> e is NotFound
            &&& e.message_spec() == metadata_context() + stat->Err_0.detail@
        },
{
    match stat {
        Ok(s) => {
            let name = name_of(path.as_str());
            let last_modified = modified_of(&s);
            Ok(FileMetadata { path, name, size: s.size, last_modified })
        },
        Err(e) => Err(FileError::from_os("Failed to read file metadata: ", e)),
    }
}

/// The image information of the file at `path`, from the result of its stat.
/// The dimensions and format are fixed placeholders; the rest is as
/// `get_file_metadata` gives it.
pub fn get_image_info(path: String, stat: Result<FileStat, OsError>) -> (r: Result<
    ImageInfo,
    FileError,
>)
    ensures
        stat is Ok <==> r is Ok,
        r matches Ok(i) ==> {
            &&& i.path@ == path@
            &&& i.name@ == display_name(path@)
            &&& i.size == stat->Ok_0.size
            &&& i.last_modified == shown_modified(stat->Ok_0)
            &&& i.width == PLACEHOLDER_WIDTH
            &&& i.height == PLACEHOLDER_HEIGHT
            &&& i.format@ == "jpeg"@
        },
        r matches Err(e) ==> {
            &&& stat->Err_0.not_found <==> e is NotFound
            &&& e.message_spec() == metadata_context() + stat->Err_0.detail@
        },
{
    match get_file_metadata(path, stat) {
        Ok(m) => Ok(
            ImageInfo {
                path: m.path,
                name: m.name,
                size: m.size,
                last_modified: m.last_modified,
                width: PLACEHOLDER_WIDTH,
                height: PLACEHOLDER_HEIGHT,
                format: String::from_str("jpeg"),
            },
        ),
        Err(e) => Err(e),
    }
}

} // verus!
