//! The folder scan for images, as a state machine: the caller lists the
//! folders that the scan asks for and hands the listings back; the scan
//! decides which entries are collected and which folders come next, and
//! returns the collected paths in order.
use vstd::prelude::*;
use crate::classify::{is_image_file, is_image_path};
use crate::error::{FileError, OsError};

verus! {

broadcast use vstd::seq_lib::group_to_multiset_ensures;

/// One entry of a folder listing.
#[derive(Debug)]
pub struct EntryInfo {
    /// The entry's full path, where it is valid text.
    pub path: Option<String>,
    /// The entry is a folder.
    pub is_dir: bool,
    /// The entry is a regular file.
    pub is_file: bool,
}

/// The texts of a sequence of strings.
pub open spec fn texts(v: Seq<String>) -> Seq<Seq<char>> {
    v.map_values(|s: String| s@)
}

/// Whether `a` comes before `b`, or equals it, comparing character by
/// character by code point, a prefix first.
pub open spec fn lex_le(a: Seq<char>, b: Seq<char>) -> bool
    decreases a.len(),
{
    if a.len() == 0 {
        true
    } else if b.len() == 0 {
        false
    } else if a[0] != b[0] {
        (a[0] as u32) < (b[0] as u32)
    } else {
        lex_le(a.drop_first(), b.drop_first())
    }
}

/// The strings are in ascending order.
pub open spec fn is_sorted(v: Seq<String>) -> bool {
    forall|i: int, j: int| 0 <= i < j < v.len() ==> lex_le(#[trigger] v[i]@, #[trigger] v[j]@)
}

/// An entry that the scan collects: a regular file that is not a folder,
/// with a textual path that names an image.
pub open spec fn collects(e: EntryInfo) -> bool {
    &&& !e.is_dir
    &&& e.is_file
    &&& e.path is Some
    &&& is_image_path(e.path->Some_0@)
}

/// An entry that the scan descends into: a folder with a textual path. A
/// folder without one holds only paths that are not text either, and so
/// nothing that the scan could return.
pub open spec fn descends(e: EntryInfo) -> bool {
    e.is_dir && e.path is Some
}

/// The paths that a listing contributes, in listing order.
pub open spec fn images_in(es: Seq<EntryInfo>) -> Seq<Seq<char>>
    decreases es.len(),
{
    if es.len() == 0 {
        Seq::empty()
    } else if collects(es.last()) {
        images_in(es.drop_last()).push(es.last().path->Some_0@)
    } else {
        images_in(es.drop_last())
    }
}

/// The folders of a listing that the scan visits, in listing order.
pub open spec fn folders_in(es: Seq<EntryInfo>) -> Seq<Seq<char>>
    decreases es.len(),
{
    if es.len() == 0 {
        Seq::empty()
    } else if descends(es.last()) {
        folders_in(es.drop_last()).push(es.last().path->Some_0@)
    } else {
        folders_in(es.drop_last())
    }
}

/// Relies on `slice::sort` for `String`, whose order is that of `str`:
/// lexicographic, which orders characters by code point. The result is a
/// rearrangement of the input.
#[verifier::external_body]
fn sort_paths(v: &mut Vec<String>)
    ensures
        final(v)@.to_multiset() == old(v)@.to_multiset(),
        is_sorted(final(v)@),
{
    v.sort();
}

/// A scan in progress.
#[derive(Debug)]
pub struct FolderScan {
    /// Folders still to be listed; the last is listed next.
    pub pending: Vec<String>,
    /// The image paths found so far.
    pub found: Vec<String>,
}

impl FolderScan {
    /// Every path found so far names an image.
    pub open spec fn wf(&self) -> bool {
        forall|i: int| 0 <= i < self.found@.len() ==> is_image_path(#[trigger] self.found@[i]@)
    }

    /// A scan of the folder `root`, given whether it exists and whether it is a
    /// folder.
    pub fn start(root: String, exists: bool, is_dir: bool) -> (r: Result<FolderScan, FileError>)
        ensures
            (exists && is_dir) <==> r is Ok,
            r matches Ok(s) ==> {
                &&& s.wf()
                &&& texts(s.pending@) == seq![root@]
                &&& s.found@.len() == 0
            },
            r matches Err(e) ==> {
                &&& !exists ==> e is NotFound && e.message_spec() == "Folder does not exist"@
                &&& exists ==> e is NotADirectory && e.message_spec()
                    == "Path is not a directory"@
            },
    {
        if !exists {
            return Err(FileError::NotFound(String::from_str("Folder does not exist")));
        }
        if !is_dir {
            return Err(FileError::NotADirectory(String::from_str("Path is not a directory")));
        }
        let mut pending: Vec<String> = Vec::new();
        pending.push(root);
        let s = FolderScan { pending, found: Vec::new() };
        assert(texts(s.pending@) =~= seq![root@]);
        Ok(s)
    }

    /// The next folder to list, taken off the pending ones; none when the
    /// walk is complete.
    pub fn next_dir(&mut self) -> (r: Option<String>)
        ensures
            final(self).found@ == old(self).found@,
            old(self).pending@.len() == 0 ==> r is None && final(self).pending@ == old(
                self,
            ).pending@,
            old(self).pending@.len() > 0 ==> r == Some(old(self).pending@.last())
                && final(self).pending@ == old(self).pending@.drop_last(),
    {
        self.pending.pop()
    }

    /// Takes in the listing of a folder: its images join those found, and its
    /// folders join those pending.
    pub fn absorb(&mut self, entries: &Vec<EntryInfo>)
        requires
            old(self).wf(),
        ensures
            final(self).wf(),
            texts(final(self).found@) == texts(old(self).found@) + images_in(entries@),
            texts(final(self).pending@) == texts(old(self).pending@) + folders_in(entries@),
    {
        let n = entries.len();
        let mut i: usize = 0;
        assert(entries@.subrange(0, 0) =~= Seq::<EntryInfo>::empty());
        assert(texts(self.found@) + images_in(Seq::<EntryInfo>::empty()) =~= texts(
            self.found@,
        ));
        assert(texts(self.pending@) + folders_in(Seq::<EntryInfo>::empty()) =~= texts(
            self.pending@,
        ));
        while i < n
            invariant
                n == entries@.len(),
                0 <= i <= n,
                self.wf(),
                texts(self.found@) == texts(old(self).found@) + images_in(
                    entries@.subrange(0, i as int),
                ),
                texts(self.pending@) == texts(old(self).pending@) + folders_in(
                    entries@.subrange(0, i as int),
                ),
            decreases n - i,
        {
            let e = &entries[i];
            let ghost before = entries@.subrange(0, i as int);
            let ghost after = entries@.subrange(0, i + 1);
            assert(after.drop_last() =~= before);
            assert(after.last() == *e);
            let ghost found0 = self.found@;
            let ghost pending0 = self.pending@;
            match &e.path {
                Some(p) => {
                    if e.is_dir {
                        self.pending.push(p.clone());
                        assert(texts(self.pending@) =~= texts(pending0).push(p@));
                        assert(texts(self.found@) =~= texts(found0));
                    } else if e.is_file && is_image_file(p.as_str()) {
                        self.found.push(p.clone());
                        assert(texts(self.found@) =~= texts(found0).push(p@));
                        assert(texts(self.pending@) =~= texts(pending0));
                    }
                },
                None => {},
            }
            i = i + 1;
        }
        assert(entries@.subrange(0, n as int) =~= entries@);
    }

    /// The image paths found, in ascending order.
    pub fn finish(self) -> (r: Vec<String>)
        requires
            self.wf(),
        ensures
            is_sorted(r@),
            r@.to_multiset() == self.found@.to_multiset(),
            forall|i: int| 0 <= i < r@.len() ==> is_image_path(#[trigger] r@[i]@),
    {
        let mut found = self.found;
        let ghost before = found@;
        sort_paths(&mut found);
        assert forall|i: int| 0 <= i < found@.len() implies is_image_path(
            #[trigger] found@[i]@,
        ) by {
            assert(found@.to_multiset().count(found@[i]) > 0);
            assert(before.contains(found@[i]));
        }
        found
    }
}

/// The error for a folder that could not be listed.
pub fn listing_error(dir: &str, e: OsError) -> (r: FileError)
    ensures
        r.message_spec() == "Failed to read directory "@ + dir@ + ": "@ + e.detail@,
        e.not_found <==> r is NotFound,
{
    let context = String::from_str("Failed to read directory ").concat(dir).concat(": ");
    FileError::from_os(context.as_str(), e)
}

/// The error for an entry of a listing that could not be read.
pub fn entry_error(e: OsError) -> (r: FileError)
    ensures
        r.message_spec() == "Failed to read directory entry: "@ + e.detail@,
        e.not_found <==> r is NotFound,
{
    FileError::from_os("Failed to read directory entry: ", e)
}

} // verus!
