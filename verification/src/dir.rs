//! `readdir`: the listing FUSE is given for the entries ext4 read.

use vstd::prelude::*;
use crate::attr::{dir_entry_kind, spec_dir_entry_kind, FileKind};

verus! {

/// A directory entry as ext4 reads it: the inode it names, its type byte
/// and its name.
#[derive(Clone, Debug)]
pub struct DirEntryInfo {
    pub inode: u32,
    pub de_type: u8,
    pub name: String,
}

/// One entry of the listing given to FUSE: the inode, the offset at which
/// the listing goes on after this entry, the kind and the name.
#[derive(Clone, Debug)]
pub struct DirListing {
    pub ino: u64,
    pub offset: i64,
    pub kind: FileKind,
    pub name: String,
}

impl View for DirEntryInfo {
    type V = (u32, u8, Seq<char>);

    open spec fn view(&self) -> (u32, u8, Seq<char>) {
        (self.inode, self.de_type, self.name@)
    }
}

impl View for DirListing {
    type V = (u64, i64, FileKind, Seq<char>);

    open spec fn view(&self) -> (u64, i64, FileKind, Seq<char>) {
        (self.ino, self.offset, self.kind, self.name@)
    }
}

/// The index of the first entry that a listing from `offset` reports: the
/// entries before `offset` are skipped; a negative offset, or one past the
/// end, skips them all.
pub open spec fn spec_listing_start(offset: i64, len: nat) -> int {
    if offset < 0 || offset >= len { len as int } else { offset as int }
}

/// The listing of `entries` from `offset`: each entry from the start on, in
/// order, with the next offset being its index plus one.
pub open spec fn spec_listing(entries: Seq<(u32, u8, Seq<char>)>, offset: i64) -> Seq<
    (u64, i64, FileKind, Seq<char>),
> {
    let start: int = spec_listing_start(offset, entries.len());
    Seq::new(
        (entries.len() - start) as nat,
        |k: int|
            (
                entries[start + k].0 as u64,
                (start + k + 1) as i64,
                spec_dir_entry_kind(entries[start + k].1),
                entries[start + k].2,
            ),
    )
}

/// The views of a sequence of directory entries.
pub open spec fn entry_views(entries: Seq<DirEntryInfo>) -> Seq<(u32, u8, Seq<char>)> {
    entries.map_values(|e: DirEntryInfo| e@)
}

/// Lists `entries` from `offset` on, as FUSE is given them: every entry
/// with index at least `offset`, in order, each with its inode, the offset
/// just after it (its index plus one), the kind its type byte stands for
/// and its name.
pub fn readdir_listing(entries: &Vec<DirEntryInfo>, offset: i64) -> (r: Vec<DirListing>)
    ensures
        r@.len() == spec_listing(entry_views(entries@), offset).len(),
        forall|k: int|
            0 <= k < r@.len() ==> #[trigger] r@[k]@ == spec_listing(entry_views(entries@), offset)[k],
        offset < 0 || offset >= entries@.len() ==> r@.len() == 0,
        0 <= offset <= entries@.len() ==> r@.len() == entries@.len() - offset,
        forall|k: int|
            0 <= k < r@.len() ==> {
                &&& (#[trigger] r@[k]).ino == entries@[offset + k].inode as u64
                &&& r@[k].offset == (offset + k + 1) as i64
                &&& r@[k].name@ == entries@[offset + k].name@
                &&& (r@[k].kind == FileKind::Directory) == (entries@[offset + k].de_type == 2)
            },
{
    let len: usize = entries.len();
    let start: usize = if offset < 0 || offset as u64 >= len as u64 {
        len
    } else {
        offset as usize
    };
    let ghost views = entry_views(entries@);
    let ghost want = spec_listing(views, offset);
    assert(start == spec_listing_start(offset, views.len()));
    let mut r: Vec<DirListing> = Vec::new();
    let mut i: usize = start;
    while i < len
        invariant
            start <= i <= len,
            len == entries@.len(),
            views == entry_views(entries@),
            want == spec_listing(views, offset),
            start == spec_listing_start(offset, views.len()),
            r@.len() == i - start,
            forall|k: int| 0 <= k < r@.len() ==> #[trigger] r@[k]@ == want[k],
        decreases len - i,
    {
        let e = &entries[i];
        let item = DirListing {
            ino: e.inode as u64,
            offset: (i + 1) as i64,
            kind: dir_entry_kind(e.de_type),
            name: e.name.clone(),
        };
        assert(views[i as int] == entries@[i as int]@);
        r.push(item);
        i = i + 1;
    }
    assert forall|k: int| 0 <= k < r@.len() implies {
        &&& (#[trigger] r@[k]).ino == entries@[offset + k].inode as u64
        &&& r@[k].offset == (offset + k + 1) as i64
        &&& r@[k].name@ == entries@[offset + k].name@
        &&& (r@[k].kind == FileKind::Directory) == (entries@[offset + k].de_type == 2)
    } by {
        assert(r@[k]@ == want[k]);
        assert(views[start + k] == entries@[start + k]@);
    }
    r
}

/// Resuming a listing at the offset of the last entry seen neither repeats
/// nor skips an entry: listing from offset `k` gives what listing from the
/// start gives, less the first `k` entries, and its `j`-th entry is entry
/// `k + j` with the offset `k + j + 1`.
pub proof fn law_listing_resumes_at_offset(entries: Seq<(u32, u8, Seq<char>)>, k: i64)
    requires
        0 <= k <= entries.len(),
    ensures
        spec_listing(entries, k) == spec_listing(entries, 0).skip(k as int),
        spec_listing(entries, k).len() == entries.len() - k,
        forall|j: int|
            0 <= j < spec_listing(entries, k).len() ==> {
                &&& (#[trigger] spec_listing(entries, k)[j]).0 == entries[k + j].0 as u64
                &&& spec_listing(entries, k)[j].1 == (k + j + 1) as i64
                &&& spec_listing(entries, k)[j].3 == entries[k + j].2
            },
{
    assert(spec_listing(entries, k) =~= spec_listing(entries, 0).skip(k as int));
}

} // verus!
