//! The answer each FUSE request gets, from what ext4 did with it.
//!
//! An ext4 outcome is handed in as `Some`/`Ok`-like values when ext4
//! succeeded and `None`/`false` when it refused; which error ext4 gave does
//! not change the answer.

use vstd::prelude::*;
use crate::attr::{
    entry_attr, new_dir_attr, new_node_attr, spec_entry_attr, spec_new_dir_attr,
    spec_new_node_attr, spec_stored_attr, stored_attr, CreatedInode, FuseAttr, InodeAttr,
};
use crate::consts::{EIO, ENOENT};
use crate::dir::{entry_views, readdir_listing, spec_listing, DirEntryInfo, DirListing};

verus! {

/// The answer to `lookup` or `getattr` when ext4 found the inode `found`
/// (`None` if it did not): its attributes, or "no such entry".
pub open spec fn spec_attr_reply(found: Option<InodeAttr>) -> Result<FuseAttr, i32> {
    match found {
        Some(a) => Ok(spec_entry_attr(a)),
        None => Err(ENOENT),
    }
}

/// Answers `lookup` of a name, given the inode ext4 found for it.
pub fn lookup_reply(found: Option<InodeAttr>) -> (r: Result<FuseAttr, i32>)
    ensures
        r == spec_attr_reply(found),
        found matches Some(a) ==> (r matches Ok(x) && x.ino == a.ino && x.size == a.size
            && x.blocks == a.blocks && x.perm == a.perm && x.nlink == a.nlink && x.uid == a.uid
            && x.gid == a.gid),
{
    match found {
        Some(a) => Ok(entry_attr(&a)),
        None => Err(ENOENT),
    }
}

/// Answers `getattr` of an inode, given what ext4 read for it.
pub fn getattr_reply(found: Option<InodeAttr>) -> (r: Result<FuseAttr, i32>)
    ensures
        r == spec_attr_reply(found),
        found matches Some(a) ==> (r matches Ok(x) && x.ino == a.ino && x.size == a.size
            && x.blocks == a.blocks && x.perm == a.perm && x.nlink == a.nlink && x.uid == a.uid
            && x.gid == a.gid),
{
    match found {
        Some(a) => Ok(entry_attr(&a)),
        None => Err(ENOENT),
    }
}

/// Answers `setattr`, given the inode as ext4 reads it back after the
/// change (`None` if it cannot): its attributes with its stored times, or
/// an I/O error.
pub fn setattr_reply(read_back: Option<InodeAttr>) -> (r: Result<FuseAttr, i32>)
    ensures
        match read_back {
            Some(a) => r == Ok::<FuseAttr, i32>(spec_stored_attr(a)),
            None => r == Err::<FuseAttr, i32>(EIO),
        },
        read_back matches Some(a) ==> (r matches Ok(x) && x.uid == a.uid && x.gid == a.gid
            && x.atime == a.atime && x.mtime == a.mtime && x.ctime == a.ctime
            && x.crtime == a.crtime),
{
    match read_back {
        Some(a) => Ok(stored_attr(&a)),
        None => Err(EIO),
    }
}

/// Answers `read`, given the bytes ext4 read (`None` if it refused): the
/// bytes unchanged, or "no such entry".
pub fn read_reply(data: Option<Vec<u8>>) -> (r: Result<Vec<u8>, i32>)
    ensures
        match data {
            Some(d) => r matches Ok(v) && v@ == d@,
            None => r == Err::<Vec<u8>, i32>(ENOENT),
        },
{
    match data {
        Some(d) => Ok(d),
        None => Err(ENOENT),
    }
}

/// Answers `readdir` from `offset`, given the entries ext4 listed for the
/// request (`None` if it refused): the listing of those entries from
/// `offset` on, or "no such entry".
///
/// The offset is applied to the entries as handed in, and each listed
/// entry's next offset is its place among them plus one; ext4's own list
/// for a request at `offset` already starts at that offset, so a request
/// past the start passes over `offset` entries twice.
pub fn readdir_reply(entries: Option<Vec<DirEntryInfo>>, offset: i64) -> (r: Result<
    Vec<DirListing>,
    i32,
>)
    ensures
        match entries {
            Some(e) => r matches Ok(l) && l@.len() == spec_listing(entry_views(e@), offset).len()
                && forall|k: int|
                0 <= k < l@.len() ==> #[trigger] l@[k]@ == spec_listing(entry_views(e@), offset)[k],
            None => r matches Err(code) && code == ENOENT,
        },
{
    match entries {
        Some(e) => Ok(readdir_listing(&e, offset)),
        None => Err(ENOENT),
    }
}

/// The byte count FUSE is told for a write of `written` bytes: its low 32
/// bits.
pub open spec fn spec_written_count(written: usize) -> u32 {
    (written as int % 0x1_0000_0000) as u32
}

/// Answers `write`, given how many bytes ext4 wrote (`None` if it
/// refused): that count in 32 bits, or "no such entry".
pub fn write_reply(written: Option<usize>) -> (r: Result<u32, i32>)
    ensures
        match written {
            Some(n) => r == Ok::<u32, i32>(spec_written_count(n)),
            None => r == Err::<u32, i32>(ENOENT),
        },
        written matches Some(n) ==> (n <= u32::MAX ==> r == Ok::<u32, i32>(n as u32)),
{
    match written {
        Some(n) => {
            let wide: u64 = n as u64;
            assert((wide as u32) == wide % 0x1_0000_0000) by (bit_vector);
            Ok(wide as u32)
        },
        None => Err(ENOENT),
    }
}

/// Answers `unlink`, given whether ext4 removed the file.
pub fn unlink_reply(removed: bool) -> (r: Result<(), i32>)
    ensures
        removed ==> r == Ok::<(), i32>(()),
        !removed ==> r == Err::<(), i32>(ENOENT),
{
    if removed { Ok(()) } else { Err(ENOENT) }
}

/// Answers `rmdir`, given whether ext4 removed the directory.
pub fn rmdir_reply(removed: bool) -> (r: Result<(), i32>)
    ensures
        removed ==> r == Ok::<(), i32>(()),
        !removed ==> r == Err::<(), i32>(ENOENT),
{
    if removed { Ok(()) } else { Err(ENOENT) }
}

/// Answers `mknod` for a node of `mode` from the requester `uid`/`gid` with
/// device `rdev`, given the inode ext4 created (`None` if it refused): the
/// new node's attributes, of the kind `mode` asks for, or "no such entry".
pub fn mknod_reply(
    created: Option<CreatedInode>,
    mode: u32,
    uid: u32,
    gid: u32,
    rdev: u32,
) -> (r: Result<FuseAttr, i32>)
    ensures
        match created {
            Some(c) => r == Ok::<FuseAttr, i32>(spec_new_node_attr(c, mode, uid, gid, rdev)),
            None => r == Err::<FuseAttr, i32>(ENOENT),
        },
        created matches Some(c) ==> (r matches Ok(x) && x.ino == c.inode_num && x.perm == c.perm
            && x.uid == uid && x.gid == gid && x.rdev == rdev),
{
    match created {
        Some(c) => Ok(new_node_attr(&c, mode, uid, gid, rdev)),
        None => Err(ENOENT),
    }
}

/// Answers `mkdir` from the requester `uid`/`gid`, given the directory
/// inode ext4 created.
pub fn mkdir_reply(created: CreatedInode, uid: u32, gid: u32) -> (r: FuseAttr)
    ensures
        r == spec_new_dir_attr(created, uid, gid),
        r.ino == created.inode_num && r.uid == uid && r.gid == gid,
{
    new_dir_attr(&created, uid, gid)
}

/// FUSE is told exactly the number of bytes ext4 wrote whenever that number
/// fits in 32 bits; a larger count is cut to its low 32 bits.
pub proof fn law_written_count_is_the_count_written(n: usize)
    ensures
        n <= u32::MAX ==> spec_written_count(n) == n,
        spec_written_count(n) as int == n as int % 0x1_0000_0000,
        spec_written_count(n) <= n,
{
}

/// `lookup` and `getattr` answer with the found inode's own number, size,
/// blocks, permissions, links, owner and group, and "no such entry" when
/// nothing was found.
pub proof fn law_attr_reply_reports_the_inode(found: Option<InodeAttr>)
    ensures
        found matches Some(a) ==> (spec_attr_reply(found) matches Ok(x) && x.ino == a.ino
            && x.size == a.size && x.blocks == a.blocks && x.perm == a.perm && x.nlink == a.nlink
            && x.uid == a.uid && x.gid == a.gid),
        found is None ==> spec_attr_reply(found) == Err::<FuseAttr, i32>(ENOENT),
{
}

} // verus!
