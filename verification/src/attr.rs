//! File attributes: what ext4 keeps for an inode, and what FUSE is told.

use vstd::prelude::*;
use crate::consts::{
    BLOCK_SIZE, DE_TYPE_DIR, DE_TYPE_REG_FILE, EXT4_KIND_DIR, EXT4_KIND_REG, S_IFBLK, S_IFCHR,
    S_IFIFO, S_IFMT, S_IFSOCK,
};

verus! {

/// The kinds of file this file system reports to FUSE.
#[derive(Clone, Copy, Debug, PartialEq, Eq, Structural)]
pub enum FileKind {
    RegularFile,
    Directory,
    CharDevice,
    BlockDevice,
    NamedPipe,
    Socket,
}

/// The attributes of an inode as ext4 reads them from the image.
///
/// `kind` holds the file-type bits of the inode's mode (`mode & 0xF000`)
/// and `perm` its permission bits.
#[derive(Clone, Copy, Debug, PartialEq, Eq, Structural)]
pub struct InodeAttr {
    pub ino: u64,
    pub size: u64,
    pub blocks: u64,
    pub atime: u32,
    pub mtime: u32,
    pub ctime: u32,
    pub crtime: u32,
    pub kind: u16,
    pub perm: u16,
    pub nlink: u32,
    pub uid: u32,
    pub gid: u32,
}

/// What ext4 hands back for an inode it has just created.
#[derive(Clone, Copy, Debug, PartialEq, Eq, Structural)]
pub struct CreatedInode {
    pub inode_num: u32,
    /// The permission bits of the new inode's mode.
    pub perm: u16,
}

/// The attributes of a file as FUSE is told them.
///
/// Times are seconds after the Unix epoch.
#[derive(Clone, Copy, Debug, PartialEq, Eq, Structural)]
pub struct FuseAttr {
    pub ino: u64,
    pub size: u64,
    pub blocks: u64,
    pub atime: u32,
    pub mtime: u32,
    pub ctime: u32,
    pub crtime: u32,
    pub kind: FileKind,
    pub perm: u16,
    pub nlink: u32,
    pub uid: u32,
    pub gid: u32,
    pub rdev: u32,
    pub flags: u32,
    pub blksize: u32,
}

/// Directories are reported as directories; every other kind of inode
/// (regular file, link, device, fifo, socket) as a regular file.
pub open spec fn spec_file_kind(kind: u16) -> FileKind {
    if kind == EXT4_KIND_DIR { FileKind::Directory } else { FileKind::RegularFile }
}

/// The kind FUSE is told for an inode with file-type bits `kind`.
pub fn file_kind(kind: u16) -> (r: FileKind)
    ensures
        r == spec_file_kind(kind),
        kind == 0x4000 ==> r == FileKind::Directory,
        kind != 0x4000 ==> r == FileKind::RegularFile,
{
    if kind == EXT4_KIND_REG {
        FileKind::RegularFile
    } else if kind == EXT4_KIND_DIR {
        FileKind::Directory
    } else {
        FileKind::RegularFile
    }
}

/// Entries of type directory are reported as directories; every other
/// entry type as a regular file.
pub open spec fn spec_dir_entry_kind(de_type: u8) -> FileKind {
    if de_type == DE_TYPE_DIR { FileKind::Directory } else { FileKind::RegularFile }
}

/// The kind FUSE is told for a directory entry of type `de_type`.
pub fn dir_entry_kind(de_type: u8) -> (r: FileKind)
    ensures
        r == spec_dir_entry_kind(de_type),
        de_type == 2 ==> r == FileKind::Directory,
        de_type != 2 ==> r == FileKind::RegularFile,
{
    match de_type {
        DE_TYPE_REG_FILE => FileKind::RegularFile,
        DE_TYPE_DIR => FileKind::Directory,
        _ => FileKind::RegularFile,
    }
}

/// The kind of node that `mknod` creates for the file-type bits of `mode`
/// (`mode & S_IFMT`): a character device, a block device, a named pipe or a
/// socket where those bits name one; a regular file otherwise (`S_IFREG`,
/// or no type bits at all).
pub open spec fn spec_node_kind(mode: u32) -> FileKind {
    let t = mode & S_IFMT;
    if t == S_IFCHR {
        FileKind::CharDevice
    } else if t == S_IFBLK {
        FileKind::BlockDevice
    } else if t == S_IFIFO {
        FileKind::NamedPipe
    } else if t == S_IFSOCK {
        FileKind::Socket
    } else {
        FileKind::RegularFile
    }
}

/// The kind of node that `mknod` creates when asked for `mode`.
pub fn node_kind(mode: u32) -> (r: FileKind)
    ensures
        r == spec_node_kind(mode),
        mode & S_IFMT == S_IFCHR ==> r == FileKind::CharDevice,
        mode & S_IFMT == S_IFBLK ==> r == FileKind::BlockDevice,
        mode & S_IFMT == S_IFIFO ==> r == FileKind::NamedPipe,
        mode & S_IFMT == S_IFSOCK ==> r == FileKind::Socket,
        mode & S_IFMT == 0x8000 ==> r == FileKind::RegularFile,
        mode & S_IFMT == 0 ==> r == FileKind::RegularFile,
{
    let t: u32 = mode & S_IFMT;
    if t == S_IFCHR {
        FileKind::CharDevice
    } else if t == S_IFBLK {
        FileKind::BlockDevice
    } else if t == S_IFIFO {
        FileKind::NamedPipe
    } else if t == S_IFSOCK {
        FileKind::Socket
    } else {
        FileKind::RegularFile
    }
}

/// The attributes that `lookup` and `getattr` report for an inode: the
/// inode's own numbers, with every time at the epoch, no device, no flags
/// and ext4's block size.
pub open spec fn spec_entry_attr(a: InodeAttr) -> FuseAttr {
    FuseAttr {
        ino: a.ino,
        size: a.size,
        blocks: a.blocks,
        atime: 0,
        mtime: 0,
        ctime: 0,
        crtime: 0,
        kind: spec_file_kind(a.kind),
        perm: a.perm,
        nlink: a.nlink,
        uid: a.uid,
        gid: a.gid,
        rdev: 0,
        flags: 0,
        blksize: BLOCK_SIZE,
    }
}

/// The attributes that `setattr` reports once the change is stored: as
/// `spec_entry_attr`, but with the inode's own access, modification,
/// change and creation times.
pub open spec fn spec_stored_attr(a: InodeAttr) -> FuseAttr {
    FuseAttr {
        atime: a.atime,
        mtime: a.mtime,
        ctime: a.ctime,
        crtime: a.crtime,
        ..spec_entry_attr(a)
    }
}

/// The attributes that `mknod` reports for the node it created when asked
/// for `mode`: of the kind `mode` names, empty, with one link.
pub open spec fn spec_new_node_attr(
    c: CreatedInode,
    mode: u32,
    uid: u32,
    gid: u32,
    rdev: u32,
) -> FuseAttr {
    FuseAttr {
        ino: c.inode_num as u64,
        size: 0,
        blocks: 0,
        atime: 0,
        mtime: 0,
        ctime: 0,
        crtime: 0,
        kind: spec_node_kind(mode),
        perm: c.perm,
        nlink: 1,
        uid,
        gid,
        rdev,
        flags: 0,
        blksize: BLOCK_SIZE,
    }
}

/// The attributes that `mkdir` reports for the directory it created: open
/// to everyone (0o777), with two links ("." and the entry in its parent).
pub open spec fn spec_new_dir_attr(c: CreatedInode, uid: u32, gid: u32) -> FuseAttr {
    FuseAttr {
        ino: c.inode_num as u64,
        size: 0,
        blocks: 0,
        atime: 0,
        mtime: 0,
        ctime: 0,
        crtime: 0,
        kind: FileKind::Directory,
        perm: 0o777,
        nlink: 2,
        uid,
        gid,
        rdev: 0,
        flags: 0,
        blksize: BLOCK_SIZE,
    }
}

/// Builds the attributes that `lookup` and `getattr` report for `a`.
pub fn entry_attr(a: &InodeAttr) -> (r: FuseAttr)
    ensures
        r == spec_entry_attr(*a),
        r.ino == a.ino && r.size == a.size && r.blocks == a.blocks,
        r.perm == a.perm && r.nlink == a.nlink && r.uid == a.uid && r.gid == a.gid,
        r.atime == 0 && r.mtime == 0 && r.ctime == 0 && r.crtime == 0,
        (r.kind == FileKind::Directory) == (a.kind == EXT4_KIND_DIR),
{
    FuseAttr {
        ino: a.ino,
        size: a.size,
        blocks: a.blocks,
        atime: 0,
        mtime: 0,
        ctime: 0,
        crtime: 0,
        kind: file_kind(a.kind),
        perm: a.perm,
        nlink: a.nlink,
        uid: a.uid,
        gid: a.gid,
        rdev: 0,
        flags: 0,
        blksize: BLOCK_SIZE,
    }
}

/// Builds the attributes that `setattr` reports for the stored inode `a`.
pub fn stored_attr(a: &InodeAttr) -> (r: FuseAttr)
    ensures
        r == spec_stored_attr(*a),
        r.ino == a.ino && r.size == a.size && r.blocks == a.blocks,
        r.perm == a.perm && r.nlink == a.nlink && r.uid == a.uid && r.gid == a.gid,
        r.atime == a.atime && r.mtime == a.mtime && r.ctime == a.ctime && r.crtime == a.crtime,
        (r.kind == FileKind::Directory) == (a.kind == EXT4_KIND_DIR),
{
    FuseAttr {
        ino: a.ino,
        size: a.size,
        blocks: a.blocks,
        atime: a.atime,
        mtime: a.mtime,
        ctime: a.ctime,
        crtime: a.crtime,
        kind: file_kind(a.kind),
        perm: a.perm,
        nlink: a.nlink,
        uid: a.uid,
        gid: a.gid,
        rdev: 0,
        flags: 0,
        blksize: BLOCK_SIZE,
    }
}

/// Builds the attributes that `mknod` reports for the node `c`, created
/// as `mode` asked for the requester `uid`/`gid` with device number `rdev`.
pub fn new_node_attr(c: &CreatedInode, mode: u32, uid: u32, gid: u32, rdev: u32) -> (r: FuseAttr)
    ensures
        r == spec_new_node_attr(*c, mode, uid, gid, rdev),
        r.ino == c.inode_num && r.perm == c.perm,
        r.uid == uid && r.gid == gid && r.rdev == rdev,
        r.size == 0 && r.nlink == 1,
{
    FuseAttr {
        ino: c.inode_num as u64,
        size: 0,
        blocks: 0,
        atime: 0,
        mtime: 0,
        ctime: 0,
        crtime: 0,
        kind: node_kind(mode),
        perm: c.perm,
        nlink: 1,
        uid,
        gid,
        rdev,
        flags: 0,
        blksize: BLOCK_SIZE,
    }
}

/// Builds the attributes that `mkdir` reports for the directory `c`,
/// created for the requester `uid`/`gid`.
pub fn new_dir_attr(c: &CreatedInode, uid: u32, gid: u32) -> (r: FuseAttr)
    ensures
        r == spec_new_dir_attr(*c, uid, gid),
        r.ino == c.inode_num && r.uid == uid && r.gid == gid,
        r.kind == FileKind::Directory && r.perm == 0o777 && r.nlink == 2,
{
    FuseAttr {
        ino: c.inode_num as u64,
        size: 0,
        blocks: 0,
        atime: 0,
        mtime: 0,
        ctime: 0,
        crtime: 0,
        kind: FileKind::Directory,
        perm: 0o777,
        nlink: 2,
        uid,
        gid,
        rdev: 0,
        flags: 0,
        blksize: BLOCK_SIZE,
    }
}

/// A directory is reported as a directory, and a regular file as a regular
/// file, whether it is seen through its inode or through its directory entry.
pub proof fn law_kinds_agree()
    ensures
        spec_file_kind(EXT4_KIND_DIR) == spec_dir_entry_kind(DE_TYPE_DIR),
        spec_file_kind(EXT4_KIND_REG) == spec_dir_entry_kind(DE_TYPE_REG_FILE),
        spec_file_kind(EXT4_KIND_DIR) == FileKind::Directory,
        spec_file_kind(EXT4_KIND_REG) == FileKind::RegularFile,
{
}

/// For an inode whose four timestamps are all at the epoch, `setattr`
/// reports exactly what `getattr` reports.
pub proof fn law_stored_attr_agrees_at_epoch(a: InodeAttr)
    requires
        a.atime == 0,
        a.mtime == 0,
        a.ctime == 0,
        a.crtime == 0,
    ensures
        spec_stored_attr(a) == spec_entry_attr(a),
{
}

/// `lookup` and `getattr` report an inode's own number, size, blocks,
/// permissions, links, owner and group, whatever kind of inode it is; every
/// time is the epoch; and the inode is a directory to FUSE exactly when its
/// type bits say directory.
pub proof fn law_entry_attr_reports_the_inode(a: InodeAttr)
    ensures
        ({
            let r = spec_entry_attr(a);
            &&& r.ino == a.ino
            &&& r.size == a.size
            &&& r.blocks == a.blocks
            &&& r.perm == a.perm
            &&& r.nlink == a.nlink
            &&& r.uid == a.uid
            &&& r.gid == a.gid
            &&& r.atime == 0 && r.mtime == 0 && r.ctime == 0 && r.crtime == 0
            &&& (r.kind == FileKind::Directory) == (a.kind == EXT4_KIND_DIR)
            &&& r.blksize == 4096
        }),
{
}

/// `setattr` reports the stored inode's own number, size, blocks,
/// permissions, links, owner, group and four times.
pub proof fn law_stored_attr_reports_the_inode(a: InodeAttr)
    ensures
        ({
            let r = spec_stored_attr(a);
            &&& r.ino == a.ino
            &&& r.size == a.size
            &&& r.blocks == a.blocks
            &&& r.perm == a.perm
            &&& r.nlink == a.nlink
            &&& r.uid == a.uid
            &&& r.gid == a.gid
            &&& r.atime == a.atime
            &&& r.mtime == a.mtime
            &&& r.ctime == a.ctime
            &&& r.crtime == a.crtime
            &&& (r.kind == FileKind::Directory) == (a.kind == EXT4_KIND_DIR)
        }),
{
}

/// A node made by `mknod` is reported with the number and the permission
/// bits of the inode ext4 created (not the bits asked for), the requester's
/// owner and group, the device asked for, one link and no data; its kind is
/// the one the type bits of `mode` name.
pub proof fn law_new_node_reports_what_was_created(
    c: CreatedInode,
    mode: u32,
    uid: u32,
    gid: u32,
    rdev: u32,
)
    ensures
        ({
            let r = spec_new_node_attr(c, mode, uid, gid, rdev);
            &&& r.ino == c.inode_num
            &&& r.perm == c.perm
            &&& r.uid == uid
            &&& r.gid == gid
            &&& r.rdev == rdev
            &&& r.nlink == 1
            &&& r.size == 0
            &&& r.blocks == 0
            &&& (mode & S_IFMT == S_IFCHR ==> r.kind == FileKind::CharDevice)
            &&& (mode & S_IFMT == S_IFBLK ==> r.kind == FileKind::BlockDevice)
            &&& (mode & S_IFMT == S_IFIFO ==> r.kind == FileKind::NamedPipe)
            &&& (mode & S_IFMT == S_IFSOCK ==> r.kind == FileKind::Socket)
            &&& (mode & S_IFMT == 0x8000 ==> r.kind == FileKind::RegularFile)
        }),
        spec_new_node_attr(c, mode, uid, gid, rdev).perm == spec_new_node_attr(
            c,
            0,
            uid,
            gid,
            rdev,
        ).perm,
{
}

/// A directory made by `mkdir` is reported with the number of the inode ext4
/// created, the requester's uid as owner and gid as group, as a directory
/// open to everyone with two links.
pub proof fn law_new_dir_reports_the_requester(c: CreatedInode, uid: u32, gid: u32)
    ensures
        ({
            let r = spec_new_dir_attr(c, uid, gid);
            &&& r.ino == c.inode_num
            &&& r.uid == uid
            &&& r.gid == gid
            &&& r.kind == FileKind::Directory
            &&& r.perm == 0o777
            &&& r.nlink == 2
            &&& r.size == 0
        }),
{
}

} // verus!
