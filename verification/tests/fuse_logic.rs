use ext4_fuse::attr::{
    dir_entry_kind, entry_attr, file_kind, new_dir_attr, new_node_attr, node_kind, stored_attr,
    CreatedInode, FileKind, FuseAttr, InodeAttr,
};
use ext4_fuse::consts::{
    BLOCK_SIZE, EIO, ENOENT, S_IFBLK, S_IFCHR, S_IFDIR, S_IFIFO, S_IFLNK, S_IFREG, S_IFSOCK,
};
use ext4_fuse::dir::{readdir_listing, DirEntryInfo};
use ext4_fuse::inode::fuse_ino_to_ext4;
use ext4_fuse::reply::{
    getattr_reply, lookup_reply, mkdir_reply, mknod_reply, read_reply, readdir_reply,
    rmdir_reply, setattr_reply, unlink_reply, write_reply,
};
use ext4_fuse::setattr::{setattr_request, SetAttrRequest};
use ext4_fuse::time::{system_time_to_secs, time_or_now_to_secs, TimeOrNow};

fn sample_inode() -> InodeAttr {
    InodeAttr {
        ino: 12,
        size: 5000,
        blocks: 16,
        atime: 1_700_000_001,
        mtime: 1_700_000_002,
        ctime: 1_700_000_003,
        crtime: 1_700_000_004,
        kind: 0x8000,
        perm: 0o644,
        nlink: 1,
        uid: 1000,
        gid: 100,
    }
}

fn entries() -> Vec<DirEntryInfo> {
    vec![
        DirEntryInfo { inode: 2, de_type: 2, name: ".".to_string() },
        DirEntryInfo { inode: 2, de_type: 2, name: "..".to_string() },
        DirEntryInfo { inode: 11, de_type: 2, name: "lost+found".to_string() },
        DirEntryInfo { inode: 12, de_type: 1, name: "a.txt".to_string() },
        DirEntryInfo { inode: 13, de_type: 7, name: "link".to_string() },
    ]
}

#[test]
fn root_inode_is_renumbered() {
    assert_eq!(fuse_ino_to_ext4(1), 2);
    assert_eq!(fuse_ino_to_ext4(2), 2);
    assert_eq!(fuse_ino_to_ext4(0), 0);
    assert_eq!(fuse_ino_to_ext4(12), 12);
    assert_eq!(fuse_ino_to_ext4(u64::MAX), u64::MAX);
}

#[test]
fn inode_kinds() {
    assert_eq!(file_kind(0x8000), FileKind::RegularFile);
    assert_eq!(file_kind(0x4000), FileKind::Directory);
    assert_eq!(file_kind(0xA000), FileKind::RegularFile);
    assert_eq!(file_kind(0xC000), FileKind::RegularFile);
    assert_eq!(file_kind(0x1000), FileKind::RegularFile);
    assert_eq!(file_kind(0), FileKind::RegularFile);
}

#[test]
fn dir_entry_kinds() {
    assert_eq!(dir_entry_kind(1), FileKind::RegularFile);
    assert_eq!(dir_entry_kind(2), FileKind::Directory);
    assert_eq!(dir_entry_kind(0), FileKind::RegularFile);
    assert_eq!(dir_entry_kind(7), FileKind::RegularFile);
    assert_eq!(dir_entry_kind(255), FileKind::RegularFile);
}

#[test]
fn kinds_agree_between_inode_and_entry() {
    assert_eq!(file_kind(0x4000), dir_entry_kind(2));
    assert_eq!(file_kind(0x8000), dir_entry_kind(1));
}

#[test]
fn entry_attr_uses_epoch_times() {
    let a = entry_attr(&sample_inode());
    let want = FuseAttr {
        ino: 12,
        size: 5000,
        blocks: 16,
        atime: 0,
        mtime: 0,
        ctime: 0,
        crtime: 0,
        kind: FileKind::RegularFile,
        perm: 0o644,
        nlink: 1,
        uid: 1000,
        gid: 100,
        rdev: 0,
        flags: 0,
        blksize: 4096,
    };
    assert_eq!(a, want);
    assert_eq!(BLOCK_SIZE, 4096);
}

#[test]
fn stored_attr_keeps_inode_times() {
    let i = sample_inode();
    let s = stored_attr(&i);
    assert_eq!(s.atime, 1_700_000_001);
    assert_eq!(s.mtime, 1_700_000_002);
    assert_eq!(s.ctime, 1_700_000_003);
    assert_eq!(s.crtime, 1_700_000_004);
    let e = entry_attr(&i);
    assert_eq!(FuseAttr { atime: s.atime, mtime: s.mtime, ctime: s.ctime, crtime: s.crtime, ..e }, s);
}

#[test]
fn directory_attr_from_inode() {
    let mut i = sample_inode();
    i.kind = 0x4000;
    i.perm = 0o755;
    i.nlink = 3;
    let a = entry_attr(&i);
    assert_eq!(a.kind, FileKind::Directory);
    assert_eq!(a.perm, 0o755);
    assert_eq!(a.nlink, 3);
}

#[test]
fn lookup_found_and_missing() {
    let i = sample_inode();
    assert_eq!(lookup_reply(Some(i)), Ok(entry_attr(&i)));
    assert_eq!(lookup_reply(None), Err(ENOENT));
    assert_eq!(ENOENT, 2);
}

#[test]
fn lookup_and_getattr_agree() {
    let i = sample_inode();
    assert_eq!(lookup_reply(Some(i)), getattr_reply(Some(i)));
    assert_eq!(getattr_reply(None), Err(2));
}

#[test]
fn setattr_reply_read_back() {
    let i = sample_inode();
    let r = setattr_reply(Some(i)).unwrap();
    assert_eq!(r.atime, 1_700_000_001);
    assert_eq!(r.ino, 12);
    assert_eq!(r.blksize, 4096);
    assert_eq!(setattr_reply(None), Err(EIO));
    assert_eq!(EIO, 5);
}

#[test]
fn system_time_seconds() {
    assert_eq!(system_time_to_secs(None), 0);
    assert_eq!(system_time_to_secs(Some(0)), 0);
    assert_eq!(system_time_to_secs(Some(1_700_000_000)), 1_700_000_000);
    assert_eq!(system_time_to_secs(Some(u32::MAX as u64)), u32::MAX);
    assert_eq!(system_time_to_secs(Some(1u64 << 32)), 0);
    assert_eq!(system_time_to_secs(Some((1u64 << 32) + 7)), 7);
}

#[test]
fn timestamp_round_trip() {
    for t in [0u32, 1, 86_400, 1_700_000_000, u32::MAX] {
        assert_eq!(system_time_to_secs(Some(t as u64)), t);
    }
}

#[test]
fn time_or_now() {
    assert_eq!(time_or_now_to_secs(TimeOrNow::Now, 42), 42);
    assert_eq!(time_or_now_to_secs(TimeOrNow::SpecificTime(Some(9)), 42), 9);
    assert_eq!(time_or_now_to_secs(TimeOrNow::SpecificTime(None), 42), 0);
}

#[test]
fn setattr_request_translates() {
    let r = setattr_request(
        1,
        Some(0o100644),
        Some(1000),
        None,
        Some(12),
        Some(TimeOrNow::Now),
        Some(TimeOrNow::SpecificTime(Some(5))),
        Some(Some(6)),
        Some(3),
        None,
        Some(None),
        Some(Some((1u64 << 32) + 1)),
        Some(0),
        Some(1_700_000_000),
    );
    let want = SetAttrRequest {
        ino: 2,
        mode: Some(0o100644),
        uid: Some(1000),
        gid: None,
        size: Some(12),
        atime: Some(1_700_000_000),
        mtime: Some(5),
        ctime: Some(6),
        fh: Some(3),
        crtime: None,
        chgtime: Some(0),
        bkuptime: Some(1),
        flags: Some(0),
    };
    assert_eq!(r, want);
}

#[test]
fn setattr_now_is_one_moment() {
    let r = setattr_request(
        7, None, None, None, None, Some(TimeOrNow::Now), Some(TimeOrNow::Now), None, None, None,
        None, None, None, Some(123),
    );
    assert_eq!(r.atime, Some(123));
    assert_eq!(r.mtime, Some(123));
    assert_eq!(r.ino, 7);
    let before_epoch = setattr_request(
        7, None, None, None, None, Some(TimeOrNow::Now), None, None, None, None, None, None, None,
        None,
    );
    assert_eq!(before_epoch.atime, Some(0));
}

#[test]
fn listing_from_start() {
    let l = readdir_listing(&entries(), 0);
    assert_eq!(l.len(), 5);
    let offsets: Vec<i64> = l.iter().map(|e| e.offset).collect();
    assert_eq!(offsets, vec![1, 2, 3, 4, 5]);
    let names: Vec<&str> = l.iter().map(|e| e.name.as_str()).collect();
    assert_eq!(names, vec![".", "..", "lost+found", "a.txt", "link"]);
    assert_eq!(l[2].ino, 11);
    assert_eq!(l[2].kind, FileKind::Directory);
    assert_eq!(l[3].kind, FileKind::RegularFile);
    assert_eq!(l[4].kind, FileKind::RegularFile);
}

#[test]
fn listing_resumes_at_offset() {
    let all = readdir_listing(&entries(), 0);
    for k in 0..=5i64 {
        let part = readdir_listing(&entries(), k);
        assert_eq!(part.len(), 5 - k as usize);
        for (j, e) in part.iter().enumerate() {
            let f = &all[k as usize + j];
            assert_eq!((e.ino, e.offset, e.kind, e.name.as_str()), (f.ino, f.offset, f.kind, f.name.as_str()));
        }
    }
}

#[test]
fn listing_out_of_range_offsets() {
    assert!(readdir_listing(&entries(), 6).is_empty());
    assert!(readdir_listing(&entries(), i64::MAX).is_empty());
    assert!(readdir_listing(&entries(), -1).is_empty());
    assert!(readdir_listing(&Vec::new(), 0).is_empty());
}

#[test]
fn readdir_replies() {
    let r = readdir_reply(Some(entries()), 3).unwrap();
    assert_eq!(r.len(), 2);
    assert_eq!(r[0].name, "a.txt");
    assert_eq!(r[0].offset, 4);
    assert_eq!(r[1].offset, 5);
    assert_eq!(readdir_reply(None, 0).unwrap_err(), ENOENT);
}

#[test]
fn read_replies() {
    assert_eq!(read_reply(Some(vec![1, 2, 3])), Ok(vec![1, 2, 3]));
    assert_eq!(read_reply(Some(vec![])), Ok(vec![]));
    assert_eq!(read_reply(None), Err(ENOENT));
}

#[test]
fn write_replies() {
    assert_eq!(write_reply(Some(0)), Ok(0));
    assert_eq!(write_reply(Some(4096)), Ok(4096));
    assert_eq!(write_reply(Some(u32::MAX as usize)), Ok(u32::MAX));
    if usize::BITS == 64 {
        let big: u64 = (1u64 << 32) + 5;
        assert_eq!(write_reply(Some(big as usize)), Ok(5));
    }
    assert_eq!(write_reply(None), Err(ENOENT));
}

#[test]
fn unlink_and_rmdir_replies() {
    assert_eq!(unlink_reply(true), Ok(()));
    assert_eq!(unlink_reply(false), Err(ENOENT));
    assert_eq!(rmdir_reply(true), Ok(()));
    assert_eq!(rmdir_reply(false), Err(ENOENT));
}

#[test]
fn mknod_replies() {
    let c = CreatedInode { inode_num: 14, perm: 0o644 };
    let mode = S_IFREG | 0o644;
    let a = mknod_reply(Some(c), mode, 1000, 100, 7).unwrap();
    assert_eq!(a, new_node_attr(&c, mode, 1000, 100, 7));
    assert_eq!(a.ino, 14);
    assert_eq!(a.kind, FileKind::RegularFile);
    assert_eq!(a.perm, 0o644);
    assert_eq!(a.nlink, 1);
    assert_eq!(a.size, 0);
    assert_eq!(a.uid, 1000);
    assert_eq!(a.gid, 100);
    assert_eq!(a.rdev, 7);
    assert_eq!(a.blksize, 4096);
    assert_eq!(mknod_reply(None, mode, 1000, 100, 7), Err(ENOENT));
}

#[test]
fn mknod_reports_the_kind_asked_for() {
    let c = CreatedInode { inode_num: 20, perm: 0o600 };
    let kind = |mode: u32| mknod_reply(Some(c), mode, 0, 0, 0).unwrap().kind;
    assert_eq!(kind(S_IFREG | 0o600), FileKind::RegularFile);
    assert_eq!(kind(S_IFCHR | 0o600), FileKind::CharDevice);
    assert_eq!(kind(S_IFBLK | 0o600), FileKind::BlockDevice);
    assert_eq!(kind(S_IFIFO | 0o600), FileKind::NamedPipe);
    assert_eq!(kind(S_IFSOCK | 0o600), FileKind::Socket);
    assert_eq!(kind(0o600), FileKind::RegularFile);
}

#[test]
fn node_kinds() {
    assert_eq!(node_kind(S_IFREG), FileKind::RegularFile);
    assert_eq!(node_kind(S_IFCHR | 0o777), FileKind::CharDevice);
    assert_eq!(node_kind(S_IFBLK), FileKind::BlockDevice);
    assert_eq!(node_kind(S_IFIFO | 0o644), FileKind::NamedPipe);
    assert_eq!(node_kind(S_IFSOCK), FileKind::Socket);
    assert_eq!(node_kind(0), FileKind::RegularFile);
    assert_eq!(node_kind(S_IFDIR), FileKind::RegularFile);
    assert_eq!(node_kind(S_IFLNK), FileKind::RegularFile);
}

#[test]
fn mkdir_replies() {
    let c = CreatedInode { inode_num: 15, perm: 0 };
    let a = mkdir_reply(c, 0, 0);
    assert_eq!(a, new_dir_attr(&c, 0, 0));
    assert_eq!(a.ino, 15);
    assert_eq!(a.kind, FileKind::Directory);
    assert_eq!(a.perm, 0o777);
    assert_eq!(a.nlink, 2);
    assert_eq!(a.rdev, 0);
    assert_eq!(a.atime, 0);
}
