//! `setattr`: which attributes are handed to ext4.

use vstd::prelude::*;
use crate::inode::{fuse_ino_to_ext4, spec_fuse_ino_to_ext4};
use crate::time::{
    spec_system_time_to_secs, spec_time_or_now_to_secs, system_time_to_secs, time_or_now_to_secs,
    TimeOrNow,
};

verus! {

/// The arguments of one ext4 `setattr` call: the ext4 inode, and each
/// attribute to change (`None` leaves it as it is). Times are 32-bit
/// timestamps.
#[derive(Clone, Copy, Debug, PartialEq, Eq, Structural)]
pub struct SetAttrRequest {
    pub ino: u64,
    pub mode: Option<u32>,
    pub uid: Option<u32>,
    pub gid: Option<u32>,
    pub size: Option<u64>,
    pub atime: Option<u32>,
    pub mtime: Option<u32>,
    pub ctime: Option<u32>,
    pub fh: Option<u64>,
    pub crtime: Option<u32>,
    pub chgtime: Option<u32>,
    pub bkuptime: Option<u32>,
    pub flags: Option<u32>,
}

/// A time given as `TimeOrNow`, resolved against `now`.
pub open spec fn spec_resolve(t: Option<TimeOrNow>, now: u32) -> Option<u32> {
    match t {
        Some(t) => Some(spec_time_or_now_to_secs(t, now)),
        None => None,
    }
}

/// A time given as a moment, converted to its timestamp.
pub open spec fn spec_stamp(t: Option<Option<u64>>) -> Option<u32> {
    match t {
        Some(since_epoch) => Some(spec_system_time_to_secs(since_epoch)),
        None => None,
    }
}

/// The ext4 call that a FUSE `setattr` turns into, when the clock reads
/// `now` (seconds after the epoch, `None` before it).
pub open spec fn spec_setattr_request(
    inode: u64,
    mode: Option<u32>,
    uid: Option<u32>,
    gid: Option<u32>,
    size: Option<u64>,
    atime: Option<TimeOrNow>,
    mtime: Option<TimeOrNow>,
    ctime: Option<Option<u64>>,
    fh: Option<u64>,
    crtime: Option<Option<u64>>,
    chgtime: Option<Option<u64>>,
    bkuptime: Option<Option<u64>>,
    flags: Option<u32>,
    now: Option<u64>,
) -> SetAttrRequest {
    let now_secs: u32 = spec_system_time_to_secs(now);
    SetAttrRequest {
        ino: spec_fuse_ino_to_ext4(inode),
        mode,
        uid,
        gid,
        size,
        atime: spec_resolve(atime, now_secs),
        mtime: spec_resolve(mtime, now_secs),
        ctime: spec_stamp(ctime),
        fh,
        crtime: spec_stamp(crtime),
        chgtime: spec_stamp(chgtime),
        bkuptime: spec_stamp(bkuptime),
        flags,
    }
}

fn resolve(t: Option<TimeOrNow>, now: u32) -> (r: Option<u32>)
    ensures
        r == spec_resolve(t, now),
{
    match t {
        Some(t) => Some(time_or_now_to_secs(t, now)),
        None => None,
    }
}

fn stamp(t: Option<Option<u64>>) -> (r: Option<u32>)
    ensures
        r == spec_stamp(t),
{
    match t {
        Some(since_epoch) => Some(system_time_to_secs(since_epoch)),
        None => None,
    }
}

/// Turns a FUSE `setattr` into the ext4 call to make.
///
/// The inode is translated (the FUSE root is ext4's root); mode, owner,
/// size, handle and flags pass unchanged; every time is converted to a
/// 32-bit timestamp, a "now" to the timestamp of `now`, the moment the
/// request is served (seconds after the epoch, `None` before it).
pub fn setattr_request(
    inode: u64,
    mode: Option<u32>,
    uid: Option<u32>,
    gid: Option<u32>,
    size: Option<u64>,
    atime: Option<TimeOrNow>,
    mtime: Option<TimeOrNow>,
    ctime: Option<Option<u64>>,
    fh: Option<u64>,
    crtime: Option<Option<u64>>,
    chgtime: Option<Option<u64>>,
    bkuptime: Option<Option<u64>>,
    flags: Option<u32>,
    now: Option<u64>,
) -> (r: SetAttrRequest)
    ensures
        r == spec_setattr_request(
            inode, mode, uid, gid, size, atime, mtime, ctime, fh, crtime, chgtime, bkuptime,
            flags, now,
        ),
        r.ino == (if inode == 1 { 2 } else { inode }),
        r.mode == mode && r.uid == uid && r.gid == gid && r.size == size,
        r.fh == fh && r.flags == flags,
        atime is None <==> r.atime is None,
        mtime is None <==> r.mtime is None,
        atime matches Some(TimeOrNow::SpecificTime(Some(secs))) ==> (secs <= u32::MAX
            ==> r.atime == Some(secs as u32)),
        mtime matches Some(TimeOrNow::SpecificTime(Some(secs))) ==> (secs <= u32::MAX
            ==> r.mtime == Some(secs as u32)),
        atime matches Some(TimeOrNow::Now) ==> (now matches Some(secs) ==> (secs <= u32::MAX
            ==> r.atime == Some(secs as u32))),
        mtime matches Some(TimeOrNow::Now) ==> (now matches Some(secs) ==> (secs <= u32::MAX
            ==> r.mtime == Some(secs as u32))),
{
    let inode: u64 = fuse_ino_to_ext4(inode);
    let now_secs: u32 = system_time_to_secs(now);
    let atime_secs = resolve(atime, now_secs);
    let mtime_secs = resolve(mtime, now_secs);
    let ctime_secs = stamp(ctime);
    let crtime_secs = stamp(crtime);
    let chgtime_secs = stamp(chgtime);
    let bkuptime_secs = stamp(bkuptime);
    SetAttrRequest {
        ino: inode,
        mode,
        uid,
        gid,
        size,
        atime: atime_secs,
        mtime: mtime_secs,
        ctime: ctime_secs,
        fh,
        crtime: crtime_secs,
        chgtime: chgtime_secs,
        bkuptime: bkuptime_secs,
        flags,
    }
}

/// One request is served at one moment: when both the access and the
/// modification time are "now", they are stamped with the same timestamp,
/// and that is the timestamp a given moment equal to the present gets.
pub proof fn law_now_is_one_moment(
    inode: u64,
    mode: Option<u32>,
    uid: Option<u32>,
    gid: Option<u32>,
    size: Option<u64>,
    ctime: Option<Option<u64>>,
    fh: Option<u64>,
    crtime: Option<Option<u64>>,
    chgtime: Option<Option<u64>>,
    bkuptime: Option<Option<u64>>,
    flags: Option<u32>,
    now: Option<u64>,
)
    ensures
        ({
            let r = spec_setattr_request(
                inode, mode, uid, gid, size, Some(TimeOrNow::Now), Some(TimeOrNow::Now), ctime,
                fh, crtime, chgtime, bkuptime, flags, now,
            );
            &&& r.atime == r.mtime
            &&& r.atime == Some(spec_system_time_to_secs(now))
        }),
        spec_setattr_request(
            inode, mode, uid, gid, size, Some(TimeOrNow::Now), None, ctime, fh, crtime, chgtime,
            bkuptime, flags, now,
        ) == spec_setattr_request(
            inode, mode, uid, gid, size, Some(TimeOrNow::SpecificTime(now)), None, ctime, fh,
            crtime, chgtime, bkuptime, flags, now,
        ),
{
}

/// A given access or modification time is stamped as given, whatever the
/// clock reads: its seconds when they fit in 32 bits, the epoch for a moment
/// before it; only "now" takes the present moment. A moment given for the
/// change, creation, status-change or backup time is stamped the same way,
/// and what the request leaves out stays out.
pub proof fn law_given_times_are_kept(
    inode: u64,
    mode: Option<u32>,
    uid: Option<u32>,
    gid: Option<u32>,
    size: Option<u64>,
    atime: Option<TimeOrNow>,
    mtime: Option<TimeOrNow>,
    ctime: Option<Option<u64>>,
    fh: Option<u64>,
    crtime: Option<Option<u64>>,
    chgtime: Option<Option<u64>>,
    bkuptime: Option<Option<u64>>,
    flags: Option<u32>,
    now: Option<u64>,
    other_now: Option<u64>,
)
    ensures
        ({
            let r = spec_setattr_request(
                inode, mode, uid, gid, size, atime, mtime, ctime, fh, crtime, chgtime, bkuptime,
                flags, now,
            );
            let r2 = spec_setattr_request(
                inode, mode, uid, gid, size, atime, mtime, ctime, fh, crtime, chgtime, bkuptime,
                flags, other_now,
            );
            &&& atime matches Some(TimeOrNow::SpecificTime(_)) ==> r.atime == r2.atime
            &&& mtime matches Some(TimeOrNow::SpecificTime(_)) ==> r.mtime == r2.mtime
            &&& atime matches Some(TimeOrNow::SpecificTime(Some(secs))) ==> (secs <= u32::MAX
                ==> r.atime == Some(secs as u32))
            &&& mtime matches Some(TimeOrNow::SpecificTime(Some(secs))) ==> (secs <= u32::MAX
                ==> r.mtime == Some(secs as u32))
            &&& atime == Some(TimeOrNow::SpecificTime(None)) ==> r.atime == Some(0u32)
            &&& mtime == Some(TimeOrNow::SpecificTime(None)) ==> r.mtime == Some(0u32)
            &&& atime is None ==> r.atime is None
            &&& mtime is None ==> r.mtime is None
            &&& ctime matches Some(Some(secs)) ==> (secs <= u32::MAX ==> r.ctime == Some(
                secs as u32,
            ))
            &&& crtime matches Some(Some(secs)) ==> (secs <= u32::MAX ==> r.crtime == Some(
                secs as u32,
            ))
            &&& chgtime matches Some(Some(secs)) ==> (secs <= u32::MAX ==> r.chgtime == Some(
                secs as u32,
            ))
            &&& bkuptime matches Some(Some(secs)) ==> (secs <= u32::MAX ==> r.bkuptime == Some(
                secs as u32,
            ))
            &&& ctime is None ==> r.ctime is None
            &&& crtime is None ==> r.crtime is None
            &&& chgtime is None ==> r.chgtime is None
            &&& bkuptime is None ==> r.bkuptime is None
            &&& r.ino == (if inode == 1 { 2 } else { inode })
            &&& r.mode == mode && r.uid == uid && r.gid == gid && r.size == size
            &&& r.fh == fh && r.flags == flags
        }),
{
}

/// "Now" takes the present moment: its seconds when they fit in 32 bits.
pub proof fn law_now_is_the_present(
    inode: u64,
    atime: Option<TimeOrNow>,
    mtime: Option<TimeOrNow>,
    secs: u64,
)
    requires
        secs <= u32::MAX,
    ensures
        ({
            let r = spec_setattr_request(
                inode, None, None, None, None, atime, mtime, None, None, None, None, None, None,
                Some(secs),
            );
            &&& atime == Some(TimeOrNow::Now) ==> r.atime == Some(secs as u32)
            &&& mtime == Some(TimeOrNow::Now) ==> r.mtime == Some(secs as u32)
        }),
{
}

} // verus!
