//! Inode numbers: FUSE calls the root 1, ext4 calls it 2.

use vstd::prelude::*;
use crate::consts::{EXT4_ROOT_INO, FUSE_ROOT_INO};

verus! {

/// The ext4 inode number that FUSE inode number `ino` stands for.
pub open spec fn spec_fuse_ino_to_ext4(ino: u64) -> u64 {
    if ino == FUSE_ROOT_INO { EXT4_ROOT_INO } else { ino }
}

/// Translates an inode number from a FUSE request into the ext4 inode
/// number it names: the FUSE root (1) is ext4's root (2); every other
/// number passes unchanged.
pub fn fuse_ino_to_ext4(ino: u64) -> (r: u64)
    ensures
        r == spec_fuse_ino_to_ext4(ino),
        ino == FUSE_ROOT_INO ==> r == EXT4_ROOT_INO,
        ino != FUSE_ROOT_INO ==> r == ino,
{
    match ino {
        1 => 2,
        _ => ino,
    }
}

} // verus!
