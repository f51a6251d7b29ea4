//! The request logic of a FUSE file system served from an ext4 image.
//!
//! The kernel speaks FUSE; the image is read and written through `ext4_rs`.
//! This library holds the part in between: how FUSE inode numbers map onto
//! ext4 inode numbers, which ext4 arguments a request turns into, and which
//! FUSE answer an ext4 outcome turns into. The mounting, the disk and the
//! replies themselves live in the program around it.

use vstd::prelude::*;

pub mod consts;
pub mod inode;
pub mod attr;
pub mod time;
pub mod setattr;
pub mod dir;
pub mod reply;

verus! {

} // verus!
