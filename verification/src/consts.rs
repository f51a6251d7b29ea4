//! Error numbers and mode bits as the kernel defines them.

use vstd::prelude::*;

verus! {

pub const EPERM: i32 = 1;
pub const ENOENT: i32 = 2;
pub const ESRCH: i32 = 3;
pub const EINTR: i32 = 4;
pub const EIO: i32 = 5;
pub const ENXIO: i32 = 6;
pub const E2BIG: i32 = 7;
pub const ENOEXEC: i32 = 8;
pub const EBADF: i32 = 9;
pub const ECHILD: i32 = 10;
pub const EAGAIN: i32 = 11;
pub const ENOMEM: i32 = 12;
pub const EACCES: i32 = 13;
pub const EFAULT: i32 = 14;
pub const ENOTBLK: i32 = 15;
pub const EBUSY: i32 = 16;
pub const EEXIST: i32 = 17;
pub const EXDEV: i32 = 18;
pub const ENODEV: i32 = 19;
pub const ENOTDIR: i32 = 20;
pub const EISDIR: i32 = 21;
pub const EINVAL: i32 = 22;
pub const ENFILE: i32 = 23;
pub const EMFILE: i32 = 24;
pub const ENOTTY: i32 = 25;
pub const ETXTBSY: i32 = 26;
pub const EFBIG: i32 = 27;
pub const ENOSPC: i32 = 28;
pub const ESPIPE: i32 = 29;
pub const EROFS: i32 = 30;
pub const EMLINK: i32 = 31;
pub const EPIPE: i32 = 32;
pub const EDOM: i32 = 33;
pub const ERANGE: i32 = 34;
pub const EWOULDBLOCK: i32 = EAGAIN;

pub const S_IFIFO: u32 = 4096;
pub const S_IFCHR: u32 = 8192;
pub const S_IFBLK: u32 = 24576;
pub const S_IFDIR: u32 = 16384;
pub const S_IFREG: u32 = 32768;
pub const S_IFLNK: u32 = 40960;
pub const S_IFSOCK: u32 = 49152;
pub const S_IFMT: u32 = 61440;
pub const S_IRWXU: u32 = 448;
pub const S_IXUSR: u32 = 64;
pub const S_IWUSR: u32 = 128;
pub const S_IRUSR: u32 = 256;
pub const S_IRWXG: u32 = 56;
pub const S_IXGRP: u32 = 8;
pub const S_IWGRP: u32 = 16;
pub const S_IRGRP: u32 = 32;
pub const S_IRWXO: u32 = 7;
pub const S_IXOTH: u32 = 1;
pub const S_IWOTH: u32 = 2;
pub const S_IROTH: u32 = 4;
pub const F_OK: i32 = 0;
pub const R_OK: i32 = 4;
pub const W_OK: i32 = 2;
pub const X_OK: i32 = 1;
pub const STDIN_FILENO: i32 = 0;
pub const STDOUT_FILENO: i32 = 1;
pub const STDERR_FILENO: i32 = 2;
pub const SIGHUP: i32 = 1;
pub const SIGINT: i32 = 2;
pub const SIGQUIT: i32 = 3;
pub const SIGILL: i32 = 4;
pub const SIGABRT: i32 = 6;
pub const SIGFPE: i32 = 8;
pub const SIGKILL: i32 = 9;
pub const SIGSEGV: i32 = 11;
pub const SIGPIPE: i32 = 13;
pub const SIGALRM: i32 = 14;
pub const SIGTERM: i32 = 15;

/// Size of an ext4 block on the images this file system serves, in bytes.
pub const BLOCK_SIZE: u32 = 4096;

/// The inode number that FUSE gives the root of a mount.
pub const FUSE_ROOT_INO: u64 = 1;

/// The inode number of the root directory in ext4.
pub const EXT4_ROOT_INO: u64 = 2;

/// The file-type bits that ext4 keeps in an inode's mode for a directory.
pub const EXT4_KIND_DIR: u16 = 0x4000;

/// The file-type bits that ext4 keeps in an inode's mode for a regular file.
pub const EXT4_KIND_REG: u16 = 0x8000;

/// The type byte of a directory entry that names a regular file.
pub const DE_TYPE_REG_FILE: u8 = 1;

/// The type byte of a directory entry that names a directory.
pub const DE_TYPE_DIR: u8 = 2;

} // verus!
