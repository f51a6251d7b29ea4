# ext4_fuse

The request logic of a FUSE file system served from an ext4 image, verified
with Verus.

- `src/` is the verified library: inode translation (`inode`), attributes
  and kinds (`attr`), timestamps (`time`), the arguments of an ext4
  `setattr` (`setattr`), directory listings (`dir`), and the answer each
  FUSE request gets from what ext4 did (`reply`). Error numbers and mode bits
  are in `consts`.
- `app/main.rs` is the program: it opens `ex4.img` as the block device of
  `ext4_rs`, mounts it with `fuser`, and for each request calls ext4 and the
  library, then sends the answer.
- `tests/` runs the library on concrete values.
