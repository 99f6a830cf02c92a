//! Records that the operating system fills in.

use vstd::prelude::*;

verus! {

/// A point in time: whole seconds, and nanoseconds within the second.
#[allow(non_camel_case_types)]
#[derive(Default, Copy, Clone, Debug)]
pub struct timespec {
    pub tv_sec: i64,
    pub tv_nsec: i64,
}

/// What is known of a file: the record that the status call fills in.
#[allow(non_camel_case_types)]
#[derive(Default, Copy, Clone, Debug)]
pub struct stat {
    pub st_dev: u64,
    pub st_ino: u64,
    pub st_nlink: u64,
    pub st_mode: u32,
    pub st_uid: u32,
    pub st_gid: u32,
    pub st_rdev: u64,
    pub st_size: i64,
    pub st_blksize: i64,
    pub st_blocks: i64,
    pub st_atim: timespec,
    pub st_mtim: timespec,
    pub st_ctim: timespec,
}

/// Mask of the bits of a file's mode that hold its type.
pub const S_IFMT: u32 = 0o170000;

/// File type of a socket.
pub const S_IFSOCK: u32 = 0o140000;

/// File type of a symbolic link.
pub const S_IFLNK: u32 = 0o120000;

/// File type of a regular file.
pub const S_IFREG: u32 = 0o100000;

/// File type of a block device.
pub const S_IFBLK: u32 = 0o060000;

/// File type of a directory.
pub const S_IFDIR: u32 = 0o040000;

/// File type of a character device.
pub const S_IFCHR: u32 = 0o020000;

/// File type of a FIFO.
pub const S_IFIFO: u32 = 0o010000;

impl stat {
    /// Whether the mode names a character device.
    pub open spec fn names_char_device(self) -> bool {
        self.st_mode & S_IFMT == S_IFCHR
    }

    /// Whether the file is a character device.
    pub fn is_char_device(&self) -> (r: bool)
        ensures
            r == self.names_char_device(),
    {
        self.st_mode & S_IFMT == S_IFCHR
    }
}

} // verus!
