//! The decisions of the Node-style `fs` module: the flags a file is opened with, the
//! mode reported for its permissions, and the fields of stat and error objects.
use vstd::prelude::*;
use crate::wasi_fs::{
    Errno, Filestat, Fdflags, Oflags, Rights, FDFLAGS_APPEND, FDFLAGS_NONBLOCK, FDFLAGS_SYNC,
    OFLAGS_CREAT, OFLAGS_EXCL, OFLAGS_TRUNC, RIGHTS_FD_ADVISE, RIGHTS_FD_ALLOCATE,
    RIGHTS_FD_DATASYNC, RIGHTS_FD_FDSTAT_SET_FLAGS, RIGHTS_FD_FILESTAT_GET,
    RIGHTS_FD_FILESTAT_SET_SIZE, RIGHTS_FD_FILESTAT_SET_TIMES, RIGHTS_FD_READ, RIGHTS_FD_READDIR,
    RIGHTS_FD_SEEK, RIGHTS_FD_SYNC, RIGHTS_FD_WRITE, RIGHTS_POLL_FD_READWRITE,
};

verus! {

/// The fields of a JavaScript error raised for a failed call: its message, its short
/// code name and its number.
pub struct ErrorObject {
    pub message: &'static str,
    pub code: &'static str,
    pub errno: i32,
}

/// The error object for a WASI error number.
pub fn errno_to_js_object(e: Errno) -> (r: ErrorObject)
    ensures
        r.message == Errno::message_of(e.code()),
        r.code == Errno::name_of(e.code()),
        r.errno == e.code() as i32,
{
    let n = e.raw();
    ErrorObject { message: e.message(), code: e.name(), errno: n as i32 }
}

/// The permission bits that Node reports: read and execute for everyone, and write too
/// unless the file is read-only.
pub fn permissions_to_mode(readonly: bool) -> (r: i32)
    ensures
        r == (if readonly {
            0o555i32
        } else {
            0o777i32
        }),
{
    let p: i32 = if readonly {
        0 | 4 | 1
    } else {
        0 | 4 | 2 | 1
    };
    proof {
        if readonly {
            assert(0i32 | 4i32 | 1i32 == 5i32) by (bit_vector);
        } else {
            assert(0i32 | 4i32 | 2i32 | 1i32 == 7i32) by (bit_vector);
        }
    }
    let r = p | p << 3 | p << 6;
    assert(p == 5 ==> r == 0o555) by (bit_vector)
        requires
            r == p | p << 3 | p << 6,
    ;
    assert(p == 7 ==> r == 0o777) by (bit_vector)
        requires
            r == p | p << 3 | p << 6,
    ;
    r
}

/// What a JavaScript stat object holds, times in milliseconds.
pub struct StatObject {
    pub is_file: bool,
    pub is_directory: bool,
    pub is_symlink: bool,
    pub is_block_device: bool,
    pub is_char_device: bool,
    pub is_socket: bool,
    pub size: u64,
    pub mtime: u64,
    pub atime: u64,
    pub birthtime: u64,
    pub dev: u64,
    pub ino: u64,
    pub mode: u32,
    pub nlink: u64,
    pub uid: u32,
    pub gid: u32,
    pub rdev: u32,
    pub blksize: u32,
    pub blocks: u32,
}

/// The stat object for a WASI file status: the kind from the file type, the times from
/// nanoseconds to milliseconds, mode `0o666` and zero for what WASI does not report.
pub fn stat_to_js_object(stat: &Filestat) -> (r: StatObject)
    ensures
        r.is_file == (stat.filetype.code() == 4),
        r.is_directory == (stat.filetype.code() == 3),
        r.is_symlink == (stat.filetype.code() == 7),
        r.is_block_device == (stat.filetype.code() == 1),
        r.is_char_device == (stat.filetype.code() == 2),
        r.is_socket == (stat.filetype.code() == 5 || stat.filetype.code() == 6),
        r.size == stat.size,
        r.mtime == stat.mtim / 1_000_000,
        r.atime == stat.atim / 1_000_000,
        r.birthtime == stat.ctim / 1_000_000,
        r.dev == stat.dev,
        r.ino == stat.ino,
        r.mode == 0o666,
        r.nlink == stat.nlink,
        r.uid == 0 && r.gid == 0 && r.rdev == 0 && r.blksize == 0 && r.blocks == 0,
{
    let t = stat.filetype.raw();
    StatObject {
        is_file: t == 4,
        is_directory: t == 3,
        is_symlink: t == 7,
        is_block_device: t == 1,
        is_char_device: t == 2,
        is_socket: t == 5 || t == 6,
        size: stat.size,
        mtime: stat.mtim / 1_000_000,
        atime: stat.atim / 1_000_000,
        birthtime: stat.ctim / 1_000_000,
        dev: stat.dev,
        ino: stat.ino,
        mode: 0o666,
        nlink: stat.nlink,
        uid: 0,
        gid: 0,
        rdev: 0,
        blksize: 0,
        blocks: 0,
    }
}

/// The flags, open flags and rights with which a file is opened.
pub struct OpenFlags {
    pub fdflags: Fdflags,
    pub oflags: Oflags,
    pub rights: Rights,
}

/// Whether all the bits of `bit` are set in a Node open flag.
pub open spec fn flag_set(flag: i32, bit: i32) -> bool {
    flag & bit == bit
}

/// The rights added when a file is opened for writing.
pub open spec fn write_rights() -> Rights {
    RIGHTS_FD_WRITE | RIGHTS_FD_ADVISE | RIGHTS_FD_ALLOCATE | RIGHTS_FD_DATASYNC
        | RIGHTS_FD_FDSTAT_SET_FLAGS | RIGHTS_FD_FILESTAT_SET_SIZE | RIGHTS_FD_FILESTAT_SET_TIMES
        | RIGHTS_FD_SYNC | RIGHTS_FD_WRITE
}

/// The rights every opened file gets.
pub open spec fn base_rights() -> Rights {
    RIGHTS_FD_FILESTAT_GET | RIGHTS_FD_SEEK | RIGHTS_POLL_FD_READWRITE | RIGHTS_FD_READ
        | RIGHTS_FD_READDIR
}

/// The WASI flags for a Node open flag: non-blocking (128) or else synchronous, append
/// (8); create (512), exclusive (2048) and truncate (1024); write rights when it opens for
/// writing (1 or 2), and reading rights always.
pub fn open_flags(flag: i32) -> (r: OpenFlags)
    ensures
        r.fdflags == (if flag_set(flag, 128) {
            FDFLAGS_NONBLOCK
        } else {
            FDFLAGS_SYNC
        }) | (if flag_set(flag, 8) {
            FDFLAGS_APPEND
        } else {
            0
        }),
        r.oflags == (if flag_set(flag, 512) {
            OFLAGS_CREAT
        } else {
            0
        }) | (if flag_set(flag, 2048) {
            OFLAGS_EXCL
        } else {
            0
        }) | (if flag_set(flag, 1024) {
            OFLAGS_TRUNC
        } else {
            0
        }),
        r.rights == (if flag_set(flag, 1) || flag_set(flag, 2) {
            write_rights()
        } else {
            0
        }) | base_rights(),
{
    let fdflags: Fdflags = (if flag & 128 == 128 {
        FDFLAGS_NONBLOCK
    } else {
        FDFLAGS_SYNC
    }) | (if flag & 8 == 8 {
        FDFLAGS_APPEND
    } else {
        0
    });
    let oflags: Oflags = (if flag & 512 == 512 {
        OFLAGS_CREAT
    } else {
        0
    }) | (if flag & 2048 == 2048 {
        OFLAGS_EXCL
    } else {
        0
    }) | (if flag & 1024 == 1024 {
        OFLAGS_TRUNC
    } else {
        0
    });
    let w: Rights = if flag & 1 == 1 || flag & 2 == 2 {
        RIGHTS_FD_WRITE | RIGHTS_FD_ADVISE | RIGHTS_FD_ALLOCATE | RIGHTS_FD_DATASYNC
            | RIGHTS_FD_FDSTAT_SET_FLAGS | RIGHTS_FD_FILESTAT_SET_SIZE
            | RIGHTS_FD_FILESTAT_SET_TIMES | RIGHTS_FD_SYNC | RIGHTS_FD_WRITE
    } else {
        0
    };
    let rights: Rights = w | (RIGHTS_FD_FILESTAT_GET | RIGHTS_FD_SEEK | RIGHTS_POLL_FD_READWRITE
        | RIGHTS_FD_READ | RIGHTS_FD_READDIR);
    OpenFlags { fdflags, oflags, rights }
}

} // verus!
