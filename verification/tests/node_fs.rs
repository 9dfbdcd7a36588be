use wasmedge_quickjs::node_fs::{errno_to_js_object, open_flags, permissions_to_mode, stat_to_js_object};
use wasmedge_quickjs::wasi_fs::{
    Errno, Filestat, Filetype, FDFLAGS_APPEND, FDFLAGS_NONBLOCK, FDFLAGS_SYNC, OFLAGS_CREAT,
    OFLAGS_EXCL, OFLAGS_TRUNC, RIGHTS_FD_READ, RIGHTS_FD_WRITE,
};

#[test]
fn mode_of_permissions() {
    assert_eq!(0o555, permissions_to_mode(true));
    assert_eq!(0o777, permissions_to_mode(false));
}

#[test]
fn flags_for_read_only_open() {
    let f = open_flags(0);
    assert_eq!(FDFLAGS_SYNC, f.fdflags);
    assert_eq!(0, f.oflags);
    assert_eq!(0, f.rights & RIGHTS_FD_WRITE);
    assert_eq!(RIGHTS_FD_READ, f.rights & RIGHTS_FD_READ);
}

#[test]
fn flags_for_write_create_truncate() {
    let f = open_flags(1 | 512 | 1024);
    assert_eq!(FDFLAGS_SYNC, f.fdflags);
    assert_eq!(OFLAGS_CREAT | OFLAGS_TRUNC, f.oflags);
    assert_eq!(RIGHTS_FD_WRITE, f.rights & RIGHTS_FD_WRITE);
    assert_eq!(148914655, f.rights);
    let g = open_flags(2 | 8 | 128 | 2048);
    assert_eq!(FDFLAGS_NONBLOCK | FDFLAGS_APPEND, g.fdflags);
    assert_eq!(OFLAGS_EXCL, g.oflags);
    assert_eq!(136331270, open_flags(0).rights);
}

#[test]
fn stat_object_fields() {
    let st = Filestat {
        dev: 1,
        ino: 2,
        filetype: Filetype::from_raw(4).unwrap(),
        nlink: 3,
        size: 42,
        atim: 5_000_000,
        mtim: 7_999_999,
        ctim: 9_000_000,
    };
    let o = stat_to_js_object(&st);
    assert!(o.is_file);
    assert!(!o.is_directory && !o.is_symlink && !o.is_socket);
    assert_eq!(42, o.size);
    assert_eq!(7, o.mtime);
    assert_eq!(5, o.atime);
    assert_eq!(9, o.birthtime);
    assert_eq!(0o666, o.mode);
    assert_eq!(3, o.nlink);
    let sock = Filestat { filetype: Filetype::from_raw(6).unwrap(), ..st };
    assert!(stat_to_js_object(&sock).is_socket);
}

#[test]
fn fs_error_object() {
    let o = errno_to_js_object(Errno::from_raw(44).unwrap());
    assert_eq!("NOENT", o.code);
    assert_eq!(44, o.errno);
    assert!(Errno::from_raw(77).is_none());
}

#[test]
fn codes_name_their_values() {
    for code in 0..=76u16 {
        let e = Errno::from_raw(code).unwrap();
        assert_eq!(code, e.raw());
        assert_eq!(Some(e), Errno::from_raw(e.raw()));
    }
    let t = Filetype::from_raw(3).unwrap();
    assert_eq!("DIRECTORY", t.name());
    assert!(Filetype::from_raw(8).is_none());
}

#[test]
fn named_codes() {
    assert_eq!(44, wasmedge_quickjs::wasi_fs::ERRNO_NOENT().raw());
    assert_eq!("SUCCESS", wasmedge_quickjs::wasi_fs::ERRNO_SUCCESS().name());
    assert_eq!(3, wasmedge_quickjs::wasi_fs::FILETYPE_DIRECTORY().raw());
    assert_eq!(
        6,
        wasmedge_quickjs::crypto_raw::CRYPTO_ERRNO_UNSUPPORTED_ALGORITHM().raw()
    );
}
