//! The kinds of I/O error that a socket error code of the host stands for.
use vstd::prelude::*;

verus! {

/// A kind of I/O error, as the standard library names it.
#[derive(Debug, Clone, Copy, PartialEq, Eq, Structural)]
pub enum IoErrorKind {
    NotFound,
    ConnectionRefused,
    ConnectionReset,
    ConnectionAborted,
    NotConnected,
    AddrInUse,
    AddrNotAvailable,
    BrokenPipe,
    WouldBlock,
    InvalidInput,
    InvalidData,
    TimedOut,
    WriteZero,
    Interrupted,
    Other,
    UnexpectedEof,
}

/// The kind for each code from 1 to 16; every other code is `Other`.
pub open spec fn kind_of_code(code: int) -> IoErrorKind {
    if code == 1 {
        IoErrorKind::NotFound
    } else if code == 2 {
        IoErrorKind::ConnectionRefused
    } else if code == 3 {
        IoErrorKind::ConnectionReset
    } else if code == 4 {
        IoErrorKind::ConnectionAborted
    } else if code == 5 {
        IoErrorKind::NotConnected
    } else if code == 6 {
        IoErrorKind::AddrInUse
    } else if code == 7 {
        IoErrorKind::AddrNotAvailable
    } else if code == 8 {
        IoErrorKind::BrokenPipe
    } else if code == 9 {
        IoErrorKind::WouldBlock
    } else if code == 10 {
        IoErrorKind::InvalidInput
    } else if code == 11 {
        IoErrorKind::InvalidData
    } else if code == 12 {
        IoErrorKind::TimedOut
    } else if code == 13 {
        IoErrorKind::WriteZero
    } else if code == 14 {
        IoErrorKind::Interrupted
    } else if code == 15 {
        IoErrorKind::Other
    } else if code == 16 {
        IoErrorKind::UnexpectedEof
    } else {
        IoErrorKind::Other
    }
}

/// The kind of I/O error for a socket error code, as `kind_of_code` says.
pub fn io_error_to_kind(error_code: i32) -> (r: IoErrorKind)
    requires
        error_code > i32::MIN,
    ensures
        r == kind_of_code(error_code as int),
{
    let kinds: [IoErrorKind; 16] = [
        IoErrorKind::NotFound,
        IoErrorKind::ConnectionRefused,
        IoErrorKind::ConnectionReset,
        IoErrorKind::ConnectionAborted,
        IoErrorKind::NotConnected,
        IoErrorKind::AddrInUse,
        IoErrorKind::AddrNotAvailable,
        IoErrorKind::BrokenPipe,
        IoErrorKind::WouldBlock,
        IoErrorKind::InvalidInput,
        IoErrorKind::InvalidData,
        IoErrorKind::TimedOut,
        IoErrorKind::WriteZero,
        IoErrorKind::Interrupted,
        IoErrorKind::Other,
        IoErrorKind::UnexpectedEof,
    ];
    let i = error_code - 1;
    if 0 <= i && i < 16 {
        let k = kinds[i as usize];
        assert(kinds@ =~= seq![
            IoErrorKind::NotFound,
            IoErrorKind::ConnectionRefused,
            IoErrorKind::ConnectionReset,
            IoErrorKind::ConnectionAborted,
            IoErrorKind::NotConnected,
            IoErrorKind::AddrInUse,
            IoErrorKind::AddrNotAvailable,
            IoErrorKind::BrokenPipe,
            IoErrorKind::WouldBlock,
            IoErrorKind::InvalidInput,
            IoErrorKind::InvalidData,
            IoErrorKind::TimedOut,
            IoErrorKind::WriteZero,
            IoErrorKind::Interrupted,
            IoErrorKind::Other,
            IoErrorKind::UnexpectedEof,
        ]);
        k
    } else {
        IoErrorKind::Other
    }
}

} // verus!
