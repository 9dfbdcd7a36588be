use vstd::prelude::*;

verus! {

/// Error codes returned by the WASI file-system calls.
///
/// The defined codes run from 0 to 76:
/// * 0 (`ERRNO_SUCCESS`): No error occurred. System call completed successfully.
/// * 1 (`ERRNO_2BIG`): Argument list too long.
/// * 2 (`ERRNO_ACCES`): Permission denied.
/// * 3 (`ERRNO_ADDRINUSE`): Address in use.
/// * 4 (`ERRNO_ADDRNOTAVAIL`): Address not available.
/// * 5 (`ERRNO_AFNOSUPPORT`): Address family not supported.
/// * 6 (`ERRNO_AGAIN`): Resource unavailable, or operation would block.
/// * 7 (`ERRNO_ALREADY`): Connection already in progress.
/// * 8 (`ERRNO_BADF`): Bad file descriptor.
/// * 9 (`ERRNO_BADMSG`): Bad message.
/// * 10 (`ERRNO_BUSY`): Device or resource busy.
/// * 11 (`ERRNO_CANCELED`): Operation canceled.
/// * 12 (`ERRNO_CHILD`): No child processes.
/// * 13 (`ERRNO_CONNABORTED`): Connection aborted.
/// * 14 (`ERRNO_CONNREFUSED`): Connection refused.
/// * 15 (`ERRNO_CONNRESET`): Connection reset.
/// * 16 (`ERRNO_DEADLK`): Resource deadlock would occur.
/// * 17 (`ERRNO_DESTADDRREQ`): Destination address required.
/// * 18 (`ERRNO_DOM`): Mathematics argument out of domain of function.
/// * 19 (`ERRNO_DQUOT`): Reserved.
/// * 20 (`ERRNO_EXIST`): File exists.
/// * 21 (`ERRNO_FAULT`): Bad address.
/// * 22 (`ERRNO_FBIG`): File too large.
/// * 23 (`ERRNO_HOSTUNREACH`): Host is unreachable.
/// * 24 (`ERRNO_IDRM`): Identifier removed.
/// * 25 (`ERRNO_ILSEQ`): Illegal byte sequence.
/// * 26 (`ERRNO_INPROGRESS`): Operation in progress.
/// * 27 (`ERRNO_INTR`): Interrupted function.
/// * 28 (`ERRNO_INVAL`): Invalid argument.
/// * 29 (`ERRNO_IO`): I/O error.
/// * 30 (`ERRNO_ISCONN`): Socket is connected.
/// * 31 (`ERRNO_ISDIR`): Is a directory.
/// * 32 (`ERRNO_LOOP`): Too many levels of symbolic links.
/// * 33 (`ERRNO_MFILE`): File descriptor value too large.
/// * 34 (`ERRNO_MLINK`): Too many links.
/// * 35 (`ERRNO_MSGSIZE`): Message too large.
/// * 36 (`ERRNO_MULTIHOP`): Reserved.
/// * 37 (`ERRNO_NAMETOOLONG`): Filename too long.
/// * 38 (`ERRNO_NETDOWN`): Network is down.
/// * 39 (`ERRNO_NETRESET`): Connection aborted by network.
/// * 40 (`ERRNO_NETUNREACH`): Network unreachable.
/// * 41 (`ERRNO_NFILE`): Too many files open in system.
/// * 42 (`ERRNO_NOBUFS`): No buffer space available.
/// * 43 (`ERRNO_NODEV`): No such device.
/// * 44 (`ERRNO_NOENT`): No such file or directory.
/// * 45 (`ERRNO_NOEXEC`): Executable file format error.
/// * 46 (`ERRNO_NOLCK`): No locks available.
/// * 47 (`ERRNO_NOLINK`): Reserved.
/// * 48 (`ERRNO_NOMEM`): Not enough space.
/// * 49 (`ERRNO_NOMSG`): No message of the desired type.
/// * 50 (`ERRNO_NOPROTOOPT`): Protocol not available.
/// * 51 (`ERRNO_NOSPC`): No space left on device.
/// * 52 (`ERRNO_NOSYS`): Function not supported.
/// * 53 (`ERRNO_NOTCONN`): The socket is not connected.
/// * 54 (`ERRNO_NOTDIR`): Not a directory or a symbolic link to a directory.
/// * 55 (`ERRNO_NOTEMPTY`): Directory not empty.
/// * 56 (`ERRNO_NOTRECOVERABLE`): State not recoverable.
/// * 57 (`ERRNO_NOTSOCK`): Not a socket.
/// * 58 (`ERRNO_NOTSUP`): Not supported, or operation not supported on socket.
/// * 59 (`ERRNO_NOTTY`): Inappropriate I/O control operation.
/// * 60 (`ERRNO_NXIO`): No such device or address.
/// * 61 (`ERRNO_OVERFLOW`): Value too large to be stored in data type.
/// * 62 (`ERRNO_OWNERDEAD`): Previous owner died.
/// * 63 (`ERRNO_PERM`): Operation not permitted.
/// * 64 (`ERRNO_PIPE`): Broken pipe.
/// * 65 (`ERRNO_PROTO`): Protocol error.
/// * 66 (`ERRNO_PROTONOSUPPORT`): Protocol not supported.
/// * 67 (`ERRNO_PROTOTYPE`): Protocol wrong type for socket.
/// * 68 (`ERRNO_RANGE`): Result too large.
/// * 69 (`ERRNO_ROFS`): Read-only file system.
/// * 70 (`ERRNO_SPIPE`): Invalid seek.
/// * 71 (`ERRNO_SRCH`): No such process.
/// * 72 (`ERRNO_STALE`): Reserved.
/// * 73 (`ERRNO_TIMEDOUT`): Connection timed out.
/// * 74 (`ERRNO_TXTBSY`): Text file busy.
/// * 75 (`ERRNO_XDEV`): Cross-device link.
/// * 76 (`ERRNO_NOTCAPABLE`): Extension: Capabilities insufficient.
#[derive(Copy, Clone, PartialEq, Eq, Structural, Hash, Debug)]
pub struct Errno(u16);

impl Errno {
    #[verifier::type_invariant]
    spec fn defined(self) -> bool {
        self.0 <= 76
    }

    /// The numeric code of this value.
    pub closed spec fn code(self) -> u16 {
        self.0
    }

    /// The largest defined code.
    pub open spec fn max_code() -> u16 {
        76
    }

    /// The short name of a code.
    pub open spec fn name_of(code: u16) -> &'static str {
        match code {
            0 => "SUCCESS",
            1 => "2BIG",
            2 => "ACCES",
            3 => "ADDRINUSE",
            4 => "ADDRNOTAVAIL",
            5 => "AFNOSUPPORT",
            6 => "AGAIN",
            7 => "ALREADY",
            8 => "BADF",
            9 => "BADMSG",
            10 => "BUSY",
            11 => "CANCELED",
            12 => "CHILD",
            13 => "CONNABORTED",
            14 => "CONNREFUSED",
            15 => "CONNRESET",
            16 => "DEADLK",
            17 => "DESTADDRREQ",
            18 => "DOM",
            19 => "DQUOT",
            20 => "EXIST",
            21 => "FAULT",
            22 => "FBIG",
            23 => "HOSTUNREACH",
            24 => "IDRM",
            25 => "ILSEQ",
            26 => "INPROGRESS",
            27 => "INTR",
            28 => "INVAL",
            29 => "IO",
            30 => "ISCONN",
            31 => "ISDIR",
            32 => "LOOP",
            33 => "MFILE",
            34 => "MLINK",
            35 => "MSGSIZE",
            36 => "MULTIHOP",
            37 => "NAMETOOLONG",
            38 => "NETDOWN",
            39 => "NETRESET",
            40 => "NETUNREACH",
            41 => "NFILE",
            42 => "NOBUFS",
            43 => "NODEV",
            44 => "NOENT",
            45 => "NOEXEC",
            46 => "NOLCK",
            47 => "NOLINK",
            48 => "NOMEM",
            49 => "NOMSG",
            50 => "NOPROTOOPT",
            51 => "NOSPC",
            52 => "NOSYS",
            53 => "NOTCONN",
            54 => "NOTDIR",
            55 => "NOTEMPTY",
            56 => "NOTRECOVERABLE",
            57 => "NOTSOCK",
            58 => "NOTSUP",
            59 => "NOTTY",
            60 => "NXIO",
            61 => "OVERFLOW",
            62 => "OWNERDEAD",
            63 => "PERM",
            64 => "PIPE",
            65 => "PROTO",
            66 => "PROTONOSUPPORT",
            67 => "PROTOTYPE",
            68 => "RANGE",
            69 => "ROFS",
            70 => "SPIPE",
            71 => "SRCH",
            72 => "STALE",
            73 => "TIMEDOUT",
            74 => "TXTBSY",
            75 => "XDEV",
            76 => "NOTCAPABLE",
            _ => "",
        }
    }

    /// The description of a code.
    pub open spec fn message_of(code: u16) -> &'static str {
        match code {
            0 => "No error occurred. System call completed successfully.",
            1 => "Argument list too long.",
            2 => "Permission denied.",
            3 => "Address in use.",
            4 => "Address not available.",
            5 => "Address family not supported.",
            6 => "Resource unavailable, or operation would block.",
            7 => "Connection already in progress.",
            8 => "Bad file descriptor.",
            9 => "Bad message.",
            10 => "Device or resource busy.",
            11 => "Operation canceled.",
            12 => "No child processes.",
            13 => "Connection aborted.",
            14 => "Connection refused.",
            15 => "Connection reset.",
            16 => "Resource deadlock would occur.",
            17 => "Destination address required.",
            18 => "Mathematics argument out of domain of function.",
            19 => "Reserved.",
            20 => "File exists.",
            21 => "Bad address.",
            22 => "File too large.",
            23 => "Host is unreachable.",
            24 => "Identifier removed.",
            25 => "Illegal byte sequence.",
            26 => "Operation in progress.",
            27 => "Interrupted function.",
            28 => "Invalid argument.",
            29 => "I/O error.",
            30 => "Socket is connected.",
            31 => "Is a directory.",
            32 => "Too many levels of symbolic links.",
            33 => "File descriptor value too large.",
            34 => "Too many links.",
            35 => "Message too large.",
            36 => "Reserved.",
            37 => "Filename too long.",
            38 => "Network is down.",
            39 => "Connection aborted by network.",
            40 => "Network unreachable.",
            41 => "Too many files open in system.",
            42 => "No buffer space available.",
            43 => "No such device.",
            44 => "No such file or directory.",
            45 => "Executable file format error.",
            46 => "No locks available.",
            47 => "Reserved.",
            48 => "Not enough space.",
            49 => "No message of the desired type.",
            50 => "Protocol not available.",
            51 => "No space left on device.",
            52 => "Function not supported.",
            53 => "The socket is not connected.",
            54 => "Not a directory or a symbolic link to a directory.",
            55 => "Directory not empty.",
            56 => "State not recoverable.",
            57 => "Not a socket.",
            58 => "Not supported, or operation not supported on socket.",
            59 => "Inappropriate I/O control operation.",
            60 => "No such device or address.",
            61 => "Value too large to be stored in data type.",
            62 => "Previous owner died.",
            63 => "Operation not permitted.",
            64 => "Broken pipe.",
            65 => "Protocol error.",
            66 => "Protocol not supported.",
            67 => "Protocol wrong type for socket.",
            68 => "Result too large.",
            69 => "Read-only file system.",
            70 => "Invalid seek.",
            71 => "No such process.",
            72 => "Reserved.",
            73 => "Connection timed out.",
            74 => "Text file busy.",
            75 => "Cross-device link.",
            76 => "Extension: Capabilities insufficient.",
            _ => "",
        }
    }

    /// The numeric code of this value.
    pub fn raw(&self) -> (r: u16)
        ensures
            r == self.code(),
            r <= Self::max_code(),
    {
        proof {
            use_type_invariant(self);
        }
        self.0
    }

    /// Two values with the same code are the same value, so `from_raw` of `raw()` gives a
    /// value back.
    pub proof fn lemma_code_identifies(a: Self, b: Self)
        ensures
            a.code() == b.code() ==> a == b,
    {
    }

    /// The value with the given code, if the code is defined.
    pub fn from_raw(v: u16) -> (r: Option<Self>)
        ensures
            r matches Some(e) ==> e.code() == v,
            r is None <==> v > Self::max_code(),
    {
        if v <= 76 {
            Some(Errno(v))
        } else {
            None
        }
    }

    /// The short name of this value.
    pub fn name(&self) -> (r: &'static str)
        ensures
            r == Self::name_of(self.code()),
    {
        proof {
            use_type_invariant(self);
        }
        match self.0 {
            0 => "SUCCESS",
            1 => "2BIG",
            2 => "ACCES",
            3 => "ADDRINUSE",
            4 => "ADDRNOTAVAIL",
            5 => "AFNOSUPPORT",
            6 => "AGAIN",
            7 => "ALREADY",
            8 => "BADF",
            9 => "BADMSG",
            10 => "BUSY",
            11 => "CANCELED",
            12 => "CHILD",
            13 => "CONNABORTED",
            14 => "CONNREFUSED",
            15 => "CONNRESET",
            16 => "DEADLK",
            17 => "DESTADDRREQ",
            18 => "DOM",
            19 => "DQUOT",
            20 => "EXIST",
            21 => "FAULT",
            22 => "FBIG",
            23 => "HOSTUNREACH",
            24 => "IDRM",
            25 => "ILSEQ",
            26 => "INPROGRESS",
            27 => "INTR",
            28 => "INVAL",
            29 => "IO",
            30 => "ISCONN",
            31 => "ISDIR",
            32 => "LOOP",
            33 => "MFILE",
            34 => "MLINK",
            35 => "MSGSIZE",
            36 => "MULTIHOP",
            37 => "NAMETOOLONG",
            38 => "NETDOWN",
            39 => "NETRESET",
            40 => "NETUNREACH",
            41 => "NFILE",
            42 => "NOBUFS",
            43 => "NODEV",
            44 => "NOENT",
            45 => "NOEXEC",
            46 => "NOLCK",
            47 => "NOLINK",
            48 => "NOMEM",
            49 => "NOMSG",
            50 => "NOPROTOOPT",
            51 => "NOSPC",
            52 => "NOSYS",
            53 => "NOTCONN",
            54 => "NOTDIR",
            55 => "NOTEMPTY",
            56 => "NOTRECOVERABLE",
            57 => "NOTSOCK",
            58 => "NOTSUP",
            59 => "NOTTY",
            60 => "NXIO",
            61 => "OVERFLOW",
            62 => "OWNERDEAD",
            63 => "PERM",
            64 => "PIPE",
            65 => "PROTO",
            66 => "PROTONOSUPPORT",
            67 => "PROTOTYPE",
            68 => "RANGE",
            69 => "ROFS",
            70 => "SPIPE",
            71 => "SRCH",
            72 => "STALE",
            73 => "TIMEDOUT",
            74 => "TXTBSY",
            75 => "XDEV",
            76 => "NOTCAPABLE",
            _ => "",
        }
    }

    /// The description of this value.
    pub fn message(&self) -> (r: &'static str)
        ensures
            r == Self::message_of(self.code()),
    {
        proof {
            use_type_invariant(self);
        }
        match self.0 {
            0 => "No error occurred. System call completed successfully.",
            1 => "Argument list too long.",
            2 => "Permission denied.",
            3 => "Address in use.",
            4 => "Address not available.",
            5 => "Address family not supported.",
            6 => "Resource unavailable, or operation would block.",
            7 => "Connection already in progress.",
            8 => "Bad file descriptor.",
            9 => "Bad message.",
            10 => "Device or resource busy.",
            11 => "Operation canceled.",
            12 => "No child processes.",
            13 => "Connection aborted.",
            14 => "Connection refused.",
            15 => "Connection reset.",
            16 => "Resource deadlock would occur.",
            17 => "Destination address required.",
            18 => "Mathematics argument out of domain of function.",
            19 => "Reserved.",
            20 => "File exists.",
            21 => "Bad address.",
            22 => "File too large.",
            23 => "Host is unreachable.",
            24 => "Identifier removed.",
            25 => "Illegal byte sequence.",
            26 => "Operation in progress.",
            27 => "Interrupted function.",
            28 => "Invalid argument.",
            29 => "I/O error.",
            30 => "Socket is connected.",
            31 => "Is a directory.",
            32 => "Too many levels of symbolic links.",
            33 => "File descriptor value too large.",
            34 => "Too many links.",
            35 => "Message too large.",
            36 => "Reserved.",
            37 => "Filename too long.",
            38 => "Network is down.",
            39 => "Connection aborted by network.",
            40 => "Network unreachable.",
            41 => "Too many files open in system.",
            42 => "No buffer space available.",
            43 => "No such device.",
            44 => "No such file or directory.",
            45 => "Executable file format error.",
            46 => "No locks available.",
            47 => "Reserved.",
            48 => "Not enough space.",
            49 => "No message of the desired type.",
            50 => "Protocol not available.",
            51 => "No space left on device.",
            52 => "Function not supported.",
            53 => "The socket is not connected.",
            54 => "Not a directory or a symbolic link to a directory.",
            55 => "Directory not empty.",
            56 => "State not recoverable.",
            57 => "Not a socket.",
            58 => "Not supported, or operation not supported on socket.",
            59 => "Inappropriate I/O control operation.",
            60 => "No such device or address.",
            61 => "Value too large to be stored in data type.",
            62 => "Previous owner died.",
            63 => "Operation not permitted.",
            64 => "Broken pipe.",
            65 => "Protocol error.",
            66 => "Protocol not supported.",
            67 => "Protocol wrong type for socket.",
            68 => "Result too large.",
            69 => "Read-only file system.",
            70 => "Invalid seek.",
            71 => "No such process.",
            72 => "Reserved.",
            73 => "Connection timed out.",
            74 => "Text file busy.",
            75 => "Cross-device link.",
            76 => "Extension: Capabilities insufficient.",
            _ => "",
        }
    }

}

/// The position relative to which to set the offset of a file descriptor.
///
/// The defined codes run from 0 to 2:
/// * 0 (`WHENCE_SET`): Seek relative to start-of-file.
/// * 1 (`WHENCE_CUR`): Seek relative to current position.
/// * 2 (`WHENCE_END`): Seek relative to end-of-file.
#[derive(Copy, Clone, PartialEq, Eq, Structural, Hash, Debug)]
pub struct Whence(u8);

impl Whence {
    #[verifier::type_invariant]
    spec fn defined(self) -> bool {
        self.0 <= 2
    }

    /// The numeric code of this value.
    pub closed spec fn code(self) -> u8 {
        self.0
    }

    /// The largest defined code.
    pub open spec fn max_code() -> u8 {
        2
    }

    /// The short name of a code.
    pub open spec fn name_of(code: u8) -> &'static str {
        match code {
            0 => "SET",
            1 => "CUR",
            2 => "END",
            _ => "",
        }
    }

    /// The description of a code.
    pub open spec fn message_of(code: u8) -> &'static str {
        match code {
            0 => "Seek relative to start-of-file.",
            1 => "Seek relative to current position.",
            2 => "Seek relative to end-of-file.",
            _ => "",
        }
    }

    /// The numeric code of this value.
    pub fn raw(&self) -> (r: u8)
        ensures
            r == self.code(),
            r <= Self::max_code(),
    {
        proof {
            use_type_invariant(self);
        }
        self.0
    }

    /// Two values with the same code are the same value, so `from_raw` of `raw()` gives a
    /// value back.
    pub proof fn lemma_code_identifies(a: Self, b: Self)
        ensures
            a.code() == b.code() ==> a == b,
    {
    }

    /// The value with the given code, if the code is defined.
    pub fn from_raw(v: u8) -> (r: Option<Self>)
        ensures
            r matches Some(e) ==> e.code() == v,
            r is None <==> v > Self::max_code(),
    {
        if v <= 2 {
            Some(Whence(v))
        } else {
            None
        }
    }

    /// The short name of this value.
    pub fn name(&self) -> (r: &'static str)
        ensures
            r == Self::name_of(self.code()),
    {
        proof {
            use_type_invariant(self);
        }
        match self.0 {
            0 => "SET",
            1 => "CUR",
            2 => "END",
            _ => "",
        }
    }

    /// The description of this value.
    pub fn message(&self) -> (r: &'static str)
        ensures
            r == Self::message_of(self.code()),
    {
        proof {
            use_type_invariant(self);
        }
        match self.0 {
            0 => "Seek relative to start-of-file.",
            1 => "Seek relative to current position.",
            2 => "Seek relative to end-of-file.",
            _ => "",
        }
    }

}

/// The type of a file descriptor or file.
///
/// The defined codes run from 0 to 7:
/// * 0 (`FILETYPE_UNKNOWN`): The type of the file descriptor or file is unknown or is different from any of the other types specified.
/// * 1 (`FILETYPE_BLOCK_DEVICE`): The file descriptor or file refers to a block device inode.
/// * 2 (`FILETYPE_CHARACTER_DEVICE`): The file descriptor or file refers to a character device inode.
/// * 3 (`FILETYPE_DIRECTORY`): The file descriptor or file refers to a directory inode.
/// * 4 (`FILETYPE_REGULAR_FILE`): The file descriptor or file refers to a regular file inode.
/// * 5 (`FILETYPE_SOCKET_DGRAM`): The file descriptor or file refers to a datagram socket.
/// * 6 (`FILETYPE_SOCKET_STREAM`): The file descriptor or file refers to a byte-stream socket.
/// * 7 (`FILETYPE_SYMBOLIC_LINK`): The file refers to a symbolic link inode.
#[derive(Copy, Clone, PartialEq, Eq, Structural, Hash, Debug)]
pub struct Filetype(u8);

impl Filetype {
    #[verifier::type_invariant]
    spec fn defined(self) -> bool {
        self.0 <= 7
    }

    /// The numeric code of this value.
    pub closed spec fn code(self) -> u8 {
        self.0
    }

    /// The largest defined code.
    pub open spec fn max_code() -> u8 {
        7
    }

    /// The short name of a code.
    pub open spec fn name_of(code: u8) -> &'static str {
        match code {
            0 => "UNKNOWN",
            1 => "BLOCK_DEVICE",
            2 => "CHARACTER_DEVICE",
            3 => "DIRECTORY",
            4 => "REGULAR_FILE",
            5 => "SOCKET_DGRAM",
            6 => "SOCKET_STREAM",
            7 => "SYMBOLIC_LINK",
            _ => "",
        }
    }

    /// The description of a code.
    pub open spec fn message_of(code: u8) -> &'static str {
        match code {
            0 => "The type of the file descriptor or file is unknown or is different from any of the other types specified.",
            1 => "The file descriptor or file refers to a block device inode.",
            2 => "The file descriptor or file refers to a character device inode.",
            3 => "The file descriptor or file refers to a directory inode.",
            4 => "The file descriptor or file refers to a regular file inode.",
            5 => "The file descriptor or file refers to a datagram socket.",
            6 => "The file descriptor or file refers to a byte-stream socket.",
            7 => "The file refers to a symbolic link inode.",
            _ => "",
        }
    }

    /// The numeric code of this value.
    pub fn raw(&self) -> (r: u8)
        ensures
            r == self.code(),
            r <= Self::max_code(),
    {
        proof {
            use_type_invariant(self);
        }
        self.0
    }

    /// Two values with the same code are the same value, so `from_raw` of `raw()` gives a
    /// value back.
    pub proof fn lemma_code_identifies(a: Self, b: Self)
        ensures
            a.code() == b.code() ==> a == b,
    {
    }

    /// The value with the given code, if the code is defined.
    pub fn from_raw(v: u8) -> (r: Option<Self>)
        ensures
            r matches Some(e) ==> e.code() == v,
            r is None <==> v > Self::max_code(),
    {
        if v <= 7 {
            Some(Filetype(v))
        } else {
            None
        }
    }

    /// The short name of this value.
    pub fn name(&self) -> (r: &'static str)
        ensures
            r == Self::name_of(self.code()),
    {
        proof {
            use_type_invariant(self);
        }
        match self.0 {
            0 => "UNKNOWN",
            1 => "BLOCK_DEVICE",
            2 => "CHARACTER_DEVICE",
            3 => "DIRECTORY",
            4 => "REGULAR_FILE",
            5 => "SOCKET_DGRAM",
            6 => "SOCKET_STREAM",
            7 => "SYMBOLIC_LINK",
            _ => "",
        }
    }

    /// The description of this value.
    pub fn message(&self) -> (r: &'static str)
        ensures
            r == Self::message_of(self.code()),
    {
        proof {
            use_type_invariant(self);
        }
        match self.0 {
            0 => "The type of the file descriptor or file is unknown or is different from any of the other types specified.",
            1 => "The file descriptor or file refers to a block device inode.",
            2 => "The file descriptor or file refers to a character device inode.",
            3 => "The file descriptor or file refers to a directory inode.",
            4 => "The file descriptor or file refers to a regular file inode.",
            5 => "The file descriptor or file refers to a datagram socket.",
            6 => "The file descriptor or file refers to a byte-stream socket.",
            7 => "The file refers to a symbolic link inode.",
            _ => "",
        }
    }

}

/// File or memory access pattern advisory information.
///
/// The defined codes run from 0 to 5:
/// * 0 (`ADVICE_NORMAL`): The application has no advice to give on its behavior with respect to the specified data.
/// * 1 (`ADVICE_SEQUENTIAL`): The application expects to access the specified data sequentially from lower offsets to higher offsets.
/// * 2 (`ADVICE_RANDOM`): The application expects to access the specified data in a random order.
/// * 3 (`ADVICE_WILLNEED`): The application expects to access the specified data in the near future.
/// * 4 (`ADVICE_DONTNEED`): The application expects that it will not access the specified data in the near future.
/// * 5 (`ADVICE_NOREUSE`): The application expects to access the specified data once and then not reuse it thereafter.
#[derive(Copy, Clone, PartialEq, Eq, Structural, Hash, Debug)]
pub struct Advice(u8);

impl Advice {
    #[verifier::type_invariant]
    spec fn defined(self) -> bool {
        self.0 <= 5
    }

    /// The numeric code of this value.
    pub closed spec fn code(self) -> u8 {
        self.0
    }

    /// The largest defined code.
    pub open spec fn max_code() -> u8 {
        5
    }

    /// The short name of a code.
    pub open spec fn name_of(code: u8) -> &'static str {
        match code {
            0 => "NORMAL",
            1 => "SEQUENTIAL",
            2 => "RANDOM",
            3 => "WILLNEED",
            4 => "DONTNEED",
            5 => "NOREUSE",
            _ => "",
        }
    }

    /// The description of a code.
    pub open spec fn message_of(code: u8) -> &'static str {
        match code {
            0 => "The application has no advice to give on its behavior with respect to the specified data.",
            1 => "The application expects to access the specified data sequentially from lower offsets to higher offsets.",
            2 => "The application expects to access the specified data in a random order.",
            3 => "The application expects to access the specified data in the near future.",
            4 => "The application expects that it will not access the specified data in the near future.",
            5 => "The application expects to access the specified data once and then not reuse it thereafter.",
            _ => "",
        }
    }

    /// The numeric code of this value.
    pub fn raw(&self) -> (r: u8)
        ensures
            r == self.code(),
            r <= Self::max_code(),
    {
        proof {
            use_type_invariant(self);
        }
        self.0
    }

    /// Two values with the same code are the same value, so `from_raw` of `raw()` gives a
    /// value back.
    pub proof fn lemma_code_identifies(a: Self, b: Self)
        ensures
            a.code() == b.code() ==> a == b,
    {
    }

    /// The value with the given code, if the code is defined.
    pub fn from_raw(v: u8) -> (r: Option<Self>)
        ensures
            r matches Some(e) ==> e.code() == v,
            r is None <==> v > Self::max_code(),
    {
        if v <= 5 {
            Some(Advice(v))
        } else {
            None
        }
    }

    /// The short name of this value.
    pub fn name(&self) -> (r: &'static str)
        ensures
            r == Self::name_of(self.code()),
    {
        proof {
            use_type_invariant(self);
        }
        match self.0 {
            0 => "NORMAL",
            1 => "SEQUENTIAL",
            2 => "RANDOM",
            3 => "WILLNEED",
            4 => "DONTNEED",
            5 => "NOREUSE",
            _ => "",
        }
    }

    /// The description of this value.
    pub fn message(&self) -> (r: &'static str)
        ensures
            r == Self::message_of(self.code()),
    {
        proof {
            use_type_invariant(self);
        }
        match self.0 {
            0 => "The application has no advice to give on its behavior with respect to the specified data.",
            1 => "The application expects to access the specified data sequentially from lower offsets to higher offsets.",
            2 => "The application expects to access the specified data in a random order.",
            3 => "The application expects to access the specified data in the near future.",
            4 => "The application expects that it will not access the specified data in the near future.",
            5 => "The application expects to access the specified data once and then not reuse it thereafter.",
            _ => "",
        }
    }

}

/// A size in bytes.
pub type Size = usize;
/// A relative offset within a file.
pub type Filedelta = i64;
/// A file size in bytes.
pub type Filesize = u64;
/// A timestamp in nanoseconds.
pub type Timestamp = u64;
/// A file descriptor handle.
pub type Fd = u32;
/// A reference to the offset of a directory entry.
pub type Dircookie = u64;
/// The type for the `d_namlen` field of a directory entry.
pub type Dirnamlen = u32;
/// File serial number that is unique within its file system.
pub type Inode = u64;
/// Identifier for a device containing a file system.
pub type Device = u64;
/// Number of hard links to an inode.
pub type Linkcount = u64;

pub type Fdflags = u16;
/// Append mode: Data written to the file is always appended to the file's end.
pub const FDFLAGS_APPEND: Fdflags = 1 << 0;
/// Write according to synchronized I/O data integrity completion. Only the data stored in the file is synchronized.
pub const FDFLAGS_DSYNC: Fdflags = 1 << 1;
/// Non-blocking mode.
pub const FDFLAGS_NONBLOCK: Fdflags = 1 << 2;
/// Synchronized read I/O operations.
pub const FDFLAGS_RSYNC: Fdflags = 1 << 3;
/// Write according to synchronized I/O file integrity completion. In
/// addition to synchronizing the data stored in the file, the implementation
/// may also synchronously update the file's metadata.
pub const FDFLAGS_SYNC: Fdflags = 1 << 4;

pub type Rights = u64;
/// The right to invoke `fd_datasync`.
/// If `path_open` is set, includes the right to invoke
/// `path_open` with `fdflags::dsync`.
pub const RIGHTS_FD_DATASYNC: Rights = 1 << 0;
/// The right to invoke `fd_read` and `sock_recv`.
/// If `rights::fd_seek` is set, includes the right to invoke `fd_pread`.
pub const RIGHTS_FD_READ: Rights = 1 << 1;
/// The right to invoke `fd_seek`. This flag implies `rights::fd_tell`.
pub const RIGHTS_FD_SEEK: Rights = 1 << 2;
/// The right to invoke `fd_fdstat_set_flags`.
pub const RIGHTS_FD_FDSTAT_SET_FLAGS: Rights = 1 << 3;
/// The right to invoke `fd_sync`.
/// If `path_open` is set, includes the right to invoke
/// `path_open` with `fdflags::rsync` and `fdflags::dsync`.
pub const RIGHTS_FD_SYNC: Rights = 1 << 4;
/// The right to invoke `fd_seek` in such a way that the file offset
/// remains unaltered (i.e., `whence::cur` with offset zero), or to
/// invoke `fd_tell`.
pub const RIGHTS_FD_TELL: Rights = 1 << 5;
/// The right to invoke `fd_write` and `sock_send`.
/// If `rights::fd_seek` is set, includes the right to invoke `fd_pwrite`.
pub const RIGHTS_FD_WRITE: Rights = 1 << 6;
/// The right to invoke `fd_advise`.
pub const RIGHTS_FD_ADVISE: Rights = 1 << 7;
/// The right to invoke `fd_allocate`.
pub const RIGHTS_FD_ALLOCATE: Rights = 1 << 8;
/// The right to invoke `path_create_directory`.
pub const RIGHTS_PATH_CREATE_DIRECTORY: Rights = 1 << 9;
/// If `path_open` is set, the right to invoke `path_open` with `oflags::creat`.
pub const RIGHTS_PATH_CREATE_FILE: Rights = 1 << 10;
/// The right to invoke `path_link` with the file descriptor as the
/// source directory.
pub const RIGHTS_PATH_LINK_SOURCE: Rights = 1 << 11;
/// The right to invoke `path_link` with the file descriptor as the
/// target directory.
pub const RIGHTS_PATH_LINK_TARGET: Rights = 1 << 12;
/// The right to invoke `path_open`.
pub const RIGHTS_PATH_OPEN: Rights = 1 << 13;
/// The right to invoke `fd_readdir`.
pub const RIGHTS_FD_READDIR: Rights = 1 << 14;
/// The right to invoke `path_readlink`.
pub const RIGHTS_PATH_READLINK: Rights = 1 << 15;
/// The right to invoke `path_rename` with the file descriptor as the source directory.
pub const RIGHTS_PATH_RENAME_SOURCE: Rights = 1 << 16;
/// The right to invoke `path_rename` with the file descriptor as the target directory.
pub const RIGHTS_PATH_RENAME_TARGET: Rights = 1 << 17;
/// The right to invoke `path_filestat_get`.
pub const RIGHTS_PATH_FILESTAT_GET: Rights = 1 << 18;
/// The right to change a file's size (there is no `path_filestat_set_size`).
/// If `path_open` is set, includes the right to invoke `path_open` with `oflags::trunc`.
pub const RIGHTS_PATH_FILESTAT_SET_SIZE: Rights = 1 << 19;
/// The right to invoke `path_filestat_set_times`.
pub const RIGHTS_PATH_FILESTAT_SET_TIMES: Rights = 1 << 20;
/// The right to invoke `fd_filestat_get`.
pub const RIGHTS_FD_FILESTAT_GET: Rights = 1 << 21;
/// The right to invoke `fd_filestat_set_size`.
pub const RIGHTS_FD_FILESTAT_SET_SIZE: Rights = 1 << 22;
/// The right to invoke `fd_filestat_set_times`.
pub const RIGHTS_FD_FILESTAT_SET_TIMES: Rights = 1 << 23;
/// The right to invoke `path_symlink`.
pub const RIGHTS_PATH_SYMLINK: Rights = 1 << 24;
/// The right to invoke `path_remove_directory`.
pub const RIGHTS_PATH_REMOVE_DIRECTORY: Rights = 1 << 25;
/// The right to invoke `path_unlink_file`.
pub const RIGHTS_PATH_UNLINK_FILE: Rights = 1 << 26;
/// If `rights::fd_read` is set, includes the right to invoke `poll_oneoff` to subscribe to `eventtype::fd_read`.
/// If `rights::fd_write` is set, includes the right to invoke `poll_oneoff` to subscribe to `eventtype::fd_write`.
pub const RIGHTS_POLL_FD_READWRITE: Rights = 1 << 27;
/// The right to invoke `sock_shutdown`.
pub const RIGHTS_SOCK_SHUTDOWN: Rights = 1 << 28;
/// The right to invoke `sock_accept`.
pub const RIGHTS_SOCK_ACCEPT: Rights = 1 << 29;

pub type Fstflags = u16;
/// Adjust the last data access timestamp to the value stored in `filestat::atim`.
pub const FSTFLAGS_ATIM: Fstflags = 1 << 0;
/// Adjust the last data access timestamp to the time of clock `clockid::realtime`.
pub const FSTFLAGS_ATIM_NOW: Fstflags = 1 << 1;
/// Adjust the last data modification timestamp to the value stored in `filestat::mtim`.
pub const FSTFLAGS_MTIM: Fstflags = 1 << 2;
/// Adjust the last data modification timestamp to the time of clock `clockid::realtime`.
pub const FSTFLAGS_MTIM_NOW: Fstflags = 1 << 3;

pub type Lookupflags = u32;
/// As long as the resolved path corresponds to a symbolic link, it is expanded.
pub const LOOKUPFLAGS_SYMLINK_FOLLOW: Lookupflags = 1 << 0;

pub type Oflags = u16;
/// Create file if it does not exist.
pub const OFLAGS_CREAT: Oflags = 1 << 0;
/// Fail if not a directory.
pub const OFLAGS_DIRECTORY: Oflags = 1 << 1;
/// Fail if file already exists.
pub const OFLAGS_EXCL: Oflags = 1 << 2;
/// Truncate file to size 0.
pub const OFLAGS_TRUNC: Oflags = 1 << 3;

#[derive(Copy, Clone, Debug)]
pub struct Dirent {
    /// The offset of the next directory entry stored in this directory.
    pub d_next: Dircookie,
    /// The serial number of the file referred to by this directory entry.
    pub d_ino: Inode,
    /// The length of the name of the directory entry.
    pub d_namlen: Dirnamlen,
    /// The type of the file referred to by this directory entry.
    pub d_type: Filetype,
}

#[derive(Copy, Clone, Debug)]
pub struct Fdstat {
    /// File type.
    pub fs_filetype: Filetype,
    /// File descriptor flags.
    pub fs_flags: Fdflags,
    /// Rights that apply to this file descriptor.
    pub fs_rights_base: Rights,
    /// Maximum set of rights that may be installed on new file descriptors that
    /// are created through this file descriptor, e.g., through `path_open`.
    pub fs_rights_inheriting: Rights,
}

#[derive(Copy, Clone, Debug)]
pub struct Filestat {
    /// Device ID of device containing the file.
    pub dev: Device,
    /// File serial number.
    pub ino: Inode,
    /// File type.
    pub filetype: Filetype,
    /// Number of hard links to the file.
    pub nlink: Linkcount,
    /// For regular files, the file size in bytes. For symbolic links, the length in bytes of the pathname contained in the symbolic link.
    pub size: Filesize,
    /// Last data access timestamp.
    pub atim: Timestamp,
    /// Last data modification timestamp.
    pub mtim: Timestamp,
    /// Last file status change timestamp.
    pub ctim: Timestamp,
}

#[derive(Copy, Clone, Debug)]
pub struct PrestatDir {
    /// The length of the directory name for use with `fd_prestat_dir_name`.
    pub pr_name_len: Size,
}

/// Information about a pre-opened capability.
#[derive(Copy, Clone, Debug)]
pub struct Prestat {
    /// The kind of the pre-opened resource; zero names a directory.
    pub tag: u8,
    /// The description of the pre-opened directory.
    pub dir: PrestatDir,
}

/// The `Errno` with code 0.
#[allow(non_snake_case)]
pub fn ERRNO_SUCCESS() -> (r: Errno)
    ensures
        r.code() == 0,
{
    Errno(0)
}

/// The `Errno` with code 1.
#[allow(non_snake_case)]
pub fn ERRNO_2BIG() -> (r: Errno)
    ensures
        r.code() == 1,
{
    Errno(1)
}

/// The `Errno` with code 2.
#[allow(non_snake_case)]
pub fn ERRNO_ACCES() -> (r: Errno)
    ensures
        r.code() == 2,
{
    Errno(2)
}

/// The `Errno` with code 3.
#[allow(non_snake_case)]
pub fn ERRNO_ADDRINUSE() -> (r: Errno)
    ensures
        r.code() == 3,
{
    Errno(3)
}

/// The `Errno` with code 4.
#[allow(non_snake_case)]
pub fn ERRNO_ADDRNOTAVAIL() -> (r: Errno)
    ensures
        r.code() == 4,
{
    Errno(4)
}

/// The `Errno` with code 5.
#[allow(non_snake_case)]
pub fn ERRNO_AFNOSUPPORT() -> (r: Errno)
    ensures
        r.code() == 5,
{
    Errno(5)
}

/// The `Errno` with code 6.
#[allow(non_snake_case)]
pub fn ERRNO_AGAIN() -> (r: Errno)
    ensures
        r.code() == 6,
{
    Errno(6)
}

/// The `Errno` with code 7.
#[allow(non_snake_case)]
pub fn ERRNO_ALREADY() -> (r: Errno)
    ensures
        r.code() == 7,
{
    Errno(7)
}

/// The `Errno` with code 8.
#[allow(non_snake_case)]
pub fn ERRNO_BADF() -> (r: Errno)
    ensures
        r.code() == 8,
{
    Errno(8)
}

/// The `Errno` with code 9.
#[allow(non_snake_case)]
pub fn ERRNO_BADMSG() -> (r: Errno)
    ensures
        r.code() == 9,
{
    Errno(9)
}

/// The `Errno` with code 10.
#[allow(non_snake_case)]
pub fn ERRNO_BUSY() -> (r: Errno)
    ensures
        r.code() == 10,
{
    Errno(10)
}

/// The `Errno` with code 11.
#[allow(non_snake_case)]
pub fn ERRNO_CANCELED() -> (r: Errno)
    ensures
        r.code() == 11,
{
    Errno(11)
}

/// The `Errno` with code 12.
#[allow(non_snake_case)]
pub fn ERRNO_CHILD() -> (r: Errno)
    ensures
        r.code() == 12,
{
    Errno(12)
}

/// The `Errno` with code 13.
#[allow(non_snake_case)]
pub fn ERRNO_CONNABORTED() -> (r: Errno)
    ensures
        r.code() == 13,
{
    Errno(13)
}

/// The `Errno` with code 14.
#[allow(non_snake_case)]
pub fn ERRNO_CONNREFUSED() -> (r: Errno)
    ensures
        r.code() == 14,
{
    Errno(14)
}

/// The `Errno` with code 15.
#[allow(non_snake_case)]
pub fn ERRNO_CONNRESET() -> (r: Errno)
    ensures
        r.code() == 15,
{
    Errno(15)
}

/// The `Errno` with code 16.
#[allow(non_snake_case)]
pub fn ERRNO_DEADLK() -> (r: Errno)
    ensures
        r.code() == 16,
{
    Errno(16)
}

/// The `Errno` with code 17.
#[allow(non_snake_case)]
pub fn ERRNO_DESTADDRREQ() -> (r: Errno)
    ensures
        r.code() == 17,
{
    Errno(17)
}

/// The `Errno` with code 18.
#[allow(non_snake_case)]
pub fn ERRNO_DOM() -> (r: Errno)
    ensures
        r.code() == 18,
{
    Errno(18)
}

/// The `Errno` with code 19.
#[allow(non_snake_case)]
pub fn ERRNO_DQUOT() -> (r: Errno)
    ensures
        r.code() == 19,
{
    Errno(19)
}

/// The `Errno` with code 20.
#[allow(non_snake_case)]
pub fn ERRNO_EXIST() -> (r: Errno)
    ensures
        r.code() == 20,
{
    Errno(20)
}

/// The `Errno` with code 21.
#[allow(non_snake_case)]
pub fn ERRNO_FAULT() -> (r: Errno)
    ensures
        r.code() == 21,
{
    Errno(21)
}

/// The `Errno` with code 22.
#[allow(non_snake_case)]
pub fn ERRNO_FBIG() -> (r: Errno)
    ensures
        r.code() == 22,
{
    Errno(22)
}

/// The `Errno` with code 23.
#[allow(non_snake_case)]
pub fn ERRNO_HOSTUNREACH() -> (r: Errno)
    ensures
        r.code() == 23,
{
    Errno(23)
}

/// The `Errno` with code 24.
#[allow(non_snake_case)]
pub fn ERRNO_IDRM() -> (r: Errno)
    ensures
        r.code() == 24,
{
    Errno(24)
}

/// The `Errno` with code 25.
#[allow(non_snake_case)]
pub fn ERRNO_ILSEQ() -> (r: Errno)
    ensures
        r.code() == 25,
{
    Errno(25)
}

/// The `Errno` with code 26.
#[allow(non_snake_case)]
pub fn ERRNO_INPROGRESS() -> (r: Errno)
    ensures
        r.code() == 26,
{
    Errno(26)
}

/// The `Errno` with code 27.
#[allow(non_snake_case)]
pub fn ERRNO_INTR() -> (r: Errno)
    ensures
        r.code() == 27,
{
    Errno(27)
}

/// The `Errno` with code 28.
#[allow(non_snake_case)]
pub fn ERRNO_INVAL() -> (r: Errno)
    ensures
        r.code() == 28,
{
    Errno(28)
}

/// The `Errno` with code 29.
#[allow(non_snake_case)]
pub fn ERRNO_IO() -> (r: Errno)
    ensures
        r.code() == 29,
{
    Errno(29)
}

/// The `Errno` with code 30.
#[allow(non_snake_case)]
pub fn ERRNO_ISCONN() -> (r: Errno)
    ensures
        r.code() == 30,
{
    Errno(30)
}

/// The `Errno` with code 31.
#[allow(non_snake_case)]
pub fn ERRNO_ISDIR() -> (r: Errno)
    ensures
        r.code() == 31,
{
    Errno(31)
}

/// The `Errno` with code 32.
#[allow(non_snake_case)]
pub fn ERRNO_LOOP() -> (r: Errno)
    ensures
        r.code() == 32,
{
    Errno(32)
}

/// The `Errno` with code 33.
#[allow(non_snake_case)]
pub fn ERRNO_MFILE() -> (r: Errno)
    ensures
        r.code() == 33,
{
    Errno(33)
}

/// The `Errno` with code 34.
#[allow(non_snake_case)]
pub fn ERRNO_MLINK() -> (r: Errno)
    ensures
        r.code() == 34,
{
    Errno(34)
}

/// The `Errno` with code 35.
#[allow(non_snake_case)]
pub fn ERRNO_MSGSIZE() -> (r: Errno)
    ensures
        r.code() == 35,
{
    Errno(35)
}

/// The `Errno` with code 36.
#[allow(non_snake_case)]
pub fn ERRNO_MULTIHOP() -> (r: Errno)
    ensures
        r.code() == 36,
{
    Errno(36)
}

/// The `Errno` with code 37.
#[allow(non_snake_case)]
pub fn ERRNO_NAMETOOLONG() -> (r: Errno)
    ensures
        r.code() == 37,
{
    Errno(37)
}

/// The `Errno` with code 38.
#[allow(non_snake_case)]
pub fn ERRNO_NETDOWN() -> (r: Errno)
    ensures
        r.code() == 38,
{
    Errno(38)
}

/// The `Errno` with code 39.
#[allow(non_snake_case)]
pub fn ERRNO_NETRESET() -> (r: Errno)
    ensures
        r.code() == 39,
{
    Errno(39)
}

/// The `Errno` with code 40.
#[allow(non_snake_case)]
pub fn ERRNO_NETUNREACH() -> (r: Errno)
    ensures
        r.code() == 40,
{
    Errno(40)
}

/// The `Errno` with code 41.
#[allow(non_snake_case)]
pub fn ERRNO_NFILE() -> (r: Errno)
    ensures
        r.code() == 41,
{
    Errno(41)
}

/// The `Errno` with code 42.
#[allow(non_snake_case)]
pub fn ERRNO_NOBUFS() -> (r: Errno)
    ensures
        r.code() == 42,
{
    Errno(42)
}

/// The `Errno` with code 43.
#[allow(non_snake_case)]
pub fn ERRNO_NODEV() -> (r: Errno)
    ensures
        r.code() == 43,
{
    Errno(43)
}

/// The `Errno` with code 44.
#[allow(non_snake_case)]
pub fn ERRNO_NOENT() -> (r: Errno)
    ensures
        r.code() == 44,
{
    Errno(44)
}

/// The `Errno` with code 45.
#[allow(non_snake_case)]
pub fn ERRNO_NOEXEC() -> (r: Errno)
    ensures
        r.code() == 45,
{
    Errno(45)
}

/// The `Errno` with code 46.
#[allow(non_snake_case)]
pub fn ERRNO_NOLCK() -> (r: Errno)
    ensures
        r.code() == 46,
{
    Errno(46)
}

/// The `Errno` with code 47.
#[allow(non_snake_case)]
pub fn ERRNO_NOLINK() -> (r: Errno)
    ensures
        r.code() == 47,
{
    Errno(47)
}

/// The `Errno` with code 48.
#[allow(non_snake_case)]
pub fn ERRNO_NOMEM() -> (r: Errno)
    ensures
        r.code() == 48,
{
    Errno(48)
}

/// The `Errno` with code 49.
#[allow(non_snake_case)]
pub fn ERRNO_NOMSG() -> (r: Errno)
    ensures
        r.code() == 49,
{
    Errno(49)
}

/// The `Errno` with code 50.
#[allow(non_snake_case)]
pub fn ERRNO_NOPROTOOPT() -> (r: Errno)
    ensures
        r.code() == 50,
{
    Errno(50)
}

/// The `Errno` with code 51.
#[allow(non_snake_case)]
pub fn ERRNO_NOSPC() -> (r: Errno)
    ensures
        r.code() == 51,
{
    Errno(51)
}

/// The `Errno` with code 52.
#[allow(non_snake_case)]
pub fn ERRNO_NOSYS() -> (r: Errno)
    ensures
        r.code() == 52,
{
    Errno(52)
}

/// The `Errno` with code 53.
#[allow(non_snake_case)]
pub fn ERRNO_NOTCONN() -> (r: Errno)
    ensures
        r.code() == 53,
{
    Errno(53)
}

/// The `Errno` with code 54.
#[allow(non_snake_case)]
pub fn ERRNO_NOTDIR() -> (r: Errno)
    ensures
        r.code() == 54,
{
    Errno(54)
}

/// The `Errno` with code 55.
#[allow(non_snake_case)]
pub fn ERRNO_NOTEMPTY() -> (r: Errno)
    ensures
        r.code() == 55,
{
    Errno(55)
}

/// The `Errno` with code 56.
#[allow(non_snake_case)]
pub fn ERRNO_NOTRECOVERABLE() -> (r: Errno)
    ensures
        r.code() == 56,
{
    Errno(56)
}

/// The `Errno` with code 57.
#[allow(non_snake_case)]
pub fn ERRNO_NOTSOCK() -> (r: Errno)
    ensures
        r.code() == 57,
{
    Errno(57)
}

/// The `Errno` with code 58.
#[allow(non_snake_case)]
pub fn ERRNO_NOTSUP() -> (r: Errno)
    ensures
        r.code() == 58,
{
    Errno(58)
}

/// The `Errno` with code 59.
#[allow(non_snake_case)]
pub fn ERRNO_NOTTY() -> (r: Errno)
    ensures
        r.code() == 59,
{
    Errno(59)
}

/// The `Errno` with code 60.
#[allow(non_snake_case)]
pub fn ERRNO_NXIO() -> (r: Errno)
    ensures
        r.code() == 60,
{
    Errno(60)
}

/// The `Errno` with code 61.
#[allow(non_snake_case)]
pub fn ERRNO_OVERFLOW() -> (r: Errno)
    ensures
        r.code() == 61,
{
    Errno(61)
}

/// The `Errno` with code 62.
#[allow(non_snake_case)]
pub fn ERRNO_OWNERDEAD() -> (r: Errno)
    ensures
        r.code() == 62,
{
    Errno(62)
}

/// The `Errno` with code 63.
#[allow(non_snake_case)]
pub fn ERRNO_PERM() -> (r: Errno)
    ensures
        r.code() == 63,
{
    Errno(63)
}

/// The `Errno` with code 64.
#[allow(non_snake_case)]
pub fn ERRNO_PIPE() -> (r: Errno)
    ensures
        r.code() == 64,
{
    Errno(64)
}

/// The `Errno` with code 65.
#[allow(non_snake_case)]
pub fn ERRNO_PROTO() -> (r: Errno)
    ensures
        r.code() == 65,
{
    Errno(65)
}

/// The `Errno` with code 66.
#[allow(non_snake_case)]
pub fn ERRNO_PROTONOSUPPORT() -> (r: Errno)
    ensures
        r.code() == 66,
{
    Errno(66)
}

/// The `Errno` with code 67.
#[allow(non_snake_case)]
pub fn ERRNO_PROTOTYPE() -> (r: Errno)
    ensures
        r.code() == 67,
{
    Errno(67)
}

/// The `Errno` with code 68.
#[allow(non_snake_case)]
pub fn ERRNO_RANGE() -> (r: Errno)
    ensures
        r.code() == 68,
{
    Errno(68)
}

/// The `Errno` with code 69.
#[allow(non_snake_case)]
pub fn ERRNO_ROFS() -> (r: Errno)
    ensures
        r.code() == 69,
{
    Errno(69)
}

/// The `Errno` with code 70.
#[allow(non_snake_case)]
pub fn ERRNO_SPIPE() -> (r: Errno)
    ensures
        r.code() == 70,
{
    Errno(70)
}

/// The `Errno` with code 71.
#[allow(non_snake_case)]
pub fn ERRNO_SRCH() -> (r: Errno)
    ensures
        r.code() == 71,
{
    Errno(71)
}

/// The `Errno` with code 72.
#[allow(non_snake_case)]
pub fn ERRNO_STALE() -> (r: Errno)
    ensures
        r.code() == 72,
{
    Errno(72)
}

/// The `Errno` with code 73.
#[allow(non_snake_case)]
pub fn ERRNO_TIMEDOUT() -> (r: Errno)
    ensures
        r.code() == 73,
{
    Errno(73)
}

/// The `Errno` with code 74.
#[allow(non_snake_case)]
pub fn ERRNO_TXTBSY() -> (r: Errno)
    ensures
        r.code() == 74,
{
    Errno(74)
}

/// The `Errno` with code 75.
#[allow(non_snake_case)]
pub fn ERRNO_XDEV() -> (r: Errno)
    ensures
        r.code() == 75,
{
    Errno(75)
}

/// The `Errno` with code 76.
#[allow(non_snake_case)]
pub fn ERRNO_NOTCAPABLE() -> (r: Errno)
    ensures
        r.code() == 76,
{
    Errno(76)
}

/// The `Whence` with code 0.
#[allow(non_snake_case)]
pub fn WHENCE_SET() -> (r: Whence)
    ensures
        r.code() == 0,
{
    Whence(0)
}

/// The `Whence` with code 1.
#[allow(non_snake_case)]
pub fn WHENCE_CUR() -> (r: Whence)
    ensures
        r.code() == 1,
{
    Whence(1)
}

/// The `Whence` with code 2.
#[allow(non_snake_case)]
pub fn WHENCE_END() -> (r: Whence)
    ensures
        r.code() == 2,
{
    Whence(2)
}

/// The `Filetype` with code 0.
#[allow(non_snake_case)]
pub fn FILETYPE_UNKNOWN() -> (r: Filetype)
    ensures
        r.code() == 0,
{
    Filetype(0)
}

/// The `Filetype` with code 1.
#[allow(non_snake_case)]
pub fn FILETYPE_BLOCK_DEVICE() -> (r: Filetype)
    ensures
        r.code() == 1,
{
    Filetype(1)
}

/// The `Filetype` with code 2.
#[allow(non_snake_case)]
pub fn FILETYPE_CHARACTER_DEVICE() -> (r: Filetype)
    ensures
        r.code() == 2,
{
    Filetype(2)
}

/// The `Filetype` with code 3.
#[allow(non_snake_case)]
pub fn FILETYPE_DIRECTORY() -> (r: Filetype)
    ensures
        r.code() == 3,
{
    Filetype(3)
}

/// The `Filetype` with code 4.
#[allow(non_snake_case)]
pub fn FILETYPE_REGULAR_FILE() -> (r: Filetype)
    ensures
        r.code() == 4,
{
    Filetype(4)
}

/// The `Filetype` with code 5.
#[allow(non_snake_case)]
pub fn FILETYPE_SOCKET_DGRAM() -> (r: Filetype)
    ensures
        r.code() == 5,
{
    Filetype(5)
}

/// The `Filetype` with code 6.
#[allow(non_snake_case)]
pub fn FILETYPE_SOCKET_STREAM() -> (r: Filetype)
    ensures
        r.code() == 6,
{
    Filetype(6)
}

/// The `Filetype` with code 7.
#[allow(non_snake_case)]
pub fn FILETYPE_SYMBOLIC_LINK() -> (r: Filetype)
    ensures
        r.code() == 7,
{
    Filetype(7)
}

/// The `Advice` with code 0.
#[allow(non_snake_case)]
pub fn ADVICE_NORMAL() -> (r: Advice)
    ensures
        r.code() == 0,
{
    Advice(0)
}

/// The `Advice` with code 1.
#[allow(non_snake_case)]
pub fn ADVICE_SEQUENTIAL() -> (r: Advice)
    ensures
        r.code() == 1,
{
    Advice(1)
}

/// The `Advice` with code 2.
#[allow(non_snake_case)]
pub fn ADVICE_RANDOM() -> (r: Advice)
    ensures
        r.code() == 2,
{
    Advice(2)
}

/// The `Advice` with code 3.
#[allow(non_snake_case)]
pub fn ADVICE_WILLNEED() -> (r: Advice)
    ensures
        r.code() == 3,
{
    Advice(3)
}

/// The `Advice` with code 4.
#[allow(non_snake_case)]
pub fn ADVICE_DONTNEED() -> (r: Advice)
    ensures
        r.code() == 4,
{
    Advice(4)
}

/// The `Advice` with code 5.
#[allow(non_snake_case)]
pub fn ADVICE_NOREUSE() -> (r: Advice)
    ensures
        r.code() == 5,
{
    Advice(5)
}

} // verus!
