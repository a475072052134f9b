//! The closed error taxonomy of the messaging layer.

use vstd::prelude::*;

verus! {
pub const NNG_EINTR: i32 = 1;
pub const NNG_ENOMEM: i32 = 2;
pub const NNG_EINVAL: i32 = 3;
pub const NNG_EBUSY: i32 = 4;
pub const NNG_ETIMEDOUT: i32 = 5;
pub const NNG_ECONNREFUSED: i32 = 6;
pub const NNG_ECLOSED: i32 = 7;
pub const NNG_EAGAIN: i32 = 8;
pub const NNG_ENOTSUP: i32 = 9;
pub const NNG_EADDRINUSE: i32 = 10;
pub const NNG_ESTATE: i32 = 11;
pub const NNG_ENOENT: i32 = 12;
pub const NNG_EPROTO: i32 = 13;
pub const NNG_EUNREACHABLE: i32 = 14;
pub const NNG_EADDRINVAL: i32 = 15;
pub const NNG_EPERM: i32 = 16;
pub const NNG_EMSGSIZE: i32 = 17;
pub const NNG_ECONNABORTED: i32 = 18;
pub const NNG_ECONNRESET: i32 = 19;
pub const NNG_ECANCELED: i32 = 20;
pub const NNG_ENOFILES: i32 = 21;
pub const NNG_ENOSPC: i32 = 22;
pub const NNG_EEXIST: i32 = 23;
pub const NNG_EREADONLY: i32 = 24;
pub const NNG_EWRITEONLY: i32 = 25;
pub const NNG_EINTERNAL: i32 = 1000;
pub const NNG_ESYSERR: i32 = 0x10000000;
pub const NNG_ETRANERR: i32 = 0x20000000;

/// A failure of the messaging layer.
///
/// `Nng` carries the code that the transport engine reported. The other two
/// arise while an argument is encoded or a value decoded: `NulByte` holds the
/// index of the first NUL byte of a string that must not contain one, and
/// `Utf8Error` the number of bytes that were offered as text and are not
/// valid UTF-8.
#[derive(Debug, Clone, Copy, PartialEq, Eq, Structural)]
pub enum Error {
    Nng(i32),
    NulByte(usize),
    Utf8Error(usize),
}

/// The conditions that an engine code can stand for.
#[derive(Debug, Clone, Copy, PartialEq, Eq, Structural)]
pub enum ErrorKind {
    Interrupted,
    OutOfMemory,
    Invalid,
    Busy,
    TimedOut,
    ConnectionRefused,
    Closed,
    WouldBlock,
    NotSupported,
    AddressInUse,
    BadState,
    NoEntry,
    ProtocolError,
    Unreachable,
    InvalidAddress,
    PermissionDenied,
    MessageTooLarge,
    ConnectionAborted,
    ConnectionReset,
    Canceled,
    TooManyFiles,
    NoSpace,
    AlreadyExists,
    ReadOnly,
    WriteOnly,
    Internal,
    SystemError,
    TransportError,
}

/// Whether `code` has the bit that marks an error of the operating system.
pub open spec fn is_system_code(code: i32) -> bool {
    code & NNG_ESYSERR != 0
}

/// Whether `code` has the bit that marks an error of a transport.
pub open spec fn is_transport_code(code: i32) -> bool {
    code & NNG_ETRANERR != 0
}

/// The condition that an engine code stands for, if it stands for one: the
/// codes with a name of their own come first, then the two families that
/// are marked by a bit.
pub open spec fn kind_of_code(code: i32) -> Option<ErrorKind> {
    if code == NNG_EINTR {
        Some(ErrorKind::Interrupted)
    } else if code == NNG_ENOMEM {
        Some(ErrorKind::OutOfMemory)
    } else if code == NNG_EINVAL {
        Some(ErrorKind::Invalid)
    } else if code == NNG_EBUSY {
        Some(ErrorKind::Busy)
    } else if code == NNG_ETIMEDOUT {
        Some(ErrorKind::TimedOut)
    } else if code == NNG_ECONNREFUSED {
        Some(ErrorKind::ConnectionRefused)
    } else if code == NNG_ECLOSED {
        Some(ErrorKind::Closed)
    } else if code == NNG_EAGAIN {
        Some(ErrorKind::WouldBlock)
    } else if code == NNG_ENOTSUP {
        Some(ErrorKind::NotSupported)
    } else if code == NNG_EADDRINUSE {
        Some(ErrorKind::AddressInUse)
    } else if code == NNG_ESTATE {
        Some(ErrorKind::BadState)
    } else if code == NNG_ENOENT {
        Some(ErrorKind::NoEntry)
    } else if code == NNG_EPROTO {
        Some(ErrorKind::ProtocolError)
    } else if code == NNG_EUNREACHABLE {
        Some(ErrorKind::Unreachable)
    } else if code == NNG_EADDRINVAL {
        Some(ErrorKind::InvalidAddress)
    } else if code == NNG_EPERM {
        Some(ErrorKind::PermissionDenied)
    } else if code == NNG_EMSGSIZE {
        Some(ErrorKind::MessageTooLarge)
    } else if code == NNG_ECONNABORTED {
        Some(ErrorKind::ConnectionAborted)
    } else if code == NNG_ECONNRESET {
        Some(ErrorKind::ConnectionReset)
    } else if code == NNG_ECANCELED {
        Some(ErrorKind::Canceled)
    } else if code == NNG_ENOFILES {
        Some(ErrorKind::TooManyFiles)
    } else if code == NNG_ENOSPC {
        Some(ErrorKind::NoSpace)
    } else if code == NNG_EEXIST {
        Some(ErrorKind::AlreadyExists)
    } else if code == NNG_EREADONLY {
        Some(ErrorKind::ReadOnly)
    } else if code == NNG_EWRITEONLY {
        Some(ErrorKind::WriteOnly)
    } else if code == NNG_EINTERNAL {
        Some(ErrorKind::Internal)
    } else if is_system_code(code) {
        Some(ErrorKind::SystemError)
    } else if is_transport_code(code) {
        Some(ErrorKind::TransportError)
    } else {
        None
    }
}

impl ErrorKind {
    /// The engine code by which the condition is reported.
    pub open spec fn spec_code(self) -> i32 {
        match self {
            ErrorKind::Interrupted => NNG_EINTR,
            ErrorKind::OutOfMemory => NNG_ENOMEM,
            ErrorKind::Invalid => NNG_EINVAL,
            ErrorKind::Busy => NNG_EBUSY,
            ErrorKind::TimedOut => NNG_ETIMEDOUT,
            ErrorKind::ConnectionRefused => NNG_ECONNREFUSED,
            ErrorKind::Closed => NNG_ECLOSED,
            ErrorKind::WouldBlock => NNG_EAGAIN,
            ErrorKind::NotSupported => NNG_ENOTSUP,
            ErrorKind::AddressInUse => NNG_EADDRINUSE,
            ErrorKind::BadState => NNG_ESTATE,
            ErrorKind::NoEntry => NNG_ENOENT,
            ErrorKind::ProtocolError => NNG_EPROTO,
            ErrorKind::Unreachable => NNG_EUNREACHABLE,
            ErrorKind::InvalidAddress => NNG_EADDRINVAL,
            ErrorKind::PermissionDenied => NNG_EPERM,
            ErrorKind::MessageTooLarge => NNG_EMSGSIZE,
            ErrorKind::ConnectionAborted => NNG_ECONNABORTED,
            ErrorKind::ConnectionReset => NNG_ECONNRESET,
            ErrorKind::Canceled => NNG_ECANCELED,
            ErrorKind::TooManyFiles => NNG_ENOFILES,
            ErrorKind::NoSpace => NNG_ENOSPC,
            ErrorKind::AlreadyExists => NNG_EEXIST,
            ErrorKind::ReadOnly => NNG_EREADONLY,
            ErrorKind::WriteOnly => NNG_EWRITEONLY,
            ErrorKind::Internal => NNG_EINTERNAL,
            ErrorKind::SystemError => NNG_ESYSERR,
            ErrorKind::TransportError => NNG_ETRANERR,
        }
    }

    /// The text that describes the condition.
    pub open spec fn spec_description(self) -> Seq<char> {
        match self {
            ErrorKind::Interrupted => "Interrupted"@,
            ErrorKind::OutOfMemory => "Out of memory"@,
            ErrorKind::Invalid => "Invalid argument"@,
            ErrorKind::Busy => "Resource busy"@,
            ErrorKind::TimedOut => "Timed out"@,
            ErrorKind::ConnectionRefused => "Connection refused"@,
            ErrorKind::Closed => "Object closed"@,
            ErrorKind::WouldBlock => "Try again"@,
            ErrorKind::NotSupported => "Not supported"@,
            ErrorKind::AddressInUse => "Address in use"@,
            ErrorKind::BadState => "Incorrect state"@,
            ErrorKind::NoEntry => "Entry not found"@,
            ErrorKind::ProtocolError => "Protocol error"@,
            ErrorKind::Unreachable => "Destination unreachable"@,
            ErrorKind::InvalidAddress => "Address invalid"@,
            ErrorKind::PermissionDenied => "Permission denied"@,
            ErrorKind::MessageTooLarge => "Message too large"@,
            ErrorKind::ConnectionAborted => "Connection aborted"@,
            ErrorKind::ConnectionReset => "Connection reset"@,
            ErrorKind::Canceled => "Operation canceled"@,
            ErrorKind::TooManyFiles => "Out of files"@,
            ErrorKind::NoSpace => "Out of space"@,
            ErrorKind::AlreadyExists => "Resource already exists"@,
            ErrorKind::ReadOnly => "Read only resource"@,
            ErrorKind::WriteOnly => "Write only resource"@,
            ErrorKind::Internal => "Internal error detected"@,
            ErrorKind::SystemError => "System error"@,
            ErrorKind::TransportError => "Transport error"@,
        }
    }

    /// Whether an operation that failed in this way may succeed when it is
    /// simply tried again: a timeout, a call that would have blocked, a busy
    /// resource. Every other condition stays until something is changed.
    pub open spec fn spec_is_transient(self) -> bool {
        self == ErrorKind::TimedOut || self == ErrorKind::WouldBlock || self == ErrorKind::Busy
    }

    /// The engine code by which the condition is reported.
    pub fn code(&self) -> (c: i32)
        ensures
            c == self.spec_code(),
    {
        match self {
            ErrorKind::Interrupted => NNG_EINTR,
            ErrorKind::OutOfMemory => NNG_ENOMEM,
            ErrorKind::Invalid => NNG_EINVAL,
            ErrorKind::Busy => NNG_EBUSY,
            ErrorKind::TimedOut => NNG_ETIMEDOUT,
            ErrorKind::ConnectionRefused => NNG_ECONNREFUSED,
            ErrorKind::Closed => NNG_ECLOSED,
            ErrorKind::WouldBlock => NNG_EAGAIN,
            ErrorKind::NotSupported => NNG_ENOTSUP,
            ErrorKind::AddressInUse => NNG_EADDRINUSE,
            ErrorKind::BadState => NNG_ESTATE,
            ErrorKind::NoEntry => NNG_ENOENT,
            ErrorKind::ProtocolError => NNG_EPROTO,
            ErrorKind::Unreachable => NNG_EUNREACHABLE,
            ErrorKind::InvalidAddress => NNG_EADDRINVAL,
            ErrorKind::PermissionDenied => NNG_EPERM,
            ErrorKind::MessageTooLarge => NNG_EMSGSIZE,
            ErrorKind::ConnectionAborted => NNG_ECONNABORTED,
            ErrorKind::ConnectionReset => NNG_ECONNRESET,
            ErrorKind::Canceled => NNG_ECANCELED,
            ErrorKind::TooManyFiles => NNG_ENOFILES,
            ErrorKind::NoSpace => NNG_ENOSPC,
            ErrorKind::AlreadyExists => NNG_EEXIST,
            ErrorKind::ReadOnly => NNG_EREADONLY,
            ErrorKind::WriteOnly => NNG_EWRITEONLY,
            ErrorKind::Internal => NNG_EINTERNAL,
            ErrorKind::SystemError => NNG_ESYSERR,
            ErrorKind::TransportError => NNG_ETRANERR,
        }
    }

    /// The text that describes the condition.
    pub fn description(&self) -> (text: &'static str)
        ensures
            text@ == self.spec_description(),
    {
        match self {
            ErrorKind::Interrupted => "Interrupted",
            ErrorKind::OutOfMemory => "Out of memory",
            ErrorKind::Invalid => "Invalid argument",
            ErrorKind::Busy => "Resource busy",
            ErrorKind::TimedOut => "Timed out",
            ErrorKind::ConnectionRefused => "Connection refused",
            ErrorKind::Closed => "Object closed",
            ErrorKind::WouldBlock => "Try again",
            ErrorKind::NotSupported => "Not supported",
            ErrorKind::AddressInUse => "Address in use",
            ErrorKind::BadState => "Incorrect state",
            ErrorKind::NoEntry => "Entry not found",
            ErrorKind::ProtocolError => "Protocol error",
            ErrorKind::Unreachable => "Destination unreachable",
            ErrorKind::InvalidAddress => "Address invalid",
            ErrorKind::PermissionDenied => "Permission denied",
            ErrorKind::MessageTooLarge => "Message too large",
            ErrorKind::ConnectionAborted => "Connection aborted",
            ErrorKind::ConnectionReset => "Connection reset",
            ErrorKind::Canceled => "Operation canceled",
            ErrorKind::TooManyFiles => "Out of files",
            ErrorKind::NoSpace => "Out of space",
            ErrorKind::AlreadyExists => "Resource already exists",
            ErrorKind::ReadOnly => "Read only resource",
            ErrorKind::WriteOnly => "Write only resource",
            ErrorKind::Internal => "Internal error detected",
            ErrorKind::SystemError => "System error",
            ErrorKind::TransportError => "Transport error",
        }
    }

    /// Whether the condition is transient.
    pub fn is_transient(&self) -> (b: bool)
        ensures
            b == self.spec_is_transient(),
    {
        match self {
            ErrorKind::TimedOut => true,
            ErrorKind::WouldBlock => true,
            ErrorKind::Busy => true,
            _ => false,
        }
    }
}

/// The errors that an engine reports in the way of the operating system,
/// by their names there.
#[derive(Debug, Clone, Copy, PartialEq, Eq, Structural)]
pub enum Posix {
    /// `EINTR`
    Interrupted,
    /// `ENOMEM`
    NoMemory,
    /// `EINVAL`
    InvalidArgument,
    /// `EBUSY`
    Busy,
    /// `ETIMEDOUT`
    TimedOut,
    /// `ECONNREFUSED`
    ConnectionRefused,
    /// `EBADF`
    BadDescriptor,
    /// `ETERM`
    Terminating,
    /// `EAGAIN`
    Again,
    /// `ENOTSUP`
    NotSupported,
    /// `EPROTONOSUPPORT`
    ProtocolNotSupported,
    /// `ENOPROTOOPT`
    NoProtocolOption,
    /// `EADDRINUSE`
    AddressInUse,
    /// `EFSM`
    StateMachine,
    /// `ENOENT`
    NoEntry,
    /// `EPROTO`
    Protocol,
    /// `EHOSTUNREACH`
    HostUnreachable,
    /// `ENETUNREACH`
    NetworkUnreachable,
    /// `EADDRNOTAVAIL`
    AddressNotAvailable,
    /// `EACCES`
    AccessDenied,
    /// `EPERM`
    NotPermitted,
    /// `EMSGSIZE`
    MessageSize,
    /// `ECONNABORTED`
    ConnectionAborted,
    /// `ECONNRESET`
    ConnectionReset,
    /// `ECANCELED`
    Canceled,
    /// `EMFILE`
    TooManyOpenFiles,
    /// `ENFILE`
    FileTableOverflow,
    /// `ENOSPC`
    NoSpace,
    /// `EEXIST`
    Exists,
    /// `EROFS`
    ReadOnlyFileSystem,
}

impl Posix {
    /// The condition that the error stands for.
    pub open spec fn spec_kind(self) -> ErrorKind {
        match self {
            Posix::Interrupted => ErrorKind::Interrupted,
            Posix::NoMemory => ErrorKind::OutOfMemory,
            Posix::InvalidArgument => ErrorKind::Invalid,
            Posix::Busy => ErrorKind::Busy,
            Posix::TimedOut => ErrorKind::TimedOut,
            Posix::ConnectionRefused => ErrorKind::ConnectionRefused,
            Posix::BadDescriptor => ErrorKind::Closed,
            Posix::Terminating => ErrorKind::Closed,
            Posix::Again => ErrorKind::WouldBlock,
            Posix::NotSupported => ErrorKind::NotSupported,
            Posix::ProtocolNotSupported => ErrorKind::NotSupported,
            Posix::NoProtocolOption => ErrorKind::NotSupported,
            Posix::AddressInUse => ErrorKind::AddressInUse,
            Posix::StateMachine => ErrorKind::BadState,
            Posix::NoEntry => ErrorKind::NoEntry,
            Posix::Protocol => ErrorKind::ProtocolError,
            Posix::HostUnreachable => ErrorKind::Unreachable,
            Posix::NetworkUnreachable => ErrorKind::Unreachable,
            Posix::AddressNotAvailable => ErrorKind::InvalidAddress,
            Posix::AccessDenied => ErrorKind::PermissionDenied,
            Posix::NotPermitted => ErrorKind::PermissionDenied,
            Posix::MessageSize => ErrorKind::MessageTooLarge,
            Posix::ConnectionAborted => ErrorKind::ConnectionAborted,
            Posix::ConnectionReset => ErrorKind::ConnectionReset,
            Posix::Canceled => ErrorKind::Canceled,
            Posix::TooManyOpenFiles => ErrorKind::TooManyFiles,
            Posix::FileTableOverflow => ErrorKind::TooManyFiles,
            Posix::NoSpace => ErrorKind::NoSpace,
            Posix::Exists => ErrorKind::AlreadyExists,
            Posix::ReadOnlyFileSystem => ErrorKind::ReadOnly,
        }
    }

    /// The condition that the error stands for.
    pub fn kind(&self) -> (k: ErrorKind)
        ensures
            k == self.spec_kind(),
    {
        match self {
            Posix::Interrupted => ErrorKind::Interrupted,
            Posix::NoMemory => ErrorKind::OutOfMemory,
            Posix::InvalidArgument => ErrorKind::Invalid,
            Posix::Busy => ErrorKind::Busy,
            Posix::TimedOut => ErrorKind::TimedOut,
            Posix::ConnectionRefused => ErrorKind::ConnectionRefused,
            Posix::BadDescriptor => ErrorKind::Closed,
            Posix::Terminating => ErrorKind::Closed,
            Posix::Again => ErrorKind::WouldBlock,
            Posix::NotSupported => ErrorKind::NotSupported,
            Posix::ProtocolNotSupported => ErrorKind::NotSupported,
            Posix::NoProtocolOption => ErrorKind::NotSupported,
            Posix::AddressInUse => ErrorKind::AddressInUse,
            Posix::StateMachine => ErrorKind::BadState,
            Posix::NoEntry => ErrorKind::NoEntry,
            Posix::Protocol => ErrorKind::ProtocolError,
            Posix::HostUnreachable => ErrorKind::Unreachable,
            Posix::NetworkUnreachable => ErrorKind::Unreachable,
            Posix::AddressNotAvailable => ErrorKind::InvalidAddress,
            Posix::AccessDenied => ErrorKind::PermissionDenied,
            Posix::NotPermitted => ErrorKind::PermissionDenied,
            Posix::MessageSize => ErrorKind::MessageTooLarge,
            Posix::ConnectionAborted => ErrorKind::ConnectionAborted,
            Posix::ConnectionReset => ErrorKind::ConnectionReset,
            Posix::Canceled => ErrorKind::Canceled,
            Posix::TooManyOpenFiles => ErrorKind::TooManyFiles,
            Posix::FileTableOverflow => ErrorKind::TooManyFiles,
            Posix::NoSpace => ErrorKind::NoSpace,
            Posix::Exists => ErrorKind::AlreadyExists,
            Posix::ReadOnlyFileSystem => ErrorKind::ReadOnly,
        }
    }
}

impl Error {
    /// The condition behind the error. A string with a NUL byte and bytes
    /// that are no text are invalid arguments; an engine code is classified
    /// by `kind_of_code`.
    pub open spec fn spec_kind(self) -> Option<ErrorKind> {
        match self {
            Error::Nng(code) => kind_of_code(code),
            Error::NulByte(_) => Some(ErrorKind::Invalid),
            Error::Utf8Error(_) => Some(ErrorKind::Invalid),
        }
    }

    /// The text shown for the error.
    pub open spec fn spec_message(self) -> Seq<char> {
        match self {
            Error::Nng(code) => match kind_of_code(code) {
                Some(kind) => kind.spec_description(),
                None => "Unknown error"@,
            },
            Error::NulByte(_) => "nul byte found in provided data"@,
            Error::Utf8Error(_) => "invalid utf-8 sequence"@,
        }
    }

    /// Whether the error is `Nng` with the code of `kind`.
    pub open spec fn spec_is(self, kind: ErrorKind) -> bool {
        self == Error::Nng(kind.spec_code())
    }

    /// Wraps a code of the transport engine.
    pub fn from_raw(errno: i32) -> (e: Error)
        ensures
            e == Error::Nng(errno),
    {
        Error::Nng(errno)
    }

    /// The error by which the engine reports `kind`.
    pub fn from_kind(kind: ErrorKind) -> (e: Error)
        ensures
            e == Error::Nng(kind.spec_code()),
    {
        Error::Nng(kind.code())
    }

    /// The error for a failure of the operating system that has no name
    /// of its own here: the number `errno` with the mark of the system
    /// family.
    pub fn from_system(errno: i32) -> (e: Error)
        ensures
            e == Error::Nng(NNG_ESYSERR | errno),
            e.spec_kind() == Some(ErrorKind::SystemError),
    {
        let code: i32 = NNG_ESYSERR | errno;
        assert((0x10000000i32 | errno) & 0x10000000i32 != 0) by (bit_vector);
        assert((0x10000000i32 | errno) < 0i32 || (0x10000000i32 | errno) >= 0x10000000i32)
            by (bit_vector);
        Error::Nng(code)
    }

    /// The error for a failure that the engine reports by a name of the
    /// operating system.
    pub fn from_posix(name: Posix) -> (e: Error)
        ensures
            e == Error::Nng(name.spec_kind().spec_code()),
            e.spec_kind() == Some(name.spec_kind()),
    {
        proof {
            kind_of_code_inverts_code(name.spec_kind());
        }
        Error::from_kind(name.kind())
    }

    /// The engine code, where the error carries one.
    pub fn raw(&self) -> (code: Option<i32>)
        ensures
            code == (match *self {
                Error::Nng(c) => Some(c),
                _ => None::<i32>,
            }),
    {
        match self {
            Error::Nng(c) => Some(*c),
            _ => None,
        }
    }

    /// Whether the error is exactly the one by which the engine reports
    /// `kind`.
    pub fn is(&self, kind: ErrorKind) -> (b: bool)
        ensures
            b == self.spec_is(kind),
    {
        match self {
            Error::Nng(c) => *c == kind.code(),
            _ => false,
        }
    }

    /// The condition behind the error, or `None` for an engine code outside
    /// the taxonomy.
    pub fn kind(&self) -> (k: Option<ErrorKind>)
        ensures
            k == self.spec_kind(),
    {
        match self {
            Error::Nng(code) => classify(*code),
            Error::NulByte(_) => Some(ErrorKind::Invalid),
            Error::Utf8Error(_) => Some(ErrorKind::Invalid),
        }
    }

    /// Whether the failed operation may be retried as it is.
    pub fn is_transient(&self) -> (b: bool)
        ensures
            b == (match self.spec_kind() {
                Some(kind) => kind.spec_is_transient(),
                None => false,
            }),
    {
        match self.kind() {
            Some(kind) => kind.is_transient(),
            None => false,
        }
    }

    /// The text shown for the error.
    pub fn message(&self) -> (text: &'static str)
        ensures
            text@ == self.spec_message(),
    {
        match self {
            Error::Nng(code) => match classify(*code) {
                Some(kind) => kind.description(),
                None => "Unknown error",
            },
            Error::NulByte(_) => "nul byte found in provided data",
            Error::Utf8Error(_) => "invalid utf-8 sequence",
        }
    }
}

/// Classifies an engine code.
pub fn classify(code: i32) -> (k: Option<ErrorKind>)
    ensures
        k == kind_of_code(code),
{
    if code == NNG_EINTR {
        Some(ErrorKind::Interrupted)
    } else if code == NNG_ENOMEM {
        Some(ErrorKind::OutOfMemory)
    } else if code == NNG_EINVAL {
        Some(ErrorKind::Invalid)
    } else if code == NNG_EBUSY {
        Some(ErrorKind::Busy)
    } else if code == NNG_ETIMEDOUT {
        Some(ErrorKind::TimedOut)
    } else if code == NNG_ECONNREFUSED {
        Some(ErrorKind::ConnectionRefused)
    } else if code == NNG_ECLOSED {
        Some(ErrorKind::Closed)
    } else if code == NNG_EAGAIN {
        Some(ErrorKind::WouldBlock)
    } else if code == NNG_ENOTSUP {
        Some(ErrorKind::NotSupported)
    } else if code == NNG_EADDRINUSE {
        Some(ErrorKind::AddressInUse)
    } else if code == NNG_ESTATE {
        Some(ErrorKind::BadState)
    } else if code == NNG_ENOENT {
        Some(ErrorKind::NoEntry)
    } else if code == NNG_EPROTO {
        Some(ErrorKind::ProtocolError)
    } else if code == NNG_EUNREACHABLE {
        Some(ErrorKind::Unreachable)
    } else if code == NNG_EADDRINVAL {
        Some(ErrorKind::InvalidAddress)
    } else if code == NNG_EPERM {
        Some(ErrorKind::PermissionDenied)
    } else if code == NNG_EMSGSIZE {
        Some(ErrorKind::MessageTooLarge)
    } else if code == NNG_ECONNABORTED {
        Some(ErrorKind::ConnectionAborted)
    } else if code == NNG_ECONNRESET {
        Some(ErrorKind::ConnectionReset)
    } else if code == NNG_ECANCELED {
        Some(ErrorKind::Canceled)
    } else if code == NNG_ENOFILES {
        Some(ErrorKind::TooManyFiles)
    } else if code == NNG_ENOSPC {
        Some(ErrorKind::NoSpace)
    } else if code == NNG_EEXIST {
        Some(ErrorKind::AlreadyExists)
    } else if code == NNG_EREADONLY {
        Some(ErrorKind::ReadOnly)
    } else if code == NNG_EWRITEONLY {
        Some(ErrorKind::WriteOnly)
    } else if code == NNG_EINTERNAL {
        Some(ErrorKind::Internal)
    } else if code & NNG_ESYSERR != 0 {
        Some(ErrorKind::SystemError)
    } else if code & NNG_ETRANERR != 0 {
        Some(ErrorKind::TransportError)
    } else {
        None
    }
}

/// Turns a status code of the transport engine into a result: zero is
/// success, every other code is the error that carries it.
pub fn error_guard(code: i32) -> (r: Result<(), Error>)
    ensures
        r == (if code == 0 {
            Ok::<(), Error>(())
        } else {
            Err::<(), Error>(Error::Nng(code))
        }),
{
    if code != 0 {
        return Err(Error::from_raw(code));
    }
    Ok(())
}

/// Every condition is recovered from the code that reports it.
pub proof fn kind_of_code_inverts_code(kind: ErrorKind)
    ensures
        kind_of_code(kind.spec_code()) == Some(kind),
        Error::Nng(kind.spec_code()).spec_kind() == Some(kind),
{
    assert(0x10000000i32 & 0x10000000i32 != 0) by (bit_vector);
    assert(0x20000000i32 & 0x10000000i32 == 0) by (bit_vector);
    assert(0x20000000i32 & 0x20000000i32 != 0) by (bit_vector);
}

/// Zero, the code of success, stands for no condition.
pub proof fn success_is_no_error()
    ensures
        kind_of_code(0) == None::<ErrorKind>,
{
    assert(0i32 & 0x10000000i32 == 0) by (bit_vector);
    assert(0i32 & 0x20000000i32 == 0) by (bit_vector);
}

} // verus!
