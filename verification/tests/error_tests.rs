use nmsg::error::{
    classify, error_guard, Error, ErrorKind, NNG_EAGAIN, NNG_EBUSY, NNG_ECLOSED, NNG_EINVAL,
    NNG_ENOTSUP, NNG_ESYSERR, NNG_ETIMEDOUT, NNG_ETRANERR, Posix,
};

const ALL_KINDS: [ErrorKind; 28] = [
    ErrorKind::Interrupted,
    ErrorKind::OutOfMemory,
    ErrorKind::Invalid,
    ErrorKind::Busy,
    ErrorKind::TimedOut,
    ErrorKind::ConnectionRefused,
    ErrorKind::Closed,
    ErrorKind::WouldBlock,
    ErrorKind::NotSupported,
    ErrorKind::AddressInUse,
    ErrorKind::BadState,
    ErrorKind::NoEntry,
    ErrorKind::ProtocolError,
    ErrorKind::Unreachable,
    ErrorKind::InvalidAddress,
    ErrorKind::PermissionDenied,
    ErrorKind::MessageTooLarge,
    ErrorKind::ConnectionAborted,
    ErrorKind::ConnectionReset,
    ErrorKind::Canceled,
    ErrorKind::TooManyFiles,
    ErrorKind::NoSpace,
    ErrorKind::AlreadyExists,
    ErrorKind::ReadOnly,
    ErrorKind::WriteOnly,
    ErrorKind::Internal,
    ErrorKind::SystemError,
    ErrorKind::TransportError,
];

#[test]
fn error_guard_accepts_zero() {
    assert_eq!(error_guard(0), Ok(()));
}

#[test]
fn error_guard_wraps_every_other_code() {
    assert_eq!(error_guard(5), Err(Error::Nng(NNG_ETIMEDOUT)));
    assert_eq!(error_guard(-1), Err(Error::Nng(-1)));
    assert_eq!(error_guard(i32::MAX), Err(Error::Nng(i32::MAX)));
}

#[test]
fn classify_names_the_codes() {
    assert_eq!(classify(NNG_ETIMEDOUT), Some(ErrorKind::TimedOut));
    assert_eq!(classify(NNG_EAGAIN), Some(ErrorKind::WouldBlock));
    assert_eq!(classify(NNG_ECLOSED), Some(ErrorKind::Closed));
    assert_eq!(classify(1000), Some(ErrorKind::Internal));
    assert_eq!(classify(NNG_ESYSERR | 13), Some(ErrorKind::SystemError));
    assert_eq!(classify(NNG_ETRANERR | 7), Some(ErrorKind::TransportError));
}

#[test]
fn classify_knows_no_kind_for_other_codes() {
    assert_eq!(classify(0), None);
    assert_eq!(classify(26), None);
    assert_eq!(classify(999), None);
    assert_eq!(classify(1001), None);
}

#[test]
fn every_kind_is_found_again_by_its_code() {
    for kind in ALL_KINDS.iter() {
        assert_eq!(classify(kind.code()), Some(*kind));
        assert_eq!(Error::from_kind(*kind).kind(), Some(*kind));
        assert!(Error::from_kind(*kind).is(*kind));
    }
}

#[test]
fn kind_codes_are_those_of_the_engine() {
    assert_eq!(ErrorKind::Interrupted.code(), 1);
    assert_eq!(ErrorKind::Invalid.code(), 3);
    assert_eq!(ErrorKind::TimedOut.code(), 5);
    assert_eq!(ErrorKind::WouldBlock.code(), 8);
    assert_eq!(ErrorKind::WriteOnly.code(), 25);
    assert_eq!(ErrorKind::Internal.code(), 1000);
    assert_eq!(ErrorKind::SystemError.code(), 0x10000000);
    assert_eq!(ErrorKind::TransportError.code(), 0x20000000);
}

#[test]
fn from_raw_keeps_the_code() {
    assert_eq!(Error::from_raw(7), Error::Nng(7));
    assert_eq!(Error::from_raw(7).raw(), Some(7));
    assert_eq!(Error::NulByte(2).raw(), None);
    assert_eq!(Error::Utf8Error(2).raw(), None);
}

#[test]
fn argument_errors_are_invalid() {
    assert_eq!(Error::NulByte(4).kind(), Some(ErrorKind::Invalid));
    assert_eq!(Error::Utf8Error(4).kind(), Some(ErrorKind::Invalid));
    assert!(!Error::NulByte(4).is(ErrorKind::Invalid));
    assert!(Error::Nng(NNG_EINVAL).is(ErrorKind::Invalid));
}

#[test]
fn only_timeout_would_block_and_busy_are_transient() {
    for kind in ALL_KINDS.iter() {
        let expected = matches!(
            kind,
            ErrorKind::TimedOut | ErrorKind::WouldBlock | ErrorKind::Busy
        );
        assert_eq!(kind.is_transient(), expected);
        assert_eq!(Error::from_kind(*kind).is_transient(), expected);
    }
    assert!(Error::Nng(NNG_EBUSY).is_transient());
    assert!(!Error::Nng(NNG_ECLOSED).is_transient());
    assert!(!Error::Nng(NNG_ENOTSUP).is_transient());
    assert!(!Error::Nng(0).is_transient());
    assert!(!Error::NulByte(0).is_transient());
}

#[test]
fn messages_describe_the_error() {
    assert_eq!(Error::Nng(NNG_ETIMEDOUT).message(), "Timed out");
    assert_eq!(Error::Nng(NNG_EAGAIN).message(), "Try again");
    assert_eq!(Error::Nng(NNG_ECLOSED).message(), "Object closed");
    assert_eq!(Error::Nng(NNG_ESYSERR | 2).message(), "System error");
    assert_eq!(Error::Nng(77).message(), "Unknown error");
    assert_eq!(Error::NulByte(1).message(), "nul byte found in provided data");
    assert_eq!(Error::Utf8Error(1).message(), "invalid utf-8 sequence");
    assert_eq!(ErrorKind::AddressInUse.description(), "Address in use");
}

#[test]
fn system_errors_are_named_where_the_taxonomy_has_a_name() {
    assert_eq!(Error::from_posix(Posix::TimedOut), Error::Nng(NNG_ETIMEDOUT));
    assert_eq!(Error::from_posix(Posix::Again), Error::Nng(NNG_EAGAIN));
    assert_eq!(Error::from_posix(Posix::BadDescriptor), Error::Nng(NNG_ECLOSED));
    assert_eq!(Error::from_posix(Posix::Terminating), Error::Nng(NNG_ECLOSED));
    assert_eq!(Error::from_posix(Posix::InvalidArgument), Error::Nng(NNG_EINVAL));
    assert_eq!(Error::from_posix(Posix::ProtocolNotSupported), Error::Nng(NNG_ENOTSUP));
    assert_eq!(Posix::StateMachine.kind(), ErrorKind::BadState);
    assert_eq!(Posix::NetworkUnreachable.kind(), ErrorKind::Unreachable);
    assert_eq!(Posix::FileTableOverflow.kind(), ErrorKind::TooManyFiles);
    assert_eq!(Posix::ReadOnlyFileSystem.kind(), ErrorKind::ReadOnly);
    assert!(Error::from_posix(Posix::Busy).is_transient());
}

#[test]
fn other_system_errors_join_the_system_family() {
    assert_eq!(Error::from_system(71), Error::Nng(NNG_ESYSERR | 71));
    assert_eq!(Error::from_system(71).raw(), Some(0x10000047));
    for errno in [0, 1, 5, 1000, 156384712, i32::MAX, -1, i32::MIN] {
        assert_eq!(Error::from_system(errno).kind(), Some(ErrorKind::SystemError));
        assert_eq!(Error::from_system(errno).message(), "System error");
        assert!(!Error::from_system(errno).is_transient());
    }
}
