use ccapi::classify;
use ccapi::ConsoleError;

/// Every code of the known table classifies to its documented kind.
#[test]
fn known_codes_classify_to_their_kind() {
    let table: Vec<(u32, ConsoleError)> = vec![
        (0x80010001, ConsoleError::EAGAIN),
        (0x80010002, ConsoleError::EINVAL),
        (0x80010003, ConsoleError::ENOSYS),
        (0x80010004, ConsoleError::ENOMEM),
        (0x80010005, ConsoleError::ESRCH),
        (0x80010006, ConsoleError::ENOENT),
        (0x80010007, ConsoleError::ENOEXEC),
        (0x80010008, ConsoleError::EDEADLK),
        (0x80010009, ConsoleError::EPERM),
        (0x8001000A, ConsoleError::EBUSY),
        (0x8001000B, ConsoleError::ETIMEDOUT),
        (0x8001000C, ConsoleError::EABORT),
        (0x8001000D, ConsoleError::EFAULT),
        (0x8001000E, ConsoleError::ECHILD),
        (0x8001000F, ConsoleError::ESTAT),
        (0x80010010, ConsoleError::EALIGN),
        (0x80010011, ConsoleError::EKRESOURCE),
        (0x80010012, ConsoleError::EISDIR),
        (0x80010013, ConsoleError::ECANCELED),
        (0x80010014, ConsoleError::EEXIST),
        (0x80010015, ConsoleError::EISCONN),
        (0x80010016, ConsoleError::ENOTCONN),
        (0x80010017, ConsoleError::EAUTHFAIL),
        (0x80010018, ConsoleError::ENOTMSELF),
        (0x80010019, ConsoleError::ESYSVER),
        (0x8001001A, ConsoleError::EAUTHFATAL),
        (0x8001001B, ConsoleError::EDOM),
        (0x8001001C, ConsoleError::ERANGE),
        (0x8001001D, ConsoleError::EILSEQ),
        (0x8001001E, ConsoleError::EFPOS),
        (0x8001001F, ConsoleError::EINTR),
        (0x80010020, ConsoleError::EFBIG),
        (0x80010021, ConsoleError::EMLINK),
        (0x80010022, ConsoleError::ENFILE),
        (0x80010023, ConsoleError::ENOSPC),
        (0x80010024, ConsoleError::ENOTTY),
        (0x80010025, ConsoleError::EPIPE),
        (0x80010026, ConsoleError::EROFS),
        (0x80010027, ConsoleError::ESPIPE),
        (0x80010028, ConsoleError::E2BIG),
        (0x80010029, ConsoleError::EACCES),
        (0x8001002A, ConsoleError::EBADF),
        (0x8001002B, ConsoleError::EIO),
        (0x8001002C, ConsoleError::EMFILE),
        (0x8001002D, ConsoleError::ENODEV),
        (0x8001002E, ConsoleError::ENOTDIR),
        (0x8001002F, ConsoleError::ENXIO),
        (0x80010030, ConsoleError::EXDEV),
        (0x80010031, ConsoleError::EBADMSG),
        (0x80010032, ConsoleError::EINPROGRESS),
        (0x80010033, ConsoleError::EMSGSIZE),
        (0x80010034, ConsoleError::ENAMETOOLONG),
        (0x80010035, ConsoleError::ENOLCK),
        (0x80010036, ConsoleError::ENOTEMPTY),
        (0x80010037, ConsoleError::EUNSUP),
        (0x80010038, ConsoleError::EFSSPECIFIC),
        (0x80010039, ConsoleError::EOVERFLOW),
        (0x8001003A, ConsoleError::ENOTMOUNTED),
        (0x8001003B, ConsoleError::ENOTSDATA),
        (0x8001003C, ConsoleError::ESDKVER),
        (0x8001003D, ConsoleError::ENOLICDISC),
        (0x8001003E, ConsoleError::ENOLICENT),
    ];
    assert_eq!(table.len(), 62);
    for (code, kind) in table {
        assert_eq!(classify(code), kind);
    }
}

/// Values outside the known table collapse to `Unknown`.
#[test]
fn codes_outside_the_table_are_unknown() {
    let samples: Vec<u32> = vec![
        0,
        1,
        0x7fffffff,
        0x80010000,
        0x8001003f,
        0x80010040,
        0x80020001,
        0xffffffff,
    ];
    for code in samples {
        assert_eq!(classify(code), ConsoleError::Unknown);
    }
}

/// Each kind carries its fixed human-readable description.
#[test]
fn descriptions_are_the_documented_strings() {
    assert_eq!(ConsoleError::EAGAIN.description(), "The resource is temporarily unavailable");
    assert_eq!(ConsoleError::EINVAL.description(), "Invalid argument or flag");
    assert_eq!(ConsoleError::ENOSYS.description(), "The feature is not yet implemented");
    assert_eq!(ConsoleError::ENOLICENT.description(), "Pointer is null When related to DISCSFO (and PARAMSFO)");
    assert_eq!(ConsoleError::Unknown.description(), "Unknown error");
}

