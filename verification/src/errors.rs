//! The error taxonomy: a closed table of status codes that the console
//! service reports, and the total classification of a 32-bit status value
//! into one of them.
//!
//! Success is the single reserved status value 0.  Every other value is a
//! failure; the known failure codes occupy one contiguous range, and every
//! value outside the table classifies as `Unknown`.

use crate::query::encode_query;
use crate::query::pairs_view;
use crate::query::spec_encode_query;
use crate::text::hex_digits;
use crate::text::u64_to_hex_prefixed;
use vstd::prelude::*;

verus! {

/// The lowest status code with a named classification.
pub const FIRST_KNOWN_CODE: u32 = 0x80010001;

/// The highest status code with a named classification.
pub const LAST_KNOWN_CODE: u32 = 0x8001003E;

/// A named kind for each well-known status code that the console service
/// reports, plus `Unknown` for every code outside the table.
#[derive(Debug, Clone, Copy, PartialEq, Eq, Structural)]
pub enum ConsoleError {
    EAGAIN,
    EINVAL,
    ENOSYS,
    ENOMEM,
    ESRCH,
    ENOENT,
    ENOEXEC,
    EDEADLK,
    EPERM,
    EBUSY,
    ETIMEDOUT,
    EABORT,
    EFAULT,
    ECHILD,
    ESTAT,
    EALIGN,
    EKRESOURCE,
    EISDIR,
    ECANCELED,
    EEXIST,
    EISCONN,
    ENOTCONN,
    EAUTHFAIL,
    ENOTMSELF,
    ESYSVER,
    EAUTHFATAL,
    EDOM,
    ERANGE,
    EILSEQ,
    EFPOS,
    EINTR,
    EFBIG,
    EMLINK,
    ENFILE,
    ENOSPC,
    ENOTTY,
    EPIPE,
    EROFS,
    ESPIPE,
    E2BIG,
    EACCES,
    EBADF,
    EIO,
    EMFILE,
    ENODEV,
    ENOTDIR,
    ENXIO,
    EXDEV,
    EBADMSG,
    EINPROGRESS,
    EMSGSIZE,
    ENAMETOOLONG,
    ENOLCK,
    ENOTEMPTY,
    EUNSUP,
    EFSSPECIFIC,
    EOVERFLOW,
    ENOTMOUNTED,
    ENOTSDATA,
    ESDKVER,
    ENOLICDISC,
    ENOLICENT,
    Unknown,
}

/// The classification of a status code, as a mathematical function:
/// each code of the known table maps to its kind, and everything else
/// maps to `Unknown`.
pub open spec fn spec_classify(code: u32) -> ConsoleError {
    match code {
        0x80010001 => ConsoleError::EAGAIN,
        0x80010002 => ConsoleError::EINVAL,
        0x80010003 => ConsoleError::ENOSYS,
        0x80010004 => ConsoleError::ENOMEM,
        0x80010005 => ConsoleError::ESRCH,
        0x80010006 => ConsoleError::ENOENT,
        0x80010007 => ConsoleError::ENOEXEC,
        0x80010008 => ConsoleError::EDEADLK,
        0x80010009 => ConsoleError::EPERM,
        0x8001000A => ConsoleError::EBUSY,
        0x8001000B => ConsoleError::ETIMEDOUT,
        0x8001000C => ConsoleError::EABORT,
        0x8001000D => ConsoleError::EFAULT,
        0x8001000E => ConsoleError::ECHILD,
        0x8001000F => ConsoleError::ESTAT,
        0x80010010 => ConsoleError::EALIGN,
        0x80010011 => ConsoleError::EKRESOURCE,
        0x80010012 => ConsoleError::EISDIR,
        0x80010013 => ConsoleError::ECANCELED,
        0x80010014 => ConsoleError::EEXIST,
        0x80010015 => ConsoleError::EISCONN,
        0x80010016 => ConsoleError::ENOTCONN,
        0x80010017 => ConsoleError::EAUTHFAIL,
        0x80010018 => ConsoleError::ENOTMSELF,
        0x80010019 => ConsoleError::ESYSVER,
        0x8001001A => ConsoleError::EAUTHFATAL,
        0x8001001B => ConsoleError::EDOM,
        0x8001001C => ConsoleError::ERANGE,
        0x8001001D => ConsoleError::EILSEQ,
        0x8001001E => ConsoleError::EFPOS,
        0x8001001F => ConsoleError::EINTR,
        0x80010020 => ConsoleError::EFBIG,
        0x80010021 => ConsoleError::EMLINK,
        0x80010022 => ConsoleError::ENFILE,
        0x80010023 => ConsoleError::ENOSPC,
        0x80010024 => ConsoleError::ENOTTY,
        0x80010025 => ConsoleError::EPIPE,
        0x80010026 => ConsoleError::EROFS,
        0x80010027 => ConsoleError::ESPIPE,
        0x80010028 => ConsoleError::E2BIG,
        0x80010029 => ConsoleError::EACCES,
        0x8001002A => ConsoleError::EBADF,
        0x8001002B => ConsoleError::EIO,
        0x8001002C => ConsoleError::EMFILE,
        0x8001002D => ConsoleError::ENODEV,
        0x8001002E => ConsoleError::ENOTDIR,
        0x8001002F => ConsoleError::ENXIO,
        0x80010030 => ConsoleError::EXDEV,
        0x80010031 => ConsoleError::EBADMSG,
        0x80010032 => ConsoleError::EINPROGRESS,
        0x80010033 => ConsoleError::EMSGSIZE,
        0x80010034 => ConsoleError::ENAMETOOLONG,
        0x80010035 => ConsoleError::ENOLCK,
        0x80010036 => ConsoleError::ENOTEMPTY,
        0x80010037 => ConsoleError::EUNSUP,
        0x80010038 => ConsoleError::EFSSPECIFIC,
        0x80010039 => ConsoleError::EOVERFLOW,
        0x8001003A => ConsoleError::ENOTMOUNTED,
        0x8001003B => ConsoleError::ENOTSDATA,
        0x8001003C => ConsoleError::ESDKVER,
        0x8001003D => ConsoleError::ENOLICDISC,
        0x8001003E => ConsoleError::ENOLICENT,
        _ => ConsoleError::Unknown,
    }
}

/// Maps a 32-bit status value to its kind.  Total: codes outside the known
/// table yield `Unknown`.
pub fn classify(code: u32) -> (r: ConsoleError)
    ensures
        r == spec_classify(code),
{
    match code {
        0x80010001 => ConsoleError::EAGAIN,
        0x80010002 => ConsoleError::EINVAL,
        0x80010003 => ConsoleError::ENOSYS,
        0x80010004 => ConsoleError::ENOMEM,
        0x80010005 => ConsoleError::ESRCH,
        0x80010006 => ConsoleError::ENOENT,
        0x80010007 => ConsoleError::ENOEXEC,
        0x80010008 => ConsoleError::EDEADLK,
        0x80010009 => ConsoleError::EPERM,
        0x8001000A => ConsoleError::EBUSY,
        0x8001000B => ConsoleError::ETIMEDOUT,
        0x8001000C => ConsoleError::EABORT,
        0x8001000D => ConsoleError::EFAULT,
        0x8001000E => ConsoleError::ECHILD,
        0x8001000F => ConsoleError::ESTAT,
        0x80010010 => ConsoleError::EALIGN,
        0x80010011 => ConsoleError::EKRESOURCE,
        0x80010012 => ConsoleError::EISDIR,
        0x80010013 => ConsoleError::ECANCELED,
        0x80010014 => ConsoleError::EEXIST,
        0x80010015 => ConsoleError::EISCONN,
        0x80010016 => ConsoleError::ENOTCONN,
        0x80010017 => ConsoleError::EAUTHFAIL,
        0x80010018 => ConsoleError::ENOTMSELF,
        0x80010019 => ConsoleError::ESYSVER,
        0x8001001A => ConsoleError::EAUTHFATAL,
        0x8001001B => ConsoleError::EDOM,
        0x8001001C => ConsoleError::ERANGE,
        0x8001001D => ConsoleError::EILSEQ,
        0x8001001E => ConsoleError::EFPOS,
        0x8001001F => ConsoleError::EINTR,
        0x80010020 => ConsoleError::EFBIG,
        0x80010021 => ConsoleError::EMLINK,
        0x80010022 => ConsoleError::ENFILE,
        0x80010023 => ConsoleError::ENOSPC,
        0x80010024 => ConsoleError::ENOTTY,
        0x80010025 => ConsoleError::EPIPE,
        0x80010026 => ConsoleError::EROFS,
        0x80010027 => ConsoleError::ESPIPE,
        0x80010028 => ConsoleError::E2BIG,
        0x80010029 => ConsoleError::EACCES,
        0x8001002A => ConsoleError::EBADF,
        0x8001002B => ConsoleError::EIO,
        0x8001002C => ConsoleError::EMFILE,
        0x8001002D => ConsoleError::ENODEV,
        0x8001002E => ConsoleError::ENOTDIR,
        0x8001002F => ConsoleError::ENXIO,
        0x80010030 => ConsoleError::EXDEV,
        0x80010031 => ConsoleError::EBADMSG,
        0x80010032 => ConsoleError::EINPROGRESS,
        0x80010033 => ConsoleError::EMSGSIZE,
        0x80010034 => ConsoleError::ENAMETOOLONG,
        0x80010035 => ConsoleError::ENOLCK,
        0x80010036 => ConsoleError::ENOTEMPTY,
        0x80010037 => ConsoleError::EUNSUP,
        0x80010038 => ConsoleError::EFSSPECIFIC,
        0x80010039 => ConsoleError::EOVERFLOW,
        0x8001003A => ConsoleError::ENOTMOUNTED,
        0x8001003B => ConsoleError::ENOTSDATA,
        0x8001003C => ConsoleError::ESDKVER,
        0x8001003D => ConsoleError::ENOLICDISC,
        0x8001003E => ConsoleError::ENOLICENT,
        _ => ConsoleError::Unknown,
    }
}

/// Whether a status code has a named (non-`Unknown`) classification.
pub open spec fn is_known_code(code: u32) -> bool {
    FIRST_KNOWN_CODE <= code <= LAST_KNOWN_CODE
}

/// The human-readable description of each error kind, as a mathematical
/// function over the kind.
pub open spec fn spec_description(e: ConsoleError) -> Seq<char> {
    match e {
        ConsoleError::EAGAIN => "The resource is temporarily unavailable"@,
        ConsoleError::EINVAL => "Invalid argument or flag"@,
        ConsoleError::ENOSYS => "The feature is not yet implemented"@,
        ConsoleError::ENOMEM => "Memory allocation failed"@,
        ConsoleError::ESRCH => "The resource with the specified identifier does not exist"@,
        ConsoleError::ENOENT => "The file does not exist"@,
        ConsoleError::ENOEXEC => "The file is in unrecognized format"@,
        ConsoleError::EDEADLK => "Resource deadlock is avoided"@,
        ConsoleError::EPERM => "Operation not permitted"@,
        ConsoleError::EBUSY => "The device or resource is busy"@,
        ConsoleError::ETIMEDOUT => "The operation is timed out"@,
        ConsoleError::EABORT => "The operation is aborted"@,
        ConsoleError::EFAULT => "Invalid memory access"@,
        ConsoleError::ECHILD => "Try to access a non existing child process"@,
        ConsoleError::ESTAT => "State of the target thread is invalid"@,
        ConsoleError::EALIGN => "Alignment is invalid"@,
        ConsoleError::EKRESOURCE => "Shortage of the kernel resources"@,
        ConsoleError::EISDIR => "The file is a directory"@,
        ConsoleError::ECANCELED => "Operation cancelled"@,
        ConsoleError::EEXIST => "Entry already exists"@,
        ConsoleError::EISCONN => "Port is already connected"@,
        ConsoleError::ENOTCONN => "Port is not connected"@,
        ConsoleError::EAUTHFAIL => "Failure in authorizing SELF"@,
        ConsoleError::ENOTMSELF => "The file is not MSELF"@,
        ConsoleError::ESYSVER => "System version error"@,
        ConsoleError::EAUTHFATAL => "Fatal system error occurred while authorizing SELF SELF auth failure"@,
        ConsoleError::EDOM => "Math domain violation"@,
        ConsoleError::ERANGE => "Math range violation"@,
        ConsoleError::EILSEQ => "Illegal multi-byte sequence in input"@,
        ConsoleError::EFPOS => "File position error"@,
        ConsoleError::EINTR => "Syscall was interrupted"@,
        ConsoleError::EFBIG => "File too large"@,
        ConsoleError::EMLINK => "Too many links"@,
        ConsoleError::ENFILE => "File table overflow"@,
        ConsoleError::ENOSPC => "No space left on device"@,
        ConsoleError::ENOTTY => "Not a TTY"@,
        ConsoleError::EPIPE => "Broken pipe"@,
        ConsoleError::EROFS => "Read-only filesystem"@,
        ConsoleError::ESPIPE => "Illegal seek"@,
        ConsoleError::E2BIG => "Arg list too long"@,
        ConsoleError::EACCES => "Access violation"@,
        ConsoleError::EBADF => "Invalid file descriptor"@,
        ConsoleError::EIO => "Filesystem mounting failed"@,
        ConsoleError::EMFILE => "Too many files open"@,
        ConsoleError::ENODEV => "No device"@,
        ConsoleError::ENOTDIR => "Not a directory"@,
        ConsoleError::ENXIO => "No such device or IO"@,
        ConsoleError::EXDEV => "Cross-device link error"@,
        ConsoleError::EBADMSG => "Bad Message"@,
        ConsoleError::EINPROGRESS => "In progress"@,
        ConsoleError::EMSGSIZE => "Message size error"@,
        ConsoleError::ENAMETOOLONG => "Name too long"@,
        ConsoleError::ENOLCK => "No lock"@,
        ConsoleError::ENOTEMPTY => "Not empty"@,
        ConsoleError::EUNSUP => "Not supported"@,
        ConsoleError::EFSSPECIFIC => "File-system specific error"@,
        ConsoleError::EOVERFLOW => "Overflow occured"@,
        ConsoleError::ENOTMOUNTED => "Filesystem not mounted"@,
        ConsoleError::ENOTSDATA => "Not SData"@,
        ConsoleError::ESDKVER => "Incorrect version in sys_load_param"@,
        ConsoleError::ENOLICDISC => "Pointer is null When related to PARAMSFO"@,
        ConsoleError::ENOLICENT => "Pointer is null When related to DISCSFO (and PARAMSFO)"@,
        ConsoleError::Unknown => "Unknown error"@,
    }
}

impl ConsoleError {
    /// The fixed human-readable description of this error kind, usable in
    /// user-facing messages.
    pub fn description(&self) -> (r: &'static str)
        ensures
            r@ == spec_description(*self),
    {
        match *self {
            ConsoleError::EAGAIN => "The resource is temporarily unavailable",
            ConsoleError::EINVAL => "Invalid argument or flag",
            ConsoleError::ENOSYS => "The feature is not yet implemented",
            ConsoleError::ENOMEM => "Memory allocation failed",
            ConsoleError::ESRCH => "The resource with the specified identifier does not exist",
            ConsoleError::ENOENT => "The file does not exist",
            ConsoleError::ENOEXEC => "The file is in unrecognized format",
            ConsoleError::EDEADLK => "Resource deadlock is avoided",
            ConsoleError::EPERM => "Operation not permitted",
            ConsoleError::EBUSY => "The device or resource is busy",
            ConsoleError::ETIMEDOUT => "The operation is timed out",
            ConsoleError::EABORT => "The operation is aborted",
            ConsoleError::EFAULT => "Invalid memory access",
            ConsoleError::ECHILD => "Try to access a non existing child process",
            ConsoleError::ESTAT => "State of the target thread is invalid",
            ConsoleError::EALIGN => "Alignment is invalid",
            ConsoleError::EKRESOURCE => "Shortage of the kernel resources",
            ConsoleError::EISDIR => "The file is a directory",
            ConsoleError::ECANCELED => "Operation cancelled",
            ConsoleError::EEXIST => "Entry already exists",
            ConsoleError::EISCONN => "Port is already connected",
            ConsoleError::ENOTCONN => "Port is not connected",
            ConsoleError::EAUTHFAIL => "Failure in authorizing SELF",
            ConsoleError::ENOTMSELF => "The file is not MSELF",
            ConsoleError::ESYSVER => "System version error",
            ConsoleError::EAUTHFATAL => "Fatal system error occurred while authorizing SELF SELF auth failure",
            ConsoleError::EDOM => "Math domain violation",
            ConsoleError::ERANGE => "Math range violation",
            ConsoleError::EILSEQ => "Illegal multi-byte sequence in input",
            ConsoleError::EFPOS => "File position error",
            ConsoleError::EINTR => "Syscall was interrupted",
            ConsoleError::EFBIG => "File too large",
            ConsoleError::EMLINK => "Too many links",
            ConsoleError::ENFILE => "File table overflow",
            ConsoleError::ENOSPC => "No space left on device",
            ConsoleError::ENOTTY => "Not a TTY",
            ConsoleError::EPIPE => "Broken pipe",
            ConsoleError::EROFS => "Read-only filesystem",
            ConsoleError::ESPIPE => "Illegal seek",
            ConsoleError::E2BIG => "Arg list too long",
            ConsoleError::EACCES => "Access violation",
            ConsoleError::EBADF => "Invalid file descriptor",
            ConsoleError::EIO => "Filesystem mounting failed",
            ConsoleError::EMFILE => "Too many files open",
            ConsoleError::ENODEV => "No device",
            ConsoleError::ENOTDIR => "Not a directory",
            ConsoleError::ENXIO => "No such device or IO",
            ConsoleError::EXDEV => "Cross-device link error",
            ConsoleError::EBADMSG => "Bad Message",
            ConsoleError::EINPROGRESS => "In progress",
            ConsoleError::EMSGSIZE => "Message size error",
            ConsoleError::ENAMETOOLONG => "Name too long",
            ConsoleError::ENOLCK => "No lock",
            ConsoleError::ENOTEMPTY => "Not empty",
            ConsoleError::EUNSUP => "Not supported",
            ConsoleError::EFSSPECIFIC => "File-system specific error",
            ConsoleError::EOVERFLOW => "Overflow occured",
            ConsoleError::ENOTMOUNTED => "Filesystem not mounted",
            ConsoleError::ENOTSDATA => "Not SData",
            ConsoleError::ESDKVER => "Incorrect version in sys_load_param",
            ConsoleError::ENOLICDISC => "Pointer is null When related to PARAMSFO",
            ConsoleError::ENOLICENT => "Pointer is null When related to DISCSFO (and PARAMSFO)",
            ConsoleError::Unknown => "Unknown error",
        }
    }
}

/// The known codes form one contiguous range; everything outside it
/// classifies as `Unknown`, and everything inside it has a named kind.
pub proof fn lemma_classification_total(code: u32)
    ensures
        !is_known_code(code) ==> spec_classify(code) == ConsoleError::Unknown,
        is_known_code(code) ==> spec_classify(code) != ConsoleError::Unknown,
{
}

/// Everything a protocol operation can fail with.
///
/// A transport failure, a framing failure, a reported non-zero status and
/// a payload decode failure are the four distinct outcomes of a
/// request/response cycle; an invalid enum token is rejected before any
/// request is built, and the memory-read operation always reports
/// `Unimplemented`.
#[derive(Debug, Clone, PartialEq, Eq)]
pub enum ConsoleFailure {
    /// The transport could not complete the call; carries its message.
    Transport(String),
    /// The response body is missing a status line or the status line is
    /// not valid hexadecimal.
    Framing,
    /// The response carried a non-zero status: the raw code and its
    /// classification.
    Status { code: u32, kind: ConsoleError },
    /// The status was zero but the payload lines of the named command are
    /// missing or malformed.
    Decode(String),
    /// A token does not name any member of the enum it was offered to.
    InvalidToken(String),
    /// The operation is present in the interface but deliberately not
    /// implemented.
    Unimplemented,
}

/// The rendering of a failure as one user-facing message.
pub open spec fn spec_describe_failure(f: ConsoleFailure) -> Seq<char> {
    match f {
        ConsoleFailure::Transport(m) => "transport failure: "@ + m@,
        ConsoleFailure::Framing => "could not read status code"@,
        ConsoleFailure::Status { code, kind } => "invalid response code '0x"@ + hex_digits(
            code as nat,
        ) + "': "@ + spec_description(kind),
        ConsoleFailure::Decode(op) => "could not decode response of '"@ + op@ + "'"@,
        ConsoleFailure::InvalidToken(t) => "invalid token '"@ + t@ + "'"@,
        ConsoleFailure::Unimplemented => "not implemented"@,
    }
}

impl ConsoleFailure {
    /// One user-facing message for this failure; names the raw status
    /// code, the command or the offending token where one is carried.
    pub fn describe(&self) -> (r: String)
        ensures
            r@ == spec_describe_failure(*self),
    {
        match self {
            ConsoleFailure::Transport(m) => {
                let mut s = String::new();
                s.append("transport failure: ");
                s.append(m.as_str());
                proof {
                    assert(s@ =~= spec_describe_failure(*self));
                }
                s
            },
            ConsoleFailure::Framing => {
                let mut s = String::new();
                s.append("could not read status code");
                proof {
                    assert(s@ =~= spec_describe_failure(*self));
                }
                s
            },
            ConsoleFailure::Status { code, kind } => {
                let hex = u64_to_hex_prefixed(*code as u64);
                let mut s = String::new();
                s.append("invalid response code '");
                s.append(hex.as_str());
                s.append("': ");
                s.append(kind.description());
                proof {
                    assert("invalid response code '"@ + "0x"@ =~= "invalid response code '0x"@)
                        by {
                        reveal_strlit("invalid response code '");
                        reveal_strlit("0x");
                        reveal_strlit("invalid response code '0x");
                    }
                    assert(s@ =~= spec_describe_failure(*self));
                }
                s
            },
            ConsoleFailure::Decode(op) => {
                let mut s = String::new();
                s.append("could not decode response of '");
                s.append(op.as_str());
                s.append("'");
                proof {
                    assert(s@ =~= spec_describe_failure(*self));
                }
                s
            },
            ConsoleFailure::InvalidToken(t) => {
                let mut s = String::new();
                s.append("invalid token '");
                s.append(t.as_str());
                s.append("'");
                proof {
                    assert(s@ =~= spec_describe_failure(*self));
                }
                s
            },
            ConsoleFailure::Unimplemented => {
                let mut s = String::new();
                s.append("not implemented");
                proof {
                    assert(s@ =~= spec_describe_failure(*self));
                }
                s
            },
        }
    }

    /// The message with the request's parameters attached, as the
    /// diagnostic context for a failure reported on a sent request.
    pub fn describe_with_parameters(&self, parameters: &Vec<(String, String)>) -> (r: String)
        ensures
            r@ == spec_describe_failure(*self) + ", parameters: "@ + spec_encode_query(
                pairs_view(parameters@),
            ),
    {
        let mut s = self.describe();
        s.append(", parameters: ");
        let rendered = encode_query(parameters);
        s.append(rendered.as_str());
        s
    }
}

} // verus!
