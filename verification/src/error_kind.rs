//! The kinds of errors that a server reports, and their codes on the wire.
//!
//! | code | kind               | code | kind           |
//! |------|--------------------|------|----------------|
//! |    0 | NotFound           |    9 | AlreadyExists  |
//! |    1 | PermissionDenied   |   10 | WouldBlock     |
//! |    2 | ConnectionRefused  |   11 | InvalidInput   |
//! |    3 | ConnectionReset    |   12 | InvalidData    |
//! |    4 | ConnectionAborted  |   13 | TimedOut       |
//! |    5 | NotConnected       |   14 | WriteZero      |
//! |    6 | AddrInUse          |   15 | Interrupted    |
//! |    7 | AddrNotAvailable   |   16 | Other          |
//! |    8 | BrokenPipe         |   17 | UnexpectedEof  |
//!
//! Every other code stands for `Other`.
use vstd::prelude::*;

verus! {

/// The kind of an I/O error: those of `std::io::ErrorKind` that have a code of
/// their own, and one for all the rest.
#[derive(Debug, Clone, Copy, PartialEq, Eq, Structural)]
pub enum ErrorKind {
    NotFound,
    PermissionDenied,
    ConnectionRefused,
    ConnectionReset,
    ConnectionAborted,
    NotConnected,
    AddrInUse,
    AddrNotAvailable,
    BrokenPipe,
    AlreadyExists,
    WouldBlock,
    InvalidInput,
    InvalidData,
    TimedOut,
    WriteZero,
    Interrupted,
    Other,
    UnexpectedEof,
    /// A kind without a code.
    Unlisted,
}

/// The kinds that have a code, each at the place that is its code.
pub open spec fn coded_kinds() -> Seq<ErrorKind> {
    seq![
        ErrorKind::NotFound,
        ErrorKind::PermissionDenied,
        ErrorKind::ConnectionRefused,
        ErrorKind::ConnectionReset,
        ErrorKind::ConnectionAborted,
        ErrorKind::NotConnected,
        ErrorKind::AddrInUse,
        ErrorKind::AddrNotAvailable,
        ErrorKind::BrokenPipe,
        ErrorKind::AlreadyExists,
        ErrorKind::WouldBlock,
        ErrorKind::InvalidInput,
        ErrorKind::InvalidData,
        ErrorKind::TimedOut,
        ErrorKind::WriteZero,
        ErrorKind::Interrupted,
        ErrorKind::Other,
        ErrorKind::UnexpectedEof,
    ]
}

/// The code of a kind: its place among the coded ones. A kind without a code
/// shares that of `Other`.
pub open spec fn code_of(kind: ErrorKind) -> u32 {
    if kind is Unlisted {
        coded_kinds().index_of(ErrorKind::Other) as u32
    } else {
        coded_kinds().index_of(kind) as u32
    }
}

/// The kind that a code stands for.
pub open spec fn kind_of(code: u32) -> ErrorKind {
    if code < coded_kinds().len() {
        coded_kinds()[code as int]
    } else {
        ErrorKind::Other
    }
}

/// The code of an error kind.
pub fn error_kind_to_u32(kind: ErrorKind) -> (code: u32)
    ensures
        code == code_of(kind),
{
    match kind {
        ErrorKind::NotFound => 0,
        ErrorKind::PermissionDenied => 1,
        ErrorKind::ConnectionRefused => 2,
        ErrorKind::ConnectionReset => 3,
        ErrorKind::ConnectionAborted => 4,
        ErrorKind::NotConnected => 5,
        ErrorKind::AddrInUse => 6,
        ErrorKind::AddrNotAvailable => 7,
        ErrorKind::BrokenPipe => 8,
        ErrorKind::AlreadyExists => 9,
        ErrorKind::WouldBlock => 10,
        ErrorKind::InvalidInput => 11,
        ErrorKind::InvalidData => 12,
        ErrorKind::TimedOut => 13,
        ErrorKind::WriteZero => 14,
        ErrorKind::Interrupted => 15,
        ErrorKind::Other => 16,
        ErrorKind::UnexpectedEof => 17,
        ErrorKind::Unlisted => 16,
    }
}

/// The error kind of a code.
pub fn u32_to_error_kind(code: u32) -> (kind: ErrorKind)
    ensures
        kind == kind_of(code),
{
    match code {
        0 => ErrorKind::NotFound,
        1 => ErrorKind::PermissionDenied,
        2 => ErrorKind::ConnectionRefused,
        3 => ErrorKind::ConnectionReset,
        4 => ErrorKind::ConnectionAborted,
        5 => ErrorKind::NotConnected,
        6 => ErrorKind::AddrInUse,
        7 => ErrorKind::AddrNotAvailable,
        8 => ErrorKind::BrokenPipe,
        9 => ErrorKind::AlreadyExists,
        10 => ErrorKind::WouldBlock,
        11 => ErrorKind::InvalidInput,
        12 => ErrorKind::InvalidData,
        13 => ErrorKind::TimedOut,
        14 => ErrorKind::WriteZero,
        15 => ErrorKind::Interrupted,
        16 => ErrorKind::Other,
        17 => ErrorKind::UnexpectedEof,
        _ => ErrorKind::Other,
    }
}

/// A kind comes back from its code. A kind without a code comes back as `Other`.
pub proof fn law_kind_survives_coding(kind: ErrorKind)
    ensures
        kind !is Unlisted ==> kind_of(code_of(kind)) == kind,
        kind is Unlisted ==> kind_of(code_of(kind)) == ErrorKind::Other,
{
}

/// A code comes back from its kind. A code without a kind of its own comes back
/// as that of `Other`.
pub proof fn law_code_survives_decoding(code: u32)
    ensures
        code <= 17 ==> code_of(kind_of(code)) == code,
        code > 17 ==> code_of(kind_of(code)) == 16,
{
}

/// No two kinds share a code, but that of `Other` stands for the kinds without
/// one too.
pub proof fn law_codes_are_distinct(a: ErrorKind, b: ErrorKind)
    requires
        a !is Unlisted,
        b !is Unlisted,
        code_of(a) == code_of(b),
    ensures
        a == b,
{
}

/// The code that stands for each kind.
pub proof fn law_codes_are_those_of_the_table(kind: ErrorKind, code: u32)
    requires
        call_ensures(error_kind_to_u32, (kind,), code),
    ensures
        kind is NotFound ==> code == 0,
        kind is PermissionDenied ==> code == 1,
        kind is ConnectionRefused ==> code == 2,
        kind is ConnectionReset ==> code == 3,
        kind is ConnectionAborted ==> code == 4,
        kind is NotConnected ==> code == 5,
        kind is AddrInUse ==> code == 6,
        kind is AddrNotAvailable ==> code == 7,
        kind is BrokenPipe ==> code == 8,
        kind is AlreadyExists ==> code == 9,
        kind is WouldBlock ==> code == 10,
        kind is InvalidInput ==> code == 11,
        kind is InvalidData ==> code == 12,
        kind is TimedOut ==> code == 13,
        kind is WriteZero ==> code == 14,
        kind is Interrupted ==> code == 15,
        kind is Other ==> code == 16,
        kind is UnexpectedEof ==> code == 17,
        kind is Unlisted ==> code == 16,
{
    law_the_table(kind, code);
}

/// The kind that each code stands for.
pub proof fn law_kinds_are_those_of_the_table(code: u32, kind: ErrorKind)
    requires
        call_ensures(u32_to_error_kind, (code,), kind),
    ensures
        code == 0 ==> kind is NotFound,
        code == 1 ==> kind is PermissionDenied,
        code == 2 ==> kind is ConnectionRefused,
        code == 3 ==> kind is ConnectionReset,
        code == 4 ==> kind is ConnectionAborted,
        code == 5 ==> kind is NotConnected,
        code == 6 ==> kind is AddrInUse,
        code == 7 ==> kind is AddrNotAvailable,
        code == 8 ==> kind is BrokenPipe,
        code == 9 ==> kind is AlreadyExists,
        code == 10 ==> kind is WouldBlock,
        code == 11 ==> kind is InvalidInput,
        code == 12 ==> kind is InvalidData,
        code == 13 ==> kind is TimedOut,
        code == 14 ==> kind is WriteZero,
        code == 15 ==> kind is Interrupted,
        code == 16 ==> kind is Other,
        code == 17 ==> kind is UnexpectedEof,
        code > 17 ==> kind is Other,
{
    law_the_table(kind, code);
}

/// The table of codes and kinds.
pub proof fn law_the_table(kind: ErrorKind, code: u32)
    ensures
        kind is NotFound ==> code_of(kind) == 0,
        kind is PermissionDenied ==> code_of(kind) == 1,
        kind is ConnectionRefused ==> code_of(kind) == 2,
        kind is ConnectionReset ==> code_of(kind) == 3,
        kind is ConnectionAborted ==> code_of(kind) == 4,
        kind is NotConnected ==> code_of(kind) == 5,
        kind is AddrInUse ==> code_of(kind) == 6,
        kind is AddrNotAvailable ==> code_of(kind) == 7,
        kind is BrokenPipe ==> code_of(kind) == 8,
        kind is AlreadyExists ==> code_of(kind) == 9,
        kind is WouldBlock ==> code_of(kind) == 10,
        kind is InvalidInput ==> code_of(kind) == 11,
        kind is InvalidData ==> code_of(kind) == 12,
        kind is TimedOut ==> code_of(kind) == 13,
        kind is WriteZero ==> code_of(kind) == 14,
        kind is Interrupted ==> code_of(kind) == 15,
        kind is Other ==> code_of(kind) == 16,
        kind is UnexpectedEof ==> code_of(kind) == 17,
        kind is Unlisted ==> code_of(kind) == 16,
        code == 0 ==> kind_of(code) is NotFound,
        code == 1 ==> kind_of(code) is PermissionDenied,
        code == 2 ==> kind_of(code) is ConnectionRefused,
        code == 3 ==> kind_of(code) is ConnectionReset,
        code == 4 ==> kind_of(code) is ConnectionAborted,
        code == 5 ==> kind_of(code) is NotConnected,
        code == 6 ==> kind_of(code) is AddrInUse,
        code == 7 ==> kind_of(code) is AddrNotAvailable,
        code == 8 ==> kind_of(code) is BrokenPipe,
        code == 9 ==> kind_of(code) is AlreadyExists,
        code == 10 ==> kind_of(code) is WouldBlock,
        code == 11 ==> kind_of(code) is InvalidInput,
        code == 12 ==> kind_of(code) is InvalidData,
        code == 13 ==> kind_of(code) is TimedOut,
        code == 14 ==> kind_of(code) is WriteZero,
        code == 15 ==> kind_of(code) is Interrupted,
        code == 16 ==> kind_of(code) is Other,
        code == 17 ==> kind_of(code) is UnexpectedEof,
        code > 17 ==> kind_of(code) is Other,
{
}

} // verus!
