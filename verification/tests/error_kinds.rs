use fory_envelope::error_kind::{error_kind_to_u32, u32_to_error_kind, ErrorKind};

const LISTED: [(u32, ErrorKind); 18] = [
    (0, ErrorKind::NotFound),
    (1, ErrorKind::PermissionDenied),
    (2, ErrorKind::ConnectionRefused),
    (3, ErrorKind::ConnectionReset),
    (4, ErrorKind::ConnectionAborted),
    (5, ErrorKind::NotConnected),
    (6, ErrorKind::AddrInUse),
    (7, ErrorKind::AddrNotAvailable),
    (8, ErrorKind::BrokenPipe),
    (9, ErrorKind::AlreadyExists),
    (10, ErrorKind::WouldBlock),
    (11, ErrorKind::InvalidInput),
    (12, ErrorKind::InvalidData),
    (13, ErrorKind::TimedOut),
    (14, ErrorKind::WriteZero),
    (15, ErrorKind::Interrupted),
    (16, ErrorKind::Other),
    (17, ErrorKind::UnexpectedEof),
];

#[test]
fn every_listed_kind_has_its_code() {
    for (code, kind) in LISTED {
        assert_eq!(error_kind_to_u32(kind), code);
        assert_eq!(u32_to_error_kind(code), kind);
    }
}

#[test]
fn a_kind_without_a_code_travels_as_other() {
    assert_eq!(error_kind_to_u32(ErrorKind::Unlisted), 16);
}

#[test]
fn a_code_without_a_kind_is_other() {
    for code in [18u32, 19, 100, u32::MAX] {
        assert_eq!(u32_to_error_kind(code), ErrorKind::Other);
        assert_eq!(error_kind_to_u32(u32_to_error_kind(code)), 16);
    }
}

#[test]
fn no_two_listed_kinds_share_a_code() {
    for (a, first) in LISTED {
        for (b, second) in LISTED {
            assert_eq!(error_kind_to_u32(first) == error_kind_to_u32(second), a == b);
        }
    }
}
