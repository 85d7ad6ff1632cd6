use fspy_windows::io_error::{cast_signed, ErrorKind};
use fspy_windows::text::{decimal, hex_lower};
use fspy_windows::wide::{wide_with_nul, with_nul};
use fspy_windows::IoError;

#[test]
fn decimal_is_what_display_writes() {
    for value in [0u32, 1, 9, 10, 99, 100, 105, 1_000_000, u32::MAX] {
        assert_eq!(decimal(value), format!("{}", value));
    }
    assert_eq!(decimal(4_294_967_295), "4294967295");
}

#[test]
fn hex_is_what_lower_hex_writes() {
    for value in [0u128, 1, 15, 16, 255, 256, 0xDEAD_BEEF, u128::MAX] {
        assert_eq!(hex_lower(value), format!("{:x}", value));
    }
    assert_eq!(hex_lower(0xAB), "ab");
    assert_eq!(hex_lower(u128::MAX), "ffffffffffffffffffffffffffffffff");
}

#[test]
fn digits_can_be_read_back() {
    for value in [0u128, 7, 0x10, 0x0123_4567_89AB_CDEF, u128::MAX - 1] {
        assert_eq!(u128::from_str_radix(&hex_lower(value), 16), Ok(value));
    }
    assert_eq!(decimal(31_415).parse::<u32>(), Ok(31_415));
}

#[test]
fn wide_text_ends_in_zero() {
    assert_eq!(wide_with_nul(""), vec![0]);
    assert_eq!(wide_with_nul("ab"), vec![97, 98, 0]);
    assert_eq!(wide_with_nul("a\u{E9}\u{1F600}"), vec![97, 0xE9, 0xD83D, 0xDE00, 0]);
}

#[test]
fn wide_text_agrees_with_std() {
    for text in ["", "Local\\shm", "\u{D7FF}\u{E000}\u{FFFF}\u{10000}\u{10FFFF}", "x\0y"] {
        let mut expected: Vec<u16> = text.encode_utf16().collect();
        expected.push(0);
        assert_eq!(wide_with_nul(text), expected);
    }
}

#[test]
fn different_texts_have_different_units() {
    let texts = ["", "a", "aa", "\u{FFFF}", "\u{10000}", "\u{10001}"];
    for first in texts {
        for second in texts {
            assert_eq!(wide_with_nul(first) == wide_with_nul(second), first == second);
        }
    }
}

#[test]
fn units_are_kept_as_they_are() {
    assert_eq!(with_nul(&[]), vec![0]);
    assert_eq!(with_nul(&[0xD800, 0, 65]), vec![0xD800, 0, 65, 0]);
}

#[test]
fn codes_become_signed_numbers() {
    assert_eq!(cast_signed(0), 0);
    assert_eq!(cast_signed(5), 5);
    assert_eq!(cast_signed(0x7FFF_FFFF), i32::MAX);
    assert_eq!(cast_signed(0x8000_0000), i32::MIN);
    assert_eq!(cast_signed(0xFFFF_FFFF), -1);
    assert_eq!(cast_signed(0xC000_0022), -1_073_741_790);
}

#[test]
fn errors_have_kinds_and_messages() {
    let open = IoError::OpenSection { os_id: String::from("Local\\shm"), code: 2 };
    assert_eq!(open.kind(), Some(ErrorKind::NotFound));
    assert_eq!(
        open.message(),
        Some(String::from("OpenFileMappingW failed for 'Local\\shm': error 2"))
    );
    assert_eq!(open.raw_os_error(), None);

    let read = IoError::ReadNamedDacl { code: 1307 };
    assert_eq!(read.kind(), Some(ErrorKind::PermissionDenied));
    assert_eq!(read.message(), Some(String::from("GetNamedSecurityInfoW: error 1307")));
    assert_eq!(read.raw_os_error(), None);

    let number = IoError::from_code(5);
    assert_eq!(number, IoError::Os(5));
    assert_eq!(number.kind(), None);
    assert_eq!(number.message(), None);
    assert_eq!(number.raw_os_error(), Some(5));
}
