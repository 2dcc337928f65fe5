use fory_core::{Config, Error, ReadContext, Reader, TypeResolver, WriteContext};
use fory_envelope::wire::{WireError, WireValue};

fn bytes_of<T: WireValue>(value: &T) -> Vec<u8> {
    let mut context = WriteContext::new(TypeResolver::default(), Config::default());
    value.fory_write_data(&mut context).unwrap();
    context.writer.dump()
}

/// The value read from `bytes`, and the count of bytes taken.
fn read<T: WireValue>(bytes: &[u8]) -> (Result<T, WireError>, usize) {
    let mut context = ReadContext::new(TypeResolver::default(), Config::default());
    context.attach_reader(Reader::new(bytes));
    let result = T::fory_read_data(&mut context);
    (result, context.reader.get_cursor())
}

fn read_ok<T: WireValue>(bytes: &[u8]) -> (T, usize) {
    let (result, taken) = read::<T>(bytes);
    match result {
        Ok(value) => (value, taken),
        Err(e) => panic!("{:?}", e),
    }
}

/// Whether Fory refused the bytes with these numbers.
fn is_out_of_bound<T>(result: Result<T, WireError>, at: usize, len: usize, end: usize) -> bool {
    match result {
        Err(WireError::Fory(Error::BufferOutOfBound(a, b, c))) => (a, b, c) == (at, len, end),
        _ => false,
    }
}

#[test]
fn defaults_are_zero_and_empty() {
    assert_eq!(u8::fory_default(), 0);
    assert_eq!(u32::fory_default(), 0);
    assert_eq!(u64::fory_default(), 0);
    assert_eq!(u128::fory_default(), 0);
    assert_eq!(<String as WireValue>::fory_default(), "");
}

#[test]
fn u8_is_one_byte() {
    assert_eq!(bytes_of(&0u8), vec![0]);
    assert_eq!(bytes_of(&255u8), vec![255]);
    assert_eq!(read_ok::<u8>(&[200, 1]), (200, 1));
    let (result, taken) = read::<u8>(&[]);
    assert!(is_out_of_bound(result, 0, 0, 0));
    assert_eq!(taken, 0);
}

#[test]
fn u32_has_seven_bits_to_the_byte() {
    assert_eq!(bytes_of(&0u32), vec![0]);
    assert_eq!(bytes_of(&127u32), vec![0x7f]);
    assert_eq!(bytes_of(&128u32), vec![0x80, 0x01]);
    assert_eq!(bytes_of(&300u32), vec![0xac, 0x02]);
    assert_eq!(bytes_of(&16383u32), vec![0xff, 0x7f]);
    assert_eq!(bytes_of(&16384u32), vec![0x80, 0x80, 0x01]);
    assert_eq!(bytes_of(&2097151u32), vec![0xff, 0xff, 0x7f]);
    assert_eq!(bytes_of(&2097152u32), vec![0x80, 0x80, 0x80, 0x01]);
    assert_eq!(bytes_of(&268435455u32), vec![0xff, 0xff, 0xff, 0x7f]);
    assert_eq!(bytes_of(&268435456u32), vec![0x80, 0x80, 0x80, 0x80, 0x01]);
    assert_eq!(bytes_of(&u32::MAX), vec![0xff, 0xff, 0xff, 0xff, 0x0f]);
    for v in [0u32, 1, 127, 128, 16383, 16384, 2097151, 2097152, 268435456, u32::MAX] {
        let mut bytes = bytes_of(&v);
        let len = bytes.len();
        bytes.push(0xee);
        assert_eq!(read_ok::<u32>(&bytes), (v, len));
    }
}

#[test]
fn u32_keeps_four_bits_of_a_fifth_byte() {
    assert_eq!(read_ok::<u32>(&[0x80, 0x80, 0x80, 0x80, 0xf1, 7]), (0x1000_0000, 5));
}

#[test]
fn u32_that_ends_too_early_takes_nothing() {
    for n in 0usize..5 {
        let bytes = vec![0x80u8; n];
        let (result, taken) = read::<u32>(&bytes);
        assert!(is_out_of_bound(result, n, n, n));
        assert_eq!(taken, 0);
    }
}

#[test]
fn u64_has_eight_bits_in_a_ninth_byte() {
    assert_eq!(bytes_of(&1u64), vec![1]);
    assert_eq!(bytes_of(&300u64), vec![0xac, 0x02]);
    assert_eq!(bytes_of(&(1u64 << 35)), vec![0x80, 0x80, 0x80, 0x80, 0x80, 0x01]);
    assert_eq!(
        bytes_of(&((1u64 << 56) - 1)),
        vec![0xff, 0xff, 0xff, 0xff, 0xff, 0xff, 0xff, 0x7f]
    );
    assert_eq!(
        bytes_of(&(1u64 << 56)),
        vec![0x80, 0x80, 0x80, 0x80, 0x80, 0x80, 0x80, 0x80, 0x01]
    );
    assert_eq!(bytes_of(&u64::MAX), vec![0xff; 9]);
    for shift in 0u32..64 {
        for v in [1u64 << shift, (1u64 << shift) - 1, u64::MAX >> shift] {
            let mut bytes = bytes_of(&v);
            let len = bytes.len();
            bytes.push(0xee);
            assert_eq!(read_ok::<u64>(&bytes), (v, len));
        }
    }
    let (result, taken) = read::<u64>(&[0x80; 8]);
    assert!(is_out_of_bound(result, 8, 8, 8));
    assert_eq!(taken, 0);
}

#[test]
fn u128_is_sixteen_bytes_lowest_first() {
    let v = 0x0f0e_0d0c_0b0a_0908_0706_0504_0302_0100u128;
    let bytes: Vec<u8> = (0u8..16).collect();
    assert_eq!(bytes_of(&v), bytes);
    assert_eq!(read_ok::<u128>(&bytes), (v, 16));
    assert_eq!(bytes_of(&u128::MAX), vec![0xff; 16]);
    let (result, taken) = read::<u128>(&bytes[1..]);
    assert!(is_out_of_bound(result, 0, 16, 15));
    assert_eq!(taken, 0);
}

#[test]
fn u128_has_no_cross_language_form() {
    let mut config = Config::default();
    config.xlang = true;
    let mut context = WriteContext::new(TypeResolver::default(), config);
    let result = 5u128.fory_write_data(&mut context);
    assert!(matches!(result, Err(WireError::Fory(Error::NotAllowed(_)))));
    assert!(context.writer.dump().is_empty());
    5u64.fory_write_data(&mut context).unwrap();
    5u32.fory_write_data(&mut context).unwrap();
    5u8.fory_write_data(&mut context).unwrap();
    "5".to_string().fory_write_data(&mut context).unwrap();
    assert_eq!(context.writer.dump(), vec![5, 5, 5, 6, b'5']);
}

#[test]
fn string_has_a_header_and_utf8_bytes() {
    assert_eq!(bytes_of(&"".to_string()), vec![2]);
    assert_eq!(bytes_of(&"hi".to_string()), vec![10, b'h', b'i']);
    assert_eq!(bytes_of(&"\u{e9}".to_string()), vec![10, 0xc3, 0xa9]);
    // 32 bytes: 4 * 32 + 2 = 130.
    let text = "x".repeat(32);
    let bytes = bytes_of(&text);
    assert_eq!(&bytes[..2], &[0x82, 0x01]);
    assert_eq!(bytes.len(), 34);
}

#[test]
fn strings_without_padding_come_back() {
    for len in [0usize, 1, 2, 3, 5, 6, 7, 8, 31, 32, 127, 128, 4094, 4095, 524288, 4194304] {
        let text = "x".repeat(len);
        let mut bytes = bytes_of(&text);
        let count = bytes.len();
        assert_eq!(read_ok::<String>(&bytes), (text.clone(), count));
        bytes.extend_from_slice(&[0xee; 9]);
        assert_eq!(read_ok::<String>(&bytes), (text, count));
    }
    let text = "gr\u{fc}\u{df} \u{1f980}".to_string();
    let bytes = bytes_of(&text);
    assert_eq!(read_ok::<String>(&bytes), (text, bytes.len()));
}

#[test]
fn strings_with_padding_do_not_come_back() {
    // A header of three bytes goes out as four, and the fourth is read as text.
    for len in [4096usize, 524287] {
        let text = "x".repeat(len);
        let bytes = bytes_of(&text);
        assert_eq!(bytes.len(), 4 + len);
        assert_eq!(bytes[3], 0);
        let (back, taken) = read_ok::<String>(&bytes);
        assert_eq!(taken, 3 + len);
        assert_eq!(back, format!("\0{}", "x".repeat(len - 1)));
    }
    // A header of five bytes goes out as eight.
    let len = 67108864usize;
    let bytes = bytes_of(&"x".repeat(len));
    assert_eq!(bytes.len(), 8 + len);
    assert_eq!(&bytes[..9], &[0x82, 0x80, 0x80, 0x80, 0x01, 0, 0, 0, b'x']);
    let (back, taken) = read_ok::<String>(&bytes);
    assert_eq!(taken, 5 + len);
    assert_eq!(&back.as_bytes()[..4], &[0, 0, 0, b'x']);
    // The last length of a four-byte header.
    let text = "x".repeat(67108863);
    let bytes = bytes_of(&text);
    let (back, taken) = read_ok::<String>(&bytes);
    assert_eq!(taken, bytes.len());
    assert!(back == text);
}

#[test]
fn latin1_strings_are_read() {
    // 4 * 3 + 0 = 12.
    assert_eq!(read_ok::<String>(&[12, b'a', 0xe9, b'b', 1]), ("a\u{e9}b".to_string(), 4));
    let mut bytes = vec![0x80 | 0x10, 0x03]; // 4 * 100 = 400 = 0x190
    bytes.extend_from_slice(&[0xff; 100]);
    assert_eq!(read_ok::<String>(&bytes), ("\u{ff}".repeat(100), 102));
}

#[test]
fn utf16_strings_are_read() {
    // 4 * 4 + 1 = 17: "h" and U+20AC.
    assert_eq!(read_ok::<String>(&[17, b'h', 0, 0xac, 0x20]), ("h\u{20ac}".to_string(), 5));
    // A pair of surrogates: U+1D11E.
    assert_eq!(read_ok::<String>(&[17, 0x34, 0xd8, 0x1e, 0xdd]), ("\u{1d11e}".to_string(), 5));
    // A surrogate before a pair, and one after it.
    assert_eq!(
        read_ok::<String>(&[33, 0x34, 0xd8, 0x34, 0xd8, 0x1e, 0xdd, 0x1e, 0xdd]),
        ("\u{fffd}\u{1d11e}\u{fffd}".to_string(), 9)
    );
    // A lone surrogate, and an odd last byte.
    assert_eq!(read_ok::<String>(&[13, 0x00, 0xd8, b'x']), ("\u{fffd}".to_string(), 4));
}

#[test]
fn a_string_needs_a_mark_that_is_known() {
    let (result, taken) = read::<String>(&[3]);
    assert!(matches!(result, Err(WireError::Fory(Error::EncodingError(_)))));
    assert_eq!(taken, 1);
}

#[test]
fn a_string_needs_all_its_bytes() {
    let (result, taken) = read::<String>(&[10, b'h']);
    assert!(is_out_of_bound(result, 1, 2, 2));
    assert_eq!(taken, 1);
    let (result, taken) = read::<String>(&[42, 1, 2, 3, 4, 5, 6, 7, 8]);
    assert!(is_out_of_bound(result, 1, 10, 9));
    assert_eq!(taken, 1);
}

#[test]
fn a_short_string_header_is_closed_by_the_end() {
    // Nothing at all reads as a Latin-1 string without text.
    assert_eq!(read_ok::<String>(&[]), ("".to_string(), 0));
    assert_eq!(read_ok::<String>(&[0x82]).1, 1);
    assert_eq!(read_ok::<String>(&[0x82]).0, "");
    // Six groups, and a seventh byte.
    let (result, taken) = read::<String>(&[0x80, 0x80, 0x80, 0x80, 0x80, 0x80, 0]);
    assert!(matches!(result, Err(WireError::Fory(Error::EncodeError(_)))));
    assert_eq!(taken, 6);
    assert_eq!(read_ok::<String>(&[0x82, 0x80, 0x80, 0x80, 0x80, 0]), ("".to_string(), 6));
}

#[test]
fn nothing_reads_from_beyond_the_end() {
    let bytes = [1u8, 2];
    let mut context = ReadContext::new(TypeResolver::default(), Config::default());
    context.attach_reader(Reader::new(&bytes));
    context.reader.set_cursor(5);
    assert!(is_out_of_bound(u8::fory_read_data(&mut context), 5, 2, 2));
    assert!(is_out_of_bound(u32::fory_read_data(&mut context), 5, 2, 2));
    assert!(is_out_of_bound(u64::fory_read_data(&mut context), 5, 2, 2));
    assert!(is_out_of_bound(u128::fory_read_data(&mut context), 5, 16, 2));
    assert!(is_out_of_bound(String::fory_read_data(&mut context), 5, 0, 2));
    assert_eq!(context.reader.get_cursor(), 5);
}
