use susfs::cstr::{c_array_len, c_array_to_bytes, c_array_to_string, str_to_c_array};

#[test]
fn short_text_is_written_with_terminator_and_rest_is_kept() {
    let mut buf = [7u8; 8];
    str_to_c_array("abc", &mut buf);
    assert_eq!(buf, [b'a', b'b', b'c', 0, 7, 7, 7, 7]);
}

#[test]
fn short_text_reads_back() {
    let mut buf = [0u8; 16];
    str_to_c_array("/data/adb", &mut buf);
    assert_eq!(c_array_len(&buf), 9);
    assert_eq!(c_array_to_bytes(&buf), b"/data/adb".to_vec());
    assert_eq!(c_array_to_string(&buf), "/data/adb");
}

#[test]
fn text_of_capacity_less_one_fills_the_buffer() {
    let mut buf = [9u8; 4];
    str_to_c_array("xyz", &mut buf);
    assert_eq!(buf, [b'x', b'y', b'z', 0]);
    assert_eq!(c_array_to_string(&buf), "xyz");
}

#[test]
fn long_text_is_cut_not_refused() {
    let mut buf = [9u8; 4];
    str_to_c_array("abcdefgh", &mut buf);
    assert_eq!(buf, [b'a', b'b', b'c', 0]);
    let mut exact = [9u8; 4];
    str_to_c_array("abcd", &mut exact);
    assert_eq!(exact, [b'a', b'b', b'c', 0]);
}

#[test]
fn pathname_longer_than_its_buffer_is_cut_at_255() {
    let long = "p".repeat(300);
    let mut buf = [0u8; 256];
    str_to_c_array(&long, &mut buf);
    assert!(buf[..255].iter().all(|&b| b == b'p'));
    assert_eq!(buf[255], 0);
}

#[test]
fn empty_text_writes_only_the_terminator() {
    let mut buf = [5u8; 3];
    str_to_c_array("", &mut buf);
    assert_eq!(buf, [0, 5, 5]);
    assert_eq!(c_array_to_string(&buf), "");
}

#[test]
fn buffer_of_one_byte_holds_only_the_terminator() {
    let mut buf = [5u8; 1];
    str_to_c_array("abc", &mut buf);
    assert_eq!(buf, [0]);
}

#[test]
fn text_with_a_zero_byte_reads_back_only_up_to_it() {
    let mut buf = [0u8; 8];
    str_to_c_array("a\0b", &mut buf);
    assert_eq!(&buf[..4], &[b'a', 0, b'b', 0]);
    assert_eq!(c_array_to_string(&buf), "a");
}

#[test]
fn multibyte_text_is_copied_byte_by_byte() {
    let mut buf = [0u8; 8];
    str_to_c_array("h\u{e9}", &mut buf);
    assert_eq!(&buf[..4], &[b'h', 0xc3, 0xa9, 0]);
    assert_eq!(c_array_to_string(&buf), "h\u{e9}");
}

#[test]
fn buffer_without_zero_byte_is_text_to_its_end() {
    let buf = *b"0123456789abcdef";
    assert_eq!(c_array_len(&buf), 16);
    assert_eq!(c_array_to_string(&buf), "0123456789abcdef");
}

#[test]
fn empty_buffer_holds_empty_text() {
    assert_eq!(c_array_len(&[]), 0);
    assert_eq!(c_array_to_string(&[]), "");
}

#[test]
fn bytes_that_are_no_text_give_the_placeholder() {
    assert_eq!(c_array_to_string(&[0xff, 0xfe, 0, 0]), "<invalid>");
    assert_eq!(c_array_to_string(&[b'v', 0xc3, 0, 0]), "<invalid>");
    assert_eq!(c_array_to_bytes(&[0xff, 0xfe, 0, 0]), vec![0xff, 0xfe]);
}

#[test]
fn text_ends_at_the_first_zero_byte() {
    assert_eq!(c_array_to_string(&[b'a', b'b', 0, b'c', 0]), "ab");
    assert_eq!(c_array_len(&[0, b'c', 0]), 0);
}
