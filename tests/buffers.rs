use label_printer::{append_nul, c_string_bytes, decode_c_buffer, latin1_string, with_nul};

#[test]
fn with_nul_appends_one_zero() {
    assert_eq!(with_nul("abc"), vec![b'a', b'b', b'c', 0]);
}

#[test]
fn with_nul_of_empty_text() {
    assert_eq!(with_nul(""), vec![0]);
}

#[test]
fn with_nul_keeps_utf8() {
    assert_eq!(with_nul("é"), vec![0xC3, 0xA9, 0]);
}

#[test]
fn append_nul_to_bytes() {
    assert_eq!(append_nul(vec![1, 2]), vec![1, 2, 0]);
    assert_eq!(append_nul(Vec::new()), vec![0]);
}

#[test]
fn c_string_stops_at_first_nul() {
    assert_eq!(c_string_bytes(&[b'a', b'b', 0, b'c', 0]), vec![b'a', b'b']);
}

#[test]
fn c_string_without_nul_is_whole_buffer() {
    assert_eq!(c_string_bytes(&[b'x', b'y', b'z']), vec![b'x', b'y', b'z']);
}

#[test]
fn c_string_with_leading_nul_is_empty() {
    assert_eq!(c_string_bytes(&[0, b'a']), Vec::<u8>::new());
}

#[test]
fn c_string_of_empty_buffer() {
    assert_eq!(c_string_bytes(&[]), Vec::<u8>::new());
}

#[test]
fn latin1_maps_each_byte() {
    assert_eq!(latin1_string(&[0x41, 0xE9, 0x7A]), "Aéz");
}

#[test]
fn decode_buffer_reads_up_to_nul() {
    let mut buf = vec![0u8; 64];
    buf[..9].copy_from_slice(b"BP-300E@1");
    assert_eq!(decode_c_buffer(&buf), "BP-300E@1");
}

#[test]
fn decode_full_buffer_never_reads_past_end() {
    let buf = vec![b'q'; 16];
    let s = decode_c_buffer(&buf[..16]);
    assert_eq!(s.len(), 16);
    assert_eq!(s, "qqqqqqqqqqqqqqqq");
}
