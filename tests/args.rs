use label_printer::{
    barcode_args, connect_args, discover_args, gb18030_with_nul, qr_args, text_args,
    truetype_text_args, BarcodeType, PortType, PrintLanguage, DISCOVER_BUFFER_LEN, PRINT_TEXT_FLAG,
    QR_KIND,
};

#[test]
fn gb18030_encodes_chinese_text() {
    assert_eq!(gb18030_with_nul("中"), vec![0xD6, 0xD0, 0]);
}

#[test]
fn gb18030_keeps_ascii() {
    assert_eq!(gb18030_with_nul("A1"), vec![b'A', b'1', 0]);
    assert_eq!(gb18030_with_nul(""), vec![0]);
}

#[test]
fn discover_args_for_usb() {
    let a = discover_args(PortType::USB);
    assert_eq!(a.port_type, 3);
    assert_eq!(a.buffer_len, DISCOVER_BUFFER_LEN);
    assert_eq!(DISCOVER_BUFFER_LEN, 16);
}

#[test]
fn connect_args_for_network_printer() {
    let a = connect_args(PortType::NET, "192.168.1.20", PrintLanguage::BPLZ);
    assert_eq!(a.port_type, 4);
    assert_eq!(a.language, 2);
    assert_eq!(a.port_info, b"192.168.1.20\0".to_vec());
}

#[test]
fn text_args_encode_text() {
    let a = text_args(10, 20, "Arial", "中文", 90, 2, 3);
    assert_eq!((a.x, a.y, a.angle, a.font_size_h, a.font_size_v), (10, 20, 90, 2, 3));
    assert_eq!(a.font_name, b"Arial\0".to_vec());
    assert_eq!(a.text, vec![0xD6, 0xD0, 0xCE, 0xC4, 0]);
    assert_eq!(a.flag, PRINT_TEXT_FLAG);
    assert_eq!(PRINT_TEXT_FLAG, 1);
}

#[test]
fn truetype_text_args_encode_text() {
    let a = truetype_text_args(1, 2, "宋体", 24, 32, "Hi", 0, 1);
    assert_eq!((a.x, a.y, a.font_width, a.font_height, a.angle, a.style), (1, 2, 24, 32, 0, 1));
    assert_eq!(a.font_name, "宋体\0".as_bytes().to_vec());
    assert_eq!(a.text, b"Hi\0".to_vec());
}

#[test]
fn qr_args_carry_length_and_level() {
    let a = qr_args(5, 6, "hello", 'M', 4, 2);
    assert_eq!(a.kind, QR_KIND);
    assert_eq!(QR_KIND, 0);
    assert_eq!(a.content, b"hello\0".to_vec());
    assert_eq!(a.content_len, 5);
    assert_eq!(a.ecc_level as u8, b'M');
    assert_eq!((a.x, a.y, a.cell_width, a.model), (5, 6, 4, 2));
}

#[test]
fn qr_length_counts_bytes_not_characters() {
    let a = qr_args(0, 0, "é", 'L', 1, 1);
    assert_eq!(a.content_len, 2);
}

#[test]
fn barcode_args_map_symbology() {
    let a = barcode_args(1, 2, BarcodeType::EAN13, 90, "6901234567892", 50, 1, 2, 4);
    assert_eq!(a.barcode_type, 5);
    assert_eq!(a.content, b"6901234567892\0".to_vec());
    assert_eq!((a.x, a.y, a.rotate, a.height, a.hri), (1, 2, 90, 50, 1));
    assert_eq!((a.narrow_bar_width, a.wide_bar_width), (2, 4));
}
