use libc::{c_char, c_int};
use vstd::prelude::*;
use vstd::string::StringSliceAdditionalSpecFns;

use crate::buffer::with_nul;
use crate::codes::{BarcodeType, PortType, PrintLanguage};
use crate::text::{gb18030_of, gb18030_with_nul};

verus! {

/// Length of the buffer handed to `DiscoverPrinter` for the device list.
pub const DISCOVER_BUFFER_LEN: c_int = 16;

/// Length of the buffer handed to `GetPrinterInfo` for the answer.
pub const PRINTER_INFO_BUFFER_LEN: c_int = 64;

/// Last argument of `PrintText`, which the SDK expects to be one.
pub const PRINT_TEXT_FLAG: c_int = 1;

/// Copies per label handed to `PrintLabel`.
pub const LABEL_COPIES: c_int = 1;

/// Barcode kind handed to `PrintBarcodeQR`, which selects a QR symbol.
pub const QR_KIND: c_int = 0;

/// Arguments of `DiscoverPrinter`, but for the buffers it fills.
pub struct DiscoverArgs {
    pub port_type: c_int,
    pub buffer_len: c_int,
}

/// Arguments of `DiscoverPrinter` for a search over `port_type`.
pub fn discover_args(port_type: PortType) -> (r: DiscoverArgs)
    ensures
        r.port_type == port_type.spec_code(),
        r.buffer_len == DISCOVER_BUFFER_LEN,
{
    DiscoverArgs { port_type: port_type.code(), buffer_len: DISCOVER_BUFFER_LEN }
}

/// Arguments of `ConnectPrinter`, but for the handle it fills.
pub struct ConnectArgs {
    pub port_type: c_int,
    pub port_info: Vec<u8>,
    pub language: c_int,
}

/// Arguments of `ConnectPrinter` for the device `dev_port_info` on `port_type`.
pub fn connect_args(port_type: PortType, dev_port_info: &str, printer_language: PrintLanguage) -> (r:
    ConnectArgs)
    ensures
        r.port_type == port_type.spec_code(),
        r.port_info@ == dev_port_info.spec_bytes().push(0),
        r.language == printer_language.spec_code(),
{
    ConnectArgs {
        port_type: port_type.code(),
        port_info: with_nul(dev_port_info),
        language: printer_language.code(),
    }
}

/// Arguments of `PrintText`, but for the printer handle.
pub struct TextArgs {
    pub x: c_int,
    pub y: c_int,
    pub font_name: Vec<u8>,
    pub text: Vec<u8>,
    pub angle: c_int,
    pub font_size_h: c_int,
    pub font_size_v: c_int,
    pub flag: c_int,
}

/// Arguments of `PrintText`: the font name as NUL-terminated UTF-8, the text
/// as NUL-terminated GB18030.
pub fn text_args(
    x: c_int,
    y: c_int,
    font_name: &str,
    text: &str,
    angle: c_int,
    font_size_h: c_int,
    font_size_v: c_int,
) -> (r: TextArgs)
    ensures
        r.x == x,
        r.y == y,
        r.font_name@ == font_name.spec_bytes().push(0),
        r.text@ == gb18030_of(text@).push(0),
        r.angle == angle,
        r.font_size_h == font_size_h,
        r.font_size_v == font_size_v,
        r.flag == PRINT_TEXT_FLAG,
{
    TextArgs {
        x,
        y,
        font_name: with_nul(font_name),
        text: gb18030_with_nul(text),
        angle,
        font_size_h,
        font_size_v,
        flag: PRINT_TEXT_FLAG,
    }
}

/// Arguments of `PrintTrueTypeText`, but for the printer handle.
pub struct TrueTypeTextArgs {
    pub x: c_int,
    pub y: c_int,
    pub font_name: Vec<u8>,
    pub font_width: c_int,
    pub font_height: c_int,
    pub text: Vec<u8>,
    pub angle: c_int,
    pub style: c_int,
}

/// Arguments of `PrintTrueTypeText`: the font name as NUL-terminated UTF-8,
/// the text as NUL-terminated GB18030.
pub fn truetype_text_args(
    x: c_int,
    y: c_int,
    font_name: &str,
    font_width: c_int,
    font_height: c_int,
    text: &str,
    angle: c_int,
    style: c_int,
) -> (r: TrueTypeTextArgs)
    ensures
        r.x == x,
        r.y == y,
        r.font_name@ == font_name.spec_bytes().push(0),
        r.font_width == font_width,
        r.font_height == font_height,
        r.text@ == gb18030_of(text@).push(0),
        r.angle == angle,
        r.style == style,
{
    TrueTypeTextArgs {
        x,
        y,
        font_name: with_nul(font_name),
        font_width,
        font_height,
        text: gb18030_with_nul(text),
        angle,
        style,
    }
}

/// Arguments of `PrintBarcodeQR`, but for the printer handle.
pub struct QrArgs {
    pub x: c_int,
    pub y: c_int,
    pub kind: c_int,
    pub content: Vec<u8>,
    pub content_len: c_int,
    pub ecc_level: c_char,
    pub cell_width: c_int,
    pub model: c_int,
}

/// Arguments of `PrintBarcodeQR`: the content as NUL-terminated UTF-8 with
/// its byte length, not counting the NUL, and the error-correction level as
/// the low byte of its character.
pub fn qr_args(
    x: c_int,
    y: c_int,
    content: &str,
    ecc_level: char,
    cell_width: c_int,
    model: c_int,
) -> (r: QrArgs)
    requires
        content.spec_bytes().len() <= c_int::MAX,
    ensures
        r.x == x,
        r.y == y,
        r.kind == QR_KIND,
        r.content@ == content.spec_bytes().push(0),
        r.content_len == content.spec_bytes().len(),
        r.ecc_level == ecc_level as c_char,
        r.cell_width == cell_width,
        r.model == model,
{
    let content_len = content.len() as c_int;
    QrArgs {
        x,
        y,
        kind: QR_KIND,
        content: with_nul(content),
        content_len,
        ecc_level: ecc_level as c_char,
        cell_width,
        model,
    }
}

/// Arguments of `PrintBarcode1D`, but for the printer handle.
pub struct BarcodeArgs {
    pub x: c_int,
    pub y: c_int,
    pub barcode_type: c_int,
    pub rotate: c_int,
    pub content: Vec<u8>,
    pub height: c_int,
    pub hri: c_int,
    pub narrow_bar_width: c_int,
    pub wide_bar_width: c_int,
}

/// Arguments of `PrintBarcode1D`: the symbology as its code, the content as
/// NUL-terminated UTF-8.
pub fn barcode_args(
    x: c_int,
    y: c_int,
    barcode_type: BarcodeType,
    rotate: c_int,
    content: &str,
    height: c_int,
    hri: c_int,
    narrow_bar_width: c_int,
    wide_bar_width: c_int,
) -> (r: BarcodeArgs)
    ensures
        r.x == x,
        r.y == y,
        r.barcode_type == barcode_type.spec_code(),
        r.rotate == rotate,
        r.content@ == content.spec_bytes().push(0),
        r.height == height,
        r.hri == hri,
        r.narrow_bar_width == narrow_bar_width,
        r.wide_bar_width == wide_bar_width,
{
    BarcodeArgs {
        x,
        y,
        barcode_type: barcode_type.code(),
        rotate,
        content: with_nul(content),
        height,
        hri,
        narrow_bar_width,
        wide_bar_width,
    }
}

} // verus!
