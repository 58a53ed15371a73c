//! Verified argument marshalling for a vendor label-printer SDK.
//!
//! The library maps the caller-facing enumerations onto the integer codes of
//! the SDK's C interface, builds the NUL-terminated and GB18030-encoded byte
//! buffers that its entry points expect, and decodes the buffers it fills.
//! Loading the shared library and invoking its symbols happens outside.

mod args;
mod buffer;
mod codes;
mod devices;
mod text;

pub use args::{
    barcode_args, connect_args, discover_args, qr_args, text_args, truetype_text_args, BarcodeArgs,
    ConnectArgs, DiscoverArgs, QrArgs, TextArgs, TrueTypeTextArgs, DISCOVER_BUFFER_LEN, LABEL_COPIES,
    PRINTER_INFO_BUFFER_LEN, PRINT_TEXT_FLAG, QR_KIND,
};
pub use buffer::{
    c_string, c_string_bytes, decode_c_buffer, latin1_chars, latin1_string, lemma_c_string_within_buffer,
    lemma_nul_index_is_first_zero, nul_index, with_nul,
};
pub use codes::{
    lemma_barcode_type_codes_distinct, lemma_paper_mode_codes_distinct, lemma_port_type_codes_distinct,
    lemma_print_language_codes_distinct, lemma_print_method_codes_distinct, BarcodeType, PaperMode,
    PortType, PrintLanguage, PrintMethod,
};
pub use devices::{
    device_entries, lemma_device_entries_hold_no_separator, lemma_split_on_nonempty, split_devices,
    split_on, string_views, DEVICE_SEPARATOR,
};
pub use text::{append_nul, gb18030_of, gb18030_with_nul};
