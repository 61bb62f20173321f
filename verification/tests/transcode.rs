use pasteboard::error::ClipboardError;
use pasteboard::transcode::{buffer_capacity, nsstring_to_rust_string, payload_len};

fn c_string(text: &str, capacity: usize, filler: u8) -> Vec<u8> {
    let mut buffer = vec![filler; capacity];
    buffer[..text.len()].copy_from_slice(text.as_bytes());
    buffer[text.len()] = 0;
    buffer
}

#[test]
fn capacity_is_one_more_than_the_payload() {
    assert_eq!(buffer_capacity(0), Some(1));
    assert_eq!(buffer_capacity(1), Some(2));
    assert_eq!(buffer_capacity(4095), Some(4096));
    assert_eq!(buffer_capacity(4096), Some(4097));
    assert_eq!(buffer_capacity(usize::MAX - 1), Some(usize::MAX));
}

#[test]
fn capacity_does_not_wrap() {
    assert_eq!(buffer_capacity(usize::MAX), None);
}

#[test]
fn payload_ends_at_the_first_nul() {
    assert_eq!(payload_len(b"abc\0"), 3);
    assert_eq!(payload_len(b"abc\0def\0"), 3);
    assert_eq!(payload_len(b"\0abc"), 0);
    assert_eq!(payload_len(b"\0"), 0);
}

#[test]
fn payload_without_a_nul_is_the_whole_buffer() {
    assert_eq!(payload_len(b"abc"), 3);
    assert_eq!(payload_len(b""), 0);
}

#[test]
fn decodes_multibyte_text() {
    let text = "héllo 🌍";
    let buffer = c_string(text, text.len() + 1, 0);
    assert_eq!(buffer.len(), 12);
    assert_eq!(nsstring_to_rust_string(true, &buffer), Ok(String::from(text)));
}

#[test]
fn decodes_the_empty_text() {
    assert_eq!(nsstring_to_rust_string(true, &[0u8]), Ok(String::new()));
    assert_eq!(nsstring_to_rust_string(true, &[]), Ok(String::new()));
}

#[test]
fn decodes_one_byte() {
    assert_eq!(nsstring_to_rust_string(true, &[b'x', 0]), Ok(String::from("x")));
}

#[test]
fn decodes_a_page_of_text() {
    for n in [4095usize, 4096, 4097] {
        let text = "a".repeat(n);
        let buffer = c_string(&text, n + 1, 0);
        let read = nsstring_to_rust_string(true, &buffer).unwrap();
        assert_eq!(read.len(), n);
        assert_eq!(read, text);
    }
}

#[test]
fn ignores_what_follows_the_terminator() {
    let buffer = c_string("héllo", 64, 0xAA);
    assert_eq!(nsstring_to_rust_string(true, &buffer), Ok(String::from("héllo")));
    assert_eq!(nsstring_to_rust_string(true, b"one\0two\0"), Ok(String::from("one")));
}

#[test]
fn takes_the_whole_buffer_where_no_terminator_is_found() {
    assert_eq!(nsstring_to_rust_string(true, b"abc"), Ok(String::from("abc")));
}

#[test]
fn replaces_ill_formed_bytes() {
    assert_eq!(
        nsstring_to_rust_string(true, b"a\xFFb\0"),
        Ok(String::from("a\u{FFFD}b"))
    );
    assert_eq!(
        nsstring_to_rust_string(true, b"\xF0\x9F\x8C\0"),
        Ok(String::from("\u{FFFD}"))
    );
    assert_eq!(
        nsstring_to_rust_string(true, b"ok \xC3\0"),
        Ok(String::from("ok \u{FFFD}"))
    );
}

#[test]
fn a_failed_fill_is_an_encoding_error() {
    assert_eq!(
        nsstring_to_rust_string(false, b"abc\0"),
        Err(ClipboardError::EncodingConversionFailed)
    );
    assert_eq!(
        nsstring_to_rust_string(false, &[]),
        Err(ClipboardError::EncodingConversionFailed)
    );
}

#[test]
fn messages_name_the_failed_request() {
    assert_eq!(
        ClipboardError::PlatformUnsupported.message(),
        "Class::get(\"NSPasteboard\")"
    );
    assert_eq!(
        ClipboardError::ServiceUnavailable.message(),
        "NSPasteboard#generalPasteboard returned null"
    );
    assert_eq!(
        ClipboardError::NoTextContent.message(),
        "pasteboard#stringForType returned null"
    );
    assert_eq!(
        ClipboardError::EncodingConversionFailed.message(),
        "Casting from NSString to Rust string has failed"
    );
    assert_eq!(
        ClipboardError::WriteRejected.message(),
        "NSPasteboard#writeObjects: returned false"
    );
}
