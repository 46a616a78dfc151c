use ffi_utils::string::{c_char_to_string, string_to_c_char, CharBuffer};

#[test]
fn test_string_to_c_char_basic() {
    // Test basic ASCII string conversion
    let rust_str = "Hello, World!";
    let c_str = string_to_c_char(rust_str);

    // Verify the buffer is a real allocation
    assert!(!c_str.as_bytes().is_empty());
}

#[test]
fn test_string_to_c_char_empty() {
    // Test empty string
    let rust_str = "";
    let c_str = string_to_c_char(rust_str);

    assert!(!c_str.as_bytes().is_empty());
}

#[test]
fn test_string_to_c_char_unicode() {
    // Test Unicode string
    let rust_str = "Hello 世界 🦀";
    let c_str = string_to_c_char(rust_str);

    assert!(!c_str.as_bytes().is_empty());
}

#[test]
fn test_c_char_to_string_basic() {
    // Create a foreign buffer and convert it back to native text
    let original = "Test String";
    let c_str = string_to_c_char(original);

    let result = c_char_to_string(&c_str);

    assert_eq!(result, original);
}

#[test]
fn test_c_char_to_string_empty() {
    // Test empty string conversion
    let c_str = string_to_c_char("");

    let result = c_char_to_string(&c_str);

    assert_eq!(result, "");
}

#[test]
fn test_c_char_to_string_unicode() {
    // Test Unicode conversion
    let original = "Hello 世界 🦀 Rust!";
    let c_str = string_to_c_char(original);

    let result = c_char_to_string(&c_str);

    assert_eq!(result, original);
}

#[test]
fn test_c_char_to_string_special_chars() {
    // Test with various special characters
    let original = "Line1\nLine2\tTabbed\r\nWindows";
    let c_str = string_to_c_char(original);

    let result = c_char_to_string(&c_str);

    assert_eq!(result, original);
}

#[test]
fn test_round_trip_conversion() {
    // Test converting native string -> foreign buffer -> native string
    let original = "Round trip test!";
    let c_str = string_to_c_char(original);

    let result = c_char_to_string(&c_str);

    assert_eq!(result, original);
}

#[test]
fn test_round_trip_unicode() {
    // Test round trip with Unicode
    let original = "Rust 🦀 世界 测试";
    let c_str = string_to_c_char(original);

    let result = c_char_to_string(&c_str);

    assert_eq!(result, original);
}

#[test]
fn test_multiple_conversions() {
    // Test multiple conversions to ensure no interference
    let strings = vec!["First", "Second", "Third", "Fourth", "Fifth"];

    for s in strings {
        let c_ptr = string_to_c_char(s);
        let result = c_char_to_string(&c_ptr);
        assert_eq!(result, s);
    }
}

#[test]
fn test_string_to_c_char_with_string_type() {
    // Test with owned String instead of &str
    let owned_string = String::from("Owned String");
    let c_str = string_to_c_char(owned_string.as_str());

    let result = c_char_to_string(&c_str);
    assert_eq!(result, owned_string);
}

#[test]
fn test_c_char_to_string_invalid_utf8_returns_empty() {
    // A properly null-terminated byte array with an invalid UTF-8 sequence.
    // This tests the empty-string fallback behavior
    let invalid_utf8: Vec<u8> = vec![0xFF, 0xFE, 0xFD, 0x00];

    let buffer = CharBuffer::from_bytes(invalid_utf8).unwrap();
    let result = c_char_to_string(&buffer);

    // Should return empty string on invalid UTF-8
    assert_eq!(result, "");
}

#[test]
fn test_string_to_c_char_null_terminated() {
    // Verify that the buffer is properly null-terminated
    let rust_str = "Test";
    let c_str = string_to_c_char(rust_str);

    let bytes = c_str.as_bytes();
    assert_eq!(*bytes.last().unwrap(), 0);
    assert_eq!(c_char_to_string(&c_str), rust_str);
}

#[test]
fn test_long_string_conversion() {
    // Test with a longer string to ensure no buffer issues
    let long_string = "a".repeat(1000);
    let c_str = string_to_c_char(long_string.as_str());

    let result = c_char_to_string(&c_str);
    assert_eq!(result, long_string);
}

#[test]
fn test_string_with_embedded_quotes() {
    // Test strings with various quote characters
    let original = r#"He said "Hello" and 'Goodbye'"#;
    let c_str = string_to_c_char(original);

    let result = c_char_to_string(&c_str);
    assert_eq!(result, original);
}

#[test]
fn test_from_bytes_accepts_only_null_terminated_shapes() {
    // No bytes at all: no terminator
    assert!(CharBuffer::from_bytes(Vec::new()).is_none());
    // No trailing null byte
    assert!(CharBuffer::from_bytes(vec![b'a', b'b']).is_none());
    // An interior null byte
    assert!(CharBuffer::from_bytes(vec![b'a', 0, b'b', 0]).is_none());
    // The correct shape is adopted unchanged
    let buffer = CharBuffer::from_bytes(vec![b'o', b'k', 0]).unwrap();
    assert_eq!(buffer.as_bytes().as_slice(), &[b'o', b'k', 0]);
    assert_eq!(c_char_to_string(&buffer), "ok");
}

#[test]
fn test_buffer_content_is_utf8_encoding() {
    // A multi-byte character must be UTF-8 encoded, not handed back raw
    let c_str = string_to_c_char("é");
    assert_eq!(c_str.as_bytes().as_slice(), &[0xC3, 0xA9, 0x00]);
}
