use woolog::{
    c_text, debug, error, info, trace, warn, woolog_debug, woolog_error, woolog_info,
    woolog_trace, woolog_warn, ForeignTextHandle, LogMessage, SeverityLevel,
};

#[test]
fn native_calls_make_one_record_at_their_level() {
    assert_eq!(trace("a"), LogMessage { level: SeverityLevel::Trace, text: "a" });
    assert_eq!(debug("b"), LogMessage { level: SeverityLevel::Debug, text: "b" });
    assert_eq!(info("c"), LogMessage { level: SeverityLevel::Info, text: "c" });
    assert_eq!(warn("d"), LogMessage { level: SeverityLevel::Warn, text: "d" });
    assert_eq!(error("e"), LogMessage { level: SeverityLevel::Error, text: "e" });
}

#[test]
fn native_calls_keep_the_text_as_it_is() {
    for text in ["", "plain", "two\nlines", "{} {:?}", "caf\u{e9} \u{1f980}", "nul\u{0}inside"] {
        assert_eq!(trace(text).text, text);
        assert_eq!(debug(text).text, text);
        assert_eq!(info(text).text, text);
        assert_eq!(warn(text).text, text);
        assert_eq!(error(text).text, text);
    }
}

#[test]
fn text_ends_at_the_first_nul() {
    assert_eq!(c_text(b"hello\0"), b"hello");
    assert_eq!(c_text(b"hello\0world\0"), b"hello");
    assert_eq!(c_text(b"\0"), b"");
    assert_eq!(c_text(b"\0hidden"), b"");
    assert_eq!(c_text(b""), b"");
    assert_eq!(c_text(b"no terminator"), b"no terminator");
    assert_eq!(c_text(&[0xff, 0x00, 0x41]), &[0xff]);
}

#[test]
fn handles_give_their_text() {
    assert_eq!(ForeignTextHandle::Null.text(), None);
    assert_eq!(ForeignTextHandle::Bytes(b"hello\0").text(), Some("hello"));
    assert_eq!(ForeignTextHandle::Bytes(b"hello\0tail").text(), Some("hello"));
    assert_eq!(ForeignTextHandle::Bytes(b"\0").text(), Some(""));
    assert_eq!(ForeignTextHandle::Bytes(b"").text(), Some(""));
    assert_eq!(ForeignTextHandle::Bytes("caf\u{e9}\0".as_bytes()).text(), Some("caf\u{e9}"));
    assert_eq!(ForeignTextHandle::Bytes("\u{1f980}\0".as_bytes()).text(), Some("\u{1f980}"));
}

#[test]
fn handles_with_invalid_bytes_have_no_text() {
    // A lone continuation byte, a truncated sequence, an overlong encoding,
    // an encoded surrogate and a byte that UTF-8 never uses.
    let invalid: [&[u8]; 6] = [
        b"\x80\0",
        b"abc\xc3\0",
        b"\xc0\xaf\0",
        b"\xed\xa0\x80\0",
        b"\xff\0",
        b"ok so far \xe2\x82\0",
    ];
    for bytes in invalid {
        assert_eq!(ForeignTextHandle::Bytes(bytes).text(), None, "{:?}", bytes);
    }
    // Invalid bytes behind the terminator are not part of the text.
    assert_eq!(ForeignTextHandle::Bytes(b"fine\0\xff\xfe").text(), Some("fine"));
}

#[test]
fn foreign_calls_make_one_record_at_their_level() {
    let handle = ForeignTextHandle::Bytes(b"hello\0");
    assert_eq!(
        woolog_trace(handle),
        Some(LogMessage { level: SeverityLevel::Trace, text: "hello" })
    );
    assert_eq!(
        woolog_debug(handle),
        Some(LogMessage { level: SeverityLevel::Debug, text: "hello" })
    );
    assert_eq!(woolog_info(handle), Some(LogMessage { level: SeverityLevel::Info, text: "hello" }));
    assert_eq!(woolog_warn(handle), Some(LogMessage { level: SeverityLevel::Warn, text: "hello" }));
    assert_eq!(
        woolog_error(handle),
        Some(LogMessage { level: SeverityLevel::Error, text: "hello" })
    );
}

#[test]
fn foreign_calls_with_a_null_handle_make_no_record() {
    assert_eq!(woolog_trace(ForeignTextHandle::Null), None);
    assert_eq!(woolog_debug(ForeignTextHandle::Null), None);
    assert_eq!(woolog_info(ForeignTextHandle::Null), None);
    assert_eq!(woolog_warn(ForeignTextHandle::Null), None);
    assert_eq!(woolog_error(ForeignTextHandle::Null), None);
}

#[test]
fn foreign_calls_with_invalid_text_make_no_record() {
    let handle = ForeignTextHandle::Bytes(b"bad \xff text\0");
    assert_eq!(woolog_trace(handle), None);
    assert_eq!(woolog_debug(handle), None);
    assert_eq!(woolog_info(handle), None);
    assert_eq!(woolog_warn(handle), None);
    assert_eq!(woolog_error(handle), None);
}
