use win32yank::bridge::classify_clipboard_failure;
use win32yank::bridge::read_recovery;
use win32yank::bridge::reader_transform;
use win32yank::bridge::writer_transform;
use win32yank::bridge::ClipboardReadError;
use win32yank::bridge::ReadRecovery;
use win32yank::bridge::WriteError;

#[test]
fn message_naming_textless_clipboard_means_no_text_content() {
    let e = classify_clipboard_failure("Clipboard does not contain text".to_string());
    assert!(matches!(e, ClipboardReadError::NoTextContent));
    let e = classify_clipboard_failure(
        "error 0: Clipboard does not contain text (no suitable format)".to_string(),
    );
    assert!(matches!(e, ClipboardReadError::NoTextContent));
}

#[test]
fn other_messages_mean_access_error_and_keep_the_message() {
    let e = classify_clipboard_failure("Access is denied".to_string());
    match e {
        ClipboardReadError::AccessError(m) => assert_eq!(m, "Access is denied"),
        ClipboardReadError::NoTextContent => panic!("classified as no text content"),
    }
    let e = classify_clipboard_failure("Clipboard does not contain".to_string());
    assert!(matches!(e, ClipboardReadError::AccessError(_)));
}

#[test]
fn recovery_is_silent_only_for_no_text_content() {
    assert_eq!(read_recovery(&ClipboardReadError::NoTextContent), ReadRecovery::RecoverAsEmpty);
    assert_eq!(
        read_recovery(&ClipboardReadError::AccessError("busy".to_string())),
        ReadRecovery::LogAndRecoverAsEmpty
    );
}

#[test]
fn empty_clipboard_reads_as_empty_text_without_diagnostic() {
    for normalize in [false, true] {
        let out = reader_transform(Err(ClipboardReadError::NoTextContent), normalize);
        assert_eq!(out.text, "");
        assert!(out.diagnostic.is_none());
    }
}

#[test]
fn access_error_reads_as_empty_text_with_diagnostic() {
    for normalize in [false, true] {
        let out = reader_transform(
            Err(ClipboardReadError::AccessError("Access is denied".to_string())),
            normalize,
        );
        assert_eq!(out.text, "");
        assert_eq!(
            out.diagnostic.as_deref(),
            Some("Failed to get clipboard content: Access is denied")
        );
    }
}

#[test]
fn writer_rejects_bytes_that_are_not_utf8() {
    for normalize in [false, true] {
        let r = writer_transform(vec![0xff, 0xfe, 0x00], normalize);
        assert!(matches!(r, Err(WriteError::StreamDecodingError)));
        // a truncated multi-byte sequence is rejected too
        let r = writer_transform(vec![0xe2, 0x82], normalize);
        assert!(matches!(r, Err(WriteError::StreamDecodingError)));
    }
}
