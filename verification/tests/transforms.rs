use win32yank::bridge::reader_transform;
use win32yank::bridge::writer_transform;

/// Read a successfully fetched clipboard text through the reader.
fn read_fetched(text: &str, normalize: bool) -> String {
    let out = reader_transform(Ok(text.to_string()), normalize);
    assert!(out.diagnostic.is_none());
    out.text
}

/// Run input bytes through the writer, expecting success.
fn write_bytes(bytes: &[u8], normalize: bool) -> String {
    writer_transform(bytes.to_vec(), normalize).unwrap()
}

#[test]
fn reader_without_normalize_is_identity() {
    for v in [
        "",
        "Hello\nfrom\nwin32yank",
        "Hello\rfrom\rwin32yank",
        "Hello\r\nfrom\r\nwin32yank",
        "\r\nfrom\r\nwin32yank\r\n\n...\\r\n",
        "\r",
    ] {
        assert_eq!(read_fetched(v, false), v);
    }
}

#[test]
fn reader_normalize_without_crlf_is_identity() {
    for v in ["", "Hello\nfrom\nwin32yank", "Hello\rfrom\rwin32yank", "\n\r", "\r"] {
        assert_eq!(read_fetched(v, true), v);
    }
}

#[test]
fn reader_normalize_collapses_crlf() {
    assert_eq!(read_fetched("Hello\r\nfrom\r\nwin32yank", true), "Hello\nfrom\nwin32yank");
    assert_eq!(read_fetched("\r\n", true), "\n");
    assert_eq!(read_fetched("a\r\nb\rc\nd\r\n", true), "a\nb\rc\nd\n");
}

#[test]
fn reader_normalize_is_idempotent_on_mixed_text() {
    for v in ["Hello\r\nfrom\r\nwin32yank", "a\r\nb\rc\nd\r\n", "\r\n\r\n", "x\ry\nz"] {
        let once = read_fetched(v, true);
        let twice = read_fetched(&once, true);
        assert_eq!(twice, once);
    }
}

#[test]
fn writer_without_normalize_is_identity() {
    for v in ["", "Hello\rfrom\rwin32yank", "Hello\r\nfrom\r\nwin32yank", "\r"] {
        assert_eq!(write_bytes(v.as_bytes(), false), v);
    }
}

#[test]
fn writer_normalize_prefixes_every_lf_with_cr() {
    assert_eq!(write_bytes(b"\n", true), "\r\n");
    assert_eq!(write_bytes(b"", true), "");
    assert_eq!(write_bytes(b"Hello\nfrom\nwin32yank", true), "Hello\r\nfrom\r\nwin32yank");
}

#[test]
fn writer_normalize_duplicates_existing_crlf() {
    assert_eq!(write_bytes(b"\r\n", true), "\r\r\n");
    assert_eq!(
        write_bytes(b"\r\nfrom\r\nwin32yank\r\n\n...\\r\n", true),
        "\r\r\nfrom\r\r\nwin32yank\r\r\n\r\n...\\r\r\n"
    );
}

#[test]
fn round_trip_without_normalization_preserves_text() {
    for v in [
        "Hello\nfrom\nwin32yank",
        "\r",
        "Hello\r\nfrom\r\nwin32yank",
        "\r\nfrom\r\nwin32yank\r\n\n...\\r\n",
    ] {
        let stored = write_bytes(v.as_bytes(), false);
        assert_eq!(read_fetched(&stored, false), v);
    }
}

#[test]
fn written_lf_comes_back_as_crlf() {
    let stored = write_bytes(b"\n", true);
    assert_eq!(stored, "\r\n");
    assert_eq!(read_fetched(&stored, false), "\r\n");
    assert_eq!(read_fetched(&stored, true), "\n");
}

#[test]
fn writer_decodes_multibyte_utf8() {
    let stored = write_bytes("héllo\nwörld".as_bytes(), true);
    assert_eq!(stored, "héllo\r\nwörld");
    let stored = write_bytes("héllo".as_bytes(), false);
    assert_eq!(stored, "héllo");
}
