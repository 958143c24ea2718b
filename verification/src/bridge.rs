//! The reader and writer transforms at the clipboard boundary, and the
//! policy that classifies and recovers from clipboard read failures.
//!
//! The caller performs the clipboard access and the stream I/O; this
//! module is handed the outcome (the fetched text or the failure's
//! message, the raw input bytes) and computes what to emit or store.

use vstd::prelude::*;
use vstd::string::StringExecFns;
use vstd::utf8::decode_utf8;
use vstd::utf8::valid_utf8;

use crate::chars::chars_contain;
use crate::chars::contains_seq;
use crate::chars::str_to_chars;
use crate::chars::string_from_chars;
use crate::newline::naive_lf_to_crlf;
use crate::newline::reader_text_transform;
use crate::newline::replace_crlf_with_lf;
use crate::newline::writer_text_transform;

verus! {

/// Why a clipboard read failed.
#[derive(Debug)]
pub enum ClipboardReadError {
    /// The clipboard holds no text-representable payload.
    NoTextContent,
    /// Any other failure to talk to the clipboard, with the capability's
    /// own message.
    AccessError(String),
}

/// Why the writer failed. A decoding failure is the writer's own; a
/// failure of the set-capability is never swallowed and carries its
/// message.
#[derive(Debug)]
pub enum WriteError {
    /// The input bytes are not valid UTF-8 text.
    StreamDecodingError,
    /// The set-capability failed, with its message.
    ClipboardAccessError(String),
}

/// How the reader recovers from a read failure. Both ways end in empty
/// text; they differ only in whether a diagnostic is emitted first.
#[derive(PartialEq, Eq, Structural, Clone, Copy, Debug)]
pub enum ReadRecovery {
    /// Recover silently: an empty clipboard is no error.
    RecoverAsEmpty,
    /// Emit a diagnostic, then recover all the same.
    LogAndRecoverAsEmpty,
}

/// The marker by which the capability's message reveals that the
/// clipboard simply held no text.
pub open spec fn no_text_marker() -> Seq<char> {
    "Clipboard does not contain text"@
}

/// The failure message names a clipboard without text content.
pub open spec fn message_indicates_no_text(m: Seq<char>) -> bool {
    contains_seq(m, no_text_marker())
}

/// The recovery the policy owes each read failure: silence for a
/// text-less clipboard, a logged diagnostic for everything else.
pub open spec fn read_recovery_of(e: ClipboardReadError) -> ReadRecovery {
    match e {
        ClipboardReadError::NoTextContent => ReadRecovery::RecoverAsEmpty,
        ClipboardReadError::AccessError(_) => ReadRecovery::LogAndRecoverAsEmpty,
    }
}

/// Sort a failed clipboard read by its message: a message naming a
/// text-less clipboard means no text content, anything else is an
/// access error and keeps its message.
pub fn classify_clipboard_failure(message: String) -> (e: ClipboardReadError)
    ensures
        e is NoTextContent <==> message_indicates_no_text(message@),
        !message_indicates_no_text(message@) ==> (e matches ClipboardReadError::AccessError(m)
            && m@ == message@),
{
    let marker = str_to_chars("Clipboard does not contain text");
    let hay = str_to_chars(message.as_str());
    if chars_contain(&hay, &marker) {
        ClipboardReadError::NoTextContent
    } else {
        ClipboardReadError::AccessError(message)
    }
}

/// The recovery for a read failure, as `read_recovery_of` states it.
pub fn read_recovery(e: &ClipboardReadError) -> (r: ReadRecovery)
    ensures
        r == read_recovery_of(*e),
{
    match e {
        ClipboardReadError::NoTextContent => ReadRecovery::RecoverAsEmpty,
        ClipboardReadError::AccessError(_) => ReadRecovery::LogAndRecoverAsEmpty,
    }
}

/// What the reader hands back: the text to emit, and the diagnostic
/// line for the error channel where a failure was logged-and-recovered.
pub struct ReadOutcome {
    /// The text to write to the output stream.
    pub text: String,
    /// The diagnostic to print to the error channel, if any.
    pub diagnostic: Option<String>,
}

/// Turn the outcome of a clipboard fetch into the text to emit.
///
/// On fetched text: the text itself, CR LF pairs collapsed to LF when
/// `normalize` is set. On any failure: empty text, never an error — with
/// a diagnostic exactly where the recovery policy asks for one.
pub fn reader_transform(fetched: Result<String, ClipboardReadError>, normalize: bool) -> (out:
    ReadOutcome)
    ensures
        (match fetched {
            Ok(t) => out.text@ == reader_text_transform(t@, normalize) && out.diagnostic is None,
            Err(e) => {
                &&& out.text@ == Seq::<char>::empty()
                &&& (out.diagnostic is Some <==> read_recovery_of(e)
                    == ReadRecovery::LogAndRecoverAsEmpty)
                &&& (e matches ClipboardReadError::AccessError(m) ==> (out.diagnostic matches Some(
                    d,
                ) && d@ == "Failed to get clipboard content: "@ + m@))
            },
        }),
{
    match fetched {
        Ok(t) => {
            if normalize {
                let chars = str_to_chars(t.as_str());
                let replaced = replace_crlf_with_lf(&chars);
                ReadOutcome { text: string_from_chars(&replaced), diagnostic: None }
            } else {
                ReadOutcome { text: t, diagnostic: None }
            }
        },
        Err(ClipboardReadError::NoTextContent) => ReadOutcome {
            text: String::new(),
            diagnostic: None,
        },
        Err(ClipboardReadError::AccessError(m)) => {
            let mut d = String::from_str("Failed to get clipboard content: ");
            d.append(m.as_str());
            ReadOutcome { text: String::new(), diagnostic: Some(d) }
        },
    }
}

/// Relies on `String::from_utf8`: it succeeds exactly on valid UTF-8
/// input and yields the character sequence that the bytes encode.
#[verifier::external_body]
fn decode_stream_bytes(bytes: Vec<u8>) -> (r: Option<String>)
    ensures
        (match r {
            Some(s) => valid_utf8(bytes@) && s@ == decode_utf8(bytes@),
            None => !valid_utf8(bytes@),
        }),
{
    String::from_utf8(bytes).ok()
}

/// Turn raw input bytes into the text to store on the clipboard.
///
/// The bytes must decode as UTF-8, else the writer fails with a
/// decoding error and nothing is to be stored. When `normalize` is set,
/// every LF — blindly, even one already closing a CR LF pair — gains a
/// CR in front.
pub fn writer_transform(input: Vec<u8>, normalize: bool) -> (r: Result<String, WriteError>)
    ensures
        valid_utf8(input@) ==> (r matches Ok(t) && t@ == writer_text_transform(
            decode_utf8(input@),
            normalize,
        )),
        !valid_utf8(input@) ==> (r matches Err(e) && e is StreamDecodingError),
{
    match decode_stream_bytes(input) {
        Some(t) => {
            if normalize {
                let chars = str_to_chars(t.as_str());
                let replaced = naive_lf_to_crlf(&chars);
                Ok(string_from_chars(&replaced))
            } else {
                Ok(t)
            }
        },
        None => Err(WriteError::StreamDecodingError),
    }
}

} // verus!
