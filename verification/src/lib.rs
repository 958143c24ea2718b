//! Line-ending conversion and error-recovery policy for a clipboard bridge.
//!
//! The crate holds the logic of a small tool that moves text between the
//! operating system's clipboard and standard input/output: the two
//! line-ending transforms (CR LF to LF on the way out, LF to CR LF on the
//! way in), the UTF-8 decoding step of the writer, and the policy that
//! decides which clipboard read failures are silently treated as empty
//! text and which are logged first. Clipboard access itself, argument
//! handling and the streams stay outside; they hand this crate plain
//! strings and bytes.

pub mod bridge;
pub mod chars;
pub mod newline;
