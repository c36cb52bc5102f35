//! Formatting wrapper types that render byte or string data into quoted,
//! escaped textual form: POSIX shell single-quoting, C-style source-string
//! escaping, lowercase hexadecimal encoding, ASCII-escaped quoting, and a
//! generic join-with-separator helper.

pub mod asciistr;
pub mod charseq;
pub mod csrc;
pub mod hex;
pub mod sep;
pub mod shell;
