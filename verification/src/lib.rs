//! Core of an interactive terminal hex editor.
//!
//! The library holds the editable byte sequence, the cursor addressed into
//! it, a two-digit hexadecimal input assembler for keyboard entry, and the
//! viewport-scroll arithmetic that keeps the cursor visible.  Terminal setup,
//! widget rendering, key decoding and file I/O live outside the library and
//! talk to it through plain values.

pub mod constants;
pub mod converter;
pub mod event_handler;
pub mod hex;
pub mod message;
