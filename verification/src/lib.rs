//! String types whose content is guaranteed to be non-empty, legible text:
//! at least one rendered glyph rather than only control characters,
//! zero-width marks, or formatting code points.
//!
//! The core is the legibility predicate ([`text::has_text`]) and the
//! validated view and buffer types built on it, whose suffix-trimming
//! operations never leave a buffer without legible text and never drop
//! removed content silently.

pub mod grapheme;
pub mod pstr;
pub mod pstring;
pub mod rune;
pub mod text;
pub mod tstr;
pub mod tstring;
pub mod unicode;
