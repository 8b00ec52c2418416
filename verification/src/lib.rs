//! Symbolic rendering of file permissions: a raw mode value becomes twelve
//! flags, and the flags become the familiar `drwxr-xr-x` column, glyph by
//! glyph, each glyph tagged with the element a palette colours it by.

pub mod color;
pub mod meta;
