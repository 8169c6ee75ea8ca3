//! Decoder for the fixed-layout header of a Fuji RAF raw-image container.
//!
//! The header starts with four text fields at fixed byte ranges (format tag,
//! version, camera identifier, model name) followed by big-endian
//! offset/length pairs that locate variable-length payloads in the file.
//! [`fuji::parse`] decodes the text fields and copies out the embedded JPEG
//! preview that the first offset/length pair names; every byte range is
//! checked against the buffer before it is read, and each failure reports the
//! field and the range that caused it.
//!
//! The header also names a CFA (raw sensor data) block through a second pair
//! of offset/length fields. By design the decoder reads only the JPEG pair:
//! the CFA block is not part of the result, and its fields are at most
//! printed as diagnostics outside the core.

pub mod common;
pub mod fuji;
pub mod helpers;
