//! The RAF header parser: fixed-offset field extraction and JPEG preview
//! extraction, with a failure value naming the first field that could not be
//! read.

use crate::common::{FieldName, ImageFile, ImageFileView, Jpeg, ParseFailure};
use crate::helpers::{
    bytes_to_string, bytes_to_u32_be, lemma_strip_nul_free, remove_nul, strip_nul, u32_be_at,
    TextFailure,
};
use vstd::prelude::*;
use vstd::slice::{slice_subrange, slice_to_vec};
use vstd::utf8::{decode_utf8, valid_utf8};

verus! {

pub const FORMAT_START: usize = 0;

pub const FORMAT_END: usize = 16;

pub const VERSION_START: usize = 16;

pub const VERSION_END: usize = 20;

pub const IDENTIFIER_START: usize = 20;

pub const IDENTIFIER_END: usize = 28;

pub const MODEL_START: usize = 28;

pub const MODEL_END: usize = 60;

pub const JPEG_OFFSET_START: usize = 84;

pub const JPEG_LENGTH_START: usize = 88;

/// The bytes of the format field.
pub open spec fn format_bytes(b: Seq<u8>) -> Seq<u8> {
    b.subrange(FORMAT_START as int, FORMAT_END as int)
}

/// The bytes of the version field.
pub open spec fn version_bytes(b: Seq<u8>) -> Seq<u8> {
    b.subrange(VERSION_START as int, VERSION_END as int)
}

/// The bytes of the camera identifier field.
pub open spec fn identifier_bytes(b: Seq<u8>) -> Seq<u8> {
    b.subrange(IDENTIFIER_START as int, IDENTIFIER_END as int)
}

/// The bytes of the model field.
pub open spec fn model_bytes(b: Seq<u8>) -> Seq<u8> {
    b.subrange(MODEL_START as int, MODEL_END as int)
}

/// The JPEG offset stored big-endian at its fixed position.
pub open spec fn jpeg_offset_of(b: Seq<u8>) -> int {
    u32_be_at(b, JPEG_OFFSET_START as int)
}

/// The JPEG length stored big-endian at its fixed position.
pub open spec fn jpeg_length_of(b: Seq<u8>) -> int {
    u32_be_at(b, JPEG_LENGTH_START as int)
}

/// What reading one text field of the header yields: its characters, or the
/// failure that stops the parse there.
pub open spec fn text_field_spec(b: Seq<u8>, field: FieldName, start: int, end: int) -> Result<
    Seq<char>,
    ParseFailure,
> {
    if b.len() < end {
        Err(ParseFailure::Bounds { field, needed: end as u64, available: b.len() as u64 })
    } else if !valid_utf8(b.subrange(start, end)) {
        Err(ParseFailure::Decode { field })
    } else {
        Ok(decode_utf8(b.subrange(start, end)))
    }
}

/// What reading the model field yields: its characters with every NUL
/// removed, or the failure that stops the parse there.
pub open spec fn model_field_spec(b: Seq<u8>) -> Result<Seq<char>, ParseFailure> {
    match text_field_spec(b, FieldName::Model, MODEL_START as int, MODEL_END as int) {
        Ok(s) => Ok(strip_nul(s)),
        Err(e) => Err(e),
    }
}

/// What extracting the JPEG preview yields: the bytes of the range the
/// offset/length pair names, or the failure that stops the parse there.
pub open spec fn jpeg_field_spec(b: Seq<u8>) -> Result<Seq<u8>, ParseFailure> {
    if b.len() < JPEG_OFFSET_START + 4 {
        Err(
            ParseFailure::Bounds {
                field: FieldName::JpegOffset,
                needed: (JPEG_OFFSET_START + 4) as u64,
                available: b.len() as u64,
            },
        )
    } else if b.len() < JPEG_LENGTH_START + 4 {
        Err(
            ParseFailure::Bounds {
                field: FieldName::JpegLength,
                needed: (JPEG_LENGTH_START + 4) as u64,
                available: b.len() as u64,
            },
        )
    } else if jpeg_offset_of(b) + jpeg_length_of(b) > b.len() {
        Err(
            ParseFailure::Bounds {
                field: FieldName::JpegPayload,
                needed: (jpeg_offset_of(b) + jpeg_length_of(b)) as u64,
                available: b.len() as u64,
            },
        )
    } else {
        Ok(b.subrange(jpeg_offset_of(b), jpeg_offset_of(b) + jpeg_length_of(b)))
    }
}

/// What parsing the whole header yields: the decoded record, or the first
/// failure in field order (format, identifier, version, model, JPEG).
pub open spec fn parse_spec(b: Seq<u8>) -> Result<ImageFileView, ParseFailure> {
    match text_field_spec(b, FieldName::Format, FORMAT_START as int, FORMAT_END as int) {
        Err(e) => Err(e),
        Ok(format) => match text_field_spec(
            b,
            FieldName::Identifier,
            IDENTIFIER_START as int,
            IDENTIFIER_END as int,
        ) {
            Err(e) => Err(e),
            Ok(identifier) => match text_field_spec(
                b,
                FieldName::Version,
                VERSION_START as int,
                VERSION_END as int,
            ) {
                Err(e) => Err(e),
                Ok(version) => match model_field_spec(b) {
                    Err(e) => Err(e),
                    Ok(model) => match jpeg_field_spec(b) {
                        Err(e) => Err(e),
                        Ok(jpeg) => Ok(
                            ImageFileView { format, version, identifier, model, jpeg },
                        ),
                    },
                },
            },
        },
    }
}

/// The string result and the spec-level field result agree: same characters
/// on success, the same failure otherwise.
pub open spec fn text_result_matches(
    r: Result<String, ParseFailure>,
    s: Result<Seq<char>, ParseFailure>,
) -> bool {
    match (r, s) {
        (Ok(t), Ok(c)) => t@ == c,
        (Err(e1), Err(e2)) => e1 == e2,
        _ => false,
    }
}

/// Reads one text field: the bytes of `[start, end)` decoded as UTF-8.
fn text_field(bytes: &[u8], field: FieldName, start: usize, end: usize) -> (r: Result<
    String,
    ParseFailure,
>)
    requires
        start <= end,
    ensures
        text_result_matches(r, text_field_spec(bytes@, field, start as int, end as int)),
{
    match bytes_to_string(bytes, start, end) {
        Ok(s) => Ok(s),
        Err(TextFailure::OutOfBounds) => Err(
            ParseFailure::Bounds {
                field,
                needed: end as u64,
                available: bytes.len() as u64,
            },
        ),
        Err(TextFailure::InvalidEncoding) => Err(ParseFailure::Decode { field }),
    }
}

/// Decodes the format tag at its fixed range.
pub fn parse_format(bytes: &[u8]) -> (r: Result<String, ParseFailure>)
    ensures
        text_result_matches(
            r,
            text_field_spec(bytes@, FieldName::Format, FORMAT_START as int, FORMAT_END as int),
        ),
{
    text_field(bytes, FieldName::Format, FORMAT_START, FORMAT_END)
}

/// Decodes the version tag at its fixed range.
pub fn parse_version(bytes: &[u8]) -> (r: Result<String, ParseFailure>)
    ensures
        text_result_matches(
            r,
            text_field_spec(bytes@, FieldName::Version, VERSION_START as int, VERSION_END as int),
        ),
{
    text_field(bytes, FieldName::Version, VERSION_START, VERSION_END)
}

/// Decodes the camera identifier at its fixed range.
pub fn parse_identifier(bytes: &[u8]) -> (r: Result<String, ParseFailure>)
    ensures
        text_result_matches(
            r,
            text_field_spec(
                bytes@,
                FieldName::Identifier,
                IDENTIFIER_START as int,
                IDENTIFIER_END as int,
            ),
        ),
{
    text_field(bytes, FieldName::Identifier, IDENTIFIER_START, IDENTIFIER_END)
}

/// Decodes the model name at its fixed range and strips its NUL padding.
pub fn parse_model(bytes: &[u8]) -> (r: Result<String, ParseFailure>)
    ensures
        text_result_matches(r, model_field_spec(bytes@)),
{
    match text_field(bytes, FieldName::Model, MODEL_START, MODEL_END) {
        Ok(s) => Ok(remove_nul(s.as_str())),
        Err(e) => Err(e),
    }
}

/// Extracts the JPEG preview: reads the offset/length pair and copies the
/// byte range it names out of the buffer, after checking that the whole
/// range lies inside it.
pub fn parse_jpeg(bytes: &[u8]) -> (r: Result<Jpeg, ParseFailure>)
    ensures
        (match (r, jpeg_field_spec(bytes@)) {
            (Ok(j), Ok(s)) => j@ == s,
            (Err(e1), Err(e2)) => e1 == e2,
            _ => false,
        }),
{
    let offset = match bytes_to_u32_be(bytes, JPEG_OFFSET_START) {
        Some(v) => v,
        None => {
            return Err(
                ParseFailure::Bounds {
                    field: FieldName::JpegOffset,
                    needed: (JPEG_OFFSET_START as u64) + 4,
                    available: bytes.len() as u64,
                },
            );
        },
    };
    let length = match bytes_to_u32_be(bytes, JPEG_LENGTH_START) {
        Some(v) => v,
        None => {
            return Err(
                ParseFailure::Bounds {
                    field: FieldName::JpegLength,
                    needed: (JPEG_LENGTH_START as u64) + 4,
                    available: bytes.len() as u64,
                },
            );
        },
    };
    let needed: u64 = (offset as u64) + (length as u64);
    let available: u64 = bytes.len() as u64;
    if needed > available {
        return Err(ParseFailure::Bounds { field: FieldName::JpegPayload, needed, available });
    }
    let start = offset as usize;
    let end = start + (length as usize);
    let payload = slice_subrange(bytes, start, end);
    Ok(Jpeg { bytes: slice_to_vec(payload) })
}

/// Decodes the RAF header: the four text fields at their fixed ranges and
/// the embedded JPEG preview located by the offset/length pair, with the
/// model field stripped of its NUL padding. The outcome is exactly
/// [`parse_spec`] of the buffer's bytes: the decoded record, or the first
/// failure in field order.
pub fn parse(bytes: &[u8]) -> (r: Result<ImageFile, ParseFailure>)
    ensures
        (match (r, parse_spec(bytes@)) {
            (Ok(img), Ok(v)) => img@ == v,
            (Err(e1), Err(e2)) => e1 == e2,
            _ => false,
        }),
{
    let format = match parse_format(bytes) {
        Ok(s) => s,
        Err(e) => {
            return Err(e);
        },
    };
    let identifier = match parse_identifier(bytes) {
        Ok(s) => s,
        Err(e) => {
            return Err(e);
        },
    };
    let version = match parse_version(bytes) {
        Ok(s) => s,
        Err(e) => {
            return Err(e);
        },
    };
    let model = match parse_model(bytes) {
        Ok(s) => s,
        Err(e) => {
            return Err(e);
        },
    };
    let jpeg = match parse_jpeg(bytes) {
        Ok(j) => j,
        Err(e) => {
            return Err(e);
        },
    };
    Ok(ImageFile { format, version, identifier, model, jpeg })
}

/// Every text range of the header lies inside the buffer and holds valid
/// UTF-8, and both halves of the JPEG offset/length pair can be read.
pub open spec fn header_readable(b: Seq<u8>) -> bool {
    &&& b.len() >= JPEG_LENGTH_START + 4
    &&& valid_utf8(format_bytes(b))
    &&& valid_utf8(version_bytes(b))
    &&& valid_utf8(identifier_bytes(b))
    &&& valid_utf8(model_bytes(b))
}

/// A buffer too short for the format field is rejected with the bounds
/// failure for the format field; no other outcome is possible, and no byte
/// past the buffer plays any part.
pub proof fn lemma_short_buffer_fails(b: Seq<u8>)
    requires
        b.len() < FORMAT_END,
    ensures
        parse_spec(b) == Err::<ImageFileView, ParseFailure>(
            (ParseFailure::Bounds {
                field: FieldName::Format,
                needed: FORMAT_END as u64,
                available: b.len() as u64,
            }),
        ),
{
}

/// Whenever the whole header is readable and the JPEG range lies inside the
/// buffer, the parse succeeds, every text field decodes from its fixed
/// range, and the payload is byte-for-byte the slice that the offset/length
/// pair names.
pub proof fn lemma_parse_succeeds(b: Seq<u8>)
    requires
        header_readable(b),
        jpeg_offset_of(b) + jpeg_length_of(b) <= b.len(),
    ensures
        (parse_spec(b) matches Ok(v) && {
            &&& v.format == decode_utf8(format_bytes(b))
            &&& v.version == decode_utf8(version_bytes(b))
            &&& v.identifier == decode_utf8(identifier_bytes(b))
            &&& v.model == strip_nul(decode_utf8(model_bytes(b)))
            &&& v.jpeg == b.subrange(jpeg_offset_of(b), jpeg_offset_of(b) + jpeg_length_of(b))
        }),
{
}

/// A JPEG offset/length pair that reaches past the end of an otherwise
/// readable header is reported as the bounds failure for the payload range,
/// never anything else.
pub proof fn lemma_jpeg_out_of_range(b: Seq<u8>)
    requires
        header_readable(b),
        jpeg_offset_of(b) + jpeg_length_of(b) > b.len(),
    ensures
        parse_spec(b) == Err::<ImageFileView, ParseFailure>(
            (ParseFailure::Bounds {
                field: FieldName::JpegPayload,
                needed: (jpeg_offset_of(b) + jpeg_length_of(b)) as u64,
                available: b.len() as u64,
            }),
        ),
{
}

/// The model text of any successful parse holds no NUL character: the
/// decoder strips every one, wherever it stands in the field.
pub proof fn lemma_model_nul_free(b: Seq<u8>)
    requires
        parse_spec(b) is Ok,
    ensures
        forall|i: int|
            0 <= i < parse_spec(b)->Ok_0.model.len() ==> parse_spec(b)->Ok_0.model[i] != '\0',
{
    lemma_strip_nul_free(decode_utf8(model_bytes(b)));
}

/// The parse is a function of the buffer's bytes alone: equal buffers yield
/// equal results or equal failures.
pub proof fn lemma_parse_deterministic(b1: Seq<u8>, b2: Seq<u8>)
    requires
        b1 == b2,
    ensures
        parse_spec(b1) == parse_spec(b2),
{
}

} // verus!

