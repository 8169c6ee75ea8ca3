//! The decoded result types and the failure taxonomy of the header decoder.

use vstd::prelude::*;

verus! {

/// The embedded JPEG preview, copied out of the input buffer.
#[derive(Debug)]
pub struct Jpeg {
    pub bytes: Vec<u8>,
}

impl View for Jpeg {
    type V = Seq<u8>;

    open spec fn view(&self) -> Seq<u8> {
        self.bytes@
    }
}

/// The mathematical content of a decoded [`ImageFile`].
pub struct ImageFileView {
    pub format: Seq<char>,
    pub version: Seq<char>,
    pub identifier: Seq<char>,
    pub model: Seq<char>,
    pub jpeg: Seq<u8>,
}

/// The decoded result: the four text fields of the header and the embedded
/// JPEG preview. Owned by the caller; nothing aliases the input buffer.
#[derive(Debug)]
pub struct ImageFile {
    pub format: String,
    pub version: String,
    pub identifier: String,
    pub model: String,
    pub jpeg: Jpeg,
}

impl View for ImageFile {
    type V = ImageFileView;

    open spec fn view(&self) -> ImageFileView {
        ImageFileView {
            format: self.format@,
            version: self.version@,
            identifier: self.identifier@,
            model: self.model@,
            jpeg: self.jpeg@,
        }
    }
}

/// The header field a failure is about.
#[derive(Clone, Copy, Debug, PartialEq, Eq, Structural)]
pub enum FieldName {
    Format,
    Version,
    Identifier,
    Model,
    JpegOffset,
    JpegLength,
    JpegPayload,
}

/// Why a parse failed: the field, and the range that could not be read.
#[derive(Clone, Copy, Debug, PartialEq, Eq, Structural)]
pub enum ParseFailure {
    /// A required byte range ends at `needed`, past the `available` bytes of
    /// the buffer.
    Bounds { field: FieldName, needed: u64, available: u64 },
    /// The bytes of a text field are not valid UTF-8.
    Decode { field: FieldName },
}

} // verus!
