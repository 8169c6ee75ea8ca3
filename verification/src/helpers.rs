//! Fixed-range decoding primitives: big-endian integers and UTF-8 text read
//! out of a byte buffer, each total over its failure domain.

use vstd::prelude::*;
use vstd::slice::{slice_index_get, slice_subrange};
use vstd::utf8::{decode_utf8, valid_utf8};

verus! {

/// Why a byte range could not be read as text.
#[derive(Clone, Copy, Debug, PartialEq, Eq, Structural)]
pub enum TextFailure {
    /// The range does not lie inside the buffer.
    OutOfBounds,
    /// The bytes in the range are not valid UTF-8.
    InvalidEncoding,
}

/// The value of the four bytes at `offset` read as a big-endian 32-bit
/// unsigned integer.
pub open spec fn u32_be_at(bytes: Seq<u8>, offset: int) -> int
    recommends
        0 <= offset,
        offset + 4 <= bytes.len(),
{
    0x100_0000 * bytes[offset] + 0x1_0000 * bytes[offset + 1] + 0x100 * bytes[offset + 2]
        + bytes[offset + 3]
}

/// Reads the four bytes at `[offset, offset + 4)` as a big-endian unsigned
/// 32-bit integer. Fails exactly when those four bytes do not all lie inside
/// the buffer.
pub fn bytes_to_u32_be(bytes: &[u8], offset: usize) -> (r: Option<u32>)
    ensures
        r is Some <==> offset + 4 <= bytes@.len(),
        r matches Some(v) ==> v == u32_be_at(bytes@, offset as int),
{
    if bytes.len() >= 4 && offset <= bytes.len() - 4 {
        let b0 = *slice_index_get(bytes, offset);
        let b1 = *slice_index_get(bytes, offset + 1);
        let b2 = *slice_index_get(bytes, offset + 2);
        let b3 = *slice_index_get(bytes, offset + 3);
        let v: u32 = (b0 as u32) * 0x100_0000 + (b1 as u32) * 0x1_0000 + (b2 as u32) * 0x100
            + (b3 as u32);
        Some(v)
    } else {
        None
    }
}

/// Decodes `bytes[start..end]` as UTF-8 text, embedded NUL bytes and all.
/// Fails with `OutOfBounds` when the range does not lie inside the buffer and
/// with `InvalidEncoding` when the bytes in it are not valid UTF-8.
pub fn bytes_to_string(bytes: &[u8], start: usize, end: usize) -> (r: Result<String, TextFailure>)
    ensures
        (match r {
            Ok(s) => start <= end <= bytes@.len() && valid_utf8(
                bytes@.subrange(start as int, end as int),
            ) && s@ == decode_utf8(bytes@.subrange(start as int, end as int)),
            Err(TextFailure::OutOfBounds) => !(start <= end <= bytes@.len()),
            Err(TextFailure::InvalidEncoding) => start <= end <= bytes@.len() && !valid_utf8(
                bytes@.subrange(start as int, end as int),
            ),
        }),
{
    if start > end || end > bytes.len() {
        return Err(TextFailure::OutOfBounds);
    }
    let field = slice_subrange(bytes, start, end);
    match utf8_to_string(field) {
        Some(s) => Ok(s),
        None => Err(TextFailure::InvalidEncoding),
    }
}

/// The text with every NUL character removed; the other characters keep
/// their order.
pub open spec fn strip_nul(s: Seq<char>) -> Seq<char>
    decreases s.len(),
{
    if s.len() == 0 {
        Seq::empty()
    } else if s[0] == '\0' {
        strip_nul(s.drop_first())
    } else {
        seq![s[0]] + strip_nul(s.drop_first())
    }
}

/// No character of a NUL-stripped text is NUL.
pub proof fn lemma_strip_nul_free(s: Seq<char>)
    ensures
        forall|i: int| 0 <= i < strip_nul(s).len() ==> strip_nul(s)[i] != '\0',
    decreases s.len(),
{
    if s.len() == 0 {
    } else {
        lemma_strip_nul_free(s.drop_first());
        let rest = strip_nul(s.drop_first());
        if s[0] != '\0' {
            assert forall|i: int| 0 <= i < strip_nul(s).len() implies strip_nul(s)[i]
                != '\0' by {
                if i == 0 {
                    assert(strip_nul(s)[0] == s[0]);
                } else {
                    assert(strip_nul(s)[i] == rest[i - 1]);
                }
            }
        }
    }
}

/// Relies on `str::from_utf8`: it succeeds exactly on valid UTF-8 input and
/// yields the characters the bytes encode, as `vstd::utf8` models them.
#[verifier::external_body]
fn utf8_to_string(bytes: &[u8]) -> (r: Option<String>)
    ensures
        r is Some <==> valid_utf8(bytes@),
        r matches Some(s) ==> s@ == decode_utf8(bytes@),
{
    match core::str::from_utf8(bytes) {
        Ok(s) => Some(s.to_string()),
        Err(_) => None,
    }
}

/// Relies on `str::replace` with an empty replacement: every `\0` is removed
/// and the remaining characters keep their order.
#[verifier::external_body]
pub(crate) fn remove_nul(s: &str) -> (r: String)
    ensures
        r@ == strip_nul(s@),
{
    s.replace('\0', "")
}

} // verus!
