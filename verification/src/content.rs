//! Telling text from binary data.

use vstd::prelude::*;

verus! {

/// How many bytes are searched for a zero byte.
pub const SCAN_SIZE: usize = 1024;

/// `data` begins with `mark`.
pub open spec fn begins_with(data: Seq<u8>, mark: Seq<u8>) -> bool {
    mark.len() <= data.len() && data.take(mark.len() as int) == mark
}

/// The data begins with a byte order mark: that of UTF-8, big-endian UTF-32, or UTF-16 in either
/// order (the mark of little-endian UTF-32 begins with one of these).
pub open spec fn has_byte_order_mark(data: Seq<u8>) -> bool {
    ||| begins_with(data, seq![0xefu8, 0xbbu8, 0xbfu8])
    ||| begins_with(data, seq![0x00u8, 0x00u8, 0xfeu8, 0xffu8])
    ||| begins_with(data, seq![0xfeu8, 0xffu8])
    ||| begins_with(data, seq![0xffu8, 0xfeu8])
}

/// There is a zero byte among the first bytes.
pub open spec fn has_early_zero(data: Seq<u8>) -> bool {
    exists|i: int| 0 <= i < data.len() && i < SCAN_SIZE && #[trigger] data[i] == 0
}

/// The data begins like a PDF document (`%PDF`) or a PNG image (`\x89PNG`).
pub open spec fn has_magic_number(data: Seq<u8>) -> bool {
    ||| begins_with(data, seq![0x25u8, 0x50u8, 0x44u8, 0x46u8])
    ||| begins_with(data, seq![0x89u8, 0x50u8, 0x4eu8, 0x47u8])
}

/// The data is taken for binary: it has no byte order mark, and it has a zero byte among its first
/// bytes or begins like a PDF document or a PNG image.
pub open spec fn looks_binary(data: Seq<u8>) -> bool {
    !has_byte_order_mark(data) && (has_early_zero(data) || has_magic_number(data))
}

/// Calls `content_inspector::inspect` and asks its result `is_binary`.
///
/// Believed of it: it reports binary data exactly if there is no byte order mark and either one of
/// the first 1024 bytes is zero or the data begins with `%PDF` or `\x89PNG`.
#[verifier::external_body]
pub(crate) fn inspect_is_binary(data: &Vec<u8>) -> (binary: bool)
    ensures
        binary == looks_binary(data@),
{
    content_inspector::inspect(data).is_binary()
}

} // verus!
