//! Size gate for the native library's hex-dump routines.
//!
//! Both hex-dump entry points of the underlying library format into a fixed
//! internal buffer and behave undefinedly on anything longer than
//! [`HEXDUMP_MAX_LEN`] bytes. The caller must therefore decide, before any
//! boundary call, whether a buffer may be dumped at all; an oversized buffer
//! is a fatal condition and no partial output is produced for it.

use vstd::prelude::*;
use vstd::utf8::{decode_utf8, valid_utf8};

verus! {

/// The text that lossy UTF-8 decoding yields for the given bytes: each
/// invalid byte sequence stands as a replacement marker, and the rest
/// decodes as UTF-8.
pub uninterp spec fn lossy_text_of(bytes: Seq<u8>) -> Seq<char>;

/// Relies on `String::from_utf8_lossy`: the result depends on the bytes
/// alone, valid UTF-8 decodes to itself, and only invalid sequences are
/// substituted with the replacement character.
#[verifier::external_body]
fn from_utf8_lossy_string(bytes: &[u8]) -> (r: String)
    ensures
        r@ == lossy_text_of(bytes@),
        valid_utf8(bytes@) ==> r@ == decode_utf8(bytes@),
{
    String::from_utf8_lossy(bytes).to_string()
}

/// Decode the output bytes of the native hex-dump formatter as text,
/// substituting a replacement marker for any byte sequence that is not
/// valid text.
pub fn dump_output_to_string(bytes: &[u8]) -> (r: String)
    ensures
        r@ == lossy_text_of(bytes@),
        valid_utf8(bytes@) ==> r@ == decode_utf8(bytes@),
{
    from_utf8_lossy_string(bytes)
}

/// Longest buffer, in bytes, that the underlying library's hex-dump
/// routines can format safely.
pub const HEXDUMP_MAX_LEN: usize = 17760;

/// Gate shared by both hex-dump operations: exactly the buffers of at most
/// [`HEXDUMP_MAX_LEN`] bytes may reach the underlying formatting routines.
/// A buffer this gate rejects must not cross the boundary at all, so the
/// fatal path performs no partial output.
pub fn hexdump_allowed(len: usize) -> (r: bool)
    ensures
        r == (len <= HEXDUMP_MAX_LEN),
{
    len <= HEXDUMP_MAX_LEN
}

} // verus!
