use vstd::prelude::*;

verus! {

/// A character whose UTF-8 encoding is legal in the transport's out-of-band
/// metadata: horizontal tab or anything that is not an ASCII control
/// character and not DEL. Every character above U+007F encodes to bytes in
/// 0x80..=0xF4, all of which the transport accepts.
pub open spec fn encodable_char(c: char) -> bool {
    c == '\t' || (32 <= c as u32 && c as u32 != 127)
}

/// A correlation token that can be attached to a request through the
/// transport's metadata encoding.
pub open spec fn encodable_token(s: Seq<char>) -> bool {
    forall|i: int| 0 <= i < s.len() ==> encodable_char(#[trigger] s[i])
}

/// Relies on `tonic::metadata::MetadataValue::<Ascii>::try_from` (through
/// `http::HeaderValue::from_str`): the conversion succeeds exactly when every
/// byte of the string is 32..=255 except DEL, or horizontal tab — over
/// characters, exactly `encodable_token`.
#[verifier::external_body]
pub(crate) fn token_fits_metadata(s: &str) -> (r: bool)
    ensures
        r == encodable_token(s@),
{
    tonic::metadata::MetadataValue::<tonic::metadata::Ascii>::try_from(s).is_ok()
}

} // verus!
