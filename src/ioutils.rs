use vstd::prelude::*;

use crate::error::{Error, ErrorKind};

verus! {

/// Names what `base64::encode` returns for the given bytes.
pub uninterp spec fn base64_of(bytes: Seq<u8>) -> Seq<char>;

/// Names what `base64::decode` returns for the given text: the bytes, or
/// `None` where the text is not valid standard base64.
pub uninterp spec fn base64_decoded(text: Seq<char>) -> Option<Seq<u8>>;

#[verifier::external_type_specification]
#[verifier::external_body]
pub struct ExDecodeError(base64::DecodeError);

/// Encodes bytes as standard base64 with padding.
///
/// Relies on `base64::encode` (standard alphabet, padded): decoding its
/// output with `base64::decode` gives the input back.
#[verifier::external_body]
pub fn b64encode(bytes: &[u8]) -> (r: String)
    ensures
        r@ == base64_of(bytes@),
        base64_decoded(r@) == Some(bytes@),
{
    base64::encode(bytes)
}

/// Relies on `base64::decode`: the bytes that the text encodes, or an error
/// where it is not valid standard base64.
#[verifier::external_body]
fn decode_base64(text: &str) -> (r: Result<Vec<u8>, base64::DecodeError>)
    ensures
        match r {
            Ok(v) => base64_decoded(text@) == Some(v@),
            Err(_) => base64_decoded(text@) is None,
        },
{
    base64::decode(text)
}

/// Decodes standard base64 text into bytes.
pub fn b64decode(text: &str) -> (r: Result<Vec<u8>, Error>)
    ensures
        match r {
            Ok(v) => base64_decoded(text@) == Some(v@),
            Err(e) => base64_decoded(text@) is None && e.kind == ErrorKind::Decode,
        },
{
    match decode_base64(text) {
        Ok(v) => Ok(v),
        Err(_) => Err(Error::new(ErrorKind::Decode, "base64 decode failed")),
    }
}

} // verus!
