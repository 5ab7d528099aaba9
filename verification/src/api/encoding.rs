//! The transfer encoding of compressed downloads.

use vstd::prelude::*;

verus! {

/// What went wrong in a base64 text, as the decoder reports it.
#[verifier::external_type_specification]
#[verifier::external_body]
pub struct ExDecodeError(base64::DecodeError);

/// The bytes that a base64 text in the standard alphabet stands for, or
/// `None` where the decoder refuses the text.
pub uninterp spec fn base64_decoded(text: Seq<u8>) -> Option<Seq<u8>>;

/// Decodes a base64 text in the standard alphabet.
///
/// Calls `base64::decode_config` with `base64::STANDARD`. Its result depends
/// on the text alone; no text that a slice can hold makes it panic.
#[verifier::external_body]
pub(crate) fn base64_decode(text: &[u8]) -> (decoded: Result<Vec<u8>, base64::DecodeError>)
    ensures
        match decoded {
            Ok(bytes) => base64_decoded(text@) == Some(bytes@),
            Err(_) => base64_decoded(text@) is None,
        },
{
    base64::decode_config(text, base64::STANDARD)
}

} // verus!
