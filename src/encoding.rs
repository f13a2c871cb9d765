use vstd::prelude::*;

verus! {

/// The padded standard base64 text of `b`.
pub uninterp spec fn base64_of(b: Seq<u8>) -> Seq<char>;

/// Relies on base64's `engine::general_purpose::STANDARD.encode`: the padded
/// standard alphabet, four characters for each started group of three bytes.
/// It panics only where that length overflows `usize`.
#[verifier::external_body]
pub(crate) fn encode_base64(b: &Vec<u8>) -> (r: String)
    requires
        b@.len() <= usize::MAX / 2,
    ensures
        r@ == base64_of(b@),
        r@.len() == 4 * ((b@.len() + 2) / 3),
{
    base64::Engine::encode(&base64::engine::general_purpose::STANDARD, b)
}

} // verus!
