//! Wrapping image bytes into the base64 data URI the profile and emoji
//! endpoints accept.

use vstd::prelude::*;

verus! {

/// The base64 text of a byte sequence, in the standard padded alphabet.
pub uninterp spec fn base64_of(bytes: Seq<u8>) -> Seq<char>;

/// Relies on the base64 crate's standard engine: the canonical padded
/// base64 text of the bytes, four characters for every started group of
/// three bytes, a function of the bytes alone.
#[verifier::external_body]
fn base64_standard(bytes: &[u8]) -> (r: String)
    ensures
        r@ == base64_of(bytes@),
        r@.len() == 4 * ((bytes@.len() + 2) / 3),
{
    base64::Engine::encode(&base64::engine::general_purpose::STANDARD, bytes)
}

/// The data URI for an image: its claimed media type and its bytes in
/// base64.
pub open spec fn data_uri_of(png: bool, bytes: Seq<u8>) -> Seq<char> {
    "data:image/"@ + (if png {
        "png"@
    } else {
        "jpg"@
    }) + ";base64,"@ + base64_of(bytes)
}

/// Wrap image bytes into a data URI, claiming the PNG media type when
/// asked to and JPEG otherwise.
pub fn image_data_uri(png: bool, bytes: &[u8]) -> (r: String)
    ensures
        r@ == data_uri_of(png, bytes@),
{
    proof {
        reveal_strlit("data:image/");
        reveal_strlit("png");
        reveal_strlit("jpg");
        reveal_strlit(";base64,");
    }
    let mut s = String::from_str("data:image/");
    if png {
        s.append("png");
    } else {
        s.append("jpg");
    }
    s.append(";base64,");
    let encoded = base64_standard(bytes);
    s.append(encoded.as_str());
    s
}

} // verus!
