//! URL-safe, unpadded base64 text: the reversible mapping between raw
//! bytes and the textual form used wherever cryptographic material must
//! cross a text-oriented boundary.

use base64::Engine;
use vstd::prelude::*;

use crate::error::Error;

verus! {

/// What the URL-safe unpadded base64 engine encodes a byte sequence to.
pub uninterp spec fn b64_of(bytes: Seq<u8>) -> Seq<char>;

/// Relies on base64's Engine::encode with BASE64_URL_SAFE_NO_PAD: the
/// output is a function of the input bytes alone.
#[verifier::external_body]
fn b64_encode_bytes(bytes: &Vec<u8>) -> (r: String)
    ensures
        r@ == b64_of(bytes@),
{
    base64::prelude::BASE64_URL_SAFE_NO_PAD.encode(bytes.as_slice())
}

/// Relies on base64's Engine::decode with BASE64_URL_SAFE_NO_PAD: decoding
/// inverts encoding; and in this strict configuration (padding refused,
/// non-zero trailing bits refused) it succeeds only on the canonical
/// encoding of the bytes it returns.
#[verifier::external_body]
fn b64_decode_str(text: &str) -> (r: Option<Vec<u8>>)
    ensures
        forall|b: Seq<u8>| text@ == b64_of(b) ==> r is Some && r.unwrap()@ == b,
        r is Some ==> b64_of(r.unwrap()@) == text@,
{
    base64::prelude::BASE64_URL_SAFE_NO_PAD.decode(text).ok()
}

/// A string value holding base64 text.
///
/// Every instance built by [`Base64::new`] is valid URL-safe unpadded
/// base64. One taken over verbatim from an external source by
/// [`Base64::from_string`] may not be, so decoding can still fail there.
pub struct Base64 {
    text: String,
}

impl View for Base64 {
    type V = Seq<char>;

    closed spec fn view(&self) -> Seq<char> {
        self.text@
    }
}

impl Base64 {
    /// Whether this text is the base64 encoding of some byte sequence.
    pub open spec fn is_encoding(self) -> bool {
        exists|b: Seq<u8>| self@ == b64_of(b)
    }

    /// Encode raw bytes; total, cannot fail.
    pub fn new(bytes: &Vec<u8>) -> (r: Base64)
        ensures
            r@ == b64_of(bytes@),
            r.is_encoding(),
    {
        let text = b64_encode_bytes(bytes);
        let r = Base64 { text };
        proof {
            assert(r@ == b64_of(bytes@));
        }
        r
    }

    /// Wrap text obtained from an external, unvalidated source.
    pub fn from_string(text: String) -> (r: Base64)
        ensures
            r@ == text@,
    {
        Base64 { text }
    }

    /// The textual form.
    pub fn as_str(&self) -> (r: &str)
        ensures
            r@ == self@,
    {
        self.text.as_str()
    }

    /// Decode back to raw bytes; fails with `Base64DecodingError` exactly
    /// when the text is not the canonical URL-safe unpadded encoding of any
    /// byte sequence.
    pub fn try_value(&self) -> (r: Result<Vec<u8>, Error>)
        ensures
            r is Ok <==> self.is_encoding(),
            r is Ok ==> b64_of(r.unwrap()@) == self@,
            forall|b: Seq<u8>| self@ == b64_of(b) ==> r is Ok && r.unwrap()@ == b,
            r is Err ==> r == Err::<Vec<u8>, Error>(Error::Base64DecodingError),
    {
        let decoded = b64_decode_str(self.text.as_str());
        proof {
            if self.is_encoding() {
                let b = choose|b: Seq<u8>| self@ == b64_of(b);
                assert(self@ == b64_of(b));
            }
        }
        match decoded {
            Some(v) => Ok(v),
            None => Err(Error::Base64DecodingError),
        }
    }

    /// Decode text known to be valid base64.
    pub fn value(&self) -> (r: Vec<u8>)
        requires
            self.is_encoding(),
        ensures
            b64_of(r@) == self@,
            forall|b: Seq<u8>| self@ == b64_of(b) ==> r@ == b,
    {
        match self.try_value() {
            Ok(v) => v,
            Err(_) => {
                proof {
                    assert(false);
                }
                Vec::new()
            },
        }
    }
}

/// Base64 round-trip law: decoding the encoding of any byte sequence
/// returns exactly that byte sequence.
pub fn encode_then_decode(bytes: &Vec<u8>) -> (r: Vec<u8>)
    ensures
        r@ == bytes@,
{
    let text = Base64::new(bytes);
    text.value()
}

} // verus!
