//! The binary envelope: a typed, byte-exact container for a serialized
//! record.
//!
//! An envelope owns a byte sequence that is guaranteed, by construction, to
//! be the canonical serialization of a well-formed record. Higher layers
//! encode once, sign or verify the raw bytes verbatim, and decode when
//! needed; bytes are never reconstructed from the decoded value for
//! signing, so there is no re-serialization ambiguity.

use core::marker::PhantomData;
use vstd::prelude::*;

use crate::error::Error;

verus! {

/// A record schema that can cross the wire.
///
/// `spec_wire` is the canonical serialization of an abstract record value,
/// `spec_parse` the schema parser; the two lemmas state that they are exact
/// inverses, so a parsed record re-serializes to precisely the bytes it was
/// read from.
pub trait Wire: View + Sized {
    /// Bounds the record's fields must satisfy for it to be serializable.
    spec fn wf(v: Self::V) -> bool;

    /// Canonical serialization of a well-formed abstract value.
    spec fn spec_wire(v: Self::V) -> Seq<u8>;

    /// Schema parser: the abstract value a byte sequence decodes to, if any.
    spec fn spec_parse(b: Seq<u8>) -> Option<Self::V>;

    /// Serializing a well-formed value and parsing it back is the identity.
    proof fn lemma_wire_parse(v: Self::V)
        requires
            Self::wf(v),
        ensures
            Self::spec_parse(Self::spec_wire(v)) == Some(v),
    ;

    /// Parsing is exact: a byte sequence that parses is the canonical
    /// serialization of the well-formed value it parses to.
    proof fn lemma_parse_wire(b: Seq<u8>)
        requires
            Self::spec_parse(b) is Some,
        ensures
            Self::wf(Self::spec_parse(b).unwrap()),
            Self::spec_wire(Self::spec_parse(b).unwrap()) == b,
    ;

    /// Serialize this record.
    fn encode(&self) -> (r: Result<Vec<u8>, Error>)
        ensures
            r is Ok <==> Self::wf(self@),
            r is Ok ==> r.unwrap()@ == Self::spec_wire(self@),
            r is Err ==> r == Err::<Vec<u8>, Error>(Error::EncodingError),
    ;

    /// Parse a record out of raw bytes.
    fn decode_bytes(b: &Vec<u8>) -> (r: Result<Self, Error>)
        ensures
            r is Ok <==> Self::spec_parse(b@) is Some,
            r is Ok ==> Some(r.unwrap()@) == Self::spec_parse(b@),
            r is Err ==> r == Err::<Self, Error>(Error::DecodingError),
    ;
}

/// A byte-exact container whose contents are always the canonical
/// serialization of some well-formed record of schema `T`.
///
/// The raw bytes exposed by [`Envelope::as_bytes`] are the only
/// representation ever signed or transported; [`Envelope::replace`] is the
/// only mutation, and it invalidates any signature computed over the old
/// bytes.
pub struct Envelope<T: Wire> {
    bytes: Vec<u8>,
    schema: PhantomData<T>,
}

impl<T: Wire> View for Envelope<T> {
    type V = Seq<u8>;

    closed spec fn view(&self) -> Seq<u8> {
        self.bytes@
    }
}

impl<T: Wire> Envelope<T> {
    #[verifier::type_invariant]
    closed spec fn type_inv(self) -> bool {
        T::spec_parse(self.bytes@) is Some
    }

    /// Serialize `value` into a fresh envelope; fails with `EncodingError`
    /// exactly when a field of `value` is out of bounds for the wire format.
    pub fn encode(value: &T) -> (r: Result<Envelope<T>, Error>)
        ensures
            r is Ok <==> T::wf(value@),
            r is Ok ==> r.unwrap()@ == T::spec_wire(value@),
            r is Err ==> r == Err::<Envelope<T>, Error>(Error::EncodingError),
    {
        match value.encode() {
            Ok(bytes) => {
                proof {
                    T::lemma_wire_parse(value@);
                }
                Ok(Envelope { bytes, schema: PhantomData })
            },
            Err(_) => Err(Error::EncodingError),
        }
    }

    /// Validate untrusted bytes by attempting a decode; this is the sole
    /// ingestion point for attacker-controlled envelopes. Fails with
    /// `DecodingError` exactly when the bytes do not match the schema.
    pub fn from_untrusted_bytes(bytes: Vec<u8>) -> (r: Result<Envelope<T>, Error>)
        ensures
            r is Ok <==> T::spec_parse(bytes@) is Some,
            r is Ok ==> r.unwrap()@ == bytes@,
            r is Err ==> r == Err::<Envelope<T>, Error>(Error::DecodingError),
    {
        match T::decode_bytes(&bytes) {
            Ok(_) => Ok(Envelope { bytes, schema: PhantomData }),
            Err(_) => Err(Error::DecodingError),
        }
    }

    /// Decode the contained record. An envelope's bytes always parse, so
    /// this returns the record for every envelope value; the record is
    /// well-formed and re-serializes to exactly the envelope's bytes.
    pub fn decode(&self) -> (r: Result<T, Error>)
        ensures
            r is Ok,
            r is Ok ==> Some(r.unwrap()@) == T::spec_parse(self@),
            r is Ok ==> T::wf(r.unwrap()@) && T::spec_wire(r.unwrap()@) == self@,
    {
        proof {
            use_type_invariant(self);
            T::lemma_parse_wire(self@);
        }
        T::decode_bytes(&self.bytes)
    }

    /// The raw serialized bytes: the only representation that is ever
    /// signed or sent.
    pub fn as_bytes(&self) -> (r: &Vec<u8>)
        ensures
            r@ == self@,
            T::spec_parse(self@) is Some,
    {
        proof {
            use_type_invariant(self);
        }
        &self.bytes
    }

    /// Whether the contents decode; true of every envelope constructed
    /// through this API.
    pub fn valid(&self) -> (r: bool)
        ensures
            r,
    {
        proof {
            use_type_invariant(self);
        }
        match T::decode_bytes(&self.bytes) {
            Ok(_) => true,
            Err(_) => false,
        }
    }

    /// Overwrite the contents with a new record, returning the previous
    /// record. Any signature computed over the old bytes is invalidated:
    /// callers must re-sign the new bytes.
    pub fn replace(&mut self, value: &T) -> (r: Result<Option<T>, Error>)
        ensures
            r is Ok <==> T::wf(value@),
            r is Ok ==> final(self)@ == T::spec_wire(value@) && r.unwrap() is Some && Some(
                r.unwrap().unwrap()@,
            ) == T::spec_parse(old(self)@),
            r is Err ==> final(self)@ == old(self)@ && r == Err::<Option<T>, Error>(
                Error::EncodingError,
            ),
    {
        proof {
            use_type_invariant(&*self);
        }
        let prev = match T::decode_bytes(&self.bytes) {
            Ok(v) => v,
            Err(_) => {
                proof {
                    assert(false);
                }
                return Err(Error::EncodingError);
            },
        };
        match value.encode() {
            Ok(bytes) => {
                proof {
                    T::lemma_wire_parse(value@);
                }
                self.bytes = bytes;
                Ok(Some(prev))
            },
            Err(_) => Err(Error::EncodingError),
        }
    }
}

} // verus!
