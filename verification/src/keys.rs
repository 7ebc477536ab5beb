//! Key material: shared secrets, AES-256 symmetric keys, and group keys.

use vstd::prelude::*;

use crate::aead::{
    aead_open, aead_seal, aes256_gcm_open, aes256_gcm_seal, fresh_key_bytes, fresh_nonce_bytes,
    AES_GCM_P_MAX,
};
use crate::encodings::{b64_of, Base64};
use crate::envelope::{Envelope, Wire};
use crate::error::Error;
use crate::records::{SymmetricRecord, SymmetricRecordV};

verus! {

/// A 32-byte value produced by key encapsulation or drawn directly from
/// the secure random source; length-checked on every untrusted
/// construction path, and convertible into a symmetric key.
pub struct SharedSecret {
    bytes: Vec<u8>,
}

impl View for SharedSecret {
    type V = Seq<u8>;

    closed spec fn view(&self) -> Seq<u8> {
        self.bytes@
    }
}

impl SharedSecret {
    #[verifier::type_invariant]
    closed spec fn type_inv(self) -> bool {
        self.bytes@.len() == 32
    }

    /// Draw 32 fresh bytes from the secure random source, independent of
    /// any keypair.
    pub fn generate() -> (r: SharedSecret)
        ensures
            r@.len() == 32,
    {
        SharedSecret { bytes: fresh_key_bytes() }
    }

    /// Validated construction: fails with `BadLength` unless `bytes` holds
    /// exactly 32 bytes.
    pub fn from_bytes(bytes: Vec<u8>) -> (r: Result<SharedSecret, Error>)
        ensures
            r is Ok <==> bytes@.len() == 32,
            r is Ok ==> r.unwrap()@ == bytes@,
            r is Err ==> r == Err::<SharedSecret, Error>(
                Error::BadLength { expected: 32, got: bytes@.len() as usize },
            ),
    {
        if bytes.len() != 32 {
            return Err(Error::BadLength { expected: 32, got: bytes.len() });
        }
        Ok(SharedSecret { bytes })
    }

    /// The raw secret bytes; always 32 of them.
    pub fn as_bytes(&self) -> (r: &Vec<u8>)
        ensures
            r@ == self@,
            self@.len() == 32,
    {
        proof {
            use_type_invariant(self);
        }
        &self.bytes
    }

    /// A copy of this secret, byte for byte.
    pub fn duplicate(&self) -> (r: SharedSecret)
        ensures
            r@ == self@,
            self@.len() == 32,
    {
        proof {
            use_type_invariant(self);
        }
        SharedSecret { bytes: crate::wire::clone_bytes(&self.bytes) }
    }

    /// Reinterpret the 32 bytes as an AES-256 key; no further key
    /// derivation is applied, the encapsulation output is used directly.
    pub fn into_symmetric_key(self) -> (r: SymmetricKey)
        ensures
            r@ == self@,
            r@.len() == 32,
    {
        proof {
            use_type_invariant(&self);
        }
        SymmetricKey { bytes: self.bytes }
    }
}

/// An AES-256-GCM key: 32 bytes of key material, generated only from the
/// secure random source or derived from a [`SharedSecret`].
pub struct SymmetricKey {
    bytes: Vec<u8>,
}

impl View for SymmetricKey {
    type V = Seq<u8>;

    closed spec fn view(&self) -> Seq<u8> {
        self.bytes@
    }
}

impl SymmetricKey {
    #[verifier::type_invariant]
    closed spec fn type_inv(self) -> bool {
        self.bytes@.len() == 32
    }

    /// Draw a fresh key from the secure random source.
    pub fn generate() -> (r: SymmetricKey)
        ensures
            r@.len() == 32,
    {
        SymmetricKey { bytes: fresh_key_bytes() }
    }

    /// Encrypt `plaintext` under this key with a nonce drawn fresh from the
    /// secure random source on every call; returns an envelope wrapping
    /// (nonce, ciphertext-with-tag). Fails with `EncodingError` exactly
    /// when the plaintext exceeds the cipher's length limit.
    pub fn encrypt(&self, plaintext: &Vec<u8>) -> (r: Result<Envelope<SymmetricRecord>, Error>)
        ensures
            r is Ok <==> plaintext@.len() <= AES_GCM_P_MAX,
            r is Ok ==> exists|n: Seq<u8>|
                #![auto]
                {
                    &&& n.len() == 12
                    &&& SymmetricRecord::spec_parse(r.unwrap()@) == Some(
                        SymmetricRecordV { nonce: n, sym_ct: aead_seal(self@, n, plaintext@) },
                    )
                    &&& aead_open(self@, n, aead_seal(self@, n, plaintext@)) == Some(plaintext@)
                },
            r is Err ==> r == Err::<Envelope<SymmetricRecord>, Error>(Error::EncodingError),
    {
        proof {
            use_type_invariant(self);
        }
        let nonce = fresh_nonce_bytes();
        let sym_ct = match aes256_gcm_seal(&self.bytes, &nonce, plaintext) {
            Some(ct) => ct,
            None => {
                return Err(Error::EncodingError);
            },
        };
        let ghost n = nonce@;
        let record = SymmetricRecord { nonce, sym_ct };
        match Envelope::encode(&record) {
            Ok(env) => {
                proof {
                    assert(SymmetricRecord::spec_parse(env@) == Some(
                        SymmetricRecordV { nonce: n, sym_ct: aead_seal(self@, n, plaintext@) },
                    ));
                }
                Ok(env)
            },
            Err(_) => {
                proof {
                    assert(false);
                }
                Err(Error::EncodingError)
            },
        }
    }

    /// Decrypt an envelope produced by [`SymmetricKey::encrypt`]; fails
    /// with `AuthenticationError` exactly when the authentication tag does
    /// not verify under this key (tampering, a wrong key, or a wrong
    /// nonce).
    pub fn decrypt(&self, envelope: &Envelope<SymmetricRecord>) -> (r: Result<Vec<u8>, Error>)
        ensures
            ({
                let rec = SymmetricRecord::spec_parse(envelope@).unwrap();
                &&& (r is Ok <==> aead_open(self@, rec.nonce, rec.sym_ct) is Some)
                &&& r is Ok ==> r.unwrap()@ == aead_open(self@, rec.nonce, rec.sym_ct).unwrap()
                &&& r is Err ==> r == Err::<Vec<u8>, Error>(Error::AuthenticationError)
            }),
    {
        proof {
            use_type_invariant(self);
        }
        let record = match envelope.decode() {
            Ok(rec) => rec,
            Err(_) => {
                proof {
                    assert(false);
                }
                return Err(Error::AuthenticationError);
            },
        };
        match aes256_gcm_open(&self.bytes, &record.nonce, &record.sym_ct) {
            Some(plaintext) => Ok(plaintext),
            None => Err(Error::AuthenticationError),
        }
    }

    /// Export the key material in base64 text form, for crossing a
    /// text-oriented boundary.
    pub fn to_base64(&self) -> (r: Base64)
        ensures
            r@ == b64_of(self@),
    {
        proof {
            use_type_invariant(self);
        }
        Base64::new(&self.bytes)
    }

    /// Re-import key material exported by [`SymmetricKey::to_base64`];
    /// fails with `Base64DecodingError` on text that is not valid base64,
    /// and with `BadLength` on valid base64 of anything but 32 bytes.
    pub fn from_base64(text: &Base64) -> (r: Result<SymmetricKey, Error>)
        ensures
            forall|b: Seq<u8>|
                text@ == b64_of(b) && b.len() == 32 ==> r is Ok && r.unwrap()@ == b,
            r is Ok ==> b64_of(r.unwrap()@) == text@ && r.unwrap()@.len() == 32,
    {
        let bytes = match text.try_value() {
            Ok(b) => b,
            Err(_) => {
                return Err(Error::Base64DecodingError);
            },
        };
        if bytes.len() != 32 {
            return Err(Error::BadLength { expected: 32, got: bytes.len() });
        }
        Ok(SymmetricKey { bytes })
    }
}

/// Round-trip law: decrypting what `encrypt` produced, under the same
/// key, returns the original plaintext.
pub fn encrypt_then_decrypt(key: &SymmetricKey, plaintext: &Vec<u8>) -> (r: Result<Vec<u8>, Error>)
    ensures
        plaintext@.len() <= AES_GCM_P_MAX ==> r is Ok && r.unwrap()@ == plaintext@,
{
    let envelope = match key.encrypt(plaintext) {
        Ok(env) => env,
        Err(e) => {
            return Err(e);
        },
    };
    key.decrypt(&envelope)
}

/// Abstract value of a [`GroupKey`].
#[verifier::ext_equal]
pub struct GroupKeyV {
    pub id: u128,
    pub secret: Seq<u8>,
}

/// A group's broadcast key: a 128-bit group identifier paired with a
/// shared symmetric secret. The identifier is generated once per group key
/// and must match on every decrypt; all current members hold an identical
/// copy out-of-band.
pub struct GroupKey {
    id: u128,
    secret: SharedSecret,
}

impl View for GroupKey {
    type V = GroupKeyV;

    closed spec fn view(&self) -> GroupKeyV {
        GroupKeyV { id: self.id, secret: self.secret@ }
    }
}

/// Relies on uuid::Uuid::new_v4, backed by the operating system's secure
/// random source: a fresh random version-4 identifier. Nothing is promised
/// of the value.
#[verifier::external_body]
fn fresh_group_id() -> (r: u128)
{
    uuid::Uuid::new_v4().as_u128()
}

impl GroupKey {
    /// Form a new group key: a fresh random identifier and a fresh secret.
    pub fn new() -> (r: GroupKey)
        ensures
            r@.secret.len() == 32,
    {
        GroupKey { id: fresh_group_id(), secret: SharedSecret::generate() }
    }

    /// Reassemble the identical copy that every group member holds, from
    /// an identifier and secret shared out-of-band.
    pub fn from_parts(id: u128, secret: SharedSecret) -> (r: GroupKey)
        ensures
            r@.id == id,
            r@.secret == secret@,
    {
        GroupKey { id, secret }
    }

    /// The group identifier.
    pub fn id(&self) -> (r: u128)
        ensures
            r == self@.id,
    {
        self.id
    }

    /// A copy of the shared symmetric secret.
    pub fn key(&self) -> (r: SharedSecret)
        ensures
            r@ == self@.secret,
            self@.secret.len() == 32,
    {
        self.secret.duplicate()
    }
}

} // verus!
