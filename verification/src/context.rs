//! The hybrid encryption and authentication layer.
//!
//! An [`EncryptionContext`] bundles an identity's key-encapsulation keypair
//! and signature keypair, held as raw key bytes. The post-quantum
//! operations themselves (encapsulation, decapsulation, signing, signature
//! verification) are performed by the caller between the steps below; this
//! module holds everything around them: nonce handling, symmetric
//! encryption, record construction, byte-exact framing, and the decisions
//! that gate decryption on verification results.
//!
//! Direct encryption to one recipient runs: encapsulate to the recipient's
//! public key (caller), [`EncryptionContext::seal_direct`], sign the
//! envelope bytes (caller). Decryption runs: [`resolve_signer`], verify the
//! signature over the envelope bytes (caller), decapsulate the embedded
//! ciphertext (caller), [`EncryptionContext::open_direct`].
//!
//! Group broadcast encrypts the payload once under the shared group key
//! ([`seal_group`]), signs that single record (caller), wraps record and
//! signature into one package ([`wrap_group_package`]), and then delivers
//! the package bytes to each member through direct encryption. A recipient
//! inverts the nesting with [`open_group_package`], verifies the inner
//! signature (caller), and finishes with [`open_group_record`], which
//! enforces the group ID before decrypting.

use vstd::prelude::*;

use crate::aead::{
    aead_open, aead_seal, aes256_gcm_open, aes256_gcm_seal, fresh_nonce_bytes, AES_GCM_P_MAX,
};
use crate::envelope::{Envelope, Wire};
use crate::error::Error;
use crate::keys::{GroupKey, SharedSecret};
use crate::records::{
    CipherBody, CipherBodyV, GroupRecord, GroupRecordV, SignedPackage, SignedPackageV,
};
use crate::wire::clone_bytes;

verus! {

/// Abstract value of an [`EncryptionContext`]: its four key byte strings.
#[verifier::ext_equal]
pub struct EncryptionContextV {
    pub kem_public: Seq<u8>,
    pub kem_secret: Seq<u8>,
    pub sig_public: Seq<u8>,
    pub sig_secret: Seq<u8>,
}

/// An identity's cryptographic capability bundle: one key-encapsulation
/// keypair and one signature keypair, as raw key bytes. Secret halves
/// never leave the context except through [`EncryptionContext::secret_keys`].
pub struct EncryptionContext {
    kem_public: Vec<u8>,
    kem_secret: Vec<u8>,
    sig_public: Vec<u8>,
    sig_secret: Vec<u8>,
}

/// One recipient's sealed message: the cipher body envelope and the
/// signature computed over exactly the envelope's bytes.
pub struct SingleEncryption {
    pub body: Envelope<CipherBody>,
    pub signature: Vec<u8>,
}

impl View for EncryptionContext {
    type V = EncryptionContextV;

    closed spec fn view(&self) -> EncryptionContextV {
        EncryptionContextV {
            kem_public: self.kem_public@,
            kem_secret: self.kem_secret@,
            sig_public: self.sig_public@,
            sig_secret: self.sig_secret@,
        }
    }
}

impl EncryptionContext {
    /// Whether the public keys fit the wire format's field bounds.
    pub open spec fn wf(self) -> bool {
        &&& self@.kem_public.len() <= u32::MAX
        &&& self@.sig_public.len() <= u32::MAX
    }

    /// Assemble a context from a key-encapsulation keypair and a signature
    /// keypair generated by the caller's algorithms.
    pub fn from_keys(
        kem_public: Vec<u8>,
        kem_secret: Vec<u8>,
        sig_public: Vec<u8>,
        sig_secret: Vec<u8>,
    ) -> (r: EncryptionContext)
        ensures
            r@ == (EncryptionContextV {
                kem_public: kem_public@,
                kem_secret: kem_secret@,
                sig_public: sig_public@,
                sig_secret: sig_secret@,
            }),
    {
        EncryptionContext { kem_public, kem_secret, sig_public, sig_secret }
    }

    /// A copy of this context, key for key.
    pub fn duplicate(&self) -> (r: EncryptionContext)
        ensures
            r@ == self@,
    {
        EncryptionContext {
            kem_public: clone_bytes(&self.kem_public),
            kem_secret: clone_bytes(&self.kem_secret),
            sig_public: clone_bytes(&self.sig_public),
            sig_secret: clone_bytes(&self.sig_secret),
        }
    }

    /// The two public keys, exported together so a peer can bind this
    /// identity's encapsulation key to its signing key.
    pub fn public_keys(&self) -> (r: (Vec<u8>, Vec<u8>))
        ensures
            r.0@ == self@.kem_public,
            r.1@ == self@.sig_public,
    {
        (clone_bytes(&self.kem_public), clone_bytes(&self.sig_public))
    }

    /// The two secret keys, exported together.
    pub fn secret_keys(&self) -> (r: (Vec<u8>, Vec<u8>))
        ensures
            r.0@ == self@.kem_secret,
            r.1@ == self@.sig_secret,
    {
        (clone_bytes(&self.kem_secret), clone_bytes(&self.sig_secret))
    }

    /// The symmetric half of direct encryption: given the encapsulated
    /// secret ciphertext and the shared secret the caller obtained by
    /// encapsulating to the recipient's public key, draw a fresh nonce,
    /// encrypt the plaintext under the shared secret, and frame the cipher
    /// body. The caller must sign the returned envelope's bytes with this
    /// identity's signature secret key.
    pub fn seal_direct(
        &self,
        kem_ct: Vec<u8>,
        shared_secret: &SharedSecret,
        plaintext: &Vec<u8>,
    ) -> (r: Result<Envelope<CipherBody>, Error>)
        ensures
            r is Ok <==> self.wf() && kem_ct@.len() <= u32::MAX && plaintext@.len()
                <= AES_GCM_P_MAX,
            r is Ok ==> exists|n: Seq<u8>|
                #![auto]
                {
                    &&& n.len() == 12
                    &&& CipherBody::spec_parse(r.unwrap()@) == Some(
                        CipherBodyV {
                            origin_kem_pk: self@.kem_public,
                            origin_sig_pk: self@.sig_public,
                            nonce: n,
                            kem_ct: kem_ct@,
                            sym_ct: aead_seal(shared_secret@, n, plaintext@),
                        },
                    )
                    &&& aead_seal(shared_secret@, n, plaintext@).len() == plaintext@.len() + 16
                    &&& aead_open(shared_secret@, n, aead_seal(shared_secret@, n, plaintext@))
                        == Some(plaintext@)
                },
            r is Err ==> r == Err::<Envelope<CipherBody>, Error>(Error::EncodingError),
    {
        let nonce = fresh_nonce_bytes();
        let sym_ct = match aes256_gcm_seal(shared_secret.as_bytes(), &nonce, plaintext) {
            Some(ct) => ct,
            None => {
                return Err(Error::EncodingError);
            },
        };
        let ghost n = nonce@;
        let body = CipherBody {
            origin_kem_pk: clone_bytes(&self.kem_public),
            origin_sig_pk: clone_bytes(&self.sig_public),
            nonce,
            kem_ct,
            sym_ct,
        };
        match Envelope::encode(&body) {
            Ok(env) => {
                proof {
                    CipherBody::lemma_wire_parse(body@);
                    assert(body@.nonce == n);
                }
                Ok(env)
            },
            Err(_) => Err(Error::EncodingError),
        }
    }

    /// The decisions and symmetric half of direct decryption, after the
    /// caller has verified the signature over the envelope bytes and
    /// decapsulated the embedded ciphertext with this identity's
    /// encapsulation secret key. A failed signature check refuses the
    /// message before anything else; a failed decapsulation
    /// (`decapsulated` of `None`) refuses it next; only then is the
    /// symmetric ciphertext opened.
    pub fn open_direct(
        &self,
        body: &CipherBody,
        signature_valid: bool,
        decapsulated: Option<&SharedSecret>,
    ) -> (r: Result<Vec<u8>, Error>)
        requires
            body@.nonce.len() == 12,
        ensures
            !signature_valid ==> r == Err::<Vec<u8>, Error>(Error::SignatureError),
            signature_valid && decapsulated is None ==> r == Err::<Vec<u8>, Error>(
                Error::EncapsulationError,
            ),
            signature_valid && decapsulated is Some ==> ({
                let ss = decapsulated.unwrap()@;
                &&& (r is Ok <==> aead_open(ss, body@.nonce, body@.sym_ct) is Some)
                &&& r is Ok ==> r.unwrap()@ == aead_open(ss, body@.nonce, body@.sym_ct).unwrap()
                &&& r is Err ==> r == Err::<Vec<u8>, Error>(Error::AuthenticationError)
            }),
    {
        if !signature_valid {
            return Err(Error::SignatureError);
        }
        let shared_secret = match decapsulated {
            Some(ss) => ss,
            None => {
                return Err(Error::EncapsulationError);
            },
        };
        match aes256_gcm_open(shared_secret.as_bytes(), &body.nonce, &body.sym_ct) {
            Some(plaintext) => Ok(plaintext),
            None => Err(Error::AuthenticationError),
        }
    }
}

/// The verifying key for a received message: the pinned `known_signer` when
/// the caller supplies one, else the signing key embedded in the cipher
/// body itself.
///
/// The fallback authenticates the message only against whatever key the
/// sender claims as its own: it does not prove the sender's identity.
/// Callers on security-sensitive paths must pin `known_signer` to a key
/// trusted out-of-band.
pub fn resolve_signer<'a>(body: &'a CipherBody, known_signer: Option<&'a Vec<u8>>) -> (r: &'a Vec<
    u8,
>)
    ensures
        known_signer is Some ==> r@ == known_signer.unwrap()@,
        known_signer is None ==> r@ == body@.origin_sig_pk,
{
    match known_signer {
        Some(k) => k,
        None => &body.origin_sig_pk,
    }
}

/// Round-trip law for the verified half of direct encryption: opening what
/// `seal_direct` sealed, with a verified signature and the same shared
/// secret, returns the original plaintext.
pub fn direct_seal_then_open(
    context: &EncryptionContext,
    kem_ct: Vec<u8>,
    shared_secret: &SharedSecret,
    plaintext: &Vec<u8>,
) -> (r: Result<Vec<u8>, Error>)
    ensures
        context.wf() && kem_ct@.len() <= u32::MAX && plaintext@.len() <= AES_GCM_P_MAX ==> r is Ok
            && r.unwrap()@ == plaintext@,
{
    let envelope = match context.seal_direct(kem_ct, shared_secret, plaintext) {
        Ok(env) => env,
        Err(e) => {
            return Err(e);
        },
    };
    let body = match envelope.decode() {
        Ok(b) => b,
        Err(e) => {
            return Err(e);
        },
    };
    context.open_direct(&body, true, Some(shared_secret))
}

/// The one shared symmetric encryption of a group broadcast: draw a fresh
/// nonce, encrypt the payload under the group key's secret, and frame the
/// inner record carrying the group key's ID. The caller must sign the
/// returned envelope's bytes; the signed record is identical for every
/// recipient.
pub fn seal_group(key: &GroupKey, plaintext: &Vec<u8>) -> (r: Result<Envelope<GroupRecord>, Error>)
    ensures
        r is Ok <==> plaintext@.len() <= AES_GCM_P_MAX,
        r is Ok ==> exists|n: Seq<u8>|
            #![auto]
            {
                &&& n.len() == 12
                &&& GroupRecord::spec_parse(r.unwrap()@) == Some(
                    GroupRecordV {
                        group_id: key@.id,
                        nonce: n,
                        sym_ct: aead_seal(key@.secret, n, plaintext@),
                    },
                )
                &&& aead_seal(key@.secret, n, plaintext@).len() == plaintext@.len() + 16
                &&& aead_open(key@.secret, n, aead_seal(key@.secret, n, plaintext@)) == Some(
                    plaintext@,
                )
            },
        r is Err ==> r == Err::<Envelope<GroupRecord>, Error>(Error::EncodingError),
{
    let secret = key.key();
    let nonce = fresh_nonce_bytes();
    let sym_ct = match aes256_gcm_seal(secret.as_bytes(), &nonce, plaintext) {
        Some(ct) => ct,
        None => {
            return Err(Error::EncodingError);
        },
    };
    let ghost n = nonce@;
    let record = GroupRecord { group_id: key.id(), nonce, sym_ct };
    match Envelope::encode(&record) {
        Ok(env) => {
            proof {
                GroupRecord::lemma_wire_parse(record@);
                assert(record@ =~= (GroupRecordV {
                    group_id: key@.id,
                    nonce: n,
                    sym_ct: aead_seal(key@.secret, n, plaintext@),
                }));
            }
            Ok(env)
        },
        Err(_) => {
            proof {
                assert(false);
            }
            Err(Error::EncodingError)
        },
    }
}

/// Bind a signed inner record into the single package that is delivered,
/// per recipient, through direct encryption: the record envelope's raw
/// bytes together with the signature computed over exactly those bytes.
pub fn wrap_group_package(record: &Envelope<GroupRecord>, signature: &Vec<u8>) -> (r: Result<
    Envelope<SignedPackage>,
    Error,
>)
    ensures
        r is Ok <==> record@.len() <= u32::MAX,
        r is Ok ==> SignedPackage::spec_parse(r.unwrap()@) == Some(
            SignedPackageV { body_bytes: record@, signature: signature@ },
        ),
        r is Err ==> r == Err::<Envelope<SignedPackage>, Error>(Error::EncodingError),
{
    let package = SignedPackage {
        body_bytes: clone_bytes(record.as_bytes()),
        signature: clone_bytes(signature),
    };
    match Envelope::encode(&package) {
        Ok(env) => {
            proof {
                SignedPackage::lemma_wire_parse(package@);
                assert(package@ =~= (SignedPackageV {
                    body_bytes: record@,
                    signature: signature@,
                }));
            }
            Ok(env)
        },
        Err(_) => Err(Error::EncodingError),
    }
}

/// Undo [`wrap_group_package`] on bytes recovered from direct decryption:
/// split the package into the inner record envelope (re-validated, since
/// the bytes travelled through an untrusted channel) and the signature the
/// caller must verify over the envelope's bytes.
pub fn open_group_package(package_bytes: &Vec<u8>) -> (r: Result<
    (Envelope<GroupRecord>, Vec<u8>),
    Error,
>)
    ensures
        r is Ok <==> SignedPackage::spec_parse(package_bytes@) is Some && GroupRecord::spec_parse(
            SignedPackage::spec_parse(package_bytes@).unwrap().body_bytes,
        ) is Some,
        r is Ok ==> ({
            let package = SignedPackage::spec_parse(package_bytes@).unwrap();
            r.unwrap().0@ == package.body_bytes && r.unwrap().1@ == package.signature
        }),
        r is Err ==> r == Err::<(Envelope<GroupRecord>, Vec<u8>), Error>(Error::DecodingError),
{
    let package = match SignedPackage::decode_bytes(package_bytes) {
        Ok(p) => p,
        Err(e) => {
            return Err(e);
        },
    };
    let record = match Envelope::<GroupRecord>::from_untrusted_bytes(package.body_bytes) {
        Ok(env) => env,
        Err(e) => {
            return Err(e);
        },
    };
    Ok((record, package.signature))
}

/// The decisions and symmetric half of group decryption, after the caller
/// has verified the inner signature over the record envelope's bytes. A
/// failed signature check refuses the message first; a group key ID that
/// differs from `key`'s refuses it next with `GroupKeyMismatch`, even if
/// the secret bytes would decrypt it; only then is the ciphertext opened
/// under the group secret and the carried nonce.
pub fn open_group_record(key: &GroupKey, record: &Envelope<GroupRecord>, signature_valid: bool) -> (r:
    Result<Vec<u8>, Error>)
    ensures
        ({
            let grec = GroupRecord::spec_parse(record@).unwrap();
            &&& !signature_valid ==> r == Err::<Vec<u8>, Error>(Error::SignatureError)
            &&& signature_valid && grec.group_id != key@.id ==> r == Err::<Vec<u8>, Error>(
                Error::GroupKeyMismatch { expected_id: key@.id, received_id: grec.group_id },
            )
            &&& signature_valid && grec.group_id == key@.id ==> {
                &&& (r is Ok <==> aead_open(key@.secret, grec.nonce, grec.sym_ct) is Some)
                &&& r is Ok ==> r.unwrap()@ == aead_open(
                    key@.secret,
                    grec.nonce,
                    grec.sym_ct,
                ).unwrap()
                &&& r is Err ==> r == Err::<Vec<u8>, Error>(Error::AuthenticationError)
            }
        }),
{
    if !signature_valid {
        return Err(Error::SignatureError);
    }
    let grec = match record.decode() {
        Ok(g) => g,
        Err(_) => {
            proof {
                assert(false);
            }
            return Err(Error::SignatureError);
        },
    };
    if grec.group_id != key.id() {
        return Err(
            Error::GroupKeyMismatch { expected_id: key.id(), received_id: grec.group_id },
        );
    }
    let secret = key.key();
    match aes256_gcm_open(secret.as_bytes(), &grec.nonce, &grec.sym_ct) {
        Some(plaintext) => Ok(plaintext),
        None => Err(Error::AuthenticationError),
    }
}

/// Round-trip law for the verified core of group broadcast: sealing a
/// payload under a group key, wrapping it with a signature, then opening
/// the package and the record with the same key and a verified signature,
/// returns the original payload.
pub fn group_seal_then_open(key: &GroupKey, plaintext: &Vec<u8>, signature: &Vec<u8>) -> (r: Result<
    Vec<u8>,
    Error,
>)
    ensures
        plaintext@.len() + 44 <= u32::MAX ==> r is Ok && r.unwrap()@ == plaintext@,
{
    let record = match seal_group(key, plaintext) {
        Ok(env) => env,
        Err(e) => {
            return Err(e);
        },
    };
    proof {
        if plaintext@.len() + 44 <= u32::MAX {
            let grec = GroupRecord::spec_parse(record@).unwrap();
            GroupRecord::lemma_parse_wire(record@);
            assert(record@.len() == 28 + grec.sym_ct.len());
        }
    }
    let package = match wrap_group_package(&record, signature) {
        Ok(env) => env,
        Err(e) => {
            return Err(e);
        },
    };
    let (inner_record, _inner_signature) = match open_group_package(package.as_bytes()) {
        Ok(pair) => pair,
        Err(e) => {
            return Err(e);
        },
    };
    open_group_record(key, &inner_record, true)
}

} // verus!
