//! The record shapes carried inside binary envelopes.
//!
//! Field order is stable for cross-implementation compatibility:
//! - a symmetric record is {nonce (12 bytes), symmetric ciphertext-with-tag};
//! - a single-recipient cipher body is {origin encapsulation public key,
//!   origin signing public key, nonce (12 bytes), encapsulated-secret
//!   ciphertext, symmetric ciphertext-with-tag};
//! - a group inner record is {group key ID (128-bit), nonce (12 bytes),
//!   symmetric ciphertext-with-tag};
//! - a signed package is {inner record envelope bytes, signature}.
//!
//! Variable-length interior fields are length-prefixed (see [`crate::wire`]);
//! the final field runs to the end of the record.

use vstd::bytes::*;
use vstd::prelude::*;

use crate::envelope::Wire;
use crate::error::Error;
use crate::wire::{
    clone_bytes, copy_range, lemma_field_len, lemma_field_of_parse_field,
    lemma_parse_field_of_field, read_field, spec_field, spec_parse_field, write_field,
};

verus! {

/// What a symmetric-key encryption produces: a fresh nonce and the
/// AEAD ciphertext (tag included).
pub struct SymmetricRecord {
    pub nonce: Vec<u8>,
    pub sym_ct: Vec<u8>,
}

/// Abstract value of a [`SymmetricRecord`].
#[verifier::ext_equal]
pub struct SymmetricRecordV {
    pub nonce: Seq<u8>,
    pub sym_ct: Seq<u8>,
}

impl View for SymmetricRecord {
    type V = SymmetricRecordV;

    open spec fn view(&self) -> SymmetricRecordV {
        SymmetricRecordV { nonce: self.nonce@, sym_ct: self.sym_ct@ }
    }
}

impl Wire for SymmetricRecord {
    open spec fn wf(v: SymmetricRecordV) -> bool {
        v.nonce.len() == 12
    }

    open spec fn spec_wire(v: SymmetricRecordV) -> Seq<u8> {
        v.nonce + v.sym_ct
    }

    open spec fn spec_parse(b: Seq<u8>) -> Option<SymmetricRecordV> {
        if b.len() < 12 {
            None
        } else {
            Some(
                SymmetricRecordV {
                    nonce: b.subrange(0, 12),
                    sym_ct: b.subrange(12, b.len() as int),
                },
            )
        }
    }

    proof fn lemma_wire_parse(v: SymmetricRecordV) {
        let b = Self::spec_wire(v);
        assert(b.subrange(0, 12) =~= v.nonce);
        assert(b.subrange(12, b.len() as int) =~= v.sym_ct);
        assert(Self::spec_parse(b).unwrap() =~= v);
    }

    proof fn lemma_parse_wire(b: Seq<u8>) {
        let v = Self::spec_parse(b).unwrap();
        assert(Self::spec_wire(v) =~= b);
    }

    fn encode(&self) -> (r: Result<Vec<u8>, Error>) {
        if self.nonce.len() != 12 {
            return Err(Error::EncodingError);
        }
        let mut out = clone_bytes(&self.nonce);
        let mut ct = clone_bytes(&self.sym_ct);
        out.append(&mut ct);
        assert(out@ =~= Self::spec_wire(self@));
        Ok(out)
    }

    fn decode_bytes(b: &Vec<u8>) -> (r: Result<Self, Error>) {
        if b.len() < 12 {
            return Err(Error::DecodingError);
        }
        let nonce = copy_range(b, 0, 12);
        let sym_ct = copy_range(b, 12, b.len());
        let out = SymmetricRecord { nonce, sym_ct };
        assert(out@ =~= Self::spec_parse(b@).unwrap());
        Ok(out)
    }
}

/// The authenticated record format for one recipient. It carries the
/// sender's own public keys, so a receiver without an out-of-band signer
/// key can fall back to the embedded (self-asserted) signing key.
pub struct CipherBody {
    pub origin_kem_pk: Vec<u8>,
    pub origin_sig_pk: Vec<u8>,
    pub nonce: Vec<u8>,
    pub kem_ct: Vec<u8>,
    pub sym_ct: Vec<u8>,
}

/// Abstract value of a [`CipherBody`].
#[verifier::ext_equal]
pub struct CipherBodyV {
    pub origin_kem_pk: Seq<u8>,
    pub origin_sig_pk: Seq<u8>,
    pub nonce: Seq<u8>,
    pub kem_ct: Seq<u8>,
    pub sym_ct: Seq<u8>,
}

impl View for CipherBody {
    type V = CipherBodyV;

    open spec fn view(&self) -> CipherBodyV {
        CipherBodyV {
            origin_kem_pk: self.origin_kem_pk@,
            origin_sig_pk: self.origin_sig_pk@,
            nonce: self.nonce@,
            kem_ct: self.kem_ct@,
            sym_ct: self.sym_ct@,
        }
    }
}

impl Wire for CipherBody {
    open spec fn wf(v: CipherBodyV) -> bool {
        &&& v.origin_kem_pk.len() <= u32::MAX
        &&& v.origin_sig_pk.len() <= u32::MAX
        &&& v.nonce.len() == 12
        &&& v.kem_ct.len() <= u32::MAX
    }

    open spec fn spec_wire(v: CipherBodyV) -> Seq<u8> {
        spec_field(v.origin_kem_pk) + spec_field(v.origin_sig_pk) + v.nonce + spec_field(v.kem_ct)
            + v.sym_ct
    }

    open spec fn spec_parse(b: Seq<u8>) -> Option<CipherBodyV> {
        match spec_parse_field(b, 0) {
            None => None,
            Some((kpk, p1)) => match spec_parse_field(b, p1) {
                None => None,
                Some((spk, p2)) => {
                    if p2 + 12 > b.len() {
                        None
                    } else {
                        match spec_parse_field(b, p2 + 12) {
                            None => None,
                            Some((kct, p3)) => Some(
                                CipherBodyV {
                                    origin_kem_pk: kpk,
                                    origin_sig_pk: spk,
                                    nonce: b.subrange(p2, p2 + 12),
                                    kem_ct: kct,
                                    sym_ct: b.subrange(p3, b.len() as int),
                                },
                            ),
                        }
                    }
                },
            },
        }
    }

    proof fn lemma_wire_parse(v: CipherBodyV) {
        lemma_field_len(v.origin_kem_pk);
        lemma_field_len(v.origin_sig_pk);
        lemma_field_len(v.kem_ct);
        let b = Self::spec_wire(v);
        let f1 = spec_field(v.origin_kem_pk);
        let f2 = spec_field(v.origin_sig_pk);
        let f3 = spec_field(v.kem_ct);
        let p1 = 4 + v.origin_kem_pk.len() as int;
        let p2 = p1 + 4 + v.origin_sig_pk.len() as int;
        let p3 = p2 + 12 + 4 + v.kem_ct.len() as int;
        assert(b =~= Seq::<u8>::empty() + f1 + (f2 + v.nonce + f3 + v.sym_ct));
        lemma_parse_field_of_field(
            Seq::<u8>::empty(),
            v.origin_kem_pk,
            f2 + v.nonce + f3 + v.sym_ct,
        );
        assert(b =~= f1 + f2 + (v.nonce + f3 + v.sym_ct));
        lemma_parse_field_of_field(f1, v.origin_sig_pk, v.nonce + f3 + v.sym_ct);
        assert(b.subrange(p2, p2 + 12) =~= v.nonce);
        assert(b =~= (f1 + f2 + v.nonce) + f3 + v.sym_ct);
        lemma_parse_field_of_field(f1 + f2 + v.nonce, v.kem_ct, v.sym_ct);
        assert(b.subrange(p3, b.len() as int) =~= v.sym_ct);
        assert(Self::spec_parse(b).unwrap() =~= v);
    }

    proof fn lemma_parse_wire(b: Seq<u8>) {
        let v = Self::spec_parse(b).unwrap();
        let (kpk, p1) = spec_parse_field(b, 0).unwrap();
        lemma_field_of_parse_field(b, 0);
        let (spk, p2) = spec_parse_field(b, p1).unwrap();
        lemma_field_of_parse_field(b, p1);
        let (kct, p3) = spec_parse_field(b, p2 + 12).unwrap();
        lemma_field_of_parse_field(b, p2 + 12);
        assert(Self::spec_wire(v) =~= b);
    }

    fn encode(&self) -> (r: Result<Vec<u8>, Error>) {
        if self.origin_kem_pk.len() > u32::MAX as usize || self.origin_sig_pk.len()
            > u32::MAX as usize || self.kem_ct.len() > u32::MAX as usize || self.nonce.len() != 12 {
            return Err(Error::EncodingError);
        }
        let mut out: Vec<u8> = Vec::new();
        write_field(&mut out, &self.origin_kem_pk);
        write_field(&mut out, &self.origin_sig_pk);
        let mut nonce = clone_bytes(&self.nonce);
        out.append(&mut nonce);
        write_field(&mut out, &self.kem_ct);
        let mut sym = clone_bytes(&self.sym_ct);
        out.append(&mut sym);
        assert(out@ =~= Self::spec_wire(self@));
        Ok(out)
    }

    fn decode_bytes(b: &Vec<u8>) -> (r: Result<Self, Error>) {
        let (origin_kem_pk, p1) = match read_field(b, 0) {
            Ok(x) => x,
            Err(e) => {
                return Err(e);
            },
        };
        let (origin_sig_pk, p2) = match read_field(b, p1) {
            Ok(x) => x,
            Err(e) => {
                return Err(e);
            },
        };
        if b.len() - p2 < 12 {
            return Err(Error::DecodingError);
        }
        let nonce = copy_range(b, p2, p2 + 12);
        let (kem_ct, p3) = match read_field(b, p2 + 12) {
            Ok(x) => x,
            Err(e) => {
                return Err(e);
            },
        };
        let sym_ct = copy_range(b, p3, b.len());
        let out = CipherBody { origin_kem_pk, origin_sig_pk, nonce, kem_ct, sym_ct };
        assert(out@ =~= Self::spec_parse(b@).unwrap());
        Ok(out)
    }
}

/// The inner record of a group broadcast: which group key was applied,
/// and the nonce and ciphertext of the one shared symmetric encryption.
pub struct GroupRecord {
    pub group_id: u128,
    pub nonce: Vec<u8>,
    pub sym_ct: Vec<u8>,
}

/// Abstract value of a [`GroupRecord`].
#[verifier::ext_equal]
pub struct GroupRecordV {
    pub group_id: u128,
    pub nonce: Seq<u8>,
    pub sym_ct: Seq<u8>,
}

impl View for GroupRecord {
    type V = GroupRecordV;

    open spec fn view(&self) -> GroupRecordV {
        GroupRecordV { group_id: self.group_id, nonce: self.nonce@, sym_ct: self.sym_ct@ }
    }
}

impl Wire for GroupRecord {
    open spec fn wf(v: GroupRecordV) -> bool {
        v.nonce.len() == 12
    }

    open spec fn spec_wire(v: GroupRecordV) -> Seq<u8> {
        spec_u128_to_le_bytes(v.group_id) + v.nonce + v.sym_ct
    }

    open spec fn spec_parse(b: Seq<u8>) -> Option<GroupRecordV> {
        if b.len() < 28 {
            None
        } else {
            Some(
                GroupRecordV {
                    group_id: spec_u128_from_le_bytes(b.subrange(0, 16)),
                    nonce: b.subrange(16, 28),
                    sym_ct: b.subrange(28, b.len() as int),
                },
            )
        }
    }

    proof fn lemma_wire_parse(v: GroupRecordV) {
        lemma_auto_spec_u128_to_from_le_bytes();
        let b = Self::spec_wire(v);
        assert(b.subrange(0, 16) =~= spec_u128_to_le_bytes(v.group_id));
        assert(b.subrange(16, 28) =~= v.nonce);
        assert(b.subrange(28, b.len() as int) =~= v.sym_ct);
        assert(Self::spec_parse(b).unwrap() =~= v);
    }

    proof fn lemma_parse_wire(b: Seq<u8>) {
        lemma_auto_spec_u128_to_from_le_bytes();
        let v = Self::spec_parse(b).unwrap();
        assert(spec_u128_to_le_bytes(v.group_id) =~= b.subrange(0, 16));
        assert(Self::spec_wire(v) =~= b);
    }

    fn encode(&self) -> (r: Result<Vec<u8>, Error>) {
        if self.nonce.len() != 12 {
            return Err(Error::EncodingError);
        }
        let mut out = u128_to_le_bytes(self.group_id);
        let mut nonce = clone_bytes(&self.nonce);
        out.append(&mut nonce);
        let mut sym = clone_bytes(&self.sym_ct);
        out.append(&mut sym);
        assert(out@ =~= Self::spec_wire(self@));
        Ok(out)
    }

    fn decode_bytes(b: &Vec<u8>) -> (r: Result<Self, Error>) {
        if b.len() < 28 {
            return Err(Error::DecodingError);
        }
        let group_id = u128_from_le_bytes(&b.as_slice()[0..16]);
        let nonce = copy_range(b, 16, 28);
        let sym_ct = copy_range(b, 28, b.len());
        let out = GroupRecord { group_id, nonce, sym_ct };
        assert(out@ =~= Self::spec_parse(b@).unwrap());
        Ok(out)
    }
}

/// A signed package: the raw bytes of an inner record envelope together
/// with the signature computed over exactly those bytes. A recipient can
/// forward the still-signed package as proof of authorship without
/// re-signing.
pub struct SignedPackage {
    pub body_bytes: Vec<u8>,
    pub signature: Vec<u8>,
}

/// Abstract value of a [`SignedPackage`].
#[verifier::ext_equal]
pub struct SignedPackageV {
    pub body_bytes: Seq<u8>,
    pub signature: Seq<u8>,
}

impl View for SignedPackage {
    type V = SignedPackageV;

    open spec fn view(&self) -> SignedPackageV {
        SignedPackageV { body_bytes: self.body_bytes@, signature: self.signature@ }
    }
}

impl Wire for SignedPackage {
    open spec fn wf(v: SignedPackageV) -> bool {
        v.body_bytes.len() <= u32::MAX
    }

    open spec fn spec_wire(v: SignedPackageV) -> Seq<u8> {
        spec_field(v.body_bytes) + v.signature
    }

    open spec fn spec_parse(b: Seq<u8>) -> Option<SignedPackageV> {
        match spec_parse_field(b, 0) {
            None => None,
            Some((body, p)) => Some(
                SignedPackageV { body_bytes: body, signature: b.subrange(p, b.len() as int) },
            ),
        }
    }

    proof fn lemma_wire_parse(v: SignedPackageV) {
        lemma_field_len(v.body_bytes);
        let b = Self::spec_wire(v);
        assert(b =~= Seq::<u8>::empty() + spec_field(v.body_bytes) + v.signature);
        lemma_parse_field_of_field(Seq::<u8>::empty(), v.body_bytes, v.signature);
        let p = 4 + v.body_bytes.len() as int;
        assert(b.subrange(p, b.len() as int) =~= v.signature);
        assert(Self::spec_parse(b).unwrap() =~= v);
    }

    proof fn lemma_parse_wire(b: Seq<u8>) {
        let v = Self::spec_parse(b).unwrap();
        lemma_field_of_parse_field(b, 0);
        assert(Self::spec_wire(v) =~= b);
    }

    fn encode(&self) -> (r: Result<Vec<u8>, Error>) {
        if self.body_bytes.len() > u32::MAX as usize {
            return Err(Error::EncodingError);
        }
        let mut out: Vec<u8> = Vec::new();
        write_field(&mut out, &self.body_bytes);
        let mut sig = clone_bytes(&self.signature);
        out.append(&mut sig);
        assert(out@ =~= Self::spec_wire(self@));
        Ok(out)
    }

    fn decode_bytes(b: &Vec<u8>) -> (r: Result<Self, Error>) {
        let (body_bytes, p) = match read_field(b, 0) {
            Ok(x) => x,
            Err(e) => {
                return Err(e);
            },
        };
        let signature = copy_range(b, p, b.len());
        let out = SignedPackage { body_bytes, signature };
        assert(out@ =~= Self::spec_parse(b@).unwrap());
        Ok(out)
    }
}

} // verus!
