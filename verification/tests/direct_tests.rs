use resolution_protocol::context::{
    direct_seal_then_open, open_group_package, open_group_record, resolve_signer, seal_group,
    wrap_group_package, EncryptionContext, SingleEncryption,
};
use resolution_protocol::keys::{GroupKey, SharedSecret};
use resolution_protocol::Error;

fn context_for(tag: u8) -> EncryptionContext {
    EncryptionContext::from_keys(
        vec![tag; 17],
        vec![tag.wrapping_add(1); 23],
        vec![tag.wrapping_add(2); 19],
        vec![tag.wrapping_add(3); 29],
    )
}

fn secret_for(tag: u8) -> SharedSecret {
    SharedSecret::from_bytes(vec![tag; 32]).unwrap()
}

#[test]
fn public_and_secret_keys_are_exported_in_pairs() {
    let context = context_for(10);
    let (kem_public, sig_public) = context.public_keys();
    let (kem_secret, sig_secret) = context.secret_keys();
    assert_eq!(kem_public, vec![10; 17]);
    assert_eq!(sig_public, vec![12; 19]);
    assert_eq!(kem_secret, vec![11; 23]);
    assert_eq!(sig_secret, vec![13; 29]);
}

#[test]
fn seal_direct_embeds_origin_keys_and_payload() {
    let context = context_for(20);
    let shared_secret = secret_for(1);
    let kem_ct: Vec<u8> = vec![9; 64];
    let envelope = context
        .seal_direct(kem_ct.clone(), &shared_secret, &b"hello".to_vec())
        .unwrap();
    let body = envelope.decode().unwrap();
    assert_eq!(body.origin_kem_pk, vec![20; 17]);
    assert_eq!(body.origin_sig_pk, vec![22; 19]);
    assert_eq!(body.nonce.len(), 12);
    assert_eq!(body.kem_ct, kem_ct);
    assert_ne!(body.sym_ct, b"hello".to_vec());
}

#[test]
fn direct_round_trip_with_verified_signature() {
    // The scenario's verified core: A seals "hello" for B; B, having
    // verified the signature and recovered the same shared secret by
    // decapsulation, reads "hello".
    let sender = context_for(30);
    let receiver = context_for(40);
    let shared_secret = secret_for(2);
    let envelope = sender
        .seal_direct(vec![1; 8], &shared_secret, &b"hello".to_vec())
        .unwrap();
    let message = SingleEncryption { body: envelope, signature: vec![7; 16] };
    let body = message.body.decode().unwrap();
    let opened = receiver.open_direct(&body, true, Some(&shared_secret)).unwrap();
    assert_eq!(opened, b"hello".to_vec());
}

#[test]
fn direct_law_function() {
    let context = context_for(35);
    let shared_secret = secret_for(3);
    let plaintext = b"round trip".to_vec();
    assert_eq!(
        direct_seal_then_open(&context, vec![4; 10], &shared_secret, &plaintext).unwrap(),
        plaintext
    );
}

#[test]
fn resolve_signer_prefers_the_pinned_key() {
    let context = context_for(50);
    let shared_secret = secret_for(4);
    let envelope = context
        .seal_direct(vec![1], &shared_secret, &b"x".to_vec())
        .unwrap();
    let body = envelope.decode().unwrap();

    let pinned: Vec<u8> = vec![200; 19];
    assert_eq!(resolve_signer(&body, Some(&pinned)), &pinned);
    // Without a pinned key, fall back to the embedded self-asserted key.
    assert_eq!(resolve_signer(&body, None), &vec![52u8; 19]);
}

#[test]
fn failed_signature_verification_is_refused_first() {
    let context = context_for(60);
    let shared_secret = secret_for(5);
    let envelope = context
        .seal_direct(vec![2; 4], &shared_secret, &b"gated".to_vec())
        .unwrap();
    let body = envelope.decode().unwrap();
    assert_eq!(
        context.open_direct(&body, false, Some(&shared_secret)),
        Err(Error::SignatureError)
    );
    assert_eq!(context.open_direct(&body, false, None), Err(Error::SignatureError));
}

#[test]
fn failed_decapsulation_is_refused() {
    // A party that is not the addressed recipient cannot decapsulate.
    let context = context_for(70);
    let shared_secret = secret_for(6);
    let envelope = context
        .seal_direct(vec![3; 4], &shared_secret, &b"not yours".to_vec())
        .unwrap();
    let body = envelope.decode().unwrap();
    assert_eq!(
        context.open_direct(&body, true, None),
        Err(Error::EncapsulationError)
    );
}

#[test]
fn wrong_shared_secret_fails_authentication() {
    let context = context_for(80);
    let envelope = context
        .seal_direct(vec![4; 4], &secret_for(7), &b"secret".to_vec())
        .unwrap();
    let body = envelope.decode().unwrap();
    assert_eq!(
        context.open_direct(&body, true, Some(&secret_for(8))),
        Err(Error::AuthenticationError)
    );
}

#[test]
fn tampered_ciphertext_fails_authentication() {
    let context = context_for(90);
    let shared_secret = secret_for(9);
    let envelope = context
        .seal_direct(vec![5; 4], &shared_secret, &b"tamper".to_vec())
        .unwrap();
    let body = envelope.decode().unwrap();
    for byte_index in 0..body.sym_ct.len() {
        for bit in 0..8 {
            let mut mutated = envelope.decode().unwrap();
            mutated.sym_ct[byte_index] ^= 1u8 << bit;
            assert_eq!(
                context.open_direct(&mutated, true, Some(&shared_secret)),
                Err(Error::AuthenticationError)
            );
        }
    }
}

#[test]
fn tampered_nonce_fails_authentication() {
    let context = context_for(91);
    let shared_secret = secret_for(10);
    let envelope = context
        .seal_direct(vec![6; 4], &shared_secret, &b"nonce".to_vec())
        .unwrap();
    for byte_index in 0..12 {
        for bit in 0..8 {
            let mut mutated = envelope.decode().unwrap();
            mutated.nonce[byte_index] ^= 1u8 << bit;
            assert_eq!(
                context.open_direct(&mutated, true, Some(&shared_secret)),
                Err(Error::AuthenticationError)
            );
        }
    }
}

#[test]
fn group_broadcast_to_three_members() {
    // The group scenario's verified core: one symmetric encryption and one
    // signed package, delivered to three members through the
    // single-recipient layer; each member recovers the payload, and a
    // fourth party that cannot decapsulate recovers nothing.
    let sender = context_for(100);
    let group_key = GroupKey::from_parts(1, SharedSecret::from_bytes(vec![77; 32]).unwrap());

    let record = seal_group(&group_key, &b"broadcast".to_vec()).unwrap();
    let package = wrap_group_package(&record, &vec![8; 32]).unwrap();
    let package_bytes = package.as_bytes().clone();

    let member_secrets = [secret_for(11), secret_for(12), secret_for(13)];
    let mut deliveries = Vec::new();
    for member_secret in &member_secrets {
        let envelope = sender
            .seal_direct(vec![9; 16], member_secret, &package_bytes)
            .unwrap();
        deliveries.push(envelope);
    }

    for (envelope, member_secret) in deliveries.iter().zip(&member_secrets) {
        let member_key =
            GroupKey::from_parts(1, SharedSecret::from_bytes(vec![77; 32]).unwrap());
        let body = envelope.decode().unwrap();
        let recovered = sender.open_direct(&body, true, Some(member_secret)).unwrap();
        let (inner_record, _signature) = open_group_package(&recovered).unwrap();
        assert_eq!(
            open_group_record(&member_key, &inner_record, true).unwrap(),
            b"broadcast".to_vec()
        );
    }

    // The fourth party's decapsulation fails: it is not an addressed
    // recipient.
    let fourth = context_for(110);
    let body = deliveries[0].decode().unwrap();
    assert_eq!(fourth.open_direct(&body, true, None), Err(Error::EncapsulationError));
}
