use resolution_protocol::context::{
    group_seal_then_open, open_group_package, open_group_record, seal_group, wrap_group_package,
};
use resolution_protocol::keys::{GroupKey, SharedSecret};
use resolution_protocol::Error;

fn shared_group_key(id: u128) -> GroupKey {
    GroupKey::from_parts(id, SharedSecret::from_bytes(vec![42; 32]).unwrap())
}

#[test]
fn group_key_new_draws_fresh_id_and_secret() {
    let first = GroupKey::new();
    let second = GroupKey::new();
    assert_ne!(first.id(), second.id());
    assert_eq!(first.key().as_bytes().len(), 32);
    assert_ne!(first.key().as_bytes(), second.key().as_bytes());
}

#[test]
fn group_key_from_parts_keeps_id_and_secret() {
    let key = shared_group_key(77);
    assert_eq!(key.id(), 77);
    assert_eq!(key.key().as_bytes(), &vec![42; 32]);
}

#[test]
fn seal_then_open_round_trip() {
    let key = shared_group_key(1);
    let record = seal_group(&key, &b"broadcast".to_vec()).unwrap();
    let opened = open_group_record(&key, &record, true).unwrap();
    assert_eq!(opened, b"broadcast".to_vec());
}

#[test]
fn member_copy_opens_the_same_record() {
    // All members hold an identical copy of the group key out-of-band.
    let sender_key = shared_group_key(9);
    let member_key = shared_group_key(9);
    let record = seal_group(&sender_key, &b"to everyone".to_vec()).unwrap();
    assert_eq!(
        open_group_record(&member_key, &record, true).unwrap(),
        b"to everyone".to_vec()
    );
}

#[test]
fn group_id_mismatch_is_refused_even_with_matching_secret() {
    // Same secret bytes, different group ID: the decrypt must fail with
    // GroupKeyMismatch, not succeed by accident.
    let sender_key = shared_group_key(1);
    let stale_key = shared_group_key(2);
    let record = seal_group(&sender_key, &b"broadcast".to_vec()).unwrap();
    assert_eq!(
        open_group_record(&stale_key, &record, true),
        Err(Error::GroupKeyMismatch { expected_id: 2, received_id: 1 })
    );
}

#[test]
fn unverified_signature_is_refused_first() {
    let key = shared_group_key(3);
    let record = seal_group(&key, &b"broadcast".to_vec()).unwrap();
    assert_eq!(
        open_group_record(&key, &record, false),
        Err(Error::SignatureError)
    );

    // The signature gate comes before the group ID check.
    let stale_key = shared_group_key(4);
    assert_eq!(
        open_group_record(&stale_key, &record, false),
        Err(Error::SignatureError)
    );
}

#[test]
fn wrong_group_secret_fails_authentication() {
    let sender_key = shared_group_key(5);
    let wrong_secret =
        GroupKey::from_parts(5, SharedSecret::from_bytes(vec![43; 32]).unwrap());
    let record = seal_group(&sender_key, &b"broadcast".to_vec()).unwrap();
    assert_eq!(
        open_group_record(&wrong_secret, &record, true),
        Err(Error::AuthenticationError)
    );
}

#[test]
fn package_round_trip() {
    let key = shared_group_key(6);
    let record = seal_group(&key, &b"wrapped".to_vec()).unwrap();
    let signature: Vec<u8> = vec![5, 6, 7];
    let package = wrap_group_package(&record, &signature).unwrap();

    let (inner_record, inner_signature) = open_group_package(package.as_bytes()).unwrap();
    assert_eq!(inner_signature, signature);
    assert_eq!(inner_record.as_bytes(), record.as_bytes());
    assert_eq!(
        open_group_record(&key, &inner_record, true).unwrap(),
        b"wrapped".to_vec()
    );
}

#[test]
fn package_law_function() {
    let key = shared_group_key(8);
    let plaintext = b"full pipeline".to_vec();
    let signature = vec![9; 64];
    assert_eq!(
        group_seal_then_open(&key, &plaintext, &signature).unwrap(),
        plaintext
    );
}

#[test]
fn malformed_package_bytes_are_refused() {
    assert!(matches!(
        open_group_package(&vec![1, 2, 3]),
        Err(Error::DecodingError)
    ));
    // A package whose inner bytes are not a valid group record.
    assert!(matches!(
        open_group_package(&vec![2, 0, 0, 0, 1, 2, 9, 9]),
        Err(Error::DecodingError)
    ));
}
