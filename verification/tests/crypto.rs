use base64::Engine;
use rustshell::crypto::{
    create_symmetric_key_msg, decode_id_pk, get_pk, get_rs_pk, key_message, open_signed, Identity,
};
use sodiumoxide::crypto::{box_, sign};

#[test]
fn keys_are_thirty_two_bytes_long() {
    assert_eq!(get_pk(&[7u8; 32]), Some([7u8; 32]));
    assert_eq!(get_pk(&[7u8; 31]), None);
    assert_eq!(get_pk(&[7u8; 33]), None);
    let text = base64::engine::general_purpose::STANDARD.encode([9u8; 32]);
    assert_eq!(get_rs_pk(&text), Some([9u8; 32]));
    let text = base64::engine::general_purpose::STANDARD.encode([9u8; 16]);
    assert_eq!(get_rs_pk(&text), None);
    assert_eq!(get_rs_pk("not base64!"), None);
    assert_eq!(get_rs_pk(""), None);
}

#[test]
fn signed_messages_open_with_the_right_key_only() {
    let (public, secret) = sign::gen_keypair();
    let (other, _) = sign::gen_keypair();
    let signed = sign::sign(b"identity", &secret);
    assert_eq!(open_signed(&signed, &public.0), Ok(b"identity".to_vec()));
    assert_eq!(open_signed(&signed, &other.0), Err("Signature mismatch".to_owned()));
    let mut changed = signed.clone();
    changed[70] ^= 1;
    assert_eq!(open_signed(&changed, &public.0), Err("Signature mismatch".to_owned()));
    assert_eq!(open_signed(&signed[..63], &public.0), Err("Signature mismatch".to_owned()));
}

#[test]
fn identities_need_a_whole_key() {
    let identity = Identity { id: "123".to_owned(), pk: vec![1; 32] };
    assert_eq!(decode_id_pk(identity), Ok(("123".to_owned(), [1; 32])));
    let identity = Identity { id: "123".to_owned(), pk: vec![1; 5] };
    assert_eq!(decode_id_pk(identity), Err("Wrong public key length".to_owned()));
}

#[test]
fn the_symmetric_key_opens_for_whom_it_is_sealed() {
    let (their_public, their_secret) = box_::gen_keypair();
    let message = create_symmetric_key_msg(&their_public.0);
    let ours = box_::PublicKey::from_slice(&message.asymmetric_value).unwrap();
    let nonce = box_::Nonce([0; box_::NONCEBYTES]);
    let opened = box_::open(&message.symmetric_value, &nonce, &ours, &their_secret).unwrap();
    assert_eq!(opened, message.key.to_vec());
    let again = create_symmetric_key_msg(&their_public.0);
    assert_ne!(again.key, message.key);
    assert_ne!(again.asymmetric_value, message.asymmetric_value);
}

#[test]
fn a_key_message_is_made_of_what_is_given() {
    let (their_public, their_secret) = box_::gen_keypair();
    let (our_public, our_secret) = box_::gen_keypair();
    let message = key_message(&their_public.0, &our_public.0, &our_secret.0, [5; 32]);
    assert_eq!(message.asymmetric_value, our_public.0.to_vec());
    assert_eq!(message.key, [5; 32]);
    assert_eq!(message.symmetric_value.len(), 48);
    let nonce = box_::Nonce([0; box_::NONCEBYTES]);
    let opened = box_::open(&message.symmetric_value, &nonce, &our_public, &their_secret).unwrap();
    assert_eq!(opened, vec![5; 32]);
}
