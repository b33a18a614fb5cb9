//! Keys and signatures: what the rendezvous server vouches for, and the keys of an encrypted connection.

use vstd::prelude::*;
use vstd::string::*;

use crate::codec::{base64_bytes, base64_decode};
use crate::text::told;

verus! {

/// The length of a public key, a secret key or a symmetric key, in bytes.
pub const KEY_BYTES: usize = 32;

/// The length of a signature, in bytes.
pub const SIGNATURE_BYTES: usize = 64;

// ---------------------------------------------------------------------------
// Outside calls
// ---------------------------------------------------------------------------

/// The signature at the head of `signed` is one of the rest by the holder of `key`, as libsodium judges it.
pub uninterp spec fn signature_holds(signed: Seq<u8>, key: Seq<u8>) -> bool;

/// `sodiumoxide::crypto::sign::verify`: where the signature holds, what stands behind its 64 bytes; else
/// nothing.
#[verifier::external_body]
pub(crate) fn sign_verify(signed: &[u8], key: &[u8; 32]) -> (message: Option<Vec<u8>>)
    ensures
        message is Some == signature_holds(signed@, key@),
        message matches Some(m) ==> signed@.len() >= SIGNATURE_BYTES && m@ == signed@.skip(64),
{
    sodiumoxide::crypto::sign::verify(signed, &sodiumoxide::crypto::sign::PublicKey(*key)).ok()
}

/// The public key that belongs to a secret key of a box.
pub uninterp spec fn box_public_key(secret: Seq<u8>) -> Seq<u8>;

/// `sodiumoxide::crypto::box_::gen_keypair`: a secret key chosen at random, and the public key that belongs
/// to it.
#[verifier::external_body]
pub(crate) fn box_keypair() -> (keys: ([u8; 32], [u8; 32]))
    ensures
        keys.0@ == box_public_key(keys.1@),
{
    let (public, secret) = sodiumoxide::crypto::box_::gen_keypair();
    (public.0, secret.0)
}

/// `sodiumoxide::crypto::secretbox::gen_key`: a key chosen at random. Nothing holds of every such key but
/// its length, which its type gives.
#[verifier::external_body]
pub(crate) fn secret_key() -> (key: [u8; 32]) {
    sodiumoxide::crypto::secretbox::gen_key().0
}

/// What libsodium seals `message` into, for the holder of the secret key that belongs to `public`, by the
/// holder of `secret`. There is nothing where the two keys make no shared secret.
pub uninterp spec fn box_sealed(message: Seq<u8>, nonce: Seq<u8>, public: Seq<u8>, secret: Seq<u8>) -> Option<Seq<u8>>;

/// `sodiumoxide::crypto::box_::seal`: the sealed message, 16 bytes longer than the message. Where the keys
/// make no shared secret, which is so for a few public keys of low order, libsodium gives up and
/// `sodiumoxide` does not tell: nothing is said of the bytes then but how many there are. The length of the
/// message is bounded by memory.
#[verifier::external_body]
pub(crate) fn box_seal(message: &[u8], nonce: &[u8; 24], public: &[u8; 32], secret: &[u8; 32]) -> (sealed: Vec<u8>)
    requires
        message@.len() <= 0x10000,
    ensures
        sealed@.len() == message@.len() + 16,
        box_sealed(message@, nonce@, public@, secret@) matches Some(s) ==> sealed@ == s,
{
    let nonce = sodiumoxide::crypto::box_::Nonce(*nonce);
    let public = sodiumoxide::crypto::box_::PublicKey(*public);
    let secret = sodiumoxide::crypto::box_::SecretKey(*secret);
    sodiumoxide::crypto::box_::seal(message, &nonce, &public, &secret)
}

// ---------------------------------------------------------------------------
// Keys
// ---------------------------------------------------------------------------

/// A key from bytes: there is one where there are 32 of them.
pub fn get_pk(pk: &[u8]) -> (key: Option<[u8; 32]>)
    ensures
        key is Some <==> pk@.len() == KEY_BYTES,
        key matches Some(k) ==> k@ == pk@,
{
    if pk.len() == KEY_BYTES {
        let mut key = [0u8; 32];
        let mut i: usize = 0;
        while i < KEY_BYTES
            invariant
                i <= 32,
                KEY_BYTES == 32,
                pk@.len() == 32,
                forall|j: int| 0 <= j < i ==> key@[j] == pk@[j],
            decreases 32 - i,
        {
            key[i] = pk[i];
            i = i + 1;
        }
        assert(key@ =~= pk@);
        Some(key)
    } else {
        None
    }
}

/// The key that a text in Base64 stands for.
pub open spec fn base64_key(text: Seq<char>) -> Option<Seq<u8>> {
    match base64_bytes(text) {
        Ok(bytes) => if bytes.len() == KEY_BYTES {
            Some(bytes)
        } else {
            None
        },
        Err(_) => None,
    }
}

/// A key where there is one.
pub open spec fn key_in(key: Option<[u8; 32]>) -> Option<Seq<u8>> {
    match key {
        Some(k) => Some(k@),
        None => None,
    }
}

/// The key of a rendezvous server from its text in Base64: there is one where the text decodes to 32 bytes.
pub fn get_rs_pk(str_base64: &str) -> (key: Option<[u8; 32]>)
    ensures
        key_in(key) == base64_key(str_base64@),
{
    match base64_decode(str_base64) {
        Ok(bytes) => get_pk(bytes.as_slice()),
        Err(_) => None,
    }
}

// ---------------------------------------------------------------------------
// Signed identities
// ---------------------------------------------------------------------------

/// Who a signed message says someone is: a device, and its public key as it came.
pub struct Identity {
    pub id: String,
    pub pk: Vec<u8>,
}

/// What a signed message holds: what stands behind the signature, where that holds.
pub fn open_signed(signed: &[u8], key: &[u8; 32]) -> (r: Result<Vec<u8>, String>)
    ensures
        signature_holds(signed@, key@) ==> (r matches Ok(m) && m@ == signed@.skip(64)),
        !signature_holds(signed@, key@) ==> told(r) == Err::<Vec<u8>, Seq<char>>("Signature mismatch"@),
{
    match sign_verify(signed, key) {
        Some(message) => Ok(message),
        None => Err("Signature mismatch".to_owned()),
    }
}

/// An identity with a key of the right length, as values.
pub open spec fn checked_identity(identity: Identity) -> Result<(Seq<char>, Seq<u8>), Seq<char>> {
    if identity.pk@.len() == KEY_BYTES {
        Ok((identity.id@, identity.pk@))
    } else {
        Err("Wrong public key length"@)
    }
}

/// The parts of an identity as values.
pub open spec fn identity_parts(r: Result<(String, [u8; 32]), String>) -> Result<(Seq<char>, Seq<u8>), Seq<char>> {
    match r {
        Ok((id, key)) => Ok((id@, key@)),
        Err(e) => Err(e@),
    }
}

/// The device and the key of an identity that a signed message held. The key must be 32 bytes long.
pub fn decode_id_pk(identity: Identity) -> (r: Result<(String, [u8; 32]), String>)
    ensures
        identity_parts(r) == checked_identity(identity),
{
    match get_pk(identity.pk.as_slice()) {
        Some(key) => Ok((identity.id, key)),
        None => Err("Wrong public key length".to_owned()),
    }
}

// ---------------------------------------------------------------------------
// Key exchange
// ---------------------------------------------------------------------------

/// The keys of an encrypted connection: what goes to the other side, and what stays here.
pub struct KeyMessage {
    /// Our public key.
    pub asymmetric_value: Vec<u8>,
    /// The symmetric key, sealed for the other side.
    pub symmetric_value: Vec<u8>,
    /// The symmetric key.
    pub key: [u8; 32],
}

/// The nonce of the one message that a key pair ever seals.
pub open spec fn zero_nonce() -> Seq<u8> {
    Seq::new(24, |i: int| 0u8)
}

/// `sealed` is what `key` is sealed into with `secret` for the holder of `their_pk`.
pub open spec fn seals(sealed: Seq<u8>, key: Seq<u8>, their_pk: Seq<u8>, secret: Seq<u8>) -> bool {
    &&& sealed.len() == 48
    &&& box_sealed(key, zero_nonce(), their_pk, secret) matches Some(s) ==> sealed == s
}

/// The message that hands the symmetric key `key` to the holder of `their_pk`, under a given key pair.
pub fn key_message(their_pk: &[u8; 32], our_pk: &[u8; 32], our_sk: &[u8; 32], key: [u8; 32]) -> (m: KeyMessage)
    ensures
        m.asymmetric_value@ == our_pk@,
        seals(m.symmetric_value@, key@, their_pk@, our_sk@),
        m.key == key,
{
    let nonce = [0u8; 24];
    assert(nonce@ =~= zero_nonce());
    let sealed = box_seal(key.as_slice(), &nonce, their_pk, our_sk);
    let mut public: Vec<u8> = Vec::new();
    public.extend_from_slice(our_pk.as_slice());
    assert(public@ =~= our_pk@);
    KeyMessage { asymmetric_value: public, symmetric_value: sealed, key }
}

/// The message that hands a fresh symmetric key to the holder of `their_pk`, under a fresh key pair.
pub fn create_symmetric_key_msg(their_pk: &[u8; 32]) -> (m: KeyMessage)
    ensures
        m.asymmetric_value@.len() == KEY_BYTES,
        exists|secret: Seq<u8>|
            m.asymmetric_value@ == #[trigger] box_public_key(secret) && seals(
                m.symmetric_value@,
                m.key@,
                their_pk@,
                secret,
            ),
{
    let (our_pk, our_sk) = box_keypair();
    let key = secret_key();
    let m = key_message(their_pk, &our_pk, &our_sk, key);
    assert(m.asymmetric_value@ == box_public_key(our_sk@));
    m
}

// ---------------------------------------------------------------------------
// Laws
// ---------------------------------------------------------------------------

/// A key is 32 bytes: a text stands for one exactly where it is Base64 of so many, and an identity holds one
/// exactly where its key has so many. Both are taken as they are.
pub proof fn law_keys_are_32_bytes(text: Seq<char>, key: Seq<u8>, identity: Identity)
    ensures
        base64_key(text) == Some(key) <==> base64_bytes(text) == Ok::<Seq<u8>, Seq<char>>(key) && key.len() == 32,
        checked_identity(identity) is Ok <==> identity.pk@.len() == 32,
        checked_identity(identity) matches Ok((id, pk)) ==> id == identity.id@ && pk == identity.pk@,
{
}

/// What a key is sealed into is 48 bytes long and made with the secret for the holder of the public key, under the
/// nonce of zeros.
pub proof fn law_sealing(sealed: Seq<u8>, key: Seq<u8>, their_pk: Seq<u8>, secret: Seq<u8>)
    requires
        seals(sealed, key, their_pk, secret),
    ensures
        sealed.len() == 48,
        box_sealed(key, Seq::new(24, |i: int| 0u8), their_pk, secret) matches Some(s) ==> sealed == s,
{
}

/// Keys and identities are seen as what they are.
pub proof fn law_keys_are_seen_as_they_are(key: [u8; 32], id: String, words: String)
    ensures
        key_in(Some(key)) == Some(key@) && key_in(None) is None,
        identity_parts(Ok((id, key))) == Ok::<(Seq<char>, Seq<u8>), Seq<char>>((id@, key@)),
        identity_parts(Err(words)) == Err::<(Seq<char>, Seq<u8>), Seq<char>>(words@),
        zero_nonce().len() == 24,
        forall|i: int| 0 <= i < 24 ==> #[trigger] zero_nonce()[i] == 0,
{
}

/// A key of another length is refused in these words.
pub proof fn law_other_lengths_are_refused(identity: Identity)
    ensures
        identity.pk@.len() != 32 ==> checked_identity(identity) == Err::<(Seq<char>, Seq<u8>), Seq<char>>(
            "Wrong public key length"@,
        ),
{
}

}
