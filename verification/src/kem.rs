//! The KEM facade: key-pair generation, encapsulation and decapsulation for
//! Kyber-512, over plain byte buffers. Every caller-supplied buffer is
//! validated against the parameter set's fixed length before any
//! cryptographic work starts; a wrong length is an error, never a partial
//! parse. Decapsulation never fails on a well-formed ciphertext: the
//! underlying KEM uses implicit rejection, so a mismatched ciphertext yields
//! a pseudorandom secret rather than an error, and success must not be read
//! as proof that the ciphertext was genuine.

use vstd::prelude::*;
use crate::errors::PqError;
use pqcrypto_traits::kem::PublicKey as _;
use pqcrypto_traits::kem::SecretKey as _;
use pqcrypto_traits::kem::Ciphertext as _;
use pqcrypto_traits::kem::SharedSecret as _;

verus! {

/// Byte length of a Kyber-512 public key.
pub const KYBER512_PUBLIC_KEY_LEN: usize = 800;
/// Byte length of a Kyber-512 secret key.
pub const KYBER512_SECRET_KEY_LEN: usize = 1632;
/// Byte length of a Kyber-512 ciphertext.
pub const KYBER512_CIPHERTEXT_LEN: usize = 768;
/// Byte length of a Kyber-512 shared secret.
pub const KYBER512_SHARED_SECRET_LEN: usize = 32;

/// The shared secret that Kyber-512 decapsulation derives from a secret key
/// and a ciphertext. Decapsulation is deterministic (implicit rejection
/// yields a pseudorandom but deterministic secret), so the result is a
/// function of the two buffers alone; its value is known only to the
/// primitives library.
pub uninterp spec fn kem_shared_secret(sk: Seq<u8>, ct: Seq<u8>) -> Seq<u8>;

/// Relies on pqcrypto_kyber::kyber512::keypair: generates a fresh key pair
/// whose encodings have the parameter set's fixed lengths. Randomized, so
/// nothing is stated about the bytes themselves.
#[verifier::external_body]
fn kyber_keypair_raw() -> (r: (Vec<u8>, Vec<u8>))
    ensures
        r.0@.len() == KYBER512_PUBLIC_KEY_LEN,
        r.1@.len() == KYBER512_SECRET_KEY_LEN,
{
    let (pk, sk) = pqcrypto_kyber::kyber512::keypair();
    (pk.as_bytes().to_vec(), sk.as_bytes().to_vec())
}

/// Relies on pqcrypto_kyber::kyber512::encapsulate, and on
/// PublicKey::from_bytes accepting exactly the buffers of the fixed
/// public-key length. Returns (shared secret, ciphertext) in the primitives
/// library's own order; each call draws fresh randomness, so only the fixed
/// output lengths are stated.
#[verifier::external_body]
fn kyber_encapsulate_raw(pk: &Vec<u8>) -> (r: (Vec<u8>, Vec<u8>))
    requires
        pk@.len() == KYBER512_PUBLIC_KEY_LEN,
    ensures
        r.0@.len() == KYBER512_SHARED_SECRET_LEN,
        r.1@.len() == KYBER512_CIPHERTEXT_LEN,
{
    let pk = pqcrypto_kyber::kyber512::PublicKey::from_bytes(pk).unwrap();
    let (ss, ct) = pqcrypto_kyber::kyber512::encapsulate(&pk);
    (ss.as_bytes().to_vec(), ct.as_bytes().to_vec())
}

/// Relies on pqcrypto_kyber::kyber512::decapsulate, and on the SecretKey and
/// Ciphertext from_bytes decoders accepting exactly the buffers of their
/// fixed lengths. Decapsulation is deterministic, so the result is named by
/// `kem_shared_secret`; it always succeeds, by implicit rejection.
#[verifier::external_body]
fn kyber_decapsulate_raw(sk: &Vec<u8>, ct: &Vec<u8>) -> (r: Vec<u8>)
    requires
        sk@.len() == KYBER512_SECRET_KEY_LEN,
        ct@.len() == KYBER512_CIPHERTEXT_LEN,
    ensures
        r@ == kem_shared_secret(sk@, ct@),
        r@.len() == KYBER512_SHARED_SECRET_LEN,
{
    let sk = pqcrypto_kyber::kyber512::SecretKey::from_bytes(sk).unwrap();
    let ct = pqcrypto_kyber::kyber512::Ciphertext::from_bytes(ct).unwrap();
    let ss = pqcrypto_kyber::kyber512::decapsulate(&ct, &sk);
    ss.as_bytes().to_vec()
}

/// Fixes the facade's public output order for encapsulation. The primitives
/// library returns (shared secret, ciphertext); the facade's contract is
/// (ciphertext, shared secret). The remapping lives in this one adapter so a
/// library upgrade that changes the internal order cannot silently invert
/// the public contract.
pub fn order_encapsulation_output(ss: Vec<u8>, ct: Vec<u8>) -> (r: (Vec<u8>, Vec<u8>))
    ensures
        r.0@ == ct@,
        r.1@ == ss@,
{
    (ct, ss)
}

/// Generates a Kyber-512 key pair and returns `(public key, secret key)` as
/// byte buffers of the parameter set's fixed lengths.
pub fn kyber_keygen() -> (r: (Vec<u8>, Vec<u8>))
    ensures
        r.0@.len() == KYBER512_PUBLIC_KEY_LEN,
        r.1@.len() == KYBER512_SECRET_KEY_LEN,
{
    kyber_keypair_raw()
}

/// Encapsulates to a Kyber-512 public key and returns
/// `(ciphertext, shared secret)`. Succeeds exactly when the buffer has the
/// public-key length; any other length is `InvalidPublicKey`. Each call
/// draws fresh randomness from the primitives library.
pub fn kyber_encapsulate(pk_bytes: &Vec<u8>) -> (r: Result<(Vec<u8>, Vec<u8>), PqError>)
    ensures
        r is Ok <==> pk_bytes@.len() == KYBER512_PUBLIC_KEY_LEN,
        r is Err ==> r == Err::<(Vec<u8>, Vec<u8>), PqError>(PqError::InvalidPublicKey),
        r matches Ok(out) ==> out.0@.len() == KYBER512_CIPHERTEXT_LEN
            && out.1@.len() == KYBER512_SHARED_SECRET_LEN,
{
    if pk_bytes.len() != KYBER512_PUBLIC_KEY_LEN {
        return Err(PqError::InvalidPublicKey);
    }
    let (ss, ct) = kyber_encapsulate_raw(pk_bytes);
    Ok(order_encapsulation_output(ss, ct))
}

/// Recovers the shared secret from a Kyber-512 ciphertext under a secret
/// key. Succeeds exactly when both buffers have their fixed lengths; the two
/// operands are validated independently, the secret key first, so the caller
/// can tell which was malformed. On success the secret is the deterministic
/// decapsulation of the two buffers — returned even when the ciphertext does
/// not belong to this key, by implicit rejection, so success is no proof
/// that the ciphertext was genuine.
pub fn kyber_decapsulate(sk_bytes: &Vec<u8>, ct_bytes: &Vec<u8>) -> (r: Result<Vec<u8>, PqError>)
    ensures
        r is Ok <==> (sk_bytes@.len() == KYBER512_SECRET_KEY_LEN
            && ct_bytes@.len() == KYBER512_CIPHERTEXT_LEN),
        sk_bytes@.len() != KYBER512_SECRET_KEY_LEN
            ==> r == Err::<Vec<u8>, PqError>(PqError::InvalidSecretKey),
        sk_bytes@.len() == KYBER512_SECRET_KEY_LEN
            && ct_bytes@.len() != KYBER512_CIPHERTEXT_LEN
            ==> r == Err::<Vec<u8>, PqError>(PqError::InvalidCiphertext),
        r matches Ok(ss) ==> ss@ == kem_shared_secret(sk_bytes@, ct_bytes@)
            && ss@.len() == KYBER512_SHARED_SECRET_LEN,
{
    if sk_bytes.len() != KYBER512_SECRET_KEY_LEN {
        return Err(PqError::InvalidSecretKey);
    }
    if ct_bytes.len() != KYBER512_CIPHERTEXT_LEN {
        return Err(PqError::InvalidCiphertext);
    }
    Ok(kyber_decapsulate_raw(sk_bytes, ct_bytes))
}

/// Decapsulation is a pure function of the secret-key and ciphertext
/// buffers: two calls on byte-equal inputs yield byte-equal shared secrets.
/// This is why a secret encapsulated once can be recovered later from the
/// same ciphertext.
pub proof fn lemma_decapsulation_deterministic(sk1: Seq<u8>, ct1: Seq<u8>, sk2: Seq<u8>, ct2: Seq<u8>)
    requires
        sk1 == sk2,
        ct1 == ct2,
    ensures
        kem_shared_secret(sk1, ct1) == kem_shared_secret(sk2, ct2),
{
}

} // verus!
