//! The signature facade: key-pair generation, signing and verification for
//! Falcon-512, over plain byte buffers. A signed message is one
//! self-describing bundle (message plus binding signature), not a detached
//! signature: verification opens the bundle and compares the recovered
//! message byte-for-byte against the expected one. Failure is two-tier:
//! malformed inputs are typed errors, raised before any cryptographic work,
//! while a bundle that merely does not verify — forged, tampered with, or
//! signed under another key — is the ordinary `false` outcome, with no
//! further detail.

use vstd::prelude::*;
use crate::errors::PqError;
use pqcrypto_traits::sign::PublicKey as _;
use pqcrypto_traits::sign::SecretKey as _;
use pqcrypto_traits::sign::SignedMessage as _;

verus! {

/// Byte length of a Falcon-512 public key.
pub const FALCON512_PUBLIC_KEY_LEN: usize = 897;
/// Byte length of a Falcon-512 secret key.
pub const FALCON512_SECRET_KEY_LEN: usize = 1281;
/// Greatest number of bytes a Falcon-512 signature adds to a message: the
/// bundle is never longer than the message plus this overhead.
pub const FALCON512_SIGNATURE_MAX_LEN: usize = 752;

/// What opening a signed-message bundle under a public key yields: the
/// embedded message when the signature verifies, nothing when it does not.
/// Verification is deterministic, so the outcome is a function of the two
/// buffers alone; its value is known only to the primitives library.
pub uninterp spec fn sig_opened_message(sm: Seq<u8>, pk: Seq<u8>) -> Option<Seq<u8>>;

/// Whether a signed-message bundle verifies under a public key as a
/// signature over exactly `msg`: opening succeeds and recovers `msg`.
pub open spec fn verify_outcome(pk: Seq<u8>, sm: Seq<u8>, msg: Seq<u8>) -> bool {
    sig_opened_message(sm, pk) matches Some(m) && m == msg
}

/// Whether two byte encodings are the public and secret half of one
/// Falcon-512 key pair, as `keypair` produces them. The relation is known
/// only through the facts the wrappers state of it: key generation
/// establishes it, and signing under the secret half yields a bundle that
/// opens under the public half.
pub uninterp spec fn sig_keypair_linked(pk: Seq<u8>, sk: Seq<u8>) -> bool;

/// Relies on pqcrypto_falcon::falcon512::keypair: generates a fresh key
/// pair whose encodings have the parameter set's fixed lengths and belong
/// together. Randomized, so nothing is stated about the bytes themselves.
#[verifier::external_body]
fn falcon_keypair_raw() -> (r: (Vec<u8>, Vec<u8>))
    ensures
        r.0@.len() == FALCON512_PUBLIC_KEY_LEN,
        r.1@.len() == FALCON512_SECRET_KEY_LEN,
        sig_keypair_linked(r.0@, r.1@),
{
    let (pk, sk) = pqcrypto_falcon::falcon512::keypair();
    (pk.as_bytes().to_vec(), sk.as_bytes().to_vec())
}

/// Relies on pqcrypto_falcon::falcon512::sign, and on SecretKey::from_bytes
/// accepting exactly the buffers of the fixed secret-key length. Signing
/// draws a fresh random nonce, so the bundle's bytes are not pinned; what
/// holds of every outcome is stated instead. On success the bundle embeds
/// the message behind a header, nonce and signature — strictly longer than
/// the message — and opens to the message under any public key paired with
/// this secret key. When the primitive fails (a malformed but well-lengthed
/// key, or a signature that overflows its buffer), it leaves the output
/// length unset and the bundle comes back empty.
#[verifier::external_body]
fn falcon_sign_raw(message: &Vec<u8>, sk: &Vec<u8>) -> (r: Vec<u8>)
    requires
        sk@.len() == FALCON512_SECRET_KEY_LEN,
        message@.len() + FALCON512_SIGNATURE_MAX_LEN <= usize::MAX,
    ensures
        r@.len() <= message@.len() + FALCON512_SIGNATURE_MAX_LEN,
        r@.len() == 0 || r@.len() > message@.len(),
        forall|pk: Seq<u8>|
            r@.len() != 0 && sig_keypair_linked(pk, sk@) ==> #[trigger] verify_outcome(
                pk,
                r@,
                message@,
            ),
{
    let sk = pqcrypto_falcon::falcon512::SecretKey::from_bytes(sk).unwrap();
    let sm = pqcrypto_falcon::falcon512::sign(message, &sk);
    sm.as_bytes().to_vec()
}

/// Relies on pqcrypto_falcon::falcon512::open, on PublicKey::from_bytes
/// accepting exactly the buffers of the fixed public-key length, and on
/// SignedMessage::from_bytes accepting every byte sequence. Opening is
/// deterministic, so the outcome is named by `sig_opened_message`; a bundle
/// that does not verify yields `None`, never a panic.
#[verifier::external_body]
fn falcon_open_raw(sm: &Vec<u8>, pk: &Vec<u8>) -> (r: Option<Vec<u8>>)
    requires
        pk@.len() == FALCON512_PUBLIC_KEY_LEN,
    ensures
        r is Some <==> sig_opened_message(sm@, pk@) is Some,
        r matches Some(m) ==> Some(m@) == sig_opened_message(sm@, pk@),
{
    let pk = pqcrypto_falcon::falcon512::PublicKey::from_bytes(pk).unwrap();
    let sm = pqcrypto_falcon::falcon512::SignedMessage::from_bytes(sm).unwrap();
    match pqcrypto_falcon::falcon512::open(&sm, &pk) {
        Ok(message) => Some(message),
        Err(_) => None,
    }
}

/// Byte-for-byte equality of two buffers.
pub fn bytes_equal(a: &Vec<u8>, b: &Vec<u8>) -> (r: bool)
    ensures
        r == (a@ == b@),
{
    if a.len() != b.len() {
        return false;
    }
    let mut i: usize = 0;
    while i < a.len()
        invariant
            i <= a@.len(),
            a@.len() == b@.len(),
            forall|j: int| 0 <= j < i ==> a@[j] == b@[j],
        decreases a@.len() - i,
    {
        if a[i] != b[i] {
            return false;
        }
        i += 1;
    }
    proof {
        assert(a@ =~= b@);
    }
    true
}

/// Decides the boolean verification outcome from what opening the bundle
/// yielded: `true` exactly when opening succeeded and the recovered message
/// equals the expected one. Equality is the sole success criterion — a
/// validly signed bundle over a different message is `false`.
pub fn opened_message_matches(opened: &Option<Vec<u8>>, expected: &Vec<u8>) -> (r: bool)
    ensures
        r == (opened matches Some(m) && m@ == expected@),
{
    match opened {
        Some(m) => bytes_equal(m, expected),
        None => false,
    }
}

/// Generates a Falcon-512 key pair and returns `(public key, secret key)`
/// as byte buffers of the parameter set's fixed lengths; the two halves
/// belong to one key pair, so a bundle signed under the secret half opens
/// under the public half.
pub fn falcon_keygen() -> (r: (Vec<u8>, Vec<u8>))
    ensures
        r.0@.len() == FALCON512_PUBLIC_KEY_LEN,
        r.1@.len() == FALCON512_SECRET_KEY_LEN,
        sig_keypair_linked(r.0@, r.1@),
{
    falcon_keypair_raw()
}

/// Signs a message — any byte sequence, including the empty one — under a
/// Falcon-512 secret key and returns the signed-message bundle. A key
/// buffer of any other length is `InvalidSecretKey`, and so is one of the
/// right length whose structure the primitive rejects (it then hands back
/// the empty bundle): success means a signature was really bound over the
/// message. On `Ok` the bundle embeds the message — strictly longer than
/// it, never longer than it plus the fixed signature overhead — and
/// verifies as a signature over exactly this message under any public key
/// paired with the secret key.
pub fn falcon_sign(sk_bytes: &Vec<u8>, message: &Vec<u8>) -> (r: Result<Vec<u8>, PqError>)
    requires
        message@.len() + FALCON512_SIGNATURE_MAX_LEN <= usize::MAX,
    ensures
        r is Ok ==> sk_bytes@.len() == FALCON512_SECRET_KEY_LEN,
        r is Err ==> r == Err::<Vec<u8>, PqError>(PqError::InvalidSecretKey),
        r matches Ok(sm) ==> message@.len() < sm@.len() <= message@.len()
            + FALCON512_SIGNATURE_MAX_LEN,
        r matches Ok(sm) ==> forall|pk: Seq<u8>|
            sig_keypair_linked(pk, sk_bytes@) ==> #[trigger] verify_outcome(pk, sm@, message@),
{
    if sk_bytes.len() != FALCON512_SECRET_KEY_LEN {
        return Err(PqError::InvalidSecretKey);
    }
    let sm = falcon_sign_raw(message, sk_bytes);
    if sm.len() == 0 {
        return Err(PqError::InvalidSecretKey);
    }
    Ok(sm)
}

/// Verifies a signed-message bundle under a Falcon-512 public key against
/// an expected message. Succeeds exactly when the key buffer has the
/// public-key length; any other length is `InvalidPublicKey`. The bundle
/// itself may be any byte sequence — this parameter set's decoder accepts
/// all of them, so a malformed bundle surfaces as the `false` outcome, not
/// as an error. `Ok(true)` exactly when the bundle opens under the key and
/// the recovered message equals `message` byte for byte.
pub fn falcon_verify(pk_bytes: &Vec<u8>, sm_bytes: &Vec<u8>, message: &Vec<u8>) -> (r: Result<
    bool,
    PqError,
>)
    ensures
        r is Ok <==> pk_bytes@.len() == FALCON512_PUBLIC_KEY_LEN,
        r is Err ==> r == Err::<bool, PqError>(PqError::InvalidPublicKey),
        r matches Ok(matched) ==> matched == verify_outcome(pk_bytes@, sm_bytes@, message@),
{
    if pk_bytes.len() != FALCON512_PUBLIC_KEY_LEN {
        return Err(PqError::InvalidPublicKey);
    }
    let opened = falcon_open_raw(sm_bytes, pk_bytes);
    Ok(opened_message_matches(&opened, message))
}

/// A signed-message bundle verifies for at most one message under a given
/// public key: opening is deterministic and recovers a single embedded
/// message, so whenever verification answers `true` for `m1`, it answers
/// `false` for every `m2 != m1` — a tampered expected message is rejected.
pub proof fn lemma_bundle_verifies_one_message(pk: Seq<u8>, sm: Seq<u8>, m1: Seq<u8>, m2: Seq<u8>)
    requires
        verify_outcome(pk, sm, m1),
        m1 != m2,
    ensures
        !verify_outcome(pk, sm, m2),
{
}

} // verus!
