//! The cryptographic primitives the library relies on.
//!
//! Nothing in this file is proved. Each function hands its arguments to a
//! primitive of another crate, and its contract records what that primitive
//! is relied upon to do. Curve points cross this boundary in their compressed
//! encoding, so the rest of the library works on plain bytes.

use ark_bls12_381::{Bls12_381, G1Affine, G2Affine};
use ark_ec::bls12::G1Prepared;
use ark_ec::AffineRepr;
use ark_serialize::{CanonicalDeserialize, CanonicalSerialize};
use ed25519_dalek::{Signature, Signer, SigningKey, VerifyingKey};
use group_threshold_cryptography_pre_release::{decrypt_symmetric, encrypt, Ciphertext, SecretBox};
use rand::{RngCore, SeedableRng};
use rand_chacha::ChaCha20Rng;
use sha2::{Digest, Sha256};
use vstd::prelude::*;

verus! {

/// The SHA-256 digest of a byte string.
pub uninterp spec fn sha256_digest(data: Seq<u8>) -> Seq<u8>;

/// The compressed encoding of the point of the first pairing group that a
/// byte string decodes to, or `None` where it decodes to none.
pub uninterp spec fn g1_canonical(bytes: Seq<u8>) -> Option<Seq<u8>>;

/// The compressed encoding of the point of the second pairing group that a
/// byte string decodes to, or `None` where it decodes to none.
pub uninterp spec fn g2_canonical(bytes: Seq<u8>) -> Option<Seq<u8>>;

/// Whether a byte string is the encoding of a point of the first pairing
/// group: it decodes, and the point is encoded as these very bytes.
pub open spec fn g1_encoding(bytes: Seq<u8>) -> bool {
    g1_canonical(bytes) == Some(bytes)
}

/// Whether a byte string is the encoding of a point of the second pairing
/// group: it decodes, and the point is encoded as these very bytes.
pub open spec fn g2_encoding(bytes: Seq<u8>) -> bool {
    g2_canonical(bytes) == Some(bytes)
}

/// The encoding of the key under which payloads are encrypted in an epoch.
pub uninterp spec fn network_key(epoch: u64) -> Seq<u8>;

/// The three parts of the ciphertext that the encryption scheme gives for a
/// message under a key when it draws its randomness from the ChaCha
/// generator of a seed, or `None` where the scheme fails.
pub uninterp spec fn sealing(message: Seq<u8>, key: Seq<u8>, seed: Seq<u8>) -> Option<
    (Seq<u8>, Seq<u8>, Seq<u8>),
>;

/// Whether a ciphertext, given by its three parts, passes the validity check
/// of the encryption scheme.
pub uninterp spec fn sealed_check(nonce: Seq<u8>, ciphertext: Seq<u8>, auth_tag: Seq<u8>) -> bool;

/// What a ciphertext, given by its three parts, decrypts to under a key, or
/// `None` where the scheme refuses to decrypt it.
pub uninterp spec fn sealed_opening(
    nonce: Seq<u8>,
    ciphertext: Seq<u8>,
    auth_tag: Seq<u8>,
    key: Seq<u8>,
) -> Option<Seq<u8>>;

/// The Ed25519 public key that belongs to a secret key.
pub uninterp spec fn ed25519_public(secret: Seq<u8>) -> Seq<u8>;

/// The Ed25519 signature of a message under a secret key.
pub uninterp spec fn ed25519_signature(secret: Seq<u8>, message: Seq<u8>) -> Seq<u8>;

/// Why Ed25519 verification refuses a signature on a message under a public
/// key, or `None` where it accepts.
pub uninterp spec fn ed25519_refusal(
    public: Seq<u8>,
    message: Seq<u8>,
    signature: Seq<u8>,
) -> Option<Seq<char>>;

/// `sha2::Sha256::digest`: the result is the SHA-256 digest of `data`.
#[verifier::external_body]
pub(crate) fn sha256(data: &[u8]) -> (digest: [u8; 32])
    ensures
        digest@ == sha256_digest(data@),
{
    Sha256::digest(data).into()
}

/// `G1Affine::deserialize_compressed`, with its checks: the point that
/// `bytes` decode to, encoded again by `serialize_compressed`; `None` where
/// decoding fails.
#[verifier::external_body]
pub(crate) fn recode_g1(bytes: &[u8]) -> (canonical: Option<Vec<u8>>)
    ensures
        canonical.is_some() == g1_canonical(bytes@).is_some(),
        canonical matches Some(c) ==> g1_canonical(bytes@) == Some(c@),
{
    let point = G1Affine::deserialize_compressed(bytes).ok()?;
    let mut canonical = Vec::new();
    point.serialize_compressed(&mut canonical).ok()?;
    Some(canonical)
}

/// `G2Affine::deserialize_compressed`, with its checks: the point that
/// `bytes` decode to, encoded again by `serialize_compressed`; `None` where
/// decoding fails.
#[verifier::external_body]
pub(crate) fn recode_g2(bytes: &[u8]) -> (canonical: Option<Vec<u8>>)
    ensures
        canonical.is_some() == g2_canonical(bytes@).is_some(),
        canonical matches Some(c) ==> g2_canonical(bytes@) == Some(c@),
{
    let point = G2Affine::deserialize_compressed(bytes).ok()?;
    let mut canonical = Vec::new();
    point.serialize_compressed(&mut canonical).ok()?;
    Some(canonical)
}

/// `G1Affine::generator`: the fixed generator of the first group, encoded
/// by `serialize_compressed`. It stands for the network's encryption key in
/// every epoch. What `serialize_compressed` writes is the encoding of the
/// point it was given: it decodes to that point, which is encoded as the same
/// bytes again.
#[verifier::external_body]
pub(crate) fn generator_key(epoch: u64) -> (key: Vec<u8>)
    ensures
        key@ == network_key(epoch),
        g1_encoding(key@),
{
    let mut key = Vec::new();
    G1Affine::generator().serialize_compressed(&mut key).unwrap();
    key
}

/// `RngCore::fill_bytes` on `rand::thread_rng`: thirty-two fresh random
/// bytes. Every call gives others, so nothing is claimed of them.
#[verifier::external_body]
pub(crate) fn fresh_seed() -> [u8; 32] {
    let mut seed = [0u8; 32];
    rand::thread_rng().fill_bytes(&mut seed);
    seed
}

/// `encrypt` of the threshold encryption crate, with no associated data,
/// drawing from `ChaCha20Rng::from_seed`. That generator is fixed by its
/// seed, so the message, the key and the seed fix the result. The parts of
/// the ciphertext come back encoded.
#[verifier::external_body]
pub(crate) fn seal_with(message: &[u8], key: &[u8], seed: &[u8; 32]) -> (sealed: Option<
    (Vec<u8>, Vec<u8>, Vec<u8>),
>)
    requires
        g1_canonical(key@).is_some(),
    ensures
        sealed.is_some() == sealing(message@, key@, seed@).is_some(),
        sealed matches Some((nonce, ciphertext, auth_tag)) ==> sealing(message@, key@, seed@)
            == Some((nonce@, ciphertext@, auth_tag@)),
{
    let key = G1Affine::deserialize_compressed(key).unwrap();
    let plain = SecretBox::new(message.to_vec());
    let mut rng = ChaCha20Rng::from_seed(*seed);
    let sealed = encrypt::<Bls12_381>(plain, &[], &key, &mut rng).ok()?;
    let (mut nonce, mut auth_tag) = (Vec::new(), Vec::new());
    sealed.commitment.serialize_compressed(&mut nonce).ok()?;
    sealed.auth_tag.serialize_compressed(&mut auth_tag).ok()?;
    Some((nonce, sealed.ciphertext, auth_tag))
}

/// `Ciphertext::check` of the threshold encryption crate, with no associated
/// data, against the negated generator of the first group.
#[verifier::external_body]
pub(crate) fn check_sealed(nonce: &[u8], ciphertext: &[u8], auth_tag: &[u8]) -> (ok: bool)
    requires
        g1_canonical(nonce@).is_some(),
        g2_canonical(auth_tag@).is_some(),
    ensures
        ok == sealed_check(nonce@, ciphertext@, auth_tag@),
{
    let sealed = Ciphertext::<Bls12_381> {
        commitment: G1Affine::deserialize_compressed(nonce).unwrap(),
        auth_tag: G2Affine::deserialize_compressed(auth_tag).unwrap(),
        ciphertext: ciphertext.to_vec(),
    };
    let g_inv = G1Prepared::from(-G1Affine::generator());
    sealed.check(&[], &g_inv).unwrap_or(false)
}

/// `decrypt_symmetric` of the threshold encryption crate, with no associated
/// data, against the negated generator of the first group. It runs the
/// validity check before it decrypts, so a ciphertext that opens also passes
/// that check.
#[verifier::external_body]
pub(crate) fn open_sealed(nonce: &[u8], ciphertext: &[u8], auth_tag: &[u8], key: &[u8]) -> (plain:
    Option<Vec<u8>>)
    requires
        g1_canonical(nonce@).is_some(),
        g2_canonical(auth_tag@).is_some(),
        g2_canonical(key@).is_some(),
    ensures
        plain matches Some(p) ==> sealed_opening(nonce@, ciphertext@, auth_tag@, key@) == Some(p@),
        plain.is_none() ==> sealed_opening(nonce@, ciphertext@, auth_tag@, key@).is_none(),
        plain.is_some() ==> sealed_check(nonce@, ciphertext@, auth_tag@),
{
    let sealed = Ciphertext::<Bls12_381> {
        commitment: G1Affine::deserialize_compressed(nonce).unwrap(),
        auth_tag: G2Affine::deserialize_compressed(auth_tag).unwrap(),
        ciphertext: ciphertext.to_vec(),
    };
    let key = G2Affine::deserialize_compressed(key).unwrap();
    let g_inv = G1Prepared::from(-G1Affine::generator());
    decrypt_symmetric(&sealed, &[], &key, &g_inv).ok()
}

/// `SigningKey::verifying_key`: the public key derived from `secret`.
#[verifier::external_body]
pub(crate) fn public_of(secret: &[u8; 32]) -> (public: [u8; 32])
    ensures
        public@ == ed25519_public(secret@),
{
    SigningKey::from_bytes(secret).verifying_key().to_bytes()
}

/// `SigningKey::sign`: the signature of `message` under `secret`. Ed25519
/// signing draws no randomness.
#[verifier::external_body]
pub(crate) fn sign_with(secret: &[u8; 32], message: &[u8]) -> (signature: [u8; 64])
    ensures
        signature@ == ed25519_signature(secret@, message@),
{
    SigningKey::from_bytes(secret).sign(message).to_bytes()
}

/// `VerifyingKey::verify_strict`: accepts, or refuses with the verifier's own
/// message. A key that does not decode is refused in the same way.
#[verifier::external_body]
pub(crate) fn verify_with(public: &[u8; 32], message: &[u8], signature: &[u8; 64]) -> (verdict:
    Result<(), String>)
    ensures
        verdict.is_ok() == ed25519_refusal(public@, message@, signature@).is_none(),
        verdict matches Err(why) ==> ed25519_refusal(public@, message@, signature@) == Some(why@),
{
    let key = VerifyingKey::from_bytes(public).map_err(|e| e.to_string())?;
    key.verify_strict(message, &Signature::from_bytes(signature)).map_err(|e| e.to_string())
}

} // verus!
