//! What this library takes from other crates: Ed25519 from `ring`, base64 text
//! from `base64`, fixed-width little-endian bytes from `bincode`.
//!
//! Nothing in this module is proved. Each item states, as a contract, what the
//! crate it calls is relied on to do; the rest of the library is verified
//! against these contracts.

use crate::datetime::{le_bytes, twos_complement};
use vstd::prelude::*;

verus! {

/// `ring`'s Ed25519 key pair. What it holds stays hidden; `signing_seed` names
/// what its answers depend on.
#[verifier::external_type_specification]
#[verifier::external_body]
pub struct ExEd25519KeyPair(ring::signature::Ed25519KeyPair);

/// Why `ring` rejected a private key.
#[verifier::external_type_specification]
#[verifier::external_body]
pub struct ExKeyRejected(ring::error::KeyRejected);

/// `ring`'s error without detail.
#[verifier::external_type_specification]
#[verifier::external_body]
pub struct ExUnspecified(ring::error::Unspecified);

/// `ring`'s handle on the operating system's random source.
#[verifier::external_type_specification]
#[verifier::external_body]
pub struct ExSystemRandom(ring::rand::SystemRandom);

/// Why `bincode` failed.
#[verifier::external_type_specification]
#[verifier::external_body]
pub struct ExBincodeErrorKind(bincode::ErrorKind);

/// The private seed from which `ring` derived a key pair: the one thing that
/// the pair's public key and its signatures depend on.
pub uninterp spec fn signing_seed(pair: ring::signature::Ed25519KeyPair) -> Seq<u8>;

/// The public key that belongs to a private seed.
pub uninterp spec fn ed25519_public_key(seed: Seq<u8>) -> Seq<u8>;

/// The signature that the key pair of a private seed gives a message.
pub uninterp spec fn ed25519_signature(seed: Seq<u8>, msg: Seq<u8>) -> Seq<u8>;

/// Whether `sig` is a valid Ed25519 signature of `msg` under `public_key`.
pub uninterp spec fn ed25519_valid(public_key: Seq<u8>, msg: Seq<u8>, sig: Seq<u8>) -> bool;

/// The private seed that a PKCS#8 document holds, where `ring` accepts the
/// document as an Ed25519 private key.
pub uninterp spec fn pkcs8_seed(doc: Seq<u8>) -> Option<Seq<u8>>;

/// The standard, padded base64 text of a byte string.
pub uninterp spec fn base64_text(bytes: Seq<u8>) -> Seq<char>;

/// The bytes that a text stands for in standard base64, where `base64`
/// accepts the text.
pub uninterp spec fn base64_bytes(text: Seq<char>) -> Option<Seq<u8>>;

/// `ring::rand::SystemRandom::new`: a handle on the operating system's random
/// source. Nothing is claimed of it.
pub assume_specification[ ring::rand::SystemRandom::new ]() -> (rng: ring::rand::SystemRandom);

/// `ring::signature::Ed25519KeyPair::generate_pkcs8`: a fresh private key as a
/// PKCS#8 document, or an error where the random source fails. Nothing is
/// claimed of the outcome.
#[verifier::external_body]
pub(crate) fn ring_generate_pkcs8(rng: &ring::rand::SystemRandom) -> (doc: Result<
    Vec<u8>,
    ring::error::Unspecified,
>) {
    match ring::signature::Ed25519KeyPair::generate_pkcs8(rng) {
        Ok(doc) => Ok(doc.as_ref().to_vec()),
        Err(e) => Err(e),
    }
}

/// `ring::signature::Ed25519KeyPair::from_pkcs8`: parses a PKCS#8 document.
/// Whether it is accepted, and the seed of the pair that comes out, depend on
/// the document's bytes alone.
#[verifier::external_body]
pub(crate) fn ring_from_pkcs8(doc: &[u8]) -> (pair: Result<
    ring::signature::Ed25519KeyPair,
    ring::error::KeyRejected,
>)
    ensures
        pair is Ok <==> pkcs8_seed(doc@) is Some,
        pair matches Ok(p) ==> Some(signing_seed(p)) == pkcs8_seed(doc@),
{
    ring::signature::Ed25519KeyPair::from_pkcs8(doc)
}

/// `ring::signature::KeyPair::public_key` of an Ed25519 key pair: the 32 bytes
/// of the public key, which the seed determines.
#[verifier::external_body]
pub(crate) fn ring_public_key(pair: &ring::signature::Ed25519KeyPair) -> (key: Vec<u8>)
    ensures
        key@ == ed25519_public_key(signing_seed(*pair)),
        key@.len() == 32,
{
    ring::signature::KeyPair::public_key(pair).as_ref().to_vec()
}

/// `ring::signature::Ed25519KeyPair::sign`: the 64 bytes of the signature,
/// which the seed and the message determine (Ed25519 draws no randomness), and
/// which is valid for the message under the pair's own public key.
#[verifier::external_body]
pub(crate) fn ring_sign(pair: &ring::signature::Ed25519KeyPair, msg: &[u8]) -> (sig: Vec<u8>)
    ensures
        sig@ == ed25519_signature(signing_seed(*pair), msg@),
        sig@.len() == 64,
        ed25519_valid(ed25519_public_key(signing_seed(*pair)), msg@, sig@),
{
    pair.sign(msg).as_ref().to_vec()
}

/// `ring::signature::VerificationAlgorithm::verify` of `ring::signature::ED25519`:
/// whether the signature is valid, which the three byte strings determine. A
/// public key that is not 32 bytes long, or a signature that is not 64 bytes
/// long, is never valid.
#[verifier::external_body]
pub(crate) fn ring_verify(public_key: &[u8], msg: &[u8], sig: &[u8]) -> (valid: bool)
    ensures
        valid == ed25519_valid(public_key@, msg@, sig@),
        valid ==> public_key@.len() == 32 && sig@.len() == 64,
{
    ring::signature::VerificationAlgorithm::verify(
        &ring::signature::ED25519,
        untrusted::Input::from(public_key),
        untrusted::Input::from(msg),
        untrusted::Input::from(sig),
    ).is_ok()
}

/// `base64::encode`: the standard base64 text of the bytes, which
/// `base64::decode` turns back into the same bytes. It panics only where four
/// thirds of the length do not fit in `usize`, which no slice in memory
/// reaches.
#[verifier::external_body]
pub(crate) fn base64_encode(bytes: &[u8]) -> (text: String)
    ensures
        text@ == base64_text(bytes@),
        base64_bytes(text@) == Some(bytes@),
{
    base64::encode(bytes)
}

/// `base64::decode`: the bytes that the text stands for, or `None` where
/// `base64` rejects the text. Which it is depends on the text alone.
#[verifier::external_body]
pub(crate) fn base64_decode(text: &str) -> (bytes: Option<Vec<u8>>)
    ensures
        bytes is Some <==> base64_bytes(text@) is Some,
        bytes matches Some(b) ==> Some(b@) == base64_bytes(text@),
{
    base64::decode(text).ok()
}

/// `bincode::serialize` of a pair of a 64-bit signed and a 32-bit unsigned
/// integer: the eight bytes of the first in two's complement and then the
/// four bytes of the second, lowest byte first, with nothing before, between
/// or after them. Writing two integers into a byte vector cannot fail.
#[verifier::external_body]
pub(crate) fn bincode_serialize(secs: i64, nanos: u32) -> (bytes: Result<
    Vec<u8>,
    Box<bincode::ErrorKind>,
>)
    ensures
        bytes is Ok,
        bytes matches Ok(b) ==> b@ == le_bytes(twos_complement(secs), 8) + le_bytes(nanos as nat, 4),
{
    bincode::serialize(&(secs, nanos))
}

} // verus!
