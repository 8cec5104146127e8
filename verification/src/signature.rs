//! Public keys, signatures and key pairs.
//!
//! A [`PublicKey`] is 32 raw bytes and a [`Signature`] is 64; both are plain
//! values that compare and hash by their bytes, and both have a base64 text
//! form. A [`KeyPair`] owns the private key and is the only thing that signs.

use crate::outside;
use crate::outside::{
    base64_bytes, base64_text, ed25519_public_key, ed25519_signature, ed25519_valid, pkcs8_seed,
    signing_seed,
};
use vstd::prelude::*;

verus! {

/// Why a text is not the base64 form of a key or of a signature.
#[derive(Debug, PartialEq, Eq, Copy, Clone, Structural)]
pub enum DecodeError {
    /// The text is not standard base64.
    InvalidBase64,
    /// The text is base64, but of another number of bytes than the value has.
    InvalidLength,
}

/// The bytes handed in are not an Ed25519 private key in PKCS#8 form.
#[derive(Debug, PartialEq, Eq, Copy, Clone, Structural)]
pub struct InvalidKeyMaterial;

/// A public identity: the 32 raw bytes of an Ed25519 public key.
///
/// The default value is all zero: a placeholder that is nobody's key.
#[derive(Debug, Eq, Copy, Clone, Hash)]
pub struct PublicKey(pub [u8; 32]);

/// A verification tag: the 64 raw bytes of an Ed25519 signature.
///
/// The default value is all zero.
#[derive(Debug, Eq, Copy, Clone, Hash)]
pub struct Signature(pub [u8; 64]);

/// A private signing key together with the public key that belongs to it.
///
/// The private key stays inside: a key pair can sign and can tell its public
/// key, and it offers nothing else.
pub struct KeyPair(ring::signature::Ed25519KeyPair);

/// Whether two byte strings hold the same bytes.
fn same_bytes(a: &[u8], b: &[u8]) -> (same: bool)
    ensures
        same == (a@ == b@),
{
    if a.len() != b.len() {
        return false;
    }
    let mut i: usize = 0;
    while i < a.len()
        invariant
            a@.len() == b@.len(),
            i <= a@.len(),
            forall|j: int| 0 <= j < i ==> a@[j] == b@[j],
        decreases a@.len() - i,
    {
        if a[i] != b[i] {
            return false;
        }
        i += 1;
    }
    assert(a@ =~= b@);
    true
}

/// Copies exactly `N` bytes into an array.
fn to_array<const N: usize>(bytes: &[u8]) -> (array: [u8; N])
    requires
        bytes@.len() == N,
    ensures
        array@ == bytes@,
{
    let mut array = [0u8; N];
    let mut i: usize = 0;
    while i < N
        invariant
            bytes@.len() == N,
            i <= N,
            forall|j: int| 0 <= j < i ==> array@[j] == bytes@[j],
        decreases N - i,
    {
        array[i] = bytes[i];
        i += 1;
    }
    assert(array@ =~= bytes@);
    array
}

/// The bytes as an array of exactly `N`, or `InvalidLength` where there are
/// more or fewer than `N` of them.
pub fn fixed_bytes<const N: usize>(bytes: &[u8]) -> (array: Result<[u8; N], DecodeError>)
    ensures
        bytes@.len() == N ==> (array matches Ok(a) && a@ == bytes@),
        bytes@.len() != N ==> array == Err::<[u8; N], DecodeError>(DecodeError::InvalidLength),
{
    if bytes.len() == N {
        Ok(to_array::<N>(bytes))
    } else {
        Err(DecodeError::InvalidLength)
    }
}

/// What decoding gives for a value of `width` bytes, from what the text stands
/// for in base64.
pub open spec fn decoded(bytes: Option<Seq<u8>>, width: nat) -> Result<Seq<u8>, DecodeError> {
    match bytes {
        None => Err(DecodeError::InvalidBase64),
        Some(b) => if b.len() == width {
            Ok(b)
        } else {
            Err(DecodeError::InvalidLength)
        },
    }
}

/// The base64 text form of a key or of a signature.
///
/// Decoding the text gives the bytes back, so that text and bytes can stand
/// for each other.
pub fn as_base64(key: &[u8]) -> (text: String)
    ensures
        text@ == base64_text(key@),
        base64_bytes(text@) == Some(key@),
{
    outside::base64_encode(key)
}

/// The 32 bytes of a public key from their base64 text form.
pub fn from_base64(text: &str) -> (key: Result<[u8; 32], DecodeError>)
    ensures
        match decoded(base64_bytes(text@), 32) {
            Ok(bytes) => (key matches Ok(k) && k@ == bytes),
            Err(e) => key == Err::<[u8; 32], DecodeError>(e),
        },
{
    match outside::base64_decode(text) {
        Some(bytes) => fixed_bytes::<32>(bytes.as_slice()),
        None => Err(DecodeError::InvalidBase64),
    }
}

/// The 64 bytes of a signature from their base64 text form.
pub fn from_base64_u64(text: &str) -> (sig: Result<[u8; 64], DecodeError>)
    ensures
        match decoded(base64_bytes(text@), 64) {
            Ok(bytes) => (sig matches Ok(s) && s@ == bytes),
            Err(e) => sig == Err::<[u8; 64], DecodeError>(e),
        },
{
    match outside::base64_decode(text) {
        Some(bytes) => fixed_bytes::<64>(bytes.as_slice()),
        None => Err(DecodeError::InvalidBase64),
    }
}

impl View for PublicKey {
    type V = Seq<u8>;

    open spec fn view(&self) -> Seq<u8> {
        self.0@
    }
}

impl PartialEq for PublicKey {
    fn eq(&self, other: &Self) -> (equal: bool) {
        same_bytes(self.0.as_slice(), other.0.as_slice())
    }
}

impl vstd::std_specs::cmp::PartialEqSpecImpl for PublicKey {
    open spec fn obeys_eq_spec() -> bool {
        true
    }

    open spec fn eq_spec(&self, other: &Self) -> bool {
        self@ == other@
    }
}

impl Default for PublicKey {
    fn default() -> (key: Self)
        ensures
            key@ == Seq::new(32, |i: int| 0u8),
    {
        PublicKey([0u8; 32])
    }
}

impl PublicKey {
    /// The raw bytes, as they are signed over and verified against.
    pub fn as_ref(&self) -> (bytes: &[u8])
        ensures
            bytes@ == self@,
    {
        self.0.as_slice()
    }
}

impl View for Signature {
    type V = Seq<u8>;

    open spec fn view(&self) -> Seq<u8> {
        self.0@
    }
}

impl PartialEq for Signature {
    fn eq(&self, other: &Self) -> (equal: bool) {
        same_bytes(self.0.as_slice(), other.0.as_slice())
    }
}

impl vstd::std_specs::cmp::PartialEqSpecImpl for Signature {
    open spec fn obeys_eq_spec() -> bool {
        true
    }

    open spec fn eq_spec(&self, other: &Self) -> bool {
        self@ == other@
    }
}

impl Default for Signature {
    fn default() -> (sig: Self)
        ensures
            sig@ == Seq::new(64, |i: int| 0u8),
    {
        Signature([0u8; 64])
    }
}

impl Signature {
    /// Whether this is a valid signature of `msg` under `public_key`.
    pub open spec fn verifies(&self, public_key: Seq<u8>, msg: Seq<u8>) -> bool {
        ed25519_valid(public_key, msg, self@)
    }

    /// Checks the signature against a public key and a message.
    ///
    /// Nothing is ever reported but the answer: a malformed key, a mismatched
    /// message and a forged signature all give `false`.
    pub fn verify(&self, peer_public_key_bytes: &[u8], msg_bytes: &[u8]) -> (valid: bool)
        ensures
            valid == self.verifies(peer_public_key_bytes@, msg_bytes@),
            peer_public_key_bytes@.len() != 32 ==> !valid,
    {
        outside::ring_verify(peer_public_key_bytes, msg_bytes, self.0.as_slice())
    }

    /// The raw bytes, as they are signed over and verified against.
    pub fn as_ref(&self) -> (bytes: &[u8])
        ensures
            bytes@ == self@,
    {
        self.0.as_slice()
    }
}

impl KeyPair {
    /// The private seed of the pair. It exists in contracts only.
    pub closed spec fn seed(&self) -> Seq<u8> {
        signing_seed(self.0)
    }

    /// The bytes of the public key that belongs to the pair.
    pub open spec fn public_key(&self) -> Seq<u8> {
        ed25519_public_key(self.seed())
    }

    /// The bytes of the signature that the pair gives a message.
    pub open spec fn signature(&self, msg: Seq<u8>) -> Seq<u8> {
        ed25519_signature(self.seed(), msg)
    }

    /// Imports a private key from a PKCS#8 document.
    ///
    /// A document that is malformed, or that holds a key of another kind, is
    /// rejected as a whole.
    pub fn from_pkcs8(pkcs8_bytes: &[u8]) -> (pair: Result<Self, InvalidKeyMaterial>)
        ensures
            pair is Ok <==> pkcs8_seed(pkcs8_bytes@) is Some,
            pair matches Ok(p) ==> Some(p.seed()) == pkcs8_seed(pkcs8_bytes@),
    {
        match outside::ring_from_pkcs8(pkcs8_bytes) {
            Ok(pair) => Ok(KeyPair(pair)),
            Err(_) => Err(InvalidKeyMaterial),
        }
    }

    /// A fresh key pair from the operating system's random source, or `None`
    /// where that source fails.
    pub fn new() -> (pair: Option<Self>)
        ensures
            pair matches Some(p) ==> exists|doc: Seq<u8>| pkcs8_seed(doc) == Some(p.seed()),
    {
        let rng = ring::rand::SystemRandom::new();
        Self::from_generated(outside::ring_generate_pkcs8(&rng))
    }

    /// The key pair of what the random source gave: the pair that the
    /// generated PKCS#8 document holds, or `None` where the source failed or
    /// the document is no key.
    pub fn from_generated(generated: Result<Vec<u8>, ring::error::Unspecified>) -> (pair: Option<Self>)
        ensures
            generated is Err ==> pair is None,
            generated matches Ok(doc) ==> (pair is Some <==> pkcs8_seed(doc@) is Some),
            generated matches Ok(doc) ==> (pair matches Some(p) ==> Some(p.seed()) == pkcs8_seed(doc@)),
    {
        match generated {
            Ok(pkcs8_bytes) => match Self::from_pkcs8(pkcs8_bytes.as_slice()) {
                Ok(pair) => Some(pair),
                Err(_) => None,
            },
            Err(_) => None,
        }
    }

    /// The public key of the pair.
    pub fn pubkey(&self) -> (key: PublicKey)
        ensures
            key@ == self.public_key(),
    {
        let bytes = outside::ring_public_key(&self.0);
        PublicKey(to_array::<32>(bytes.as_slice()))
    }

    /// Signs a message.
    ///
    /// The signature is the same each time for the same key and message, and
    /// it verifies under the pair's public key.
    pub fn sign(&self, msg: &[u8]) -> (sig: Signature)
        ensures
            sig@ == self.signature(msg@),
            sig.verifies(self.public_key(), msg@),
    {
        let bytes = outside::ring_sign(&self.0, msg);
        Signature(to_array::<64>(bytes.as_slice()))
    }
}

} // verus!
