//! Trusted boundary to the outside cryptographic primitives: ephemeral
//! key generation, ECDH, HKDF and AEAD.  Every item here is believed, not
//! proved; the verified protocol logic lives in `format`.

use vstd::prelude::*;

use crate::point::epk_wf;
use crate::point::point_on_curve;
use p256::elliptic_curve::sec1::ToEncodedPoint;

verus! {

/// An opaque handle on a recipient's P-256 public key of the outside
/// curve library: a valid, on-curve, non-identity point.
#[verifier::external_body]
pub struct PublicKeyHandle {
    inner: p256::PublicKey,
}

/// An opaque handle on the ephemeral secret of one wrap operation.
#[verifier::external_body]
pub struct EphemeralSecretHandle {
    inner: p256::ecdh::EphemeralSecret,
}

/// The key that parsing a valid SEC1 encoding yields: a function of the
/// encoded bytes alone.
pub uninterp spec fn parse_of(b: Seq<u8>) -> PublicKeyHandle;

/// The SEC1 compressed encoding (33 bytes, leading 0x02 or 0x03) of the
/// key a handle holds: a function of the handle alone.
pub uninterp spec fn compress_of(pk: PublicKeyHandle) -> Seq<u8>;

/// The public half of an ephemeral key pair: a function of the secret
/// alone.
pub uninterp spec fn public_key_of(esk: EphemeralSecretHandle) -> PublicKeyHandle;

/// The ECDH shared secret of an ephemeral secret and a public key: the
/// agreed point's x-coordinate, a function of the two keys alone.
pub uninterp spec fn dh_of(esk: EphemeralSecretHandle, pk: PublicKeyHandle) -> Seq<u8>;

/// Relies on `p256::PublicKey::from_sec1_bytes`: it succeeds exactly on a
/// SEC1 encoding of an on-curve, non-identity point, and its outcome — the
/// key that encoding denotes — is a function of the input bytes alone.
#[verifier::external_body]
pub(crate) fn parse_public_key(bytes: &Vec<u8>) -> (r: Option<PublicKeyHandle>)
    requires
        bytes@.len() == 33,
    ensures
        r is Some <==> point_on_curve(bytes@),
        r matches Some(h) ==> h == parse_of(bytes@),
{
    p256::PublicKey::from_sec1_bytes(bytes.as_slice())
        .ok()
        .map(|inner| PublicKeyHandle { inner })
}

impl PublicKeyHandle {
    /// Parses a key from its 33-byte SEC1 compressed encoding,
    /// insisting on the compressed format byte before the curve library
    /// sees the input: it would also accept compact encodings.
    pub fn from_compressed(bytes: &Vec<u8>) -> (r: Option<PublicKeyHandle>)
        requires
            bytes@.len() == 33,
        ensures
            r is Some <==> epk_wf(bytes@),
    {
        if bytes[0] != 0x02 && bytes[0] != 0x03 {
            return None;
        }
        parse_public_key(bytes)
    }
}

/// Relies on `p256::ecdh::EphemeralSecret::random` with `rand`'s `OsRng`:
/// a fresh, cryptographically random ephemeral secret.  Nothing is
/// promised of the value; two calls may and should differ.
#[verifier::external_body]
pub(crate) fn generate_ephemeral_secret() -> EphemeralSecretHandle {
    EphemeralSecretHandle { inner: p256::ecdh::EphemeralSecret::random(&mut rand::rngs::OsRng) }
}

/// Relies on `p256::ecdh::EphemeralSecret::public_key`: the public half
/// of the ephemeral key pair, an opaque valid curve point that is a
/// function of the secret alone.
#[verifier::external_body]
pub(crate) fn ephemeral_public_key(esk: &EphemeralSecretHandle) -> (r: PublicKeyHandle)
    ensures
        r == public_key_of(*esk),
{
    PublicKeyHandle { inner: esk.inner.public_key() }
}

/// Relies on `ToEncodedPoint::to_encoded_point` with compression: the
/// compressed SEC1 encoding of a valid non-identity point is 33 bytes,
/// its leading byte 0x02 or 0x03, and `p256::PublicKey::from_sec1_bytes`
/// accepts it back.
#[verifier::external_body]
pub(crate) fn compress_public_key(pk: &PublicKeyHandle) -> (r: Vec<u8>)
    ensures
        r@ == compress_of(*pk),
        r@.len() == 33,
        r@[0] == 0x02 || r@[0] == 0x03,
        point_on_curve(r@),
{
    pk.inner.to_encoded_point(true).as_bytes().to_vec()
}

/// Relies on `p256::ecdh::EphemeralSecret::diffie_hellman`: the ECDH
/// shared secret is the x-coordinate of the agreed point, one P-256 field
/// element of 32 bytes, a function of the two keys alone.
#[verifier::external_body]
pub(crate) fn dh_shared_secret(esk: &EphemeralSecretHandle, pk: &PublicKeyHandle) -> (r: Vec<u8>)
    ensures
        r@ == dh_of(*esk, *pk),
        r@.len() == 32,
{
    esk.inner.diffie_hellman(&pk.inner).raw_secret_bytes().to_vec()
}

/// The 32-byte key that salted HKDF-SHA-256 derives from a salt, a
/// domain-separation label and input key material.
pub uninterp spec fn hkdf_of(salt: Seq<u8>, label: Seq<u8>, ikm: Seq<u8>) -> Seq<u8>;

/// Relies on `age_core::primitives::hkdf` (HKDF from RFC 5869 with
/// SHA-256): a 32-byte output that is a function of salt, label and input
/// key material alone.
#[verifier::external_body]
pub(crate) fn hkdf_derive(salt: &Vec<u8>, label: &Vec<u8>, ikm: &Vec<u8>) -> (r: Vec<u8>)
    ensures
        r@ == hkdf_of(salt@, label@, ikm@),
        r@.len() == 32,
{
    age_core::primitives::hkdf(salt.as_slice(), label.as_slice(), ikm.as_slice()).to_vec()
}

/// The ciphertext that the AEAD step produces from a 32-byte key and a
/// plaintext, under the protocol's fixed implicit nonce.
pub uninterp spec fn aead_of(key: Seq<u8>, plaintext: Seq<u8>) -> Seq<u8>;

/// Relies on `age_core::primitives::aead_encrypt` (ChaCha20-Poly1305 from
/// RFC 7539 with a zero nonce): the ciphertext is a function of key and
/// plaintext alone, and is the plaintext length plus the fixed 16-byte
/// authentication tag.  The length bound keeps the plaintext far below
/// the cipher's block-counter limit.
#[verifier::external_body]
pub(crate) fn aead_seal(key: &Vec<u8>, plaintext: &Vec<u8>) -> (r: Vec<u8>)
    requires
        key@.len() == 32,
        plaintext@.len() <= 0xffff_ffff,
    ensures
        r@ == aead_of(key@, plaintext@),
        r@.len() == plaintext@.len() + 16,
{
    let key_arr: &[u8; 32] = key.as_slice().try_into().unwrap();
    age_core::primitives::aead_encrypt(key_arr, plaintext.as_slice())
}

} // verus!
