//! One recipient-stanza variant of a hybrid public-key file-encryption
//! scheme over the P-256 curve.
//!
//! The library wraps a 16-byte symmetric file key for a recipient
//! (ephemeral key generation, ECDH, salted HKDF, AEAD) and serializes the
//! exchange into a small self-describing wire record, the stanza.  On the
//! way back in it parses and validates an untrusted stanza byte-exactly:
//! strict length preflighting before any base64 decode, and full
//! on-curve validation of the ephemeral point.

use vstd::prelude::*;

mod bytes;
mod b64;
mod point;
mod crypto;
mod recipient;
mod format;

pub use b64::base64_arg;
pub use b64::b64_len;
pub use b64::b64_of;
pub use b64::b64_decode_of;
pub use b64::decodes_to_len;
pub use crypto::EphemeralSecretHandle;
pub use crypto::PublicKeyHandle;
pub use crypto::aead_of;
pub use crypto::compress_of;
pub use crypto::dh_of;
pub use crypto::hkdf_of;
pub use crypto::parse_of;
pub use crypto::public_key_of;
pub use point::EphemeralKeyBytes;
pub use point::decompress_of;
pub use point::epk_wf;
pub use point::point_on_curve;
pub use recipient::Recipient;
pub use format::RecipientLine;
pub use format::Stanza;
pub use format::lemma_round_trip;
pub use format::stanza_parses;
pub use format::stanza_serializes;

verus! {

/// The ASCII bytes of the fixed tag string that identifies this stanza
/// variant on the wire: `piv-p256`.
pub open spec fn stanza_tag_spec() -> Seq<u8> {
    seq![0x70u8, 0x69, 0x76, 0x2d, 0x70, 0x32, 0x35, 0x36]
}

/// The ASCII bytes of the fixed domain-separation label handed to the key
/// derivation step.  It coincides with the stanza tag string: `piv-p256`.
pub open spec fn stanza_key_label_spec() -> Seq<u8> {
    seq![0x70u8, 0x69, 0x76, 0x2d, 0x70, 0x32, 0x35, 0x36]
}

/// The tag string of this stanza variant, as bytes (`piv-p256` in ASCII).
pub fn stanza_tag() -> (r: Vec<u8>)
    ensures
        r@ == stanza_tag_spec(),
{
    let mut v: Vec<u8> = Vec::new();
    v.push(0x70);
    v.push(0x69);
    v.push(0x76);
    v.push(0x2d);
    v.push(0x70);
    v.push(0x32);
    v.push(0x35);
    v.push(0x36);
    proof {
        assert(v@ =~= stanza_tag_spec());
    }
    v
}

/// The key-derivation label of this stanza variant, as bytes
/// (`piv-p256` in ASCII).
pub fn stanza_key_label() -> (r: Vec<u8>)
    ensures
        r@ == stanza_key_label_spec(),
{
    let mut v: Vec<u8> = Vec::new();
    v.push(0x70);
    v.push(0x69);
    v.push(0x76);
    v.push(0x2d);
    v.push(0x70);
    v.push(0x32);
    v.push(0x35);
    v.push(0x36);
    proof {
        assert(v@ =~= stanza_key_label_spec());
    }
    v
}

} // verus!
