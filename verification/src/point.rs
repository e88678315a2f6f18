//! Point codec: a compressed P-256 point encoding validated and stored as
//! a fixed-size, length-checked, on-curve value.

use vstd::prelude::*;

use p256::elliptic_curve::sec1::ToEncodedPoint;

verus! {

/// Whether a byte sequence is a SEC1 encoding of an actual on-curve,
/// non-identity P-256 point, in any point format the curve library
/// accepts.
pub uninterp spec fn point_on_curve(b: Seq<u8>) -> bool;

/// A structurally valid SEC1 *compressed* encoding — 33 bytes whose
/// leading format byte is 0x02 or 0x03 — of an actual on-curve,
/// non-identity P-256 point.  The format byte matters: the curve library
/// also parses 33-byte compact encodings (leading 0x05), which this
/// stanza variant rejects.
pub open spec fn epk_wf(b: Seq<u8>) -> bool {
    &&& b.len() == 33
    &&& (b[0] == 0x02 || b[0] == 0x03)
    &&& point_on_curve(b)
}

/// The SEC1 uncompressed encoding of the point whose valid compressed
/// encoding is the argument.
pub uninterp spec fn decompress_of(b: Seq<u8>) -> Seq<u8>;

/// The ephemeral key bytes in a piv-p256 stanza.
///
/// The bytes hold a compressed SEC1 encoding of a valid point.  The type
/// invariant makes the validating constructor the only way to obtain an
/// instance from untrusted bytes, so the trusted-path operations need no
/// re-validation.
#[derive(Debug, PartialEq, Eq)]
pub struct EphemeralKeyBytes {
    bytes: Vec<u8>,
}

impl View for EphemeralKeyBytes {
    type V = Seq<u8>;

    closed spec fn view(&self) -> Seq<u8> {
        self.bytes@
    }
}

impl EphemeralKeyBytes {
    /// Every instance holds a valid 33-byte compressed point encoding.
    #[verifier::type_invariant]
    pub open spec fn type_inv(self) -> bool {
        epk_wf(self@)
    }

    /// Validates 33 untrusted bytes as the compressed encoding of an
    /// on-curve point.  This is the only validation gate for externally
    /// supplied ephemeral keys: it succeeds exactly on valid encodings.
    pub fn from_bytes(bytes: Vec<u8>) -> (r: Option<EphemeralKeyBytes>)
        requires
            bytes@.len() == 33,
        ensures
            match r {
                Some(e) => e@ == bytes@ && epk_wf(bytes@),
                None => !epk_wf(bytes@),
            },
    {
        if bytes[0] != 0x02 && bytes[0] != 0x03 {
            return None;
        }
        match crate::crypto::parse_public_key(&bytes) {
            Some(_) => Some(EphemeralKeyBytes { bytes }),
            None => None,
        }
    }

    /// Builds from the public half of a locally generated ephemeral key
    /// pair: the trusted path, always valid by construction.  The stored
    /// bytes are the compressed encoding of exactly the given key.
    pub fn from_public_key(epk: &crate::crypto::PublicKeyHandle) -> (r: EphemeralKeyBytes)
        ensures
            r@ == crate::crypto::compress_of(*epk),
            r@.len() == 33,
            epk_wf(r@),
    {
        let bytes = crate::crypto::compress_public_key(epk);
        EphemeralKeyBytes { bytes }
    }

    /// The 33-byte compressed form, for serialization.
    pub fn as_bytes(&self) -> (r: &Vec<u8>)
        ensures
            r@ == self@,
    {
        &self.bytes
    }

    /// The full uncompressed point.  It never fails: construction already
    /// guaranteed a valid compressed encoding.
    ///
    /// Relies on `p256::PublicKey::from_sec1_bytes` and
    /// `ToEncodedPoint::to_encoded_point`: re-parsing a valid compressed
    /// encoding cannot fail, decompression is a function of the bytes
    /// alone, the uncompressed SEC1 form is 65 bytes with leading byte
    /// 0x04, and it denotes the same point as the stored bytes — parsing
    /// it and compressing again gives those bytes back (the SEC1 encoding
    /// round trip).
    #[verifier::external_body]
    pub fn decompress(&self) -> (r: Vec<u8>)
        ensures
            r@ == decompress_of(self@),
            r@.len() == 65,
            r@[0] == 0x04,
            crate::crypto::compress_of(crate::crypto::parse_of(r@)) == self@,
    {
        let pk = p256::PublicKey::from_sec1_bytes(self.bytes.as_slice())
            .expect("a valid compressed encoding by construction");
        pk.to_encoded_point(false).as_bytes().to_vec()
    }
}

} // verus!
