//! The recipient's public-key capability, as this library consumes it: the
//! curve point, its canonical encoded-point bytes, and the 4-byte
//! identifying tag, all supplied by the recipient's key abstraction.

use vstd::prelude::*;

use crate::crypto::PublicKeyHandle;

verus! {

/// A recipient a file key can be wrapped for.
pub struct Recipient {
    /// The recipient's P-256 public key.
    pub public_key: PublicKeyHandle,
    /// The canonical encoded-point bytes of the key, as the recipient's
    /// key abstraction hands them out; they salt the key derivation.
    pub encoded: Vec<u8>,
    /// The 4-byte recipient-identifying prefix.  Not secret: it lets a
    /// decryptor skip stanzas addressed to other recipients.
    pub tag: Vec<u8>,
}

impl Recipient {
    /// The identifying tag holds exactly 4 bytes.
    pub open spec fn wf(&self) -> bool {
        self.tag@.len() == 4
    }

    /// Packs the three capabilities a wrap operation consumes.
    pub fn new(public_key: PublicKeyHandle, encoded: Vec<u8>, tag: Vec<u8>) -> (r: Recipient)
        requires
            tag@.len() == 4,
        ensures
            r.wf(),
            r.public_key == public_key,
            r.encoded@ == encoded@,
            r.tag@ == tag@,
    {
        Recipient { public_key, encoded, tag }
    }
}

} // verus!
