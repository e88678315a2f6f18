//! Record codec, stanza adapter and key-wrap protocol: the recipient line
//! and its byte-exact mapping to and from the wire stanza, and the
//! cryptographic sequence that fills one.

use vstd::prelude::*;

use crate::b64::b64_decode_of;
use crate::b64::b64_len;
use crate::b64::b64_of;
use crate::b64::b64_encode;
use crate::b64::base64_arg;
use crate::b64::decodes_to_len;
use crate::bytes::bytes_eq;
use crate::bytes::concat_bytes;
use crate::bytes::copy_bytes;
use crate::crypto::EphemeralSecretHandle;
use crate::crypto::aead_of;
use crate::crypto::aead_seal;
use crate::crypto::compress_of;
use crate::crypto::dh_of;
use crate::crypto::dh_shared_secret;
use crate::crypto::ephemeral_public_key;
use crate::crypto::generate_ephemeral_secret;
use crate::crypto::public_key_of;
use crate::crypto::hkdf_derive;
use crate::crypto::hkdf_of;
use crate::point::EphemeralKeyBytes;
use crate::point::epk_wf;
use crate::recipient::Recipient;
use crate::stanza_key_label;
use crate::stanza_key_label_spec;
use crate::stanza_tag;
use crate::stanza_tag_spec;

verus! {

/// The generic wire record: a tag string, an ordered list of textual
/// arguments, and a binary body, all held as plain bytes.
pub struct Stanza {
    /// The ASCII tag string naming the stanza variant.
    pub tag: Vec<u8>,
    /// The ordered textual arguments, each a run of ASCII bytes.
    pub args: Vec<Vec<u8>>,
    /// The binary body.
    pub body: Vec<u8>,
}

/// One recipient's wrapped copy of the file key: the stanza's semantic
/// payload.  All three fields are fixed-length.
#[derive(Debug, PartialEq, Eq)]
pub struct RecipientLine {
    /// 4 raw bytes identifying the recipient.
    pub tag: Vec<u8>,
    /// The validated compressed ephemeral point.
    pub epk_bytes: EphemeralKeyBytes,
    /// Exactly 32 raw bytes: the authenticated ciphertext of the 16-byte
    /// file key.
    pub encrypted_file_key: Vec<u8>,
}

impl RecipientLine {
    /// The fixed field lengths of a recipient line.  The ephemeral point
    /// needs no clause here: its own type already guarantees a valid
    /// 33-byte encoding.
    pub open spec fn wf(&self) -> bool {
        &&& self.tag@.len() == 4
        &&& self.encrypted_file_key@.len() == 32
    }
}

/// How a stanza relates to the recipient line it serializes: the fixed
/// variant tag, base64 of the 4-byte recipient tag, base64 of the 33-byte
/// compressed point, and the raw ciphertext body.
pub open spec fn stanza_serializes(rl: RecipientLine, s: Stanza) -> bool {
    &&& s.tag@ == stanza_tag_spec()
    &&& s.args@.len() == 2
    &&& s.args@[0]@ == b64_of(rl.tag@)
    &&& s.args@[0]@.len() == b64_len(rl.tag@.len())
    &&& b64_decode_of(s.args@[0]@) == Some(rl.tag@)
    &&& s.args@[1]@ == b64_of(rl.epk_bytes@)
    &&& s.args@[1]@.len() == b64_len(rl.epk_bytes@.len())
    &&& b64_decode_of(s.args@[1]@) == Some(rl.epk_bytes@)
    &&& s.body@ == rl.encrypted_file_key@
}

/// The validation gates a tag-matching stanza must pass to decode:
/// exactly 2 arguments, each of the exact base64 length for its field and
/// strictly decodable to that field's byte length, an on-curve point, and
/// a 32-byte body.
pub open spec fn stanza_parses(s: Stanza) -> bool {
    &&& s.args@.len() == 2
    &&& decodes_to_len(s.args@[0]@, 4)
    &&& decodes_to_len(s.args@[1]@, 33)
    &&& match b64_decode_of(s.args@[1]@) {
        Some(e) => epk_wf(e),
        None => false,
    }
    &&& s.body@.len() == 32
}

impl RecipientLine {
    /// Serializes into the wire stanza.
    pub fn to_stanza(&self) -> (r: Stanza)
        requires
            self.wf(),
        ensures
            stanza_serializes(*self, r),
    {
        proof {
            use_type_invariant(&self.epk_bytes);
        }
        let mut args: Vec<Vec<u8>> = Vec::new();
        args.push(b64_encode(&self.tag));
        args.push(b64_encode(self.epk_bytes.as_bytes()));
        Stanza { tag: stanza_tag(), args, body: copy_bytes(&self.encrypted_file_key) }
    }

    /// Parses an external stanza.  The outcome is three-way: `None` is
    /// "not mine" (the tag string belongs to another variant; the caller
    /// should try other decoders); `Some(Err(()))` is "malformed" (the tag
    /// matched but a validation gate failed: corruption or tampering, a
    /// hard parse failure); `Some(Ok(..))` is the reconstructed line.
    pub fn from_stanza(s: &Stanza) -> (r: Option<Result<RecipientLine, ()>>)
        ensures
            r is None <==> s.tag@ != stanza_tag_spec(),
            r matches Some(pr) ==> ((pr is Ok) <==> stanza_parses(*s)),
            r matches Some(Ok(rl)) ==> {
                &&& rl.wf()
                &&& b64_decode_of(s.args@[0]@) == Some(rl.tag@)
                &&& b64_decode_of(s.args@[1]@) == Some(rl.epk_bytes@)
                &&& rl.encrypted_file_key@ == s.body@
            },
    {
        let expected = stanza_tag();
        if !bytes_eq(&s.tag, &expected) {
            return None;
        }
        if s.args.len() != 2 {
            return Some(Err(()));
        }
        let tag = match base64_arg(&s.args[0], 4) {
            Some(t) => t,
            None => {
                return Some(Err(()));
            },
        };
        let epk_raw = match base64_arg(&s.args[1], 33) {
            Some(e) => e,
            None => {
                return Some(Err(()));
            },
        };
        let epk_bytes = match EphemeralKeyBytes::from_bytes(epk_raw) {
            Some(e) => e,
            None => {
                return Some(Err(()));
            },
        };
        if s.body.len() != 32 {
            return Some(Err(()));
        }
        Some(Ok(RecipientLine { tag, epk_bytes, encrypted_file_key: copy_bytes(&s.body) }))
    }

    /// The deterministic tail of a wrap, once the ephemeral point and the
    /// ECDH shared secret are in hand: salt the key derivation with the
    /// two encoded points, derive a fresh symmetric key under the fixed
    /// label, and authenticate-and-encrypt the file key under it.  The
    /// derived key is used for this single AEAD call and nowhere else.
    pub fn wrap_parts(
        file_key: &Vec<u8>,
        recipient_tag: &Vec<u8>,
        recipient_encoded: &Vec<u8>,
        epk_bytes: EphemeralKeyBytes,
        shared_secret: &Vec<u8>,
    ) -> (r: RecipientLine)
        requires
            file_key@.len() == 16,
            recipient_tag@.len() == 4,
        ensures
            r.wf(),
            r.tag@ == recipient_tag@,
            r.epk_bytes@ == epk_bytes@,
            r.encrypted_file_key@ == aead_of(
                hkdf_of(epk_bytes@ + recipient_encoded@, stanza_key_label_spec(), shared_secret@),
                file_key@,
            ),
    {
        let salt = concat_bytes(epk_bytes.as_bytes(), recipient_encoded);
        let label = stanza_key_label();
        let enc_key = hkdf_derive(&salt, &label, shared_secret);
        let encrypted_file_key = aead_seal(&enc_key, file_key);
        RecipientLine { tag: copy_bytes(recipient_tag), epk_bytes, encrypted_file_key }
    }

    /// Wraps a 16-byte file key for a recipient: generate a fresh
    /// ephemeral key pair, agree on a shared secret with the recipient's
    /// public key, derive a single-use symmetric key, and seal the file
    /// key.  It has no failure path: every gate below is satisfied by
    /// construction.
    ///
    /// The contract pins everything but the random draw itself: for the
    /// ephemeral secret of this call, the stored point is its public
    /// half's compressed encoding, and the ciphertext is the AEAD seal of
    /// the file key under the key derived from the ECDH of that secret
    /// with the recipient's key, salted by the two encoded points.
    pub fn wrap_file_key(file_key: &Vec<u8>, pk: &Recipient) -> (r: RecipientLine)
        requires
            file_key@.len() == 16,
            pk.wf(),
        ensures
            r.wf(),
            r.tag@ == pk.tag@,
            exists|esk: EphemeralSecretHandle|
                #![trigger dh_of(esk, pk.public_key)]
                {
                    &&& r.epk_bytes@ == compress_of(public_key_of(esk))
                    &&& dh_of(esk, pk.public_key).len() == 32
                    &&& r.encrypted_file_key@ == aead_of(
                        hkdf_of(
                            r.epk_bytes@ + pk.encoded@,
                            stanza_key_label_spec(),
                            dh_of(esk, pk.public_key),
                        ),
                        file_key@,
                    )
                },
    {
        let esk = generate_ephemeral_secret();
        let epk = ephemeral_public_key(&esk);
        let epk_bytes = EphemeralKeyBytes::from_public_key(&epk);
        let shared_secret = dh_shared_secret(&esk, &pk.public_key);
        let r = Self::wrap_parts(file_key, &pk.tag, &pk.encoded, epk_bytes, &shared_secret);
        proof {
            assert(r.epk_bytes@ == compress_of(public_key_of(esk)) && dh_of(
                esk,
                pk.public_key,
            ).len() == 32 && r.encrypted_file_key@ == aead_of(
                hkdf_of(
                    r.epk_bytes@ + pk.encoded@,
                    stanza_key_label_spec(),
                    dh_of(esk, pk.public_key),
                ),
                file_key@,
            ));
        }
        r
    }
}

/// Round trip: a stanza that carries the serialized form of a well-formed
/// recipient line passes every parsing gate of this variant, and its
/// arguments and body decode back to the same recipient tag, the same
/// ephemeral-point bytes and the same 32-byte ciphertext.
pub proof fn lemma_round_trip(rl: RecipientLine, s: Stanza)
    requires
        rl.wf(),
        epk_wf(rl.epk_bytes@),
        stanza_serializes(rl, s),
    ensures
        s.tag@ == stanza_tag_spec(),
        stanza_parses(s),
        b64_decode_of(s.args@[0]@) == Some(rl.tag@),
        b64_decode_of(s.args@[1]@) == Some(rl.epk_bytes@),
        s.body@ == rl.encrypted_file_key@,
{
}

} // verus!
