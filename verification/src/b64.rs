//! Fixed-width base64 (standard alphabet, no padding) for the stanza's
//! textual arguments, with strict length preflighting before any decode.

use vstd::prelude::*;

verus! {

/// The base64 (standard alphabet, no padding) encoding of a byte sequence,
/// as ASCII bytes.
pub uninterp spec fn b64_of(b: Seq<u8>) -> Seq<u8>;

/// What base64 decoding (standard alphabet, no padding, no stray
/// trailing bits) returns on a byte sequence: the decoded bytes, or
/// `None` where the input does not decode.
pub uninterp spec fn b64_decode_of(s: Seq<u8>) -> Option<Seq<u8>>;

/// The character length of the base64 no-padding encoding of `n` bytes:
/// `ceil(4 * n / 3)`, computed as `(4 * n + 2) / 3`.
pub open spec fn b64_len(n: nat) -> nat {
    (4 * n + 2) / 3
}

/// `s` has the exact encoded length for `n` bytes and strict base64
/// decoding yields exactly `n` bytes from it.
pub open spec fn decodes_to_len(s: Seq<u8>, n: nat) -> bool {
    &&& s.len() == b64_len(n)
    &&& match b64_decode_of(s) {
        Some(b) => b.len() == n,
        None => false,
    }
}

/// Relies on `base64::encode_config` with `base64::STANDARD_NO_PAD`: the
/// result is the no-padding base64 encoding of the input, its length is
/// `ceil(4 * n / 3)` for `n` input bytes, and `base64::decode_config`
/// with the same config inverts it.
#[verifier::external_body]
pub(crate) fn b64_encode(b: &Vec<u8>) -> (r: Vec<u8>)
    ensures
        r@ == b64_of(b@),
        r@.len() == b64_len(b@.len()),
        b64_decode_of(r@) == Some(b@),
{
    base64::encode_config(b.as_slice(), base64::STANDARD_NO_PAD).into_bytes()
}

/// Relies on `base64::decode_config` with `base64::STANDARD_NO_PAD`:
/// decoding that rejects characters outside the standard alphabet and
/// non-zero trailing bits; its outcome is a function of the input bytes
/// alone.  (It still tolerates a padded suffix, which is why callers
/// preflight the exact unpadded length before decoding.)
#[verifier::external_body]
fn b64_decode(s: &Vec<u8>) -> (r: Option<Vec<u8>>)
    ensures
        match r {
            Some(v) => b64_decode_of(s@) == Some(v@),
            None => b64_decode_of(s@) is None,
        },
{
    base64::decode_config(s.as_slice(), base64::STANDARD_NO_PAD).ok()
}

/// Decodes one stanza argument that must hold exactly `n` bytes.
///
/// The argument's character length is checked against the unique
/// no-padding encoded length for `n` bytes before any decoding is
/// attempted; an argument of any other length is rejected outright.
pub fn base64_arg(arg: &Vec<u8>, n: usize) -> (r: Option<Vec<u8>>)
    requires
        4 * n + 2 <= usize::MAX,
    ensures
        match r {
            Some(v) => v@.len() == n && b64_decode_of(arg@) == Some(v@) && decodes_to_len(
                arg@,
                n as nat,
            ),
            None => !decodes_to_len(arg@, n as nat),
        },
{
    if arg.len() != (4 * n + 2) / 3 {
        return None;
    }
    match b64_decode(arg) {
        Some(v) => {
            if v.len() == n {
                Some(v)
            } else {
                None
            }
        },
        None => None,
    }
}

} // verus!
