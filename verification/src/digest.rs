//! The keyed hash that authenticates a message: HMAC over SHA-256.

use hmac::{Hmac, Mac};
use sha2::Sha256;
use vstd::prelude::*;

verus! {

/// Number of octets in every tag.
pub const TAG_LEN: usize = 32;

/// The HMAC-SHA256 tag of `message` under `key`, as RFC 2104 defines it over
/// the SHA-256 of FIPS 180-4.
///
/// The function is left without a definition: the proofs of this library hold
/// for every function from key and message to octets, and rest on no property
/// of the hash.
pub uninterp spec fn hmac_sha256(key: Seq<u8>, message: Seq<u8>) -> Seq<u8>;

/// Computes the tag of `message` under `key` with `hmac::Hmac<sha2::Sha256>`:
/// `new_from_slice`, one `update`, `finalize`.
///
/// Trusted, not proved: that the octets returned are the HMAC-SHA256 tag of
/// the message under the key, the same for the same arguments, and that they
/// are `TAG_LEN` in number. A key of any length is taken, so the construction
/// of the keyed state cannot fail.
#[verifier::external_body]
pub(crate) fn hmac_sha256_tag(key: &[u8], message: &[u8]) -> (tag: Vec<u8>)
    ensures
        tag@ == hmac_sha256(key@, message@),
        tag@.len() == TAG_LEN,
{
    let mut mac = Hmac::<Sha256>::new_from_slice(key).unwrap();
    mac.update(message);
    mac.finalize().into_bytes().to_vec()
}

} // verus!
