//! The signature that a request must present.
//!
//! The sender joins version tag, time of sending and body with colons, takes
//! the HMAC-SHA256 tag of that text under the shared secret, and presents the
//! version tag, an equals sign and the tag in lowercase hexadecimal.

use crate::config::{ConfigView, SlackAuthConfig};
use crate::decimal::{decimal, decimal_text};
use crate::digest::{hmac_sha256, hmac_sha256_tag};
use crate::encoding::{hex_lower, hex_text, is_lower_hex, lemma_hex_lower_shape};
use vstd::prelude::*;
use vstd::string::*;
use vstd::utf8::*;

verus! {

/// Number of hexadecimal digits in every hash: two for each octet of a tag.
pub const HASH_LEN: usize = 64;

/// The text that is authenticated: `version_tag:timestamp:body`, the time in
/// decimal.
pub open spec fn base_string(version_tag: Seq<char>, timestamp: int, body: Seq<char>) -> Seq<char> {
    version_tag + seq![':'] + decimal(timestamp) + seq![':'] + body
}

/// The hexadecimal text of the tag of `message` under `key`.
pub open spec fn tag_text(key: Seq<u8>, message: Seq<char>) -> Seq<char> {
    hex_lower(hmac_sha256(key, encode_utf8(message)))
}

/// A version tag, an equals sign and a hash.
pub open spec fn labelled(version_tag: Seq<char>, hash: Seq<char>) -> Seq<char> {
    version_tag + seq!['='] + hash
}

/// The signature of a request sent at `timestamp` with `body`, under the
/// scheme and secret of `config`.
pub open spec fn signature_text(config: ConfigView, timestamp: int, body: Seq<char>) -> Seq<char> {
    labelled(
        config.version_tag,
        tag_text(config.shared_secret, base_string(config.version_tag, timestamp, body)),
    )
}

/// Writes the text that is authenticated.
pub fn base_text(version_tag: &str, timestamp: i64, body: &str) -> (base: String)
    ensures
        base@ == base_string(version_tag@, timestamp as int, body@),
{
    proof {
        reveal_strlit(":");
    }
    let mut base = String::from_str(version_tag);
    base.append(":");
    let time = decimal_text(timestamp);
    base.append(time.as_str());
    base.append(":");
    base.append(body);
    assert(base@ =~= base_string(version_tag@, timestamp as int, body@));
    base
}

/// Puts the version tag and an equals sign before `hash`.
pub fn signature_with_hash(version_tag: &str, hash: &str) -> (signature: String)
    ensures
        signature@ == labelled(version_tag@, hash@),
{
    proof {
        reveal_strlit("=");
    }
    let mut signature = String::from_str(version_tag);
    signature.append("=");
    signature.append(hash);
    assert(signature@ =~= labelled(version_tag@, hash@));
    signature
}

/// Computes the signature of one request.
pub struct SecretSigner {
    config: SlackAuthConfig,
    request_body: String,
    timestamp: i64,
}

/// A signer as the contracts read it.
pub struct SignerView {
    pub config: ConfigView,
    pub request_body: Seq<char>,
    pub timestamp: int,
}

impl View for SecretSigner {
    type V = SignerView;

    closed spec fn view(&self) -> SignerView {
        SignerView {
            config: self.config@,
            request_body: self.request_body@,
            timestamp: self.timestamp as int,
        }
    }
}

impl SecretSigner {
    /// A signer for the request with this body, sent at `timestamp`.
    #[must_use]
    pub fn new(config: SlackAuthConfig, request_body: String, timestamp: i64) -> (signer: Self)
        ensures
            signer@ == (SignerView {
                config: config@,
                request_body: request_body@,
                timestamp: timestamp as int,
            }),
    {
        Self { config, request_body, timestamp }
    }

    /// The signature that the request must present.
    #[must_use]
    pub fn sign(&self) -> (signature: String)
        ensures
            signature@ == signature_text(self@.config, self@.timestamp, self@.request_body),
            signature@.len() == self@.config.version_tag.len() + 1 + HASH_LEN,
    {
        let base_string = base_text(
            self.config.version_number.as_str(),
            self.timestamp,
            self.request_body.as_str(),
        );
        let hash = self.hmac_signature(base_string.as_str());
        signature_with_hash(self.config.version_number.as_str(), hash.as_str())
    }

    /// The tag of `msg` under the shared secret, in lowercase hexadecimal.
    pub fn hmac_signature(&self, msg: &str) -> (hash: String)
        ensures
            hash@ == tag_text(self@.config.shared_secret, msg@),
            hash@.len() == HASH_LEN,
            forall|i: int| 0 <= i < hash@.len() ==> is_lower_hex(#[trigger] hash@[i]),
    {
        let code_bytes = hmac_sha256_tag(
            self.config.slack_signing_secret.as_str().as_bytes(),
            msg.as_bytes(),
        );
        proof {
            lemma_hex_lower_shape(code_bytes@);
        }
        hex_text(code_bytes.as_slice())
    }
}

} // verus!
