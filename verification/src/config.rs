//! What a service is configured with, once, before it takes requests.

use vstd::prelude::*;
use vstd::utf8::*;

verus! {

/// The signing scheme's version tag and the secret shared with the sender.
///
/// The secret serves as the key of the keyed hash and as nothing else.
pub struct SlackAuthConfig {
    pub version_number: String,
    pub slack_signing_secret: String,
}

/// A configuration as the contracts read it.
pub struct ConfigView {
    /// The characters of the version tag.
    pub version_tag: Seq<char>,
    /// The key: the octets of the secret's text.
    pub shared_secret: Seq<u8>,
}

impl View for SlackAuthConfig {
    type V = ConfigView;

    open spec fn view(&self) -> ConfigView {
        ConfigView {
            version_tag: self.version_number@,
            shared_secret: encode_utf8(self.slack_signing_secret@),
        }
    }
}

impl Clone for SlackAuthConfig {
    fn clone(&self) -> (copy: Self)
        ensures
            copy == *self,
    {
        SlackAuthConfig {
            version_number: self.version_number.clone(),
            slack_signing_secret: self.slack_signing_secret.clone(),
        }
    }
}

/// Holds the configuration until a handler is put behind the guard.
pub struct SlackAuthLayer {
    config: SlackAuthConfig,
}

impl View for SlackAuthLayer {
    type V = ConfigView;

    closed spec fn view(&self) -> ConfigView {
        self.config@
    }
}

impl Clone for SlackAuthLayer {
    fn clone(&self) -> (copy: Self)
        ensures
            copy@ == self@,
    {
        SlackAuthLayer { config: self.config.clone() }
    }
}

impl SlackAuthLayer {
    /// A layer that will configure its services with `config`.
    #[must_use]
    pub fn new(config: SlackAuthConfig) -> (layer: Self)
        ensures
            layer@ == config@,
    {
        Self { config }
    }

    /// The configuration that every service of this layer gets.
    pub fn config(&self) -> (config: &SlackAuthConfig)
        ensures
            config@ == self@,
    {
        &self.config
    }
}

} // verus!
