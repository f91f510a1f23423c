//! The plugin's configuration: its addresses, and the two keys it opens envelopes with.
use crate::keys::{
    decrypting_resolution, resolve_decrypting, resolve_verifying, verifying_resolution,
    DecryptingCapability, Key, KeyDeclaration, KeyError, KeyErrorKind, VerifyingCapability,
};
use vstd::prelude::*;

verus! {

/// Why a configuration was refused.
#[derive(Debug)]
pub enum Error {
    /// The private key for decryption did not resolve.
    DecryptionKey(KeyError),
    /// The public key for signature verification did not resolve.
    SignatureKey(KeyError),
}

impl Error {
    /// The key error behind the refusal.
    pub open spec fn spec_cause(&self) -> &KeyError {
        match self {
            Error::DecryptionKey(e) => e,
            Error::SignatureKey(e) => e,
        }
    }

    /// The key error behind the refusal.
    #[verifier::when_used_as_spec(spec_cause)]
    pub fn cause(&self) -> (r: &KeyError)
        ensures
            r == self.spec_cause(),
    {
        match self {
            Error::DecryptionKey(e) => e,
            Error::SignatureKey(e) => e,
        }
    }

    /// A line for a log: the words of the key error behind the refusal.
    pub fn message(&self) -> (r: String)
        ensures
            self.cause().kind() == KeyErrorKind::UnsupportedKeyFamily ==> r@
                == "Unsupported key family"@,
            self.cause().kind() == KeyErrorKind::InvalidArmor ==> r@ == "Key is not PEM"@,
            self.cause().kind() == KeyErrorKind::InvalidEncoding ==> r@ == "Key is not base64"@,
            self.cause().kind() == KeyErrorKind::InvalidStructure ==> r@ == "Key is not DER"@,
    {
        self.cause().message()
    }
}

/// The value of `use_attr_url` where a configuration does not set it.
pub fn default_as_true() -> (r: bool)
    ensures
        r,
{
    true
}

/// A configuration as it is written down: keys are still declarations.
pub struct RawConfig {
    pub server_url: String,
    pub internal_url: String,
    pub use_attr_url: bool,
    pub decryption_privkey: KeyDeclaration,
    pub signature_pubkey: KeyDeclaration,
}

/// A configuration whose keys have been resolved. It is built once and read from then on.
pub struct Config {
    server_url: String,
    internal_url: String,
    use_attr_url: bool,
    decrypter: DecryptingCapability,
    validator: VerifyingCapability,
}

/// What a [`Config`] holds.
pub struct ConfigView {
    pub server_url: Seq<char>,
    pub internal_url: Seq<char>,
    pub use_attr_url: bool,
    pub decrypter: Key,
    pub validator: Key,
}

impl View for Config {
    type V = ConfigView;

    closed spec fn view(&self) -> ConfigView {
        ConfigView {
            server_url: self.server_url@,
            internal_url: self.internal_url@,
            use_attr_url: self.use_attr_url,
            decrypter: self.decrypter@,
            validator: self.validator@,
        }
    }
}

/// Which key stops a written configuration, and why.
pub enum Refusal {
    DecryptionKey(KeyErrorKind),
    SignatureKey(KeyErrorKind),
}

/// What a written configuration resolves to, or what stops it. The decryption key is looked at
/// first.
pub open spec fn resolved(config: RawConfig) -> Result<ConfigView, Refusal> {
    match decrypting_resolution(config.decryption_privkey) {
        Err(kind) => Err(Refusal::DecryptionKey(kind)),
        Ok(decrypter) => match verifying_resolution(config.signature_pubkey) {
            Err(kind) => Err(Refusal::SignatureKey(kind)),
            Ok(validator) => Ok(
                ConfigView {
                    server_url: config.server_url@,
                    internal_url: config.internal_url@,
                    use_attr_url: config.use_attr_url,
                    decrypter,
                    validator,
                },
            ),
        },
    }
}

impl Config {
    /// Resolves both keys of a written configuration, the decryption key first. A key that
    /// does not resolve refuses the whole configuration.
    pub fn try_from(config: RawConfig) -> (r: Result<Config, Error>)
        ensures
            match resolved(config) {
                Ok(view) => r matches Ok(c) && c@ == view,
                Err(Refusal::DecryptionKey(kind)) => r matches Err(Error::DecryptionKey(e))
                    && e.kind() == kind,
                Err(Refusal::SignatureKey(kind)) => r matches Err(Error::SignatureKey(e))
                    && e.kind() == kind,
            },
    {
        let decrypter = match resolve_decrypting(&config.decryption_privkey) {
            Ok(decrypter) => decrypter,
            Err(e) => {
                return Err(Error::DecryptionKey(e));
            },
        };
        let validator = match resolve_verifying(&config.signature_pubkey) {
            Ok(validator) => validator,
            Err(e) => {
                return Err(Error::SignatureKey(e));
            },
        };
        Ok(
            Config {
                server_url: config.server_url,
                internal_url: config.internal_url,
                use_attr_url: config.use_attr_url,
                decrypter,
                validator,
            },
        )
    }

    /// The address under which users reach the plugin.
    pub fn server_url(&self) -> (r: &str)
        ensures
            r@ == self@.server_url,
    {
        self.server_url.as_str()
    }

    /// The address under which the core reaches the plugin.
    pub fn internal_url(&self) -> (r: &str)
        ensures
            r@ == self@.internal_url,
    {
        self.internal_url.as_str()
    }

    /// The capability that decrypts envelopes.
    pub fn decrypter(&self) -> (r: &DecryptingCapability)
        ensures
            r@ == self@.decrypter,
    {
        &self.decrypter
    }

    /// The capability that verifies the signed token inside an envelope.
    pub fn validator(&self) -> (r: &VerifyingCapability)
        ensures
            r@ == self@.validator,
    {
        &self.validator
    }

    /// Whether the plugin asks for attributes to be delivered to it later.
    pub fn use_attr_url(&self) -> (r: bool)
        ensures
            r == self@.use_attr_url,
    {
        self.use_attr_url
    }
}

} // verus!
