//! Key declarations and the capabilities resolved from them.
//!
//! A deployment declares each key as a family tag and PEM text. Resolving a declaration reads
//! the key out of the text, looks over its elements, binds it to the one algorithm that its
//! family has for the operation, and has it judged by that algorithm there and then. The
//! capability that comes out holds the family and the key, and no value of a capability type
//! exists whose key was not accepted.
use crate::claims::{jwe_header_claims, payload_claims};
use crate::crypto::{
    decrypted, ecdh_es_decrypt, ecdh_es_decrypter_accepts, ecdh_es_decrypter_check,
    ecdh_es_encrypt, ecdh_es_encrypter_accepts, ecdh_es_encrypter_check, es256_sign,
    es256_signer_accepts, es256_signer_check, es256_verifier_accepts, es256_verifier_check,
    es256_verify, rs256_sign, rs256_signer_accepts, rs256_signer_check, rs256_verifier_accepts,
    rs256_verifier_check, rs256_verify, rsa_oaep_decrypt, rsa_oaep_decrypter_accepts,
    rsa_oaep_decrypter_check, rsa_oaep_encrypt, rsa_oaep_encrypter_accepts,
    rsa_oaep_encrypter_check, verified,
};
use crate::der::{check_elements, elements_fit};
use crate::frame::{
    is_compact, is_framed, part_len, SEPARATORS, SIGNED_SEPARATORS, VECTOR_PART, VECTOR_SYMBOLS,
};
use crate::layers::{is_sealable, Decrypted};
use crate::pem::{carried, decode, PemError};
use josekit::jwe::JweHeader;
use josekit::jws::JwsHeader;
use josekit::jwt::JwtPayload;
use josekit::JoseError;
use vstd::prelude::*;
use vstd::string::*;
use vstd::utf8::*;

verus! {

/// An algorithm family that a key can belong to.
#[derive(Clone, Copy, Debug, PartialEq, Eq, Structural)]
pub enum KeyFamily {
    /// RSA keys: RS256 signatures, RSA-OAEP encryption.
    Rsa,
    /// Elliptic-curve keys: ES256 signatures, ECDH-ES encryption.
    Ec,
}

/// A key as a deployment declares it.
pub struct KeyDeclaration {
    /// The tag of the key's family: `RSA` or `EC`.
    pub family: String,
    /// The key, PEM-encoded.
    pub material: String,
}

/// What is wrong with key material.
#[derive(Debug)]
pub enum KeyFault {
    /// The text is no PEM: not data between a beginning and an end with one label.
    Armor,
    /// The text between the beginning and the end is not whole base64.
    Encoding,
    /// An element of the key announces more content than the key holds.
    Structure,
    /// The family's algorithm refused the key.
    Refused(JoseError),
}

/// Why a declaration did not resolve.
#[derive(Debug)]
pub enum KeyError {
    /// The family tag is none of the supported ones.
    UnsupportedKeyFamily,
    /// The key material is no key for the family's algorithm.
    InvalidKeyMaterial(KeyFault),
}

/// The category of a [`KeyError`], without its cause.
#[derive(Clone, Copy, Debug, PartialEq, Eq, Structural)]
pub enum KeyErrorKind {
    UnsupportedKeyFamily,
    InvalidArmor,
    InvalidEncoding,
    InvalidStructure,
    Refused,
}

/// What a capability is, mathematically: a family and a key in DER.
pub struct Key {
    pub family: KeyFamily,
    pub der: Seq<u8>,
}

/// The family that a tag names, if it names one.
pub open spec fn family_of(tag: Seq<char>) -> Option<KeyFamily> {
    if tag == "RSA"@ {
        Some(KeyFamily::Rsa)
    } else if tag == "EC"@ {
        Some(KeyFamily::Ec)
    } else {
        None
    }
}

/// Whether the family's signature algorithm accepts the data as a private key.
pub open spec fn signing_key_accepted(family: KeyFamily, der: Seq<u8>) -> bool {
    match family {
        KeyFamily::Rsa => rs256_signer_accepts(der),
        KeyFamily::Ec => es256_signer_accepts(der),
    }
}

/// Whether the family's signature algorithm accepts the data as a public key.
pub open spec fn verifying_key_accepted(family: KeyFamily, der: Seq<u8>) -> bool {
    match family {
        KeyFamily::Rsa => rs256_verifier_accepts(der),
        KeyFamily::Ec => es256_verifier_accepts(der),
    }
}

/// Whether the family's encryption algorithm accepts the data as a public key.
pub open spec fn encrypting_key_accepted(family: KeyFamily, der: Seq<u8>) -> bool {
    match family {
        KeyFamily::Rsa => rsa_oaep_encrypter_accepts(der),
        KeyFamily::Ec => ecdh_es_encrypter_accepts(der),
    }
}

/// Whether the family's encryption algorithm accepts the data as a private key.
pub open spec fn decrypting_key_accepted(family: KeyFamily, der: Seq<u8>) -> bool {
    match family {
        KeyFamily::Rsa => rsa_oaep_decrypter_accepts(der),
        KeyFamily::Ec => ecdh_es_decrypter_accepts(der),
    }
}

/// The family and the key that a declaration holds, before any algorithm has judged the key;
/// or what is wrong with the declaration. The tag is read first, then the text.
pub open spec fn declared(declaration: KeyDeclaration) -> Result<Key, KeyErrorKind> {
    match family_of(declaration.family@) {
        None => Err(KeyErrorKind::UnsupportedKeyFamily),
        Some(family) => match carried(encode_utf8(declaration.material@)) {
            Err(PemError::Armor) => Err(KeyErrorKind::InvalidArmor),
            Err(PemError::Encoding) => Err(KeyErrorKind::InvalidEncoding),
            Ok(der) => if elements_fit(der) {
                Ok(Key { family, der })
            } else {
                Err(KeyErrorKind::InvalidStructure)
            },
        },
    }
}

/// What a declared private key resolves to for signing.
pub open spec fn signing_resolution(declaration: KeyDeclaration) -> Result<Key, KeyErrorKind> {
    match declared(declaration) {
        Ok(key) if !signing_key_accepted(key.family, key.der) => Err(KeyErrorKind::Refused),
        outcome => outcome,
    }
}

/// What a declared public key resolves to for verifying signatures.
pub open spec fn verifying_resolution(declaration: KeyDeclaration) -> Result<Key, KeyErrorKind> {
    match declared(declaration) {
        Ok(key) if !verifying_key_accepted(key.family, key.der) => Err(KeyErrorKind::Refused),
        outcome => outcome,
    }
}

/// What a declared public key resolves to for encrypting.
pub open spec fn encrypting_resolution(declaration: KeyDeclaration) -> Result<Key, KeyErrorKind> {
    match declared(declaration) {
        Ok(key) if !encrypting_key_accepted(key.family, key.der) => Err(KeyErrorKind::Refused),
        outcome => outcome,
    }
}

/// What a declared private key resolves to for decrypting.
pub open spec fn decrypting_resolution(declaration: KeyDeclaration) -> Result<Key, KeyErrorKind> {
    match declared(declaration) {
        Ok(key) if !decrypting_key_accepted(key.family, key.der) => Err(KeyErrorKind::Refused),
        outcome => outcome,
    }
}

impl KeyError {
    /// The category of the error.
    pub open spec fn spec_kind(&self) -> KeyErrorKind {
        match self {
            KeyError::UnsupportedKeyFamily => KeyErrorKind::UnsupportedKeyFamily,
            KeyError::InvalidKeyMaterial(KeyFault::Armor) => KeyErrorKind::InvalidArmor,
            KeyError::InvalidKeyMaterial(KeyFault::Encoding) => KeyErrorKind::InvalidEncoding,
            KeyError::InvalidKeyMaterial(KeyFault::Structure) => KeyErrorKind::InvalidStructure,
            KeyError::InvalidKeyMaterial(KeyFault::Refused(_)) => KeyErrorKind::Refused,
        }
    }

    /// The category of the error: enough to log and to decide on, and free of key material.
    #[verifier::when_used_as_spec(spec_kind)]
    pub fn kind(&self) -> (r: KeyErrorKind)
        ensures
            r == self.spec_kind(),
    {
        match self {
            KeyError::UnsupportedKeyFamily => KeyErrorKind::UnsupportedKeyFamily,
            KeyError::InvalidKeyMaterial(KeyFault::Armor) => KeyErrorKind::InvalidArmor,
            KeyError::InvalidKeyMaterial(KeyFault::Encoding) => KeyErrorKind::InvalidEncoding,
            KeyError::InvalidKeyMaterial(KeyFault::Structure) => KeyErrorKind::InvalidStructure,
            KeyError::InvalidKeyMaterial(KeyFault::Refused(_)) => KeyErrorKind::Refused,
        }
    }

    /// A line for a log: what is wrong with the declaration, in the algorithm's own words
    /// where the algorithm refused the key.
    pub fn message(&self) -> (r: String)
        ensures
            self.kind() == KeyErrorKind::UnsupportedKeyFamily ==> r@ == "Unsupported key family"@,
            self.kind() == KeyErrorKind::InvalidArmor ==> r@ == "Key is not PEM"@,
            self.kind() == KeyErrorKind::InvalidEncoding ==> r@ == "Key is not base64"@,
            self.kind() == KeyErrorKind::InvalidStructure ==> r@ == "Key is not DER"@,
    {
        match self {
            KeyError::UnsupportedKeyFamily => "Unsupported key family".to_owned(),
            KeyError::InvalidKeyMaterial(KeyFault::Armor) => "Key is not PEM".to_owned(),
            KeyError::InvalidKeyMaterial(KeyFault::Encoding) => "Key is not base64".to_owned(),
            KeyError::InvalidKeyMaterial(KeyFault::Structure) => "Key is not DER".to_owned(),
            KeyError::InvalidKeyMaterial(KeyFault::Refused(e)) => e.to_string(),
        }
    }
}

impl KeyFamily {
    /// Reads a family tag. Tags are matched exactly: `RSA` and `EC`.
    pub fn from_tag(tag: &str) -> (r: Option<KeyFamily>)
        ensures
            r == family_of(tag@),
    {
        let tag = tag.to_owned();
        if tag == "RSA".to_owned() {
            Some(KeyFamily::Rsa)
        } else if tag == "EC".to_owned() {
            Some(KeyFamily::Ec)
        } else {
            None
        }
    }
}

/// Reads the family and the key out of a declaration, and looks over the key's elements.
fn read_declaration(declaration: &KeyDeclaration) -> (r: Result<(KeyFamily, Vec<u8>), KeyError>)
    ensures
        match declared(*declaration) {
            Ok(key) => r matches Ok(read) && read.0 == key.family && read.1@ == key.der
                && elements_fit(read.1@),
            Err(kind) => r matches Err(e) && e.kind() == kind,
        },
{
    let family = match KeyFamily::from_tag(declaration.family.as_str()) {
        Some(family) => family,
        None => {
            return Err(KeyError::UnsupportedKeyFamily);
        },
    };
    let der = match decode(declaration.material.as_str()) {
        Ok(der) => der,
        Err(PemError::Armor) => {
            return Err(KeyError::InvalidKeyMaterial(KeyFault::Armor));
        },
        Err(PemError::Encoding) => {
            return Err(KeyError::InvalidKeyMaterial(KeyFault::Encoding));
        },
    };
    if !check_elements(der.as_slice()) {
        return Err(KeyError::InvalidKeyMaterial(KeyFault::Structure));
    }
    Ok((family, der))
}

/// A private key bound to its family's signature algorithm.
pub struct SigningCapability {
    family: KeyFamily,
    der: Vec<u8>,
}

/// A public key bound to its family's signature algorithm.
pub struct VerifyingCapability {
    family: KeyFamily,
    der: Vec<u8>,
}

/// A public key bound to its family's encryption algorithm.
pub struct EncryptingCapability {
    family: KeyFamily,
    der: Vec<u8>,
}

/// A private key bound to its family's encryption algorithm.
pub struct DecryptingCapability {
    family: KeyFamily,
    der: Vec<u8>,
}

impl View for SigningCapability {
    type V = Key;

    closed spec fn view(&self) -> Key {
        Key { family: self.family, der: self.der@ }
    }
}

impl View for VerifyingCapability {
    type V = Key;

    closed spec fn view(&self) -> Key {
        Key { family: self.family, der: self.der@ }
    }
}

impl View for EncryptingCapability {
    type V = Key;

    closed spec fn view(&self) -> Key {
        Key { family: self.family, der: self.der@ }
    }
}

impl View for DecryptingCapability {
    type V = Key;

    closed spec fn view(&self) -> Key {
        Key { family: self.family, der: self.der@ }
    }
}

impl SigningCapability {
    #[verifier::type_invariant]
    spec fn key_was_accepted(self) -> bool {
        elements_fit(self.der@) && signing_key_accepted(self.family, self.der@)
    }

    /// The family that the key was declared under.
    pub fn family(&self) -> (r: KeyFamily)
        ensures
            r == self@.family,
    {
        self.family
    }

    /// Signs the claims under the header with the family's algorithm. Which token comes back
    /// is the algorithm's to choose, signatures not being reproducible; it is a token in
    /// compact form, three parts of URL-safe base64.
    pub(crate) fn sign(&self, claims: &JwtPayload, header: &JwsHeader) -> (r: Result<
        String,
        JoseError,
    >)
        ensures
            r matches Ok(token) ==> is_compact(encode_utf8(token@), SIGNED_SEPARATORS as nat),
    {
        proof {
            use_type_invariant(self);
        }
        match self.family {
            KeyFamily::Rsa => rs256_sign(claims, header, self.der.as_slice()),
            KeyFamily::Ec => es256_sign(claims, header, self.der.as_slice()),
        }
    }
}

impl VerifyingCapability {
    #[verifier::type_invariant]
    spec fn key_was_accepted(self) -> bool {
        elements_fit(self.der@) && verifying_key_accepted(self.family, self.der@)
    }

    /// The family that the key was declared under.
    pub fn family(&self) -> (r: KeyFamily)
        ensures
            r == self@.family,
    {
        self.family
    }

    /// Checks the token's signature with the family's algorithm and hands out its claims.
    pub(crate) fn verify(&self, token: &str) -> (r: Result<JwtPayload, JoseError>)
        ensures
            r is Ok <==> verified(self@.family, self@.der, token@) is Some,
            r matches Ok(claims) ==> verified(self@.family, self@.der, token@) == Some(
                payload_claims(claims),
            ),
    {
        proof {
            use_type_invariant(self);
        }
        let outcome = match self.family {
            KeyFamily::Rsa => rs256_verify(token, self.der.as_slice()),
            KeyFamily::Ec => es256_verify(token, self.der.as_slice()),
        };
        match outcome {
            Ok((claims, _)) => Ok(claims),
            Err(e) => Err(e),
        }
    }
}

impl EncryptingCapability {
    #[verifier::type_invariant]
    spec fn key_was_accepted(self) -> bool {
        elements_fit(self.der@) && encrypting_key_accepted(self.family, self.der@)
    }

    /// The family that the key was declared under.
    pub fn family(&self) -> (r: KeyFamily)
        ensures
            r == self@.family,
    {
        self.family
    }

    /// Encrypts an outer layer with the family's algorithm. Which token comes back is the
    /// algorithm's to choose, encryption not being reproducible; it is a token in compact
    /// form, five parts of URL-safe base64, with an initialization vector in the third.
    pub(crate) fn encrypt(&self, claims: &JwtPayload, header: &JweHeader) -> (r: Result<
        String,
        JoseError,
    >)
        requires
            is_sealable(payload_claims(*claims), jwe_header_claims(*header)),
        ensures
            r matches Ok(token) ==> is_compact(encode_utf8(token@), SEPARATORS as nat)
                && part_len(encode_utf8(token@), VECTOR_PART as nat) == VECTOR_SYMBOLS,
    {
        proof {
            use_type_invariant(self);
        }
        match self.family {
            KeyFamily::Rsa => rsa_oaep_encrypt(claims, header, self.der.as_slice()),
            KeyFamily::Ec => ecdh_es_encrypt(claims, header, self.der.as_slice()),
        }
    }
}

impl DecryptingCapability {
    #[verifier::type_invariant]
    spec fn key_was_accepted(self) -> bool {
        elements_fit(self.der@) && decrypting_key_accepted(self.family, self.der@)
    }

    /// The family that the key was declared under.
    pub fn family(&self) -> (r: KeyFamily)
        ensures
            r == self@.family,
    {
        self.family
    }

    /// Decrypts a framed token with the family's algorithm and hands out its claims and
    /// header.
    pub(crate) fn decrypt(&self, token: &str) -> (r: Result<(JwtPayload, JweHeader), JoseError>)
        requires
            is_framed(token.spec_bytes()),
        ensures
            r is Ok <==> decrypted(self@.family, self@.der, token@) is Some,
            r matches Ok(layer) ==> decrypted(self@.family, self@.der, token@) == Some(
                Decrypted { claims: payload_claims(layer.0), header: jwe_header_claims(layer.1) },
            ),
    {
        proof {
            use_type_invariant(self);
        }
        match self.family {
            KeyFamily::Rsa => rsa_oaep_decrypt(token, self.der.as_slice()),
            KeyFamily::Ec => ecdh_es_decrypt(token, self.der.as_slice()),
        }
    }
}

/// Resolves a declared private key into the capability to sign.
///
/// The tag decides the algorithm, and the algorithm decides on the key at once: an unknown
/// tag, a text that holds no key and a key that the algorithm refuses all show here, never at
/// the first signature.
pub fn resolve_signing(declaration: &KeyDeclaration) -> (r: Result<SigningCapability, KeyError>)
    ensures
        match signing_resolution(*declaration) {
            Ok(key) => r matches Ok(capability) && capability@ == key,
            Err(kind) => r matches Err(e) && e.kind() == kind,
        },
{
    let (family, der) = match read_declaration(declaration) {
        Ok(read) => read,
        Err(e) => {
            return Err(e);
        },
    };
    let verdict = match family {
        KeyFamily::Rsa => rs256_signer_check(der.as_slice()),
        KeyFamily::Ec => es256_signer_check(der.as_slice()),
    };
    match verdict {
        Ok(()) => Ok(SigningCapability { family, der }),
        Err(e) => Err(KeyError::InvalidKeyMaterial(KeyFault::Refused(e))),
    }
}

/// Resolves a declared public key into the capability to verify signatures.
///
/// The tag decides the algorithm, and the algorithm decides on the key at once.
pub fn resolve_verifying(declaration: &KeyDeclaration) -> (r: Result<
    VerifyingCapability,
    KeyError,
>)
    ensures
        match verifying_resolution(*declaration) {
            Ok(key) => r matches Ok(capability) && capability@ == key,
            Err(kind) => r matches Err(e) && e.kind() == kind,
        },
{
    let (family, der) = match read_declaration(declaration) {
        Ok(read) => read,
        Err(e) => {
            return Err(e);
        },
    };
    let verdict = match family {
        KeyFamily::Rsa => rs256_verifier_check(der.as_slice()),
        KeyFamily::Ec => es256_verifier_check(der.as_slice()),
    };
    match verdict {
        Ok(()) => Ok(VerifyingCapability { family, der }),
        Err(e) => Err(KeyError::InvalidKeyMaterial(KeyFault::Refused(e))),
    }
}

/// Resolves a declared public key into the capability to encrypt.
///
/// The tag decides the algorithm, and the algorithm decides on the key at once.
pub fn resolve_encrypting(declaration: &KeyDeclaration) -> (r: Result<
    EncryptingCapability,
    KeyError,
>)
    ensures
        match encrypting_resolution(*declaration) {
            Ok(key) => r matches Ok(capability) && capability@ == key,
            Err(kind) => r matches Err(e) && e.kind() == kind,
        },
{
    let (family, der) = match read_declaration(declaration) {
        Ok(read) => read,
        Err(e) => {
            return Err(e);
        },
    };
    let verdict = match family {
        KeyFamily::Rsa => rsa_oaep_encrypter_check(der.as_slice()),
        KeyFamily::Ec => ecdh_es_encrypter_check(der.as_slice()),
    };
    match verdict {
        Ok(()) => Ok(EncryptingCapability { family, der }),
        Err(e) => Err(KeyError::InvalidKeyMaterial(KeyFault::Refused(e))),
    }
}

/// Resolves a declared private key into the capability to decrypt.
///
/// The tag decides the algorithm, and the algorithm decides on the key at once.
pub fn resolve_decrypting(declaration: &KeyDeclaration) -> (r: Result<
    DecryptingCapability,
    KeyError,
>)
    ensures
        match decrypting_resolution(*declaration) {
            Ok(key) => r matches Ok(capability) && capability@ == key,
            Err(kind) => r matches Err(e) && e.kind() == kind,
        },
{
    let (family, der) = match read_declaration(declaration) {
        Ok(read) => read,
        Err(e) => {
            return Err(e);
        },
    };
    let verdict = match family {
        KeyFamily::Rsa => rsa_oaep_decrypter_check(der.as_slice()),
        KeyFamily::Ec => ecdh_es_decrypter_check(der.as_slice()),
    };
    match verdict {
        Ok(()) => Ok(DecryptingCapability { family, der }),
        Err(e) => Err(KeyError::InvalidKeyMaterial(KeyFault::Refused(e))),
    }
}

} // verus!
