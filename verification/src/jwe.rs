//! The envelope: a signed token of attributes, carried as the one claim of an encrypted token.
//!
//! Sealing builds the two layers from the inside out. Opening peels them from the outside in,
//! and looks at each layer for the marker that sealing put there before it reads the claim.
//! What opening returns is stated exactly by [`opened`], over what decryption and signature
//! verification yield for the keys at hand.
use crate::claims::{
    has_text, is_checked_claim, jwe_header_claims, jws_header_claims,
    lemma_checked_claims_are_short, payload_claims, set_content_encryption, set_content_type,
    set_encrypted_token_type, set_signed_token_type, set_subject,
};
use crate::crypto::{decrypted, verified};
use crate::frame::{check_frame, is_compact, is_framed, LONGEST_ENVELOPE, SEPARATORS};
use crate::json::{attributes_from_value, attributes_to_value, text_to_value, Json};
use crate::keys::{
    DecryptingCapability, EncryptingCapability, Key, SigningCapability, VerifyingCapability,
};
use crate::layers::{
    carried_attributes, embedded_token, encrypted_claims, encrypted_header, is_sealable,
    jwt_marker, signed_claims, signed_header, subject_marker, Decrypted, LONGEST_TOKEN,
};
use josekit::jwe::JweHeader;
use josekit::jws::JwsHeader;
use josekit::jwt::JwtPayload;
use josekit::JoseError;
use serde_json::Error as JsonError;
use std::collections::HashMap;
use vstd::prelude::*;
use vstd::string::*;
use vstd::utf8::*;

verus! {

/// Why an envelope could not be sealed or opened. A cause is given where an algorithm or a
/// conversion failed, and none where the text at hand was not fit to be handed on.
#[derive(Debug)]
pub enum Error {
    /// The payload could not be turned into claims: it has no JSON form, or its signed token
    /// is longer than an envelope can carry.
    SerializationFailed(Option<JsonError>),
    /// The signing algorithm did not produce the inner token.
    SigningFailed(JoseError),
    /// The encryption algorithm did not produce the envelope.
    EncryptionFailed(JoseError),
    /// The text has not the frame of an envelope, or did not decrypt under the key at hand.
    DecryptionFailed(Option<JoseError>),
    /// The inner token's signature did not verify under the key at hand.
    SignatureInvalid(JoseError),
    /// A layer decoded, but is not the layer of an envelope: a marker or a claim is missing or
    /// has the wrong shape.
    MalformedEnvelope,
}

/// The category of an [`Error`], without its cause.
#[derive(Clone, Copy, Debug, PartialEq, Eq, Structural)]
pub enum ErrorKind {
    SerializationFailed,
    SigningFailed,
    EncryptionFailed,
    DecryptionFailed,
    SignatureInvalid,
    MalformedEnvelope,
}

impl Error {
    /// The category of the error.
    pub open spec fn spec_kind(&self) -> ErrorKind {
        match self {
            Error::SerializationFailed(_) => ErrorKind::SerializationFailed,
            Error::SigningFailed(_) => ErrorKind::SigningFailed,
            Error::EncryptionFailed(_) => ErrorKind::EncryptionFailed,
            Error::DecryptionFailed(_) => ErrorKind::DecryptionFailed,
            Error::SignatureInvalid(_) => ErrorKind::SignatureInvalid,
            Error::MalformedEnvelope => ErrorKind::MalformedEnvelope,
        }
    }

    /// The category of the error: enough to log and to decide on, and free of key material
    /// and payload.
    #[verifier::when_used_as_spec(spec_kind)]
    pub fn kind(&self) -> (r: ErrorKind)
        ensures
            r == self.spec_kind(),
    {
        match self {
            Error::SerializationFailed(_) => ErrorKind::SerializationFailed,
            Error::SigningFailed(_) => ErrorKind::SigningFailed,
            Error::EncryptionFailed(_) => ErrorKind::EncryptionFailed,
            Error::DecryptionFailed(_) => ErrorKind::DecryptionFailed,
            Error::SignatureInvalid(_) => ErrorKind::SignatureInvalid,
            Error::MalformedEnvelope => ErrorKind::MalformedEnvelope,
        }
    }

    /// A line for a log: the cause's own words, or what is wrong with the text at hand.
    pub fn message(&self) -> (r: String)
        ensures
            self matches Error::SerializationFailed(None) ==> r@ == "Payload is too large"@,
            self matches Error::DecryptionFailed(None) ==> r@ == "Not an encrypted token"@,
            self is MalformedEnvelope ==> r@ == "Incorrect jwe structure"@,
    {
        match self {
            Error::SerializationFailed(Some(e)) => e.to_string(),
            Error::SerializationFailed(None) => "Payload is too large".to_owned(),
            Error::SigningFailed(e) => e.to_string(),
            Error::EncryptionFailed(e) => e.to_string(),
            Error::DecryptionFailed(Some(e)) => e.to_string(),
            Error::DecryptionFailed(None) => "Not an encrypted token".to_owned(),
            Error::SignatureInvalid(e) => e.to_string(),
            Error::MalformedEnvelope => "Incorrect jwe structure".to_owned(),
        }
    }
}

/// What opening an envelope yields, layer by layer. The frame and the decryption come first
/// and decide alone whether anything else is looked at; the signature is checked on the
/// embedded token only; the attributes are read from verified claims only.
pub open spec fn opened(envelope: Seq<char>, verifier: Key, decrypter: Key) -> Result<
    Map<Seq<char>, Seq<char>>,
    ErrorKind,
> {
    if !is_framed(encode_utf8(envelope)) {
        Err(ErrorKind::DecryptionFailed)
    } else {
        match decrypted(decrypter.family, decrypter.der, envelope) {
            None => Err(ErrorKind::DecryptionFailed),
            Some(layer) => match embedded_token(layer) {
                None => Err(ErrorKind::MalformedEnvelope),
                Some(inner) => match verified(verifier.family, verifier.der, inner) {
                    None => Err(ErrorKind::SignatureInvalid),
                    Some(claims) => match carried_attributes(claims) {
                        None => Err(ErrorKind::MalformedEnvelope),
                        Some(attributes) => Ok(attributes),
                    },
                },
            },
        }
    }
}

/// Builds the claims of the signed token: the subject marker, and the attributes as one claim.
/// A map from strings to strings always has a JSON form, so this succeeds.
pub fn build_signed_claims(attributes: &HashMap<String, String>) -> (r: Result<JwtPayload, Error>)
    ensures
        r matches Ok(claims) && payload_claims(claims) == signed_claims(attributes.deep_view()),
{
    let value = match attributes_to_value(attributes) {
        Ok(value) => value,
        // Not reached: the conversion of such a map does not fail.
        Err(e) => {
            return Err(Error::SerializationFailed(Some(e)));
        },
    };
    let mut claims = JwtPayload::new();
    set_subject(&mut claims, "id-contact-attributes");
    proof {
        lemma_attributes_is_unchecked();
    }
    match claims.set_claim("attributes", Some(value)) {
        Ok(()) => Ok(claims),
        // Not reached: `attributes` is stored as it is.
        Err(e) => Err(Error::SigningFailed(e)),
    }
}

/// Builds the header of the signed token.
pub fn build_signed_header() -> (r: JwsHeader)
    ensures
        jws_header_claims(r) == signed_header(),
{
    let mut header = JwsHeader::new();
    set_signed_token_type(&mut header, "JWT");
    header
}

/// Builds the claims of the encrypted token around the signed token. A string always has a
/// JSON form, so this succeeds.
pub fn build_encrypted_claims(inner: &str) -> (r: Result<JwtPayload, Error>)
    ensures
        r matches Ok(claims) && payload_claims(claims) == encrypted_claims(inner@),
{
    let value = match text_to_value(inner) {
        Ok(value) => value,
        // Not reached: the conversion of a string does not fail.
        Err(e) => {
            return Err(Error::SerializationFailed(Some(e)));
        },
    };
    let mut claims = JwtPayload::new();
    proof {
        lemma_njwt_is_unchecked();
    }
    match claims.set_claim("njwt", Some(value)) {
        Ok(()) => Ok(claims),
        // Not reached: `njwt` is stored as it is.
        Err(e) => Err(Error::EncryptionFailed(e)),
    }
}

/// Builds the header of the encrypted token.
pub fn build_encrypted_header() -> (r: JweHeader)
    ensures
        jwe_header_claims(r) == encrypted_header(),
{
    let mut header = JweHeader::new();
    set_encrypted_token_type(&mut header, "JWT");
    set_content_type(&mut header, "JWT");
    set_content_encryption(&mut header, "A128CBC-HS256");
    header
}

/// Reads the signed token out of a decrypted layer.
///
/// The layer must declare its content to be a JWT and hold the token as a string under `njwt`.
/// Whatever else the layer holds is ignored.
pub fn extract_embedded_token(claims: &JwtPayload, header: &JweHeader) -> (r: Result<
    String,
    Error,
>)
    ensures
        match embedded_token(
            Decrypted { claims: payload_claims(*claims), header: jwe_header_claims(*header) },
        ) {
            Some(inner) => r matches Ok(token) && token@ == inner,
            None => r matches Err(Error::MalformedEnvelope),
        },
{
    let declared = match header.content_type() {
        Some(content_type) => content_type.to_owned() == "JWT".to_owned(),
        None => false,
    };
    if !declared {
        return Err(Error::MalformedEnvelope);
    }
    match claims.claim("njwt") {
        None => Err(Error::MalformedEnvelope),
        Some(value) => match value.as_str() {
            None => Err(Error::MalformedEnvelope),
            Some(inner) => Ok(inner.to_owned()),
        },
    }
}

/// Reads the attributes out of verified claims.
///
/// The claims must have the marker as their subject and hold the attributes, a map from
/// strings to strings, under `attributes`. Whatever else the claims hold is ignored.
pub fn extract_attributes(claims: &JwtPayload) -> (r: Result<HashMap<String, String>, Error>)
    ensures
        match carried_attributes(payload_claims(*claims)) {
            Some(attributes) => r matches Ok(found) && found.deep_view() == attributes,
            None => r matches Err(Error::MalformedEnvelope),
        },
{
    let marked = match claims.claim("sub") {
        None => false,
        Some(value) => match value.as_str() {
            None => false,
            Some(subject) => subject.to_owned() == "id-contact-attributes".to_owned(),
        },
    };
    if !marked {
        return Err(Error::MalformedEnvelope);
    }
    match claims.claim("attributes") {
        None => Err(Error::MalformedEnvelope),
        Some(value) => match attributes_from_value(value) {
            Ok(attributes) => Ok(attributes),
            Err(_) => Err(Error::MalformedEnvelope),
        },
    }
}

/// Takes what signing gave and builds the claims of the encrypted token around it.
///
/// A failure of the algorithm is handed on with its cause. A signed token of more than
/// [`LONGEST_TOKEN`] bytes is not carried. Any other becomes the one claim of the outer layer.
pub fn carry_signed_token(signed: Result<String, JoseError>) -> (r: Result<JwtPayload, Error>)
    ensures
        match signed {
            Err(cause) => r matches Err(Error::SigningFailed(e)) && e == cause,
            Ok(inner) => if encode_utf8(inner@).len() > LONGEST_TOKEN {
                r matches Err(Error::SerializationFailed(None))
            } else {
                r matches Ok(claims) && payload_claims(claims) == encrypted_claims(inner@)
            },
        },
{
    match signed {
        Err(cause) => Err(Error::SigningFailed(cause)),
        Ok(inner) => {
            let token = inner.as_str();
            if token.as_bytes().len() > LONGEST_TOKEN {
                Err(Error::SerializationFailed(None))
            } else {
                build_encrypted_claims(token)
            }
        },
    }
}

/// Takes what encrypting gave and hands out the envelope.
///
/// A failure of the algorithm is handed on with its cause. An envelope of more than
/// [`LONGEST_ENVELOPE`] bytes could not be opened again and is not handed out. Any other is
/// handed out as it is.
pub fn finish_envelope(encrypted: Result<String, JoseError>) -> (r: Result<String, Error>)
    ensures
        match encrypted {
            Err(cause) => r matches Err(Error::EncryptionFailed(e)) && e == cause,
            Ok(envelope) => if encode_utf8(envelope@).len() > LONGEST_ENVELOPE {
                r matches Err(Error::SerializationFailed(None))
            } else {
                r matches Ok(whole) && whole == envelope
            },
        },
{
    match encrypted {
        Err(cause) => Err(Error::EncryptionFailed(cause)),
        Ok(envelope) => {
            if envelope.as_str().as_bytes().len() > LONGEST_ENVELOPE {
                Err(Error::SerializationFailed(None))
            } else {
                Ok(envelope)
            }
        },
    }
}

/// Seals the attributes: signs them, then encrypts the signed token.
///
/// The envelope is the encrypted token of [`build_encrypted_claims`] under
/// [`build_encrypted_header`], around the signed token of [`build_signed_claims`] under
/// [`build_signed_header`]. Both algorithms draw fresh randomness, so which envelope comes
/// back is theirs to choose. Whichever it is, it is whole: a token in compact form that
/// passes through a URL or a JSON string as it is, and that has the frame which opening asks
/// for. Where no envelope comes back, an algorithm failed, or a token came out longer than
/// can be carried.
pub fn sign_and_encrypt_attributes(
    attributes: &HashMap<String, String>,
    signer: &SigningCapability,
    encrypter: &EncryptingCapability,
) -> (r: Result<String, Error>)
    ensures
        r matches Ok(envelope) ==> is_compact(encode_utf8(envelope@), SEPARATORS as nat)
            && is_framed(encode_utf8(envelope@)),
        r matches Err(e) ==> e.kind() == ErrorKind::SerializationFailed || e.kind()
            == ErrorKind::SigningFailed || e.kind() == ErrorKind::EncryptionFailed,
{
    let claims = match build_signed_claims(attributes) {
        Ok(claims) => claims,
        Err(e) => {
            return Err(e);
        },
    };
    let header = build_signed_header();
    let outer = match carry_signed_token(signer.sign(&claims, &header)) {
        Ok(outer) => outer,
        Err(e) => {
            return Err(e);
        },
    };
    let outer_header = build_encrypted_header();
    proof {
        let inner = payload_claims(outer)["njwt"@]->Text_0;
        assert(encrypted_claims(inner).contains_key("njwt"@));
    }
    finish_envelope(encrypter.encrypt(&outer, &outer_header))
}

/// Opens an envelope: decrypts it, then verifies the signed token inside, then reads the
/// attributes.
///
/// The first layer that fails decides the error, and no later layer is touched: without the
/// decryption key nobody gets as far as the signature check. A text without the frame of an
/// envelope is turned away before any key is used.
pub fn decrypt_and_verify_attributes(
    jwe: &str,
    validator: &VerifyingCapability,
    decrypter: &DecryptingCapability,
) -> (r: Result<HashMap<String, String>, Error>)
    ensures
        match opened(jwe@, validator@, decrypter@) {
            Ok(attributes) => r matches Ok(found) && found.deep_view() == attributes,
            Err(kind) => r matches Err(e) && e.kind() == kind,
        },
{
    if !check_frame(jwe) {
        return Err(Error::DecryptionFailed(None));
    }
    let (outer, outer_header) = match decrypter.decrypt(jwe) {
        Ok(layer) => layer,
        Err(e) => {
            return Err(Error::DecryptionFailed(Some(e)));
        },
    };
    let inner = match extract_embedded_token(&outer, &outer_header) {
        Ok(inner) => inner,
        Err(e) => {
            return Err(e);
        },
    };
    let claims = match validator.verify(inner.as_str()) {
        Ok(claims) => claims,
        Err(e) => {
            return Err(Error::SignatureInvalid(e));
        },
    };
    extract_attributes(&claims)
}

/// Reading undoes building, on the outer layer: a layer that holds at least the claims and
/// header that sealing builds around `inner` embeds exactly `inner`.
pub proof fn lemma_built_layer_embeds_its_token(layer: Decrypted, inner: Seq<char>)
    requires
        encrypted_claims(inner).submap_of(layer.claims),
        encrypted_header().submap_of(layer.header),
    ensures
        embedded_token(layer) == Some(inner),
{
    lemma_claim_names_differ();
    assert(encrypted_claims(inner).contains_key("njwt"@) && layer.claims.contains_key("njwt"@));
    assert(encrypted_header().contains_key("cty"@) && layer.header.contains_key("cty"@));
}

/// Reading undoes building, on the inner layer: claims that hold at least what sealing builds
/// from `attributes` carry exactly `attributes`.
pub proof fn lemma_built_claims_carry_their_attributes(
    claims: Map<Seq<char>, Json>,
    attributes: Map<Seq<char>, Seq<char>>,
)
    requires
        signed_claims(attributes).submap_of(claims),
    ensures
        carried_attributes(claims) == Some(attributes),
{
    lemma_claim_names_differ();
    assert(signed_claims(attributes).contains_key("sub"@) && claims.contains_key("sub"@));
    assert(signed_claims(attributes).contains_key("attributes"@) && claims.contains_key(
        "attributes"@,
    ));
}

/// Round trip, for every payload and every pair of families. Take a framed envelope that
/// decrypts, under the key at hand, to at least the claims and header that sealing builds
/// around `inner`, where `inner` verifies, under the key at hand, to at least the claims that
/// sealing builds from `attributes`. Opening it yields exactly `attributes`, the empty map
/// included.
pub proof fn lemma_sealed_envelope_opens(
    attributes: Map<Seq<char>, Seq<char>>,
    inner: Seq<char>,
    envelope: Seq<char>,
    verifier: Key,
    decrypter: Key,
)
    requires
        is_framed(encode_utf8(envelope)),
        decrypted(decrypter.family, decrypter.der, envelope) matches Some(layer)
            && encrypted_claims(inner).submap_of(layer.claims) && encrypted_header().submap_of(
            layer.header,
        ),
        verified(verifier.family, verifier.der, inner) matches Some(claims) && signed_claims(
            attributes,
        ).submap_of(claims),
    ensures
        opened(envelope, verifier, decrypter) == Ok::<Map<Seq<char>, Seq<char>>, ErrorKind>(
            attributes,
        ),
{
    let layer = decrypted(decrypter.family, decrypter.der, envelope)->0;
    let claims = verified(verifier.family, verifier.der, inner)->0;
    lemma_built_layer_embeds_its_token(layer, inner);
    lemma_built_claims_carry_their_attributes(claims, attributes);
}

/// Confidentiality gate. Where the envelope has no frame or does not decrypt under the key at
/// hand, opening fails with `DecryptionFailed` whatever the verifier is: the signature check
/// plays no part.
pub proof fn lemma_decryption_gates_everything(
    envelope: Seq<char>,
    verifier: Key,
    decrypter: Key,
)
    requires
        !is_framed(encode_utf8(envelope)) || decrypted(
            decrypter.family,
            decrypter.der,
            envelope,
        ) is None,
    ensures
        opened(envelope, verifier, decrypter) == Err::<Map<Seq<char>, Seq<char>>, ErrorKind>(
            ErrorKind::DecryptionFailed,
        ),
{
}

/// Authenticity gate. Where the envelope decrypts to a layer that embeds a token, and that
/// token does not verify under the key at hand, opening fails with `SignatureInvalid`.
pub proof fn lemma_signature_gates_attributes(
    envelope: Seq<char>,
    verifier: Key,
    decrypter: Key,
)
    requires
        is_framed(encode_utf8(envelope)),
        decrypted(decrypter.family, decrypter.der, envelope) matches Some(layer)
            && embedded_token(layer) matches Some(inner) && verified(
            verifier.family,
            verifier.der,
            inner,
        ) is None,
    ensures
        opened(envelope, verifier, decrypter) == Err::<Map<Seq<char>, Seq<char>>, ErrorKind>(
            ErrorKind::SignatureInvalid,
        ),
{
}

/// Structural rejection of the outer layer. An envelope that decrypts, but whose claims lack
/// `njwt` or hold something other than a string there, or whose header does not declare the
/// content to be a JWT, is malformed.
pub proof fn lemma_outer_layer_must_embed_a_token(
    envelope: Seq<char>,
    verifier: Key,
    decrypter: Key,
)
    requires
        is_framed(encode_utf8(envelope)),
        decrypted(decrypter.family, decrypter.der, envelope) matches Some(layer) && (
        !has_text(layer.claims, "njwt"@) || !layer.header.contains_key("cty"@)
            || layer.header["cty"@] != Json::Text(jwt_marker())),
    ensures
        opened(envelope, verifier, decrypter) == Err::<Map<Seq<char>, Seq<char>>, ErrorKind>(
            ErrorKind::MalformedEnvelope,
        ),
{
}

/// Structural rejection of the inner layer. An envelope whose embedded token verifies, but
/// whose claims lack `attributes` or hold something other than a map of strings there, or
/// whose subject is not the marker, is malformed.
pub proof fn lemma_inner_layer_must_carry_attributes(
    envelope: Seq<char>,
    verifier: Key,
    decrypter: Key,
)
    requires
        is_framed(encode_utf8(envelope)),
        decrypted(decrypter.family, decrypter.der, envelope) matches Some(layer)
            && embedded_token(layer) matches Some(inner) && verified(
            verifier.family,
            verifier.der,
            inner,
        ) matches Some(claims) && (!claims.contains_key("attributes"@)
            || !(claims["attributes"@] is Attributes) || !claims.contains_key("sub"@)
            || claims["sub"@] != Json::Text(subject_marker())),
    ensures
        opened(envelope, verifier, decrypter) == Err::<Map<Seq<char>, Seq<char>>, ErrorKind>(
            ErrorKind::MalformedEnvelope,
        ),
{
}

/// Claims that sealing does not write do not change what opening reads.
pub proof fn lemma_other_claims_are_ignored(
    claims: Map<Seq<char>, Json>,
    name: Seq<char>,
    value: Json,
)
    requires
        name != "sub"@,
        name != "attributes"@,
    ensures
        carried_attributes(claims.insert(name, value)) == carried_attributes(claims),
{
}

/// The claim and header names that an envelope uses are pairwise different where they share a
/// map.
proof fn lemma_claim_names_differ()
    ensures
        "sub"@ != "attributes"@,
        "typ"@ != "cty"@,
        "typ"@ != "enc"@,
        "cty"@ != "enc"@,
{
    reveal_strlit("sub");
    reveal_strlit("attributes");
    reveal_strlit("typ");
    reveal_strlit("cty");
    reveal_strlit("enc");
    assert("sub"@.len() != "attributes"@.len());
    assert("typ"@[0] != "cty"@[0]);
    assert("typ"@[0] != "enc"@[0]);
    assert("cty"@[0] != "enc"@[0]);
}

/// `attributes` is not a claim name that `josekit` checks the value of.
proof fn lemma_attributes_is_unchecked()
    ensures
        !is_checked_claim("attributes"@),
{
    reveal_strlit("attributes");
    if is_checked_claim("attributes"@) {
        lemma_checked_claims_are_short("attributes"@);
    }
}

/// `njwt` is not a claim name that `josekit` checks the value of.
proof fn lemma_njwt_is_unchecked()
    ensures
        !is_checked_claim("njwt"@),
{
    reveal_strlit("njwt");
    if is_checked_claim("njwt"@) {
        lemma_checked_claims_are_short("njwt"@);
    }
}

} // verus!
