//! The cryptographic operations, as `josekit` performs them.
//!
//! Every function here takes a key as DER and hands it to `josekit`, which makes of it the
//! signer, verifier, encrypter or decrypter of the one algorithm that the function is named
//! after: RS256 and ES256 for signatures, RSA-OAEP and ECDH-ES for encryption. Nothing in this
//! file is proved.
//!
//! `josekit` reads the elements of a key itself before it hands the key on, and takes every
//! length at its word; and the cipher behind it takes its input, and the initialization
//! vector of an envelope, unmeasured. The functions therefore require a key whose elements
//! fit ([`elements_fit`]), an envelope with a frame ([`is_framed`]), and an outer layer as
//! sealing builds it ([`is_sealable`]).
//!
//! Accepting a key, decrypting and verifying are functions of their arguments alone, so their
//! results have names that contracts elsewhere can speak of. Signing and encrypting draw
//! fresh randomness: of their results only the form is stated, which is the same whatever
//! was drawn.
use crate::claims::{jwe_header_claims, payload_claims};
use crate::der::elements_fit;
use crate::frame::{
    is_compact, is_framed, part_len, SEPARATORS, SIGNED_SEPARATORS, VECTOR_PART, VECTOR_SYMBOLS,
};
use crate::json::Json;
use crate::keys::KeyFamily;
use crate::layers::{is_sealable, Decrypted};
use josekit::jwe::JweHeader;
use josekit::jws::JwsHeader;
use josekit::jwt::JwtPayload;
use josekit::JoseError;
use vstd::prelude::*;
use vstd::string::*;
use vstd::utf8::*;

verus! {

/// Whether `RS256.signer_from_der` accepts the data as a private key.
pub uninterp spec fn rs256_signer_accepts(der: Seq<u8>) -> bool;

/// Whether `ES256.signer_from_der` accepts the data as a private key.
pub uninterp spec fn es256_signer_accepts(der: Seq<u8>) -> bool;

/// Whether `RS256.verifier_from_der` accepts the data as a public key.
pub uninterp spec fn rs256_verifier_accepts(der: Seq<u8>) -> bool;

/// Whether `ES256.verifier_from_der` accepts the data as a public key.
pub uninterp spec fn es256_verifier_accepts(der: Seq<u8>) -> bool;

/// Whether `RSA_OAEP.encrypter_from_der` accepts the data as a public key.
pub uninterp spec fn rsa_oaep_encrypter_accepts(der: Seq<u8>) -> bool;

/// Whether `ECDH_ES.encrypter_from_der` accepts the data as a public key.
pub uninterp spec fn ecdh_es_encrypter_accepts(der: Seq<u8>) -> bool;

/// Whether `RSA_OAEP.decrypter_from_der` accepts the data as a private key.
pub uninterp spec fn rsa_oaep_decrypter_accepts(der: Seq<u8>) -> bool;

/// Whether `ECDH_ES.decrypter_from_der` accepts the data as a private key.
pub uninterp spec fn ecdh_es_decrypter_accepts(der: Seq<u8>) -> bool;

/// What `josekit::jwt::decode_with_decrypter` yields for the token, with the decrypter that the
/// family's algorithm makes of the key: the claims and header of the token, or `None` where
/// the key is refused or the token does not decrypt under it.
pub uninterp spec fn decrypted(family: KeyFamily, der: Seq<u8>, token: Seq<char>) -> Option<
    Decrypted,
>;

/// What `josekit::jwt::decode_with_verifier` yields for the token, with the verifier that the
/// family's algorithm makes of the key: the claims of the token, or `None` where the key is
/// refused or the token's signature does not verify under it.
pub uninterp spec fn verified(family: KeyFamily, der: Seq<u8>, token: Seq<char>) -> Option<
    Map<Seq<char>, Json>,
>;

/// `RS256.signer_from_der`, for its verdict on the key alone. Trusted: the verdict is the one
/// that [`rs256_signer_accepts`] names.
#[verifier::external_body]
pub(crate) fn rs256_signer_check(der: &[u8]) -> (r: Result<(), JoseError>)
    requires
        elements_fit(der@),
    ensures
        r is Ok <==> rs256_signer_accepts(der@),
{
    match josekit::jws::RS256.signer_from_der(der) {
        Ok(_) => Ok(()),
        Err(e) => Err(e),
    }
}

/// `ES256.signer_from_der`, for its verdict on the key alone. Trusted: the verdict is the one
/// that [`es256_signer_accepts`] names.
#[verifier::external_body]
pub(crate) fn es256_signer_check(der: &[u8]) -> (r: Result<(), JoseError>)
    requires
        elements_fit(der@),
    ensures
        r is Ok <==> es256_signer_accepts(der@),
{
    match josekit::jws::ES256.signer_from_der(der) {
        Ok(_) => Ok(()),
        Err(e) => Err(e),
    }
}

/// `RS256.verifier_from_der`, for its verdict on the key alone. Trusted: the verdict is the one
/// that [`rs256_verifier_accepts`] names.
#[verifier::external_body]
pub(crate) fn rs256_verifier_check(der: &[u8]) -> (r: Result<(), JoseError>)
    requires
        elements_fit(der@),
    ensures
        r is Ok <==> rs256_verifier_accepts(der@),
{
    match josekit::jws::RS256.verifier_from_der(der) {
        Ok(_) => Ok(()),
        Err(e) => Err(e),
    }
}

/// `ES256.verifier_from_der`, for its verdict on the key alone. Trusted: the verdict is the one
/// that [`es256_verifier_accepts`] names.
#[verifier::external_body]
pub(crate) fn es256_verifier_check(der: &[u8]) -> (r: Result<(), JoseError>)
    requires
        elements_fit(der@),
    ensures
        r is Ok <==> es256_verifier_accepts(der@),
{
    match josekit::jws::ES256.verifier_from_der(der) {
        Ok(_) => Ok(()),
        Err(e) => Err(e),
    }
}

/// `RSA_OAEP.encrypter_from_der`, for its verdict on the key alone. Trusted: the verdict is the
/// one that [`rsa_oaep_encrypter_accepts`] names.
#[verifier::external_body]
pub(crate) fn rsa_oaep_encrypter_check(der: &[u8]) -> (r: Result<(), JoseError>)
    requires
        elements_fit(der@),
    ensures
        r is Ok <==> rsa_oaep_encrypter_accepts(der@),
{
    match josekit::jwe::RSA_OAEP.encrypter_from_der(der) {
        Ok(_) => Ok(()),
        Err(e) => Err(e),
    }
}

/// `ECDH_ES.encrypter_from_der`, for its verdict on the key alone. Trusted: the verdict is the
/// one that [`ecdh_es_encrypter_accepts`] names.
#[verifier::external_body]
pub(crate) fn ecdh_es_encrypter_check(der: &[u8]) -> (r: Result<(), JoseError>)
    requires
        elements_fit(der@),
    ensures
        r is Ok <==> ecdh_es_encrypter_accepts(der@),
{
    match josekit::jwe::ECDH_ES.encrypter_from_der(der) {
        Ok(_) => Ok(()),
        Err(e) => Err(e),
    }
}

/// `RSA_OAEP.decrypter_from_der`, for its verdict on the key alone. Trusted: the verdict is the
/// one that [`rsa_oaep_decrypter_accepts`] names.
#[verifier::external_body]
pub(crate) fn rsa_oaep_decrypter_check(der: &[u8]) -> (r: Result<(), JoseError>)
    requires
        elements_fit(der@),
    ensures
        r is Ok <==> rsa_oaep_decrypter_accepts(der@),
{
    match josekit::jwe::RSA_OAEP.decrypter_from_der(der) {
        Ok(_) => Ok(()),
        Err(e) => Err(e),
    }
}

/// `ECDH_ES.decrypter_from_der`, for its verdict on the key alone. Trusted: the verdict is the
/// one that [`ecdh_es_decrypter_accepts`] names.
#[verifier::external_body]
pub(crate) fn ecdh_es_decrypter_check(der: &[u8]) -> (r: Result<(), JoseError>)
    requires
        elements_fit(der@),
    ensures
        r is Ok <==> ecdh_es_decrypter_accepts(der@),
{
    match josekit::jwe::ECDH_ES.decrypter_from_der(der) {
        Ok(_) => Ok(()),
        Err(e) => Err(e),
    }
}

/// `josekit::jwt::encode_with_signer`, with the signer that `RS256.signer_from_der` makes of the
/// key. Trusted: a token that comes back is in compact form, three parts of URL-safe base64.
/// No claim is made about which token it is.
#[verifier::external_body]
pub(crate) fn rs256_sign(payload: &JwtPayload, header: &JwsHeader, der: &[u8]) -> (r: Result<
    String,
    JoseError,
>)
    requires
        elements_fit(der@),
    ensures
        r matches Ok(token) ==> is_compact(encode_utf8(token@), SIGNED_SEPARATORS as nat),
{
    let signer = josekit::jws::RS256.signer_from_der(der)?;
    josekit::jwt::encode_with_signer(payload, header, &signer)
}

/// `josekit::jwt::encode_with_signer`, with the signer that `ES256.signer_from_der` makes of the
/// key. Trusted: a token that comes back is in compact form, three parts of URL-safe base64.
/// No claim is made about which token it is.
#[verifier::external_body]
pub(crate) fn es256_sign(payload: &JwtPayload, header: &JwsHeader, der: &[u8]) -> (r: Result<
    String,
    JoseError,
>)
    requires
        elements_fit(der@),
    ensures
        r matches Ok(token) ==> is_compact(encode_utf8(token@), SIGNED_SEPARATORS as nat),
{
    let signer = josekit::jws::ES256.signer_from_der(der)?;
    josekit::jwt::encode_with_signer(payload, header, &signer)
}

/// `josekit::jwt::encode_with_encrypter`, with the encrypter that `RSA_OAEP.encrypter_from_der`
/// makes of the key. Trusted: a token that comes back is in compact form, five parts of
/// URL-safe base64, of which the third spells the sixteen bytes of a fresh initialization
/// vector. No claim is made about which token it is.
#[verifier::external_body]
pub(crate) fn rsa_oaep_encrypt(payload: &JwtPayload, header: &JweHeader, der: &[u8]) -> (r:
    Result<String, JoseError>)
    requires
        elements_fit(der@),
        is_sealable(payload_claims(*payload), jwe_header_claims(*header)),
    ensures
        r matches Ok(token) ==> is_compact(encode_utf8(token@), SEPARATORS as nat),
        r matches Ok(token) ==> part_len(encode_utf8(token@), VECTOR_PART as nat)
            == VECTOR_SYMBOLS,
{
    let encrypter = josekit::jwe::RSA_OAEP.encrypter_from_der(der)?;
    josekit::jwt::encode_with_encrypter(payload, header, &encrypter)
}

/// `josekit::jwt::encode_with_encrypter`, with the encrypter that `ECDH_ES.encrypter_from_der`
/// makes of the key. Trusted: a token that comes back is in compact form, five parts of
/// URL-safe base64, of which the third spells the sixteen bytes of a fresh initialization
/// vector. No claim is made about which token it is.
#[verifier::external_body]
pub(crate) fn ecdh_es_encrypt(payload: &JwtPayload, header: &JweHeader, der: &[u8]) -> (r:
    Result<String, JoseError>)
    requires
        elements_fit(der@),
        is_sealable(payload_claims(*payload), jwe_header_claims(*header)),
    ensures
        r matches Ok(token) ==> is_compact(encode_utf8(token@), SEPARATORS as nat),
        r matches Ok(token) ==> part_len(encode_utf8(token@), VECTOR_PART as nat)
            == VECTOR_SYMBOLS,
{
    let encrypter = josekit::jwe::ECDH_ES.encrypter_from_der(der)?;
    josekit::jwt::encode_with_encrypter(payload, header, &encrypter)
}

/// `josekit::jwt::decode_with_decrypter`, with the decrypter that `RSA_OAEP.decrypter_from_der`
/// makes of the key. Trusted: the outcome is the one that [`decrypted`] names for the RSA
/// family, and an error where the key is refused.
#[verifier::external_body]
pub(crate) fn rsa_oaep_decrypt(token: &str, der: &[u8]) -> (r: Result<
    (JwtPayload, JweHeader),
    JoseError,
>)
    requires
        elements_fit(der@),
        is_framed(token.spec_bytes()),
    ensures
        r is Ok <==> decrypted(KeyFamily::Rsa, der@, token@) is Some,
        (r matches Ok(layer) ==> decrypted(KeyFamily::Rsa, der@, token@) == Some(
            Decrypted { claims: payload_claims(layer.0), header: jwe_header_claims(layer.1) },
        )),
{
    let decrypter = josekit::jwe::RSA_OAEP.decrypter_from_der(der)?;
    josekit::jwt::decode_with_decrypter(token, &decrypter)
}

/// `josekit::jwt::decode_with_decrypter`, with the decrypter that `ECDH_ES.decrypter_from_der`
/// makes of the key. Trusted: the outcome is the one that [`decrypted`] names for the EC
/// family, and an error where the key is refused.
#[verifier::external_body]
pub(crate) fn ecdh_es_decrypt(token: &str, der: &[u8]) -> (r: Result<
    (JwtPayload, JweHeader),
    JoseError,
>)
    requires
        elements_fit(der@),
        is_framed(token.spec_bytes()),
    ensures
        r is Ok <==> decrypted(KeyFamily::Ec, der@, token@) is Some,
        (r matches Ok(layer) ==> decrypted(KeyFamily::Ec, der@, token@) == Some(
            Decrypted { claims: payload_claims(layer.0), header: jwe_header_claims(layer.1) },
        )),
{
    let decrypter = josekit::jwe::ECDH_ES.decrypter_from_der(der)?;
    josekit::jwt::decode_with_decrypter(token, &decrypter)
}

/// `josekit::jwt::decode_with_verifier`, with the verifier that `RS256.verifier_from_der` makes
/// of the key. Trusted: the outcome is the one that [`verified`] names for the RSA family, and
/// an error where the key is refused.
#[verifier::external_body]
pub(crate) fn rs256_verify(token: &str, der: &[u8]) -> (r: Result<
    (JwtPayload, JwsHeader),
    JoseError,
>)
    requires
        elements_fit(der@),
    ensures
        r is Ok <==> verified(KeyFamily::Rsa, der@, token@) is Some,
        r matches Ok(layer) ==> verified(KeyFamily::Rsa, der@, token@) == Some(
            payload_claims(layer.0),
        ),
{
    let verifier = josekit::jws::RS256.verifier_from_der(der)?;
    josekit::jwt::decode_with_verifier(token, &verifier)
}

/// `josekit::jwt::decode_with_verifier`, with the verifier that `ES256.verifier_from_der` makes
/// of the key. Trusted: the outcome is the one that [`verified`] names for the EC family, and
/// an error where the key is refused.
#[verifier::external_body]
pub(crate) fn es256_verify(token: &str, der: &[u8]) -> (r: Result<
    (JwtPayload, JwsHeader),
    JoseError,
>)
    requires
        elements_fit(der@),
    ensures
        r is Ok <==> verified(KeyFamily::Ec, der@, token@) is Some,
        r matches Ok(layer) ==> verified(KeyFamily::Ec, der@, token@) == Some(
            payload_claims(layer.0),
        ),
{
    let verifier = josekit::jws::ES256.verifier_from_der(der)?;
    josekit::jwt::decode_with_verifier(token, &verifier)
}

} // verus!
