use id_contact_comm::jwe::{
    decrypt_and_verify_attributes, sign_and_encrypt_attributes, ErrorKind,
};
use id_contact_comm::keys::{
    resolve_decrypting, resolve_encrypting, resolve_signing, resolve_verifying,
    DecryptingCapability, EncryptingCapability, KeyDeclaration, SigningCapability,
    VerifyingCapability,
};
use josekit::jwk::alg::ec::{EcCurve, EcKeyPair};
use josekit::jwk::alg::rsa::RsaKeyPair;
use josekit::jwk::KeyPair;
use josekit::JoseHeader;
use std::collections::HashMap;

struct Keys {
    private: String,
    public: String,
}

fn rsa_keys() -> Keys {
    let pair = RsaKeyPair::generate(2048).unwrap();
    Keys {
        private: String::from_utf8(pair.to_pem_private_key()).unwrap(),
        public: String::from_utf8(pair.to_pem_public_key()).unwrap(),
    }
}

fn ec_keys() -> Keys {
    let pair = EcKeyPair::generate(EcCurve::P256).unwrap();
    Keys {
        private: String::from_utf8(pair.to_pem_private_key()).unwrap(),
        public: String::from_utf8(pair.to_pem_public_key()).unwrap(),
    }
}

fn declare(family: &str, material: &str) -> KeyDeclaration {
    KeyDeclaration { family: family.to_string(), material: material.to_string() }
}

fn signing_with(family: &str, keys: &Keys) -> SigningCapability {
    resolve_signing(&declare(family, &keys.private)).unwrap()
}

fn verifying_with(family: &str, keys: &Keys) -> VerifyingCapability {
    resolve_verifying(&declare(family, &keys.public)).unwrap()
}

fn encrypting_with(family: &str, keys: &Keys) -> EncryptingCapability {
    resolve_encrypting(&declare(family, &keys.public)).unwrap()
}

fn decrypting_with(family: &str, keys: &Keys) -> DecryptingCapability {
    resolve_decrypting(&declare(family, &keys.private)).unwrap()
}

fn age_and_name() -> HashMap<String, String> {
    let mut attributes = HashMap::new();
    attributes.insert("age".to_string(), "42".to_string());
    attributes.insert("name".to_string(), "A".to_string());
    attributes
}

fn round_trip(
    attributes: &HashMap<String, String>,
    signing_family: &str,
    signing: &Keys,
    encryption_family: &str,
    encryption: &Keys,
) -> HashMap<String, String> {
    let envelope = sign_and_encrypt_attributes(
        attributes,
        &signing_with(signing_family, signing),
        &encrypting_with(encryption_family, encryption),
    )
    .unwrap();
    decrypt_and_verify_attributes(
        &envelope,
        &verifying_with(signing_family, signing),
        &decrypting_with(encryption_family, encryption),
    )
    .unwrap()
}

fn flip(envelope: &str, at: usize) -> String {
    let mut bytes = envelope.as_bytes().to_vec();
    bytes[at] ^= 1;
    String::from_utf8(bytes).unwrap()
}

#[test]
fn rsa_signed_ec_encrypted_envelope_round_trips() {
    let attributes = age_and_name();
    let opened = round_trip(&attributes, "RSA", &rsa_keys(), "EC", &ec_keys());
    assert_eq!(opened.len(), 2);
    assert_eq!(opened.get("age"), Some(&"42".to_string()));
    assert_eq!(opened.get("name"), Some(&"A".to_string()));
    assert_eq!(opened, attributes);
}

#[test]
fn ec_signed_rsa_encrypted_envelope_round_trips() {
    let attributes = age_and_name();
    assert_eq!(round_trip(&attributes, "EC", &ec_keys(), "RSA", &rsa_keys()), attributes);
}

#[test]
fn rsa_signed_rsa_encrypted_envelope_round_trips() {
    let attributes = age_and_name();
    assert_eq!(round_trip(&attributes, "RSA", &rsa_keys(), "RSA", &rsa_keys()), attributes);
}

#[test]
fn ec_signed_ec_encrypted_envelope_round_trips() {
    let attributes = age_and_name();
    assert_eq!(round_trip(&attributes, "EC", &ec_keys(), "EC", &ec_keys()), attributes);
}

#[test]
fn empty_payload_round_trips_to_an_empty_map() {
    let attributes: HashMap<String, String> = HashMap::new();
    let opened = round_trip(&attributes, "EC", &ec_keys(), "EC", &ec_keys());
    assert!(opened.is_empty());
}

#[test]
fn payload_with_awkward_text_round_trips() {
    let mut attributes = HashMap::new();
    attributes.insert("".to_string(), "".to_string());
    attributes.insert("quote\"d".to_string(), "line\nbreak\ttab\\".to_string());
    attributes.insert("na\u{ef}ve".to_string(), "\u{1f600} \u{0}".to_string());
    attributes.insert("sub".to_string(), "not the subject".to_string());
    let opened = round_trip(&attributes, "EC", &ec_keys(), "EC", &ec_keys());
    assert_eq!(opened, attributes);
}

#[test]
fn one_pair_of_capabilities_serves_many_envelopes() {
    let signing = ec_keys();
    let encryption = ec_keys();
    let sign = signing_with("EC", &signing);
    let encrypt = encrypting_with("EC", &encryption);
    let verify = verifying_with("EC", &signing);
    let decrypt = decrypting_with("EC", &encryption);
    let attributes = age_and_name();
    let first = sign_and_encrypt_attributes(&attributes, &sign, &encrypt).unwrap();
    let second = sign_and_encrypt_attributes(&attributes, &sign, &encrypt).unwrap();
    assert_ne!(first, second);
    assert_eq!(decrypt_and_verify_attributes(&first, &verify, &decrypt).unwrap(), attributes);
    assert_eq!(decrypt_and_verify_attributes(&second, &verify, &decrypt).unwrap(), attributes);
    assert_eq!(decrypt_and_verify_attributes(&first, &verify, &decrypt).unwrap(), attributes);
}

#[test]
fn envelope_is_a_compact_encrypted_token_with_the_markers() {
    let envelope = sign_and_encrypt_attributes(
        &age_and_name(),
        &signing_with("RSA", &rsa_keys()),
        &encrypting_with("EC", &ec_keys()),
    )
    .unwrap();
    assert_eq!(envelope.split('.').count(), 5);
    assert!(envelope
        .bytes()
        .all(|b| b.is_ascii_alphanumeric() || b == b'-' || b == b'_' || b == b'.'));
    assert_eq!(envelope.split('.').nth(2).unwrap().len(), 22);
    assert!(id_contact_comm::frame::check_frame(&envelope));
    let header = josekit::jwt::decode_header(&envelope).unwrap();
    assert_eq!(header.claim("typ").and_then(|v| v.as_str()), Some("JWT"));
    assert_eq!(header.claim("cty").and_then(|v| v.as_str()), Some("JWT"));
    assert_eq!(header.claim("enc").and_then(|v| v.as_str()), Some("A128CBC-HS256"));
    assert_eq!(header.claim("alg").and_then(|v| v.as_str()), Some("ECDH-ES"));
}

#[test]
fn rsa_family_encrypts_with_rsa_oaep() {
    let envelope = sign_and_encrypt_attributes(
        &age_and_name(),
        &signing_with("EC", &ec_keys()),
        &encrypting_with("RSA", &rsa_keys()),
    )
    .unwrap();
    assert_eq!(envelope.split('.').count(), 5);
    assert!(envelope
        .bytes()
        .all(|b| b.is_ascii_alphanumeric() || b == b'-' || b == b'_' || b == b'.'));
    assert!(id_contact_comm::frame::check_frame(&envelope));
    let header = josekit::jwt::decode_header(&envelope).unwrap();
    assert_eq!(header.claim("alg").and_then(|v| v.as_str()), Some("RSA-OAEP"));
}

#[test]
fn inner_token_is_signed_with_the_family_algorithm() {
    let encryption = ec_keys();
    let decrypter = josekit::jwe::ECDH_ES.decrypter_from_pem(&encryption.private).unwrap();
    let expected = [("RSA", rsa_keys(), "RS256"), ("EC", ec_keys(), "ES256")];
    for (family, signing, algorithm) in expected.iter() {
        let envelope = sign_and_encrypt_attributes(
            &age_and_name(),
            &signing_with(family, signing),
            &encrypting_with("EC", &encryption),
        )
        .unwrap();
        let (outer, _) = josekit::jwt::decode_with_decrypter(&envelope, &decrypter).unwrap();
        let inner = outer.claim("njwt").unwrap().as_str().unwrap().to_string();
        assert_eq!(inner.split('.').count(), 3);
        assert!(inner
            .bytes()
            .all(|b| b.is_ascii_alphanumeric() || b == b'-' || b == b'_' || b == b'.'));
        let header = josekit::jwt::decode_header(&inner).unwrap();
        assert_eq!(header.claim("alg").and_then(|v| v.as_str()), Some(*algorithm));
        assert_eq!(header.claim("typ").and_then(|v| v.as_str()), Some("JWT"));
    }
}

#[test]
fn wrong_decryption_key_is_a_decryption_failure() {
    let signing = ec_keys();
    let encryption = ec_keys();
    let envelope = sign_and_encrypt_attributes(
        &age_and_name(),
        &signing_with("EC", &signing),
        &encrypting_with("EC", &encryption),
    )
    .unwrap();
    let error = decrypt_and_verify_attributes(
        &envelope,
        &verifying_with("EC", &signing),
        &decrypting_with("EC", &ec_keys()),
    )
    .unwrap_err();
    assert_eq!(error.kind(), ErrorKind::DecryptionFailed);
}

#[test]
fn wrong_rsa_decryption_key_is_a_decryption_failure() {
    let signing = ec_keys();
    let encryption = rsa_keys();
    let envelope = sign_and_encrypt_attributes(
        &age_and_name(),
        &signing_with("EC", &signing),
        &encrypting_with("RSA", &encryption),
    )
    .unwrap();
    let error = decrypt_and_verify_attributes(
        &envelope,
        &verifying_with("EC", &signing),
        &decrypting_with("RSA", &rsa_keys()),
    )
    .unwrap_err();
    assert_eq!(error.kind(), ErrorKind::DecryptionFailed);
}

#[test]
fn decryption_key_of_the_other_family_is_a_decryption_failure() {
    let signing = ec_keys();
    let envelope = sign_and_encrypt_attributes(
        &age_and_name(),
        &signing_with("EC", &signing),
        &encrypting_with("RSA", &rsa_keys()),
    )
    .unwrap();
    let error = decrypt_and_verify_attributes(
        &envelope,
        &verifying_with("EC", &signing),
        &decrypting_with("EC", &ec_keys()),
    )
    .unwrap_err();
    assert_eq!(error.kind(), ErrorKind::DecryptionFailed);
}

#[test]
fn decryption_failure_comes_before_any_signature_failure() {
    let envelope = sign_and_encrypt_attributes(
        &age_and_name(),
        &signing_with("EC", &ec_keys()),
        &encrypting_with("EC", &ec_keys()),
    )
    .unwrap();
    let error = decrypt_and_verify_attributes(
        &envelope,
        &verifying_with("EC", &ec_keys()),
        &decrypting_with("EC", &ec_keys()),
    )
    .unwrap_err();
    assert_eq!(error.kind(), ErrorKind::DecryptionFailed);
}

#[test]
fn wrong_verification_key_is_an_invalid_signature() {
    let encryption = ec_keys();
    let envelope = sign_and_encrypt_attributes(
        &age_and_name(),
        &signing_with("EC", &ec_keys()),
        &encrypting_with("EC", &encryption),
    )
    .unwrap();
    let error = decrypt_and_verify_attributes(
        &envelope,
        &verifying_with("EC", &ec_keys()),
        &decrypting_with("EC", &encryption),
    )
    .unwrap_err();
    assert_eq!(error.kind(), ErrorKind::SignatureInvalid);
}

#[test]
fn wrong_rsa_verification_key_is_an_invalid_signature() {
    let encryption = ec_keys();
    let envelope = sign_and_encrypt_attributes(
        &age_and_name(),
        &signing_with("RSA", &rsa_keys()),
        &encrypting_with("EC", &encryption),
    )
    .unwrap();
    let error = decrypt_and_verify_attributes(
        &envelope,
        &verifying_with("RSA", &rsa_keys()),
        &decrypting_with("EC", &encryption),
    )
    .unwrap_err();
    assert_eq!(error.kind(), ErrorKind::SignatureInvalid);
}

#[test]
fn verification_key_of_the_other_family_is_an_invalid_signature() {
    let encryption = ec_keys();
    let envelope = sign_and_encrypt_attributes(
        &age_and_name(),
        &signing_with("RSA", &rsa_keys()),
        &encrypting_with("EC", &encryption),
    )
    .unwrap();
    let error = decrypt_and_verify_attributes(
        &envelope,
        &verifying_with("EC", &ec_keys()),
        &decrypting_with("EC", &encryption),
    )
    .unwrap_err();
    assert_eq!(error.kind(), ErrorKind::SignatureInvalid);
}

#[test]
fn flipping_any_byte_of_an_ec_encrypted_envelope_stops_it_from_opening() {
    let signing = ec_keys();
    let encryption = ec_keys();
    let verify = verifying_with("EC", &signing);
    let decrypt = decrypting_with("EC", &encryption);
    let envelope = sign_and_encrypt_attributes(
        &age_and_name(),
        &signing_with("EC", &signing),
        &encrypting_with("EC", &encryption),
    )
    .unwrap();
    assert!(decrypt_and_verify_attributes(&envelope, &verify, &decrypt).is_ok());
    for at in 0..envelope.len() {
        let tampered = flip(&envelope, at);
        assert_ne!(tampered, envelope);
        let error = decrypt_and_verify_attributes(&tampered, &verify, &decrypt).unwrap_err();
        assert!(matches!(
            error.kind(),
            ErrorKind::DecryptionFailed | ErrorKind::SignatureInvalid
        ));
    }
}

#[test]
fn flipping_any_byte_of_an_rsa_encrypted_envelope_stops_it_from_opening() {
    let signing = rsa_keys();
    let encryption = rsa_keys();
    let verify = verifying_with("RSA", &signing);
    let decrypt = decrypting_with("RSA", &encryption);
    let envelope = sign_and_encrypt_attributes(
        &age_and_name(),
        &signing_with("RSA", &signing),
        &encrypting_with("RSA", &encryption),
    )
    .unwrap();
    for at in 0..envelope.len() {
        let error =
            decrypt_and_verify_attributes(&flip(&envelope, at), &verify, &decrypt).unwrap_err();
        assert!(matches!(
            error.kind(),
            ErrorKind::DecryptionFailed | ErrorKind::SignatureInvalid
        ));
    }
}

#[test]
fn text_that_is_no_token_is_a_decryption_failure() {
    let verify = verifying_with("EC", &ec_keys());
    let decrypt = decrypting_with("EC", &ec_keys());
    for text in ["", "....", "not a token", "a.b.c", "a.b.c.d.e", "e30.e30.e30.e30.e30"] {
        let error = decrypt_and_verify_attributes(text, &verify, &decrypt).unwrap_err();
        assert_eq!(error.kind(), ErrorKind::DecryptionFailed);
    }
}

#[test]
fn signed_token_that_was_never_encrypted_is_a_decryption_failure() {
    let signing = ec_keys();
    let signer = josekit::jws::ES256.signer_from_pem(&signing.private).unwrap();
    let mut claims = josekit::jwt::JwtPayload::new();
    claims.set_subject("id-contact-attributes");
    let token =
        josekit::jwt::encode_with_signer(&claims, &josekit::jws::JwsHeader::new(), &signer)
            .unwrap();
    let error = decrypt_and_verify_attributes(
        &token,
        &verifying_with("EC", &signing),
        &decrypting_with("EC", &ec_keys()),
    )
    .unwrap_err();
    assert_eq!(error.kind(), ErrorKind::DecryptionFailed);
}

fn with_vector(envelope: &str, vector: &str) -> String {
    let parts: Vec<&str> = envelope.split('.').collect();
    format!("{}.{}.{}.{}.{}", parts[0], parts[1], vector, parts[3], parts[4])
}

#[test]
fn envelope_without_room_for_the_vector_is_turned_away() {
    for (family, encryption) in [("EC", ec_keys()), ("RSA", rsa_keys())] {
        let signing = ec_keys();
        let verify = verifying_with("EC", &signing);
        let decrypt = decrypting_with(family, &encryption);
        let envelope = sign_and_encrypt_attributes(
            &age_and_name(),
            &signing_with("EC", &signing),
            &encrypting_with(family, &encryption),
        )
        .unwrap();
        assert_eq!(envelope.split('.').nth(2).unwrap().len(), 22);
        for vector in ["", "AA", "AAAAAAAAAAA", "AAAAAAAAAAAAAAAAAAAAA"] {
            let error =
                decrypt_and_verify_attributes(&with_vector(&envelope, vector), &verify, &decrypt)
                    .unwrap_err();
            assert!(matches!(error, id_contact_comm::jwe::Error::DecryptionFailed(None)));
        }
    }
}

#[test]
fn envelope_with_another_vector_does_not_decrypt() {
    let signing = ec_keys();
    let encryption = ec_keys();
    let verify = verifying_with("EC", &signing);
    let decrypt = decrypting_with("EC", &encryption);
    let envelope = sign_and_encrypt_attributes(
        &age_and_name(),
        &signing_with("EC", &signing),
        &encrypting_with("EC", &encryption),
    )
    .unwrap();
    for vector in [
        "AAAAAAAAAAAAAAAAAAAAAA",
        "AAAAAAAAAAAAAAAAAAAAAAAAAAAAAAAAAAAAAAAAAAA",
        "**********************",
        "AAAAAAAAAAAAAAAAAAAAAAA",
    ] {
        let error =
            decrypt_and_verify_attributes(&with_vector(&envelope, vector), &verify, &decrypt)
                .unwrap_err();
        assert!(matches!(error, id_contact_comm::jwe::Error::DecryptionFailed(Some(_))));
    }
}

#[test]
fn token_under_another_content_encryption_opens_only_with_a_long_vector() {
    let signing = ec_keys();
    let encryption = ec_keys();
    let verify = verifying_with("EC", &signing);
    let decrypt = decrypting_with("EC", &encryption);
    let signer = josekit::jws::ES256.signer_from_pem(&signing.private).unwrap();
    let mut claims = josekit::jwt::JwtPayload::new();
    claims.set_subject("id-contact-attributes");
    claims
        .set_claim("attributes", Some(serde_json::Value::Object(serde_json::Map::new())))
        .unwrap();
    let inner =
        josekit::jwt::encode_with_signer(&claims, &josekit::jws::JwsHeader::new(), &signer)
            .unwrap();
    let mut outer = josekit::jwt::JwtPayload::new();
    outer.set_claim("njwt", Some(serde_json::Value::String(inner))).unwrap();
    let encrypter = josekit::jwe::ECDH_ES.encrypter_from_pem(&encryption.public).unwrap();
    let mut header = josekit::jwe::JweHeader::new();
    header.set_content_type("JWT");
    header.set_content_encryption("A256CBC-HS512");
    let wide = josekit::jwt::encode_with_encrypter(&outer, &header, &encrypter).unwrap();
    assert!(decrypt_and_verify_attributes(&wide, &verify, &decrypt).unwrap().is_empty());
    header.set_content_encryption("A128GCM");
    let short = josekit::jwt::encode_with_encrypter(&outer, &header, &encrypter).unwrap();
    assert_eq!(short.split('.').nth(2).unwrap().len(), 16);
    let error = decrypt_and_verify_attributes(&short, &verify, &decrypt).unwrap_err();
    assert!(matches!(error, id_contact_comm::jwe::Error::DecryptionFailed(None)));
}
