use id_contact_comm::config::{default_as_true, Config, Error, RawConfig};
use id_contact_comm::keys::{KeyDeclaration, KeyError, KeyFamily};
use josekit::jwk::alg::ec::{EcCurve, EcKeyPair};
use josekit::jwk::alg::rsa::RsaKeyPair;
use josekit::jwk::KeyPair;

fn rsa_private_key() -> String {
    String::from_utf8(RsaKeyPair::generate(2048).unwrap().to_pem_private_key()).unwrap()
}

fn ec_public_key() -> String {
    String::from_utf8(EcKeyPair::generate(EcCurve::P256).unwrap().to_pem_public_key()).unwrap()
}

fn written(decryption: (&str, &str), signature: (&str, &str)) -> RawConfig {
    RawConfig {
        server_url: "https://plugin.example".to_string(),
        internal_url: "http://plugin.internal:8000".to_string(),
        use_attr_url: false,
        decryption_privkey: KeyDeclaration {
            family: decryption.0.to_string(),
            material: decryption.1.to_string(),
        },
        signature_pubkey: KeyDeclaration {
            family: signature.0.to_string(),
            material: signature.1.to_string(),
        },
    }
}

#[test]
fn attribute_delivery_is_on_by_default() {
    assert!(default_as_true());
}

#[test]
fn written_configuration_resolves_and_reads_back() {
    let config =
        Config::try_from(written(("RSA", &rsa_private_key()), ("EC", &ec_public_key()))).unwrap();
    assert_eq!(config.server_url(), "https://plugin.example");
    assert_eq!(config.internal_url(), "http://plugin.internal:8000");
    assert!(!config.use_attr_url());
    assert_eq!(config.decrypter().family(), KeyFamily::Rsa);
    assert_eq!(config.validator().family(), KeyFamily::Ec);
}

#[test]
fn attribute_delivery_flag_is_kept() {
    let mut raw = written(("RSA", &rsa_private_key()), ("EC", &ec_public_key()));
    raw.use_attr_url = true;
    assert!(Config::try_from(raw).unwrap().use_attr_url());
}

#[test]
fn unknown_family_of_the_decryption_key_refuses_the_configuration() {
    let result = Config::try_from(written(("PGP", &rsa_private_key()), ("EC", &ec_public_key())));
    assert!(matches!(result, Err(Error::DecryptionKey(KeyError::UnsupportedKeyFamily))));
}

#[test]
fn invalid_decryption_key_refuses_the_configuration() {
    let result = Config::try_from(written(("RSA", "no key"), ("EC", &ec_public_key())));
    assert!(matches!(result, Err(Error::DecryptionKey(KeyError::InvalidKeyMaterial(_)))));
}

#[test]
fn unknown_family_of_the_signature_key_refuses_the_configuration() {
    let result = Config::try_from(written(("RSA", &rsa_private_key()), ("ec", &ec_public_key())));
    assert!(matches!(result, Err(Error::SignatureKey(KeyError::UnsupportedKeyFamily))));
}

#[test]
fn invalid_signature_key_refuses_the_configuration() {
    let result = Config::try_from(written(("RSA", &rsa_private_key()), ("EC", "no key")));
    assert!(matches!(result, Err(Error::SignatureKey(KeyError::InvalidKeyMaterial(_)))));
}

#[test]
fn decryption_key_is_looked_at_first() {
    let result = Config::try_from(written(("RSA", "no key"), ("PGP", "no key")));
    assert!(matches!(result, Err(Error::DecryptionKey(KeyError::InvalidKeyMaterial(_)))));
}

#[test]
fn refusal_hands_out_its_key_error() {
    let unsupported = Error::SignatureKey(KeyError::UnsupportedKeyFamily);
    assert!(matches!(unsupported.cause(), KeyError::UnsupportedKeyFamily));
    assert_eq!(unsupported.message(), "Unsupported key family");
    let refused = Config::try_from(written(("RSA", "no key"), ("EC", &ec_public_key())));
    match refused {
        Err(error) => {
            assert!(matches!(error.cause(), KeyError::InvalidKeyMaterial(_)));
            assert_eq!(error.message(), error.cause().message());
        }
        Ok(_) => panic!("the configuration was not refused"),
    }
}
