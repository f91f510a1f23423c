//! The two layers of an envelope, as claims.
//!
//! The inner layer is a signed token: its subject marks it as a carrier of attributes, and
//! the attributes are one claim. The outer layer is an encrypted token: its header declares
//! the content to be a token again, and the signed token is its one claim. This module says
//! what sealing writes into each layer and what opening reads out of it. It holds no code
//! that runs.
use crate::claims::no_claims;
use crate::json::Json;
use vstd::prelude::*;
use vstd::utf8::*;

verus! {

/// What the outer layer of an envelope holds once it is decrypted.
pub struct Decrypted {
    /// The claims of the encrypted token.
    pub claims: Map<Seq<char>, Json>,
    /// The header of the encrypted token.
    pub header: Map<Seq<char>, Json>,
}

/// The longest signed token, in bytes, that is put into an envelope. Its JSON form then stays
/// within what the cipher takes in one piece, however its characters are escaped.
pub const LONGEST_TOKEN: usize = 0x1000_0000;

/// The subject that marks a signed token as one that carries attributes.
pub open spec fn subject_marker() -> Seq<char> {
    "id-contact-attributes"@
}

/// The type that marks a token, and the content of an encrypted token, as a JWT.
pub open spec fn jwt_marker() -> Seq<char> {
    "JWT"@
}

/// The claims of the signed token that carries the attributes.
pub open spec fn signed_claims(attributes: Map<Seq<char>, Seq<char>>) -> Map<Seq<char>, Json> {
    no_claims().insert("sub"@, Json::Text(subject_marker())).insert(
        "attributes"@,
        Json::Attributes(attributes),
    )
}

/// The header that sealing gives the signed token.
pub open spec fn signed_header() -> Map<Seq<char>, Json> {
    no_claims().insert("typ"@, Json::Text(jwt_marker()))
}

/// The claims of the encrypted token that carries the signed token `inner`.
pub open spec fn encrypted_claims(inner: Seq<char>) -> Map<Seq<char>, Json> {
    no_claims().insert("njwt"@, Json::Text(inner))
}

/// The header that sealing gives the encrypted token.
pub open spec fn encrypted_header() -> Map<Seq<char>, Json> {
    no_claims().insert("typ"@, Json::Text(jwt_marker())).insert(
        "cty"@,
        Json::Text(jwt_marker()),
    ).insert("enc"@, Json::Text("A128CBC-HS256"@))
}

/// Whether claims and header are an outer layer that sealing builds, around a signed token of
/// at most [`LONGEST_TOKEN`] bytes.
pub open spec fn is_sealable(claims: Map<Seq<char>, Json>, header: Map<Seq<char>, Json>) -> bool {
    &&& header == encrypted_header()
    &&& claims.contains_key("njwt"@)
    &&& claims["njwt"@] matches Json::Text(inner)
    &&& claims == encrypted_claims(inner)
    &&& encode_utf8(inner).len() <= LONGEST_TOKEN
}

/// The signed token inside a decrypted layer: the string under `njwt`, provided that the header
/// declares the content to be a JWT.
pub open spec fn embedded_token(layer: Decrypted) -> Option<Seq<char>> {
    if layer.header.contains_key("cty"@) && layer.header["cty"@] == Json::Text(jwt_marker())
        && layer.claims.contains_key("njwt"@) {
        match layer.claims["njwt"@] {
            Json::Text(inner) => Some(inner),
            _ => None,
        }
    } else {
        None
    }
}

/// The attributes that verified claims carry: the map under `attributes`, provided that the
/// subject is the marker.
pub open spec fn carried_attributes(claims: Map<Seq<char>, Json>) -> Option<
    Map<Seq<char>, Seq<char>>,
> {
    if claims.contains_key("sub"@) && claims["sub"@] == Json::Text(subject_marker())
        && claims.contains_key("attributes"@) {
        match claims["attributes"@] {
            Json::Attributes(attributes) => Some(attributes),
            _ => None,
        }
    } else {
        None
    }
}

} // verus!
