//! Claim sets and headers of tokens.
//!
//! `josekit` keeps the payload of a token and its header as maps from claim names to JSON
//! values. They stay `josekit`'s own types here. What they hold is given by three spec
//! functions, and the contracts below state over those what each `josekit` operation that an
//! envelope uses does to the map.
use crate::json::{json_of, Json};
use josekit::jwe::JweHeader;
use josekit::jws::JwsHeader;
use josekit::jwt::JwtPayload;
use josekit::JoseError;
use serde_json::Value;
use vstd::prelude::*;

verus! {

/// `josekit::jwt::JwtPayload`: the claims set of a token.
#[verifier::external_type_specification]
#[verifier::external_body]
pub struct ExJwtPayload(JwtPayload);

/// `josekit::jws::JwsHeader`: the header of a signed token.
#[verifier::external_type_specification]
#[verifier::external_body]
pub struct ExJwsHeader(JwsHeader);

/// `josekit::jwe::JweHeader`: the header of an encrypted token.
#[verifier::external_type_specification]
#[verifier::external_body]
pub struct ExJweHeader(JweHeader);

/// `josekit::JoseError`: why a `josekit` operation failed. Carried, never read.
#[verifier::external_type_specification]
#[verifier::external_body]
pub struct ExJoseError(JoseError);

/// The claims that a payload holds, by name.
pub uninterp spec fn payload_claims(payload: JwtPayload) -> Map<Seq<char>, Json>;

/// The claims that the header of a signed token holds, by name.
pub uninterp spec fn jws_header_claims(header: JwsHeader) -> Map<Seq<char>, Json>;

/// The claims that the header of an encrypted token holds, by name.
pub uninterp spec fn jwe_header_claims(header: JweHeader) -> Map<Seq<char>, Json>;

/// Whether the claims hold a JSON string under the name.
pub open spec fn has_text(claims: Map<Seq<char>, Json>, name: Seq<char>) -> bool {
    claims.contains_key(name) && claims[name] is Text
}

/// The claim map without any claim.
pub open spec fn no_claims() -> Map<Seq<char>, Json> {
    Map::empty()
}

/// The payload claim names whose values `JwtPayload::set_claim` checks before it stores them.
pub open spec fn is_checked_claim(name: Seq<char>) -> bool {
    ||| name == "iss"@
    ||| name == "sub"@
    ||| name == "jti"@
    ||| name == "aud"@
    ||| name == "exp"@
    ||| name == "nbf"@
    ||| name == "iat"@
}

/// Every claim name in [`is_checked_claim`] has three letters.
pub proof fn lemma_checked_claims_are_short(name: Seq<char>)
    requires
        is_checked_claim(name),
    ensures
        name.len() == 3,
{
    reveal_strlit("iss");
    reveal_strlit("sub");
    reveal_strlit("jti");
    reveal_strlit("aud");
    reveal_strlit("exp");
    reveal_strlit("nbf");
    reveal_strlit("iat");
}

/// `JwtPayload::new`: a payload without claims.
pub assume_specification[ JwtPayload::new ]() -> (r: JwtPayload)
    ensures
        payload_claims(r) == no_claims(),
;

/// `JwtPayload::set_claim`: stores the value under the name, or removes the name when the value
/// is `None`. It fails, and leaves the payload as it was, only for one of the names in
/// [`is_checked_claim`] with a value of the wrong type.
pub assume_specification[ JwtPayload::set_claim ](
    payload: &mut JwtPayload,
    key: &str,
    value: Option<Value>,
) -> (r: Result<(), JoseError>)
    ensures
        !is_checked_claim(key@) ==> r is Ok,
        (r is Ok ==> payload_claims(*final(payload)) == match value {
            Some(v) => payload_claims(*old(payload)).insert(key@, json_of(v)),
            None => payload_claims(*old(payload)).remove(key@),
        }),
        r is Err ==> payload_claims(*final(payload)) == payload_claims(*old(payload)),
;

/// `JwtPayload::claim`: the value stored under the name, if there is one.
pub assume_specification<'a>[ JwtPayload::claim ](payload: &'a JwtPayload, key: &str) -> (r:
    Option<&'a Value>)
    ensures
        r is Some <==> payload_claims(*payload).contains_key(key@),
        r matches Some(v) ==> json_of(*v) == payload_claims(*payload)[key@],
;

/// `JwtPayload::set_subject`. Trusted: it stores the subject as a JSON string under `sub`.
#[verifier::external_body]
pub(crate) fn set_subject(payload: &mut JwtPayload, subject: &str)
    ensures
        payload_claims(*final(payload)) == payload_claims(*old(payload)).insert(
            "sub"@,
            Json::Text(subject@),
        ),
{
    payload.set_subject(subject)
}

/// `JwsHeader::new`: a header without claims.
pub assume_specification[ JwsHeader::new ]() -> (r: JwsHeader)
    ensures
        jws_header_claims(r) == no_claims(),
;

/// `JwsHeader::set_token_type`. Trusted: it stores the type as a JSON string under `typ`.
#[verifier::external_body]
pub(crate) fn set_signed_token_type(header: &mut JwsHeader, token_type: &str)
    ensures
        jws_header_claims(*final(header)) == jws_header_claims(*old(header)).insert(
            "typ"@,
            Json::Text(token_type@),
        ),
{
    header.set_token_type(token_type)
}

/// `JweHeader::new`: a header without claims.
pub assume_specification[ JweHeader::new ]() -> (r: JweHeader)
    ensures
        jwe_header_claims(r) == no_claims(),
;

/// `JweHeader::set_token_type`. Trusted: it stores the type as a JSON string under `typ`.
#[verifier::external_body]
pub(crate) fn set_encrypted_token_type(header: &mut JweHeader, token_type: &str)
    ensures
        jwe_header_claims(*final(header)) == jwe_header_claims(*old(header)).insert(
            "typ"@,
            Json::Text(token_type@),
        ),
{
    header.set_token_type(token_type)
}

/// `JweHeader::set_content_type`. Trusted: it stores the type as a JSON string under `cty`.
#[verifier::external_body]
pub(crate) fn set_content_type(header: &mut JweHeader, content_type: &str)
    ensures
        jwe_header_claims(*final(header)) == jwe_header_claims(*old(header)).insert(
            "cty"@,
            Json::Text(content_type@),
        ),
{
    header.set_content_type(content_type)
}

/// `JweHeader::set_content_encryption`. Trusted: it stores the name of the content encryption
/// as a JSON string under `enc`.
#[verifier::external_body]
pub(crate) fn set_content_encryption(header: &mut JweHeader, encryption: &str)
    ensures
        jwe_header_claims(*final(header)) == jwe_header_claims(*old(header)).insert(
            "enc"@,
            Json::Text(encryption@),
        ),
{
    header.set_content_encryption(encryption)
}

/// `JweHeader::content_type`: the string stored under `cty`, and `None` where the header has no
/// such claim or holds something other than a string there.
pub assume_specification<'a>[ JweHeader::content_type ](header: &'a JweHeader) -> (r: Option<&'a str>)
    ensures
        r is Some <==> has_text(jwe_header_claims(*header), "cty"@),
        r matches Some(text) ==> jwe_header_claims(*header)["cty"@] == Json::Text(text@),
;

} // verus!
