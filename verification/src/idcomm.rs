//! The messages that the plugin exchanges with the core.
use vstd::prelude::*;

verus! {

/// How an authentication ended.
#[derive(Debug)]
pub enum AuthStatus {
    Succes(),
    Failed(),
}

/// The outcome of an authentication, as the core reports it.
#[derive(Debug)]
pub struct AuthResult {
    pub status: AuthStatus,
    /// The sealed attributes, where the authentication yielded any.
    pub attributes: Option<String>,
    pub session_url: Option<String>,
}

/// A request to start a communication session.
#[derive(Debug)]
pub struct CommRequest {
    pub purpose: String,
    /// The sealed attributes, where the user has been authenticated already.
    pub attributes: Option<String>,
}

/// The answer to a [`CommRequest`].
#[derive(Debug)]
pub struct CommResponse {
    /// Where to send the user.
    pub client_url: String,
    /// Where to deliver the sealed attributes later, if they are still to come.
    pub attr_url: Option<String>,
}

/// What a [`CommResponse`] says.
pub struct CommResponseView {
    pub client_url: Seq<char>,
    pub attr_url: Option<Seq<char>>,
}

impl View for CommResponse {
    type V = CommResponseView;

    open spec fn view(&self) -> CommResponseView {
        CommResponseView {
            client_url: self.client_url@,
            attr_url: match self.attr_url {
                Some(url) => Some(url@),
                None => None,
            },
        }
    }
}

} // verus!
