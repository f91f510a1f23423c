//! What the plugin answers.
use crate::config::{Config, ConfigView};
use crate::idcomm::{CommRequest, CommResponse, CommResponseView};
use crate::jwe::{decrypt_and_verify_attributes, opened, Error};
use std::collections::HashMap;
use vstd::prelude::*;
use vstd::string::*;

verus! {

/// A communication session that has been started.
pub struct Started {
    /// The answer for the core.
    pub response: CommResponse,
    /// The attributes that came sealed with the request, opened.
    pub attributes: Option<HashMap<String, String>>,
}

/// The answer to a request: users are sent to the plugin's page, and attributes are to be
/// delivered later at the plugin's internal address, provided that the plugin is set to take
/// them there and none came with the request.
pub open spec fn answer(config: ConfigView, with_attributes: bool) -> CommResponseView {
    CommResponseView {
        client_url: config.server_url + "/ui"@,
        attr_url: if config.use_attr_url && !with_attributes {
            Some(config.internal_url + "/auth_result"@)
        } else {
            None
        },
    }
}

/// The text of the plugin's page.
pub fn ui() -> (r: &'static str)
    ensures
        r@ == "Communication plugin UI"@,
{
    "Communication plugin UI"
}

/// Answers a request to start a session.
///
/// Attributes that come sealed with the request are opened first, and the request is refused
/// with the envelope's error if they do not open. Otherwise the answer is the one that
/// [`answer`] gives.
pub fn start(request: &CommRequest, config: &Config) -> (r: Result<Started, Error>)
    ensures
        match request.attributes {
            None => r matches Ok(started) && started.attributes is None && started.response@
                == answer(config@, false),
            Some(envelope) => match opened(envelope@, config@.validator, config@.decrypter) {
                Err(kind) => r matches Err(e) && e.kind() == kind,
                Ok(attributes) => r matches Ok(started) && started.response@ == answer(
                    config@,
                    true,
                ) && (started.attributes matches Some(found) && found.deep_view() == attributes),
            },
        },
{
    let attributes = match &request.attributes {
        None => None,
        Some(envelope) => match decrypt_and_verify_attributes(
            envelope.as_str(),
            config.validator(),
            config.decrypter(),
        ) {
            Ok(attributes) => Some(attributes),
            Err(e) => {
                return Err(e);
            },
        },
    };
    let client_url = config.server_url().to_owned().concat("/ui");
    let attr_url = if config.use_attr_url() && attributes.is_none() {
        Some(config.internal_url().to_owned().concat("/auth_result"))
    } else {
        None
    };
    Ok(Started { response: CommResponse { client_url, attr_url }, attributes })
}

} // verus!
