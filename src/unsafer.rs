//! The chat-webhook dispatcher backend.
use vstd::prelude::*;

use crate::larkbot::{parse_to_lark_request, request_json, Event};

verus! {

#[verifier::external_type_specification]
#[verifier::external_body]
pub struct ExUrl(reqwest::Url);

/// Whether `reqwest::Url::parse` accepts the text as an absolute URL.
pub uninterp spec fn url_accepted(s: Seq<char>) -> bool;

/// Relies on `reqwest::Url::parse` (the `url` crate's parser): `Some`
/// exactly when the text is accepted.
#[verifier::external_body]
fn parse_url(s: &str) -> (r: Option<reqwest::Url>)
    ensures
        r is Some <==> url_accepted(s@),
{
    reqwest::Url::parse(s).ok()
}

/// Which backend carries the notifications.
#[derive(Clone, Copy, Debug, PartialEq, Eq, Structural)]
pub enum BotType {
    /// A chat webhook reached over HTTP.
    Unsafer,
}

/// The chat-webhook backend; its address was checked when it was made.
pub struct Unsafer {
    url: reqwest::Url,
    /// The address text the backend was made for.
    address: Ghost<Seq<char>>,
}

/// Whether `bot_url` is a valid webhook address.
pub fn valid_url(bot_url: &str) -> (r: bool)
    ensures
        r == url_accepted(bot_url@),
{
    parse_url(bot_url).is_some()
}

impl Unsafer {
    /// The configured address that `url` was parsed from.
    pub closed spec fn address(&self) -> Seq<char> {
        self.address@
    }

    /// A backend for the webhook at `bot_url`, which must be a valid URL:
    /// a malformed address is refused at startup, before any backend exists.
    pub fn new(bot_url: &str) -> (r: Unsafer)
        requires
            url_accepted(bot_url@),
        ensures
            r.address() == bot_url@,
    {
        match parse_url(bot_url) {
            Some(url) => Unsafer { url, address: Ghost(bot_url@) },
            None => vstd::pervasive::unreached(),
        }
    }

    /// Where the notifications are posted.
    pub fn url(&self) -> &reqwest::Url {
        &self.url
    }

    /// The request body to post for `event`.
    pub fn request_body(&self, event: &Event) -> (r: String)
        requires
            event.wf(),
        ensures
            r@ == request_json(event@),
    {
        parse_to_lark_request(event)
    }
}

/// The backend of kind `types` for the configured address `bot_url`, which
/// when present must be a valid URL: `None` when no address is configured.
pub fn newbot(types: BotType, bot_url: Option<&str>) -> (r: Option<Unsafer>)
    requires
        bot_url matches Some(u) ==> url_accepted(u@),
    ensures
        r is Some <==> bot_url is Some,
        r matches Some(b) ==> b.address() == bot_url->0@,
{
    match types {
        BotType::Unsafer => match bot_url {
            Some(u) => Some(Unsafer::new(u)),
            None => None,
        },
    }
}

/// Like `newbot`, but checks the address first: `None` when no address is
/// configured or the configured one is malformed.
pub fn newbot_checked(types: BotType, bot_url: Option<&str>) -> (r: Option<Unsafer>)
    ensures
        r is Some <==> (bot_url matches Some(u) && url_accepted(u@)),
        r matches Some(b) ==> b.address() == bot_url->0@,
{
    match bot_url {
        Some(u) => if valid_url(u) {
            newbot(types, Some(u))
        } else {
            None
        },
        None => None,
    }
}

} // verus!
