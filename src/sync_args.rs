use crate::error::BridgeError;
use vstd::prelude::*;

verus! {

/// The token server that store synchronization authenticates against.
pub const TOKENSERVER_URL: &'static str = "https://token.services.mozilla.com/";

/// What `url::Url::parse` makes of the text: the URL's normalised
/// serialization, or nothing where the text is not an absolute URL.
pub uninterp spec fn parsed_url(s: Seq<char>) -> Option<Seq<char>>;

/// Relies on `url::Url::parse`, whose result depends on the text alone, and on
/// `String: From<Url>`, which hands back the parsed URL's serialization.
#[verifier::external_body]
fn parse_url(text: &str) -> (r: Option<String>)
    ensures
        r is Some <==> parsed_url(text@) is Some,
        r matches Some(t) ==> parsed_url(text@) == Some(t@),
{
    url::Url::parse(text).ok().map(String::from)
}

/// The decoded arguments of a store synchronization.
pub struct SyncTarget {
    pub key_id: String,
    pub access_token: String,
    /// The token server address, as the URL parser normalised it.
    pub tokenserver_url: String,
}

/// Decodes the arguments of a store synchronization; a token server address
/// that is not a URL is a `MalformedArgument`.
pub fn sync_target(key_id: String, access_token: String, tokenserver: &str) -> (r: Result<
    SyncTarget,
    BridgeError,
>)
    ensures
        r is Ok <==> parsed_url(tokenserver@) is Some,
        r matches Err(e) ==> e == BridgeError::MalformedArgument,
        r matches Ok(t) ==> {
            &&& t.key_id == key_id
            &&& t.access_token == access_token
            &&& parsed_url(tokenserver@) == Some(t.tokenserver_url@)
        },
{
    match parse_url(tokenserver) {
        Some(u) => Ok(SyncTarget { key_id, access_token, tokenserver_url: u }),
        None => Err(BridgeError::MalformedArgument),
    }
}

} // verus!
