//! Fixed query configuration and credential handling: the base search URL,
//! the cursor parameter, the two request header values, and the rule that a
//! run without both credentials stops before any request.

use vstd::prelude::*;

use vstd::string::StringExecFns;

verus! {

/// The fixed search query: term, live-only flag and page size are baked in.
pub open spec fn root_url() -> Seq<char> {
    "https://api.twitch.tv/helix/search/channels?query=science%20%26%20technology&live_only=true&first=100"@
}

/// The URL of one page: the base query, with `&after=<cursor>` appended
/// exactly when a cursor is present.
pub open spec fn url_for(cursor: Option<Seq<char>>) -> Seq<char> {
    match cursor {
        None => root_url(),
        Some(c) => root_url() + "&after="@ + c,
    }
}

/// Build the request URL for the given continuation cursor.
pub fn build_url(cursor: &Option<String>) -> (r: String)
    ensures
        r@ == url_for(cursor.deep_view()),
{
    let mut out = String::from_str(
        "https://api.twitch.tv/helix/search/channels?query=science%20%26%20technology&live_only=true&first=100",
    );
    match cursor {
        None => out,
        Some(c) => {
            out.append("&after=");
            out.append(c.as_str());
            out
        },
    }
}

/// The value of the authorization header for a resolved token.
pub open spec fn bearer_of(token: Seq<char>) -> Seq<char> {
    "Bearer "@ + token
}

/// Build the bearer authorization header value.
pub fn bearer_header(token: &str) -> (r: String)
    ensures
        r@ == bearer_of(token@),
{
    let mut out = String::from_str("Bearer ");
    out.append(token);
    out
}

/// Both resolved credentials, ready to become request headers.
#[derive(Debug)]
pub struct Credentials {
    pub client_id: String,
    pub token: String,
}

/// The credential that is missing; the client id is checked first.
#[derive(Clone, Copy, Debug, PartialEq, Eq, Structural)]
pub enum CredentialError {
    MissingClientId,
    MissingToken,
}

/// Decide whether a run may start: both configuration values must be
/// present, and an absent client id is reported before an absent token.
/// A caller that sees an error makes no request.
pub fn resolve_credentials(client_id: Option<String>, token: Option<String>) -> (r: Result<
    Credentials,
    CredentialError,
>)
    ensures
        client_id is None ==> r == Err::<Credentials, CredentialError>(
            CredentialError::MissingClientId,
        ),
        client_id is Some && token is None ==> r == Err::<Credentials, CredentialError>(
            CredentialError::MissingToken,
        ),
        r matches Ok(creds) ==> client_id == Some(creds.client_id) && token == Some(creds.token),
        r is Ok <==> client_id is Some && token is Some,
{
    let cid = match client_id {
        Some(c) => c,
        None => {
            return Err(CredentialError::MissingClientId);
        },
    };
    let tok = match token {
        Some(t) => t,
        None => {
            return Err(CredentialError::MissingToken);
        },
    };
    Ok(Credentials { client_id: cid, token: tok })
}

} // verus!
