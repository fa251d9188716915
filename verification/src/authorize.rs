//! The authorization request: the URL that the user's browser is sent to.

use vstd::prelude::*;
use vstd::string::StringExecFns;
use crate::error::{AuthError, AuthFailure, ErrorKind};
use crate::text::starts_with;

verus! {

/// Where the user is sent to authorize this application.
pub const AUTHORIZE_ENDPOINT: &'static str = "https://github.com/login/oauth/authorize";

/// The one scope that is asked for: reading the user's identity.
pub const SCOPE: &'static str = "read:user";

/// The diagnostic of an authorization URL that does not point at the
/// provider.
pub const INTEGRITY_MESSAGE: &'static str = "Invalid authorization URL";

/// The authorization URL for the given parameters: the endpoint, then a
/// query that names the client, where to come back to, the scope, the
/// state, and the S256 challenge.
pub open spec fn authorization_url(
    client_id: Seq<char>,
    redirect_uri: Seq<char>,
    state: Seq<char>,
    challenge: Seq<char>,
) -> Seq<char> {
    AUTHORIZE_ENDPOINT@ + "?"@ + "client_id="@ + client_id + "&redirect_uri="@ + redirect_uri
        + "&scope="@ + SCOPE@ + "&state="@ + state + "&code_challenge_method=S256"@
        + "&code_challenge="@ + challenge
}

/// Whether the scheme, host and path of `url` are those of the
/// authorization endpoint: `url` is the endpoint followed by a query.
pub open spec fn targets_authorize_endpoint(url: Seq<char>) -> bool {
    (AUTHORIZE_ENDPOINT@ + "?"@).is_prefix_of(url)
}

/// The failure of an authorization URL that points elsewhere.
pub open spec fn integrity_failure() -> AuthFailure {
    AuthFailure { kind: ErrorKind::Integrity, detail: INTEGRITY_MESSAGE@ }
}

/// Accepts `url` for opening in the browser if, and only if, it points at
/// the provider's authorization endpoint.
pub fn check_authorization_url(url: &str) -> (r: Result<(), AuthError>)
    ensures
        match r {
            Ok(_) => targets_authorize_endpoint(url@),
            Err(e) => !targets_authorize_endpoint(url@) && e@ == integrity_failure(),
        },
{
    let mut expected = String::from_str(AUTHORIZE_ENDPOINT);
    expected.append("?");
    if starts_with(url, expected.as_str()) {
        Ok(())
    } else {
        Err(AuthError::new(ErrorKind::Integrity, String::from_str(INTEGRITY_MESSAGE)))
    }
}

/// Writes out the authorization URL for the given parameters.
pub fn build_authorization_url(
    client_id: &str,
    redirect_uri: &str,
    state: &str,
    challenge: &str,
) -> (url: String)
    ensures
        url@ == authorization_url(client_id@, redirect_uri@, state@, challenge@),
{
    let mut url = String::from_str(AUTHORIZE_ENDPOINT);
    url.append("?");
    url.append("client_id=");
    url.append(client_id);
    url.append("&redirect_uri=");
    url.append(redirect_uri);
    url.append("&scope=");
    url.append(SCOPE);
    url.append("&state=");
    url.append(state);
    url.append("&code_challenge_method=S256");
    url.append("&code_challenge=");
    url.append(challenge);
    url
}

/// Every authorization URL points at the provider's authorization endpoint,
/// whatever the parameters hold.
pub proof fn lemma_authorization_url_targets_endpoint(
    client_id: Seq<char>,
    redirect_uri: Seq<char>,
    state: Seq<char>,
    challenge: Seq<char>,
)
    ensures
        targets_authorize_endpoint(authorization_url(client_id, redirect_uri, state, challenge)),
{
    let head = AUTHORIZE_ENDPOINT@ + "?"@;
    let url = authorization_url(client_id, redirect_uri, state, challenge);
    let tail = "client_id="@ + client_id + "&redirect_uri="@ + redirect_uri + "&scope="@ + SCOPE@
        + "&state="@ + state + "&code_challenge_method=S256"@ + "&code_challenge="@ + challenge;
    assert(url =~= head + tail);
    assert(url.subrange(0, head.len() as int) =~= head);
}

} // verus!
