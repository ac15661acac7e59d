//! Building the Mastodon request. Mastodon is federated, so the
//! endpoint is built from the instance's base URL, and access only
//! needs a bearer token.

use vstd::prelude::*;

verus! {

/// The pieces of the HTTP request that posts a toot: where to send it,
/// the `Authorization` header, and the status to send as form data.
pub struct TootRequest {
    pub endpoint: String,
    pub authorization: String,
    pub status: String,
}

/// Build the request that posts `msg` to the Mastodon instance at
/// `base_url`, authorized by the bearer token `access_token`.
pub fn toot_request(msg: &String, access_token: &String, base_url: &String) -> (r: TootRequest)
    ensures
        r.endpoint@ == base_url@ + "/api/v1/statuses"@,
        r.authorization@ == "Bearer "@ + access_token@,
        r.status@ == msg@,
{
    let mut token = String::from_str("Bearer ");
    token.append(access_token.as_str());
    let mut endpoint = base_url.clone();
    endpoint.append("/api/v1/statuses");
    TootRequest { endpoint, authorization: token, status: msg.clone() }
}

} // verus!
