//! Building the Twitter request: the status travels as a URL-encoded
//! query parameter rather than form data (Twitter and the OAuth
//! standard disagree on how asterisks are encoded), and the request is
//! signed with an OAuth 1.0 `Authorization` header.

use vstd::prelude::*;

verus! {

/// The four Twitter secrets, as read from the environment.
pub struct TwitterToken {
    pub consumer_key: String,
    pub consumer_secret: String,
    pub access_token: String,
    pub token_secret: String,
}

/// Twitter's status posting endpoint.
pub open spec fn twitter_endpoint() -> Seq<char> {
    "https://api.twitter.com/1.1/statuses/update.json"@
}

/// The percent-encoding of a status, as `oauth1_request`'s serializer
/// writes it into a query string.
pub uninterp spec fn percent_status_of(status: Seq<char>) -> Seq<char>;

/// Relies on oauth1_request::to_query: it appends `?status=` and the
/// percent-encoded status to the URI, and the encoding depends on the
/// status alone.
#[verifier::external_body]
fn status_query_uri(uri: &str, status: &str) -> (r: String)
    ensures
        r@ == uri@ + "?status="@ + percent_status_of(status@),
{
    let request = oauth1_request::ParameterList::new([("status", status)]);
    oauth1_request::to_query(uri.to_owned(), &request)
}

/// Relies on oauth1_request::post: it returns an OAuth 1.0
/// `Authorization` header value, which always begins with `OAuth `.
/// The rest carries a nonce and a timestamp, so nothing more is
/// stated of it. The uri must hold no query part (no `?`): signing
/// one would be wrong, and the signer asserts as much.
#[verifier::external_body]
fn oauth_post_header(uri: &str, status: &str, token: &TwitterToken) -> (r: String)
    requires
        forall|i: int| 0 <= i < uri@.len() ==> uri@[i] != '?',
    ensures
        r@.len() >= 6,
        r@.subrange(0, 6) == "OAuth "@,
{
    let request = oauth1_request::ParameterList::new([("status", status)]);
    let token = oauth1_request::Token::from_parts(
        token.consumer_key.as_str(),
        token.consumer_secret.as_str(),
        token.access_token.as_str(),
        token.token_secret.as_str(),
    );
    oauth1_request::post(uri, &request, &token, oauth1_request::HMAC_SHA1)
}

/// The pieces of the HTTP request that posts a tweet: the endpoint
/// with the status already encoded into its query, and the signed
/// `Authorization` header.
pub struct TweetRequest {
    pub url: String,
    pub authorization: String,
}

/// Build the request that posts `msg` as a tweet, signed with `token`.
pub fn tweet_request(msg: &String, token: &TwitterToken) -> (r: TweetRequest)
    ensures
        r.url@ == twitter_endpoint() + "?status="@ + percent_status_of(msg@),
        r.authorization@.len() >= 6,
        r.authorization@.subrange(0, 6) == "OAuth "@,
{
    let endpoint = "https://api.twitter.com/1.1/statuses/update.json";
    proof {
        reveal_strlit("https://api.twitter.com/1.1/statuses/update.json");
    }
    let url = status_query_uri(endpoint, msg.as_str());
    let authorization = oauth_post_header(endpoint, msg.as_str(), token);
    TweetRequest { url, authorization }
}

} // verus!
