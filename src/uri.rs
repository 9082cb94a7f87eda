//! Request URIs on the fixed Reddit host.

use vstd::prelude::*;

verus! {

/// The host that every request goes to, followed by the caller's fragment.
pub open spec fn fragment_uri(fragment: Seq<char>) -> Seq<char> {
    "https://www.reddit.com"@ + fragment
}

/// The URI of request `req` under subreddit `sub`.
pub open spec fn subreddit_uri(sub: Seq<char>, req: Seq<char>) -> Seq<char> {
    "https://www.reddit.com/r/"@ + sub + "/"@ + req
}

/// Appends `fragment` verbatim to the Reddit host. No escaping or
/// normalisation takes place: a malformed fragment gives a malformed URI.
pub fn build_uri(fragment: &str) -> (r: String)
    ensures
        r@ == fragment_uri(fragment@),
{
    let mut uri = String::from_str("https://www.reddit.com");
    uri.append(fragment);
    uri
}

/// A subreddit URI is the fragment URI of `/r/<sub>/<req>`.
pub proof fn lemma_subreddit_uri_is_fragment_uri(sub: Seq<char>, req: Seq<char>)
    ensures
        subreddit_uri(sub, req) == fragment_uri("/r/"@ + sub + "/"@ + req),
{
    reveal_strlit("https://www.reddit.com/r/");
    reveal_strlit("https://www.reddit.com");
    reveal_strlit("/r/");
    reveal_strlit("/");
    assert(subreddit_uri(sub, req) =~= fragment_uri("/r/"@ + sub + "/"@ + req));
}

} // verus!
