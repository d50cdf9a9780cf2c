//! Client identity carried on every outbound call.
//!
//! The upstream password endpoint accepts a request only when it carries the
//! fixed first-party `Client-Id` and a realistic desktop-browser
//! `User-Agent`; both are protocol-level requirements, not cosmetics.

use vstd::prelude::*;

verus! {

/// The fixed public identifier of the first-party client recognized by the
/// upstream platform; required verbatim by the password endpoint.
pub const TWITCH_CLIENT_ID: &'static str = "kimne78kx3ncx6brgo4mv6wki5h1ko";

/// The `Client-Id` value as a sequence of characters, for contracts.
pub open spec fn spec_client_id() -> Seq<char> {
    "kimne78kx3ncx6brgo4mv6wki5h1ko"@
}

/// Source of the browser-like `User-Agent` string sent upstream.
pub struct UserAgent;

/// The `User-Agent` value as a sequence of characters, for contracts.
pub open spec fn spec_chrome_ua() -> Seq<char> {
    "Mozilla/5.0 (Windows NT 10.0; Win64; x64) AppleWebKit/537.36 (KHTML, like Gecko) Chrome/85.0.4183.121 Safari/537.36"@
}

impl UserAgent {
    /// A frozen desktop-Chrome identification string.
    pub fn chrome() -> (r: &'static str)
        ensures
            r@ == spec_chrome_ua(),
    {
        "Mozilla/5.0 (Windows NT 10.0; Win64; x64) AppleWebKit/537.36 (KHTML, like Gecko) Chrome/85.0.4183.121 Safari/537.36"
    }
}

/// One outbound header: a name and a value.
pub struct HeaderPair {
    pub name: String,
    pub value: String,
}

impl View for HeaderPair {
    type V = (Seq<char>, Seq<char>);

    open spec fn view(&self) -> (Seq<char>, Seq<char>) {
        (self.name@, self.value@)
    }
}

/// The views of a list of header pairs.
pub open spec fn pairs_view(s: Seq<HeaderPair>) -> Seq<(Seq<char>, Seq<char>)> {
    s.map(|i: int, h: HeaderPair| h@)
}

/// The headers every call to the auth upstream must carry.
pub open spec fn spec_auth_headers() -> Seq<(Seq<char>, Seq<char>)> {
    seq![("Client-Id"@, spec_client_id()), ("User-Agent"@, spec_chrome_ua())]
}

/// `hs` holds a header with exactly this name and value.
pub open spec fn has_header(hs: Seq<(Seq<char>, Seq<char>)>, name: Seq<char>, value: Seq<char>) -> bool {
    exists|i: int| 0 <= i < hs.len() && #[trigger] hs[i] == (name, value)
}

/// `hs` holds a header with this name and a non-empty value.
pub open spec fn has_nonempty_header(hs: Seq<(Seq<char>, Seq<char>)>, name: Seq<char>) -> bool {
    exists|i: int| 0 <= i < hs.len() && (#[trigger] hs[i]).0 == name && hs[i].1.len() > 0
}

/// The identity the upstream demands of every outbound auth call: the fixed
/// `Client-Id` and some non-empty `User-Agent`.
pub open spec fn carries_client_identity(hs: Seq<(Seq<char>, Seq<char>)>) -> bool {
    &&& has_header(hs, "Client-Id"@, spec_client_id())
    &&& has_nonempty_header(hs, "User-Agent"@)
}

/// The fixed header set does carry the client identity.
pub proof fn lemma_auth_headers_carry_client_identity()
    ensures
        carries_client_identity(spec_auth_headers()),
{
    reveal_strlit("Mozilla/5.0 (Windows NT 10.0; Win64; x64) AppleWebKit/537.36 (KHTML, like Gecko) Chrome/85.0.4183.121 Safari/537.36");
    assert(spec_auth_headers()[0] == ("Client-Id"@, spec_client_id()));
    assert((spec_auth_headers()[1]).0 == "User-Agent"@ && spec_auth_headers()[1].1.len() > 0);
}

/// Builds the default header set for the auth upstream.
pub fn auth_headers() -> (r: Vec<HeaderPair>)
    ensures
        pairs_view(r@) == spec_auth_headers(),
        carries_client_identity(pairs_view(r@)),
{
    let mut headers: Vec<HeaderPair> = Vec::new();
    headers.push(HeaderPair { name: "Client-Id".to_owned(), value: TWITCH_CLIENT_ID.to_owned() });
    headers.push(HeaderPair { name: "User-Agent".to_owned(), value: UserAgent::chrome().to_owned() });
    proof {
        assert(pairs_view(headers@) =~= spec_auth_headers());
        lemma_auth_headers_carry_client_identity();
    }
    headers
}

} // verus!
