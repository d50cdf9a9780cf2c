//! The authenticated read-through of the caller's own profile: the request
//! to the upstream user-lookup endpoint, the reading of its answer, and the
//! projection of the first record onto the public shape.

use vstd::prelude::*;
use vstd::string::StringExecFns;

use crate::http::{
    auth_headers, carries_client_identity, pairs_view, spec_auth_headers, HeaderPair,
};
use crate::models::TwitchGetMeResponse;
use crate::{ApiError, ApiResponse};

verus! {

/// Failure of an authenticated upstream call.
#[derive(Clone, Copy, Debug, PartialEq, Eq, Structural)]
pub enum AuthClientError {
    Unauthorized,
}

impl AuthClientError {
    /// The message shown to the client.
    pub fn get_message(&self) -> (r: &'static str)
        ensures
            r@ == "Unauthorized"@,
    {
        "Unauthorized"
    }

    /// The public error body sent with the 401 answer: no code, the message
    /// alone.
    pub fn get_json(&self) -> (r: ApiError)
        ensures
            r.error.code is None,
            r.error.message@ == "Unauthorized"@,
    {
        ApiError::new(None, self.get_message())
    }
}

/// The fixed URL of the upstream user-lookup endpoint.
pub const ME_URL: &'static str = "https://api.twitch.tv/helix/users";

/// The user-lookup URL as a sequence of characters, for contracts.
pub open spec fn spec_me_url() -> Seq<char> {
    "https://api.twitch.tv/helix/users"@
}

/// The headers of an authenticated upstream call: the client identity and
/// `Authorization: Bearer <token>`.
pub open spec fn spec_token_headers(token: Seq<char>) -> Seq<(Seq<char>, Seq<char>)> {
    spec_auth_headers().push(("Authorization"@, "Bearer "@ + token))
}

/// Builds the header set of an authenticated upstream call.
pub fn token_headers(token: &str) -> (r: Vec<HeaderPair>)
    ensures
        pairs_view(r@) == spec_token_headers(token@),
        carries_client_identity(pairs_view(r@)),
{
    let mut headers = auth_headers();
    let value = "Bearer ".to_owned().concat(token);
    headers.push(HeaderPair { name: "Authorization".to_owned(), value });
    proof {
        assert(pairs_view(headers@) =~= spec_token_headers(token@));
        assert(pairs_view(headers@)[0] == spec_auth_headers()[0]);
        assert(pairs_view(headers@)[1] == spec_auth_headers()[1]);
    }
    headers
}

/// The query of the public profile endpoint: whose profile to look up.
pub struct GetMeQuery {
    pub username: String,
}

/// Everything an outbound call to the user-lookup endpoint consists of: the
/// fixed URL, the authenticated headers, and the value of the `login` query
/// parameter.
pub struct MeRequest {
    pub url: String,
    pub headers: Vec<HeaderPair>,
    pub login: String,
}

impl MeRequest {
    /// The full outbound user-lookup call for this token and username.
    pub fn new(token: &str, username: &str) -> (r: Self)
        ensures
            r.url@ == spec_me_url(),
            pairs_view(r.headers@) == spec_token_headers(token@),
            carries_client_identity(pairs_view(r.headers@)),
            r.login@ == username@,
    {
        MeRequest {
            url: ME_URL.to_owned(),
            headers: token_headers(token),
            login: username.to_owned(),
        }
    }
}

/// Reads the HTTP status of the user-lookup answer: the upstream answers
/// 401 exactly when the Bearer token is not accepted.
pub fn classify_me_status(status: u16) -> (r: Result<(), AuthClientError>)
    ensures
        status == 401 <==> (r matches Err(e) && e == AuthClientError::Unauthorized),
{
    if status == 401 {
        Err(AuthClientError::Unauthorized)
    } else {
        Ok(())
    }
}

/// The public subset of one profile record.
pub struct MeData {
    pub id: String,
    pub login: String,
    pub display_name: String,
    pub profile_image_url: String,
}

/// Projects the upstream user-lookup answer onto the public shape: the four
/// public fields of the first record. An empty record list yields `None`;
/// the caller answers 502, a bad upstream, rather than crash.
pub fn project_me_response(response: &TwitchGetMeResponse) -> (r: Option<ApiResponse<MeData>>)
    ensures
        response.data@.len() == 0 <==> r is None,
        response.data@.len() > 0 ==> (r matches Some(a)
            && a.data.id@ == response.data@[0].id@
            && a.data.login@ == response.data@[0].login@
            && a.data.display_name@ == response.data@[0].display_name@
            && a.data.profile_image_url@ == response.data@[0].profile_image_url@),
{
    if response.data.len() == 0 {
        None
    } else {
        let user = &response.data[0];
        Some(ApiResponse::new(MeData {
            id: user.id.clone(),
            login: user.login.clone(),
            display_name: user.display_name.clone(),
            profile_image_url: user.profile_image_url.clone(),
        }))
    }
}

} // verus!
