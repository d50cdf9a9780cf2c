//! Request and response shapes exchanged with the public client and with
//! the upstream platform.

use vstd::prelude::*;

verus! {

/// Public request body for the initial login step.
pub struct LoginReqBody {
    pub username: String,
    pub password: String,
}

/// Public request body for the two-factor follow-up: the CAPTCHA proof
/// returned by the previous step and the authenticator token.
pub struct TwoFaReqBody {
    pub username: String,
    pub password: String,
    pub captcha: String,
    pub two_fa: String,
}

/// Public request body for the verification-code follow-up: the CAPTCHA
/// proof returned by the previous step and the emailed code.
pub struct CodeReqBody {
    pub username: String,
    pub password: String,
    pub captcha: String,
    pub code: String,
}

/// What the upstream login endpoint answers; every field is optional.
pub struct TwitchAuthResponse {
    pub access_token: Option<String>,
    pub captcha_proof: Option<String>,
    pub error: Option<String>,
    pub error_code: Option<i32>,
    pub error_description: Option<String>,
    pub obscured_email: Option<String>,
}

/// The body the upstream sends with an HTTP 401 on the user-lookup endpoint.
pub struct TwitchUnauthorizedError {
    pub error: String,
    pub message: String,
    pub status: u16,
}

/// One user record of the upstream user-lookup response.
///
/// The upstream names its last textual field `type`; that word is reserved
/// here, so the field is `user_type`.
pub struct TwitchGetMeResponseInner {
    pub broadcaster_type: String,
    pub created_at: String,
    pub description: String,
    pub display_name: String,
    pub id: String,
    pub login: String,
    pub offline_image_url: String,
    pub profile_image_url: String,
    pub user_type: String,
    pub view_count: u32,
}

/// The upstream user-lookup response: a list of user records.
pub struct TwitchGetMeResponse {
    pub data: Vec<TwitchGetMeResponseInner>,
}

} // verus!
