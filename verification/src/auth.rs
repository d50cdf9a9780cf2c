//! The upstream-auth adapter: shaping of the login request body for each
//! step of the challenge flow, translation of the upstream's numeric error
//! space, and projection of the upstream answer onto the public response.

use vstd::prelude::*;

use crate::http::{
    auth_headers, carries_client_identity, pairs_view, spec_auth_headers, spec_client_id,
    HeaderPair, TWITCH_CLIENT_ID,
};
use crate::models::{CodeReqBody, TwitchAuthResponse, TwoFaReqBody};

verus! {

/// The closed set of client-facing error kinds the upstream's numeric
/// codes are mapped onto.
#[derive(Clone, Copy, Debug, PartialEq, Eq, Structural)]
pub enum TwitchAuthError {
    InvalidLoginCredentials,
    TwoFaTokenRequired,
    InvalidTwoFaToken,
    TwitchguardCodeRequired,
    InvalidTwitchguardCode,
    TooManyInvalidLoginAttempts,
    Unknown,
}

/// The kind every upstream error code is mapped onto; total over `i32`.
pub open spec fn auth_error_kind(error_code: i32) -> TwitchAuthError {
    if error_code == 3001 || error_code == 3002 || error_code == 3003 {
        TwitchAuthError::InvalidLoginCredentials
    } else if error_code == 3011 {
        TwitchAuthError::TwoFaTokenRequired
    } else if error_code == 3012 {
        TwitchAuthError::InvalidTwoFaToken
    } else if error_code == 3022 {
        TwitchAuthError::TwitchguardCodeRequired
    } else if error_code == 3023 {
        TwitchAuthError::InvalidTwitchguardCode
    } else if error_code == 1000 {
        TwitchAuthError::TooManyInvalidLoginAttempts
    } else {
        TwitchAuthError::Unknown
    }
}

/// The human message of each error kind.
pub open spec fn auth_error_message(e: TwitchAuthError) -> Seq<char> {
    match e {
        TwitchAuthError::InvalidLoginCredentials => "Invalid username or password."@,
        TwitchAuthError::TwoFaTokenRequired => "Two factor authentication token required."@,
        TwitchAuthError::InvalidTwoFaToken => "Invalid two factor authentication token."@,
        TwitchAuthError::TwitchguardCodeRequired => "Twitchguard verification code required."@,
        TwitchAuthError::InvalidTwitchguardCode => "Invalid Twitchguard verification code."@,
        TwitchAuthError::TooManyInvalidLoginAttempts => "You have made several failed login attempts. You will have to wait for sometime(typically several hours) before trying again. This occurs because a CAPTCHA SOLVING is required by Twitch and we cannot do that."@,
        TwitchAuthError::Unknown => "Something unexpected happened"@,
    }
}

/// The message the translator owes for an upstream error code.
pub open spec fn translated_message(error_code: i32) -> Seq<char> {
    auth_error_message(auth_error_kind(error_code))
}

impl TwitchAuthError {
    /// Classifies an upstream error code.
    pub fn new(error_code: i32) -> (r: Self)
        ensures
            r == auth_error_kind(error_code),
    {
        match error_code {
            3001 | 3002 | 3003 => TwitchAuthError::InvalidLoginCredentials,
            3011 => TwitchAuthError::TwoFaTokenRequired,
            3012 => TwitchAuthError::InvalidTwoFaToken,
            3022 => TwitchAuthError::TwitchguardCodeRequired,
            3023 => TwitchAuthError::InvalidTwitchguardCode,
            1000 => TwitchAuthError::TooManyInvalidLoginAttempts,
            _ => TwitchAuthError::Unknown,
        }
    }

    /// The message shown to the client for this kind.
    pub fn get_message(&self) -> (r: String)
        ensures
            r@ == auth_error_message(*self),
    {
        match self {
            Self::InvalidLoginCredentials => "Invalid username or password.".to_owned(),
            Self::TwoFaTokenRequired => "Two factor authentication token required.".to_owned(),
            Self::InvalidTwoFaToken => "Invalid two factor authentication token.".to_owned(),
            Self::TwitchguardCodeRequired => "Twitchguard verification code required.".to_owned(),
            Self::InvalidTwitchguardCode => "Invalid Twitchguard verification code.".to_owned(),
            Self::TooManyInvalidLoginAttempts => "You have made several failed login attempts. You will have to wait for sometime(typically several hours) before trying again. This occurs because a CAPTCHA SOLVING is required by Twitch and we cannot do that.".to_owned(),
            Self::Unknown => "Something unexpected happened".to_owned(),
        }
    }
}

/// Law: the translation of an error code is a total, stable function; two
/// messages produced for one and the same code are identical.
pub proof fn lemma_translator_deterministic(error_code: i32, m1: Seq<char>, m2: Seq<char>)
    requires
        m1 == translated_message(error_code),
        m2 == translated_message(error_code),
    ensures
        m1 == m2,
{
}

/// The logical error inside a public auth response.
pub struct Error {
    pub code: Option<i32>,
    pub message: Option<String>,
}

impl Error {
    pub fn new(code: i32, message: String) -> (r: Self)
        ensures
            r.code == Some(code),
            r.message == Some(message),
    {
        Error { code: Some(code), message: Some(message) }
    }
}

/// The public auth response: a pure projection of the upstream answer.
/// Absent fields stay absent.
pub struct AuthResponse {
    pub access_token: Option<String>,
    pub captcha: Option<String>,
    pub error: Option<Error>,
    pub email: Option<String>,
}

impl Default for AuthResponse {
    /// The empty response: every field absent.
    fn default() -> (r: Self)
        ensures
            r.access_token is None,
            r.captcha is None,
            r.error is None,
            r.email is None,
    {
        AuthResponse { access_token: None, captcha: None, error: None, email: None }
    }
}

impl AuthResponse {
    /// Projects the upstream auth response onto the public shape: the token,
    /// the CAPTCHA proof and the obscured email are carried over under their
    /// public names exactly when present, an upstream error code becomes
    /// `error = (code, translated message)`, and no field of the result
    /// appears without its upstream counterpart.
    pub fn from_twitch_auth_response(response: TwitchAuthResponse) -> (r: Self)
        ensures
            r.access_token == response.access_token,
            r.captcha == response.captcha_proof,
            r.email == response.obscured_email,
            r.error is Some <==> response.error_code is Some,
            response.error_code matches Some(code) ==> (r.error matches Some(e)
                && e.code == Some(code)
                && (e.message matches Some(m) && m@ == translated_message(code))),
    {
        let mut auth_response = AuthResponse::default();

        if let Some(token) = response.access_token {
            auth_response.access_token = Some(token);
        }

        if let Some(captcha) = response.captcha_proof {
            auth_response.captcha = Some(captcha);
        }

        if let Some(code) = response.error_code {
            let message = TwitchAuthError::new(code).get_message();
            auth_response.error = Some(Error::new(code, message));
        }

        if let Some(email) = response.obscured_email {
            auth_response.email = Some(email);
        }

        auth_response
    }
}

/// The CAPTCHA proof as the upstream wire wants it. The wire field is named
/// `proof`; that word is reserved here, so the field is `value`.
pub struct Captcha {
    pub value: String,
}

/// The body of a call to the upstream login endpoint, one shape per step of
/// the challenge flow.
pub struct AuthBody {
    pub username: String,
    pub password: String,
    pub client_id: String,
    pub undelete_user: bool,
    pub remember_me: bool,
    pub captcha: Option<Captcha>,
    pub authy_token: Option<String>,
    pub twitchguard_code: Option<String>,
}

/// What every auth body carries: the credentials, the fixed client id,
/// `undelete_user = false` and `remember_me = true`.
pub open spec fn is_base_body(b: AuthBody, username: Seq<char>, password: Seq<char>) -> bool {
    &&& b.username@ == username
    &&& b.password@ == password
    &&& b.client_id@ == spec_client_id()
    &&& !b.undelete_user
    &&& b.remember_me
}

/// The initial login body: no CAPTCHA proof, no authenticator token, no
/// verification code.
pub open spec fn is_login_body(b: AuthBody, username: Seq<char>, password: Seq<char>) -> bool {
    &&& is_base_body(b, username, password)
    &&& b.captcha is None
    &&& b.authy_token is None
    &&& b.twitchguard_code is None
}

/// The two-factor follow-up body: the CAPTCHA proof and the authenticator
/// token are set, the verification code is not.
pub open spec fn is_two_fa_body(b: AuthBody, req: TwoFaReqBody) -> bool {
    &&& is_base_body(b, req.username@, req.password@)
    &&& b.captcha matches Some(c) && c.value@ == req.captcha@
    &&& b.authy_token matches Some(t) && t@ == req.two_fa@
    &&& b.twitchguard_code is None
}

/// The verification-code follow-up body: the CAPTCHA proof and the code are
/// set, the authenticator token is not.
pub open spec fn is_code_body(b: AuthBody, req: CodeReqBody) -> bool {
    &&& is_base_body(b, req.username@, req.password@)
    &&& b.captcha matches Some(c) && c.value@ == req.captcha@
    &&& b.authy_token is None
    &&& b.twitchguard_code matches Some(t) && t@ == req.code@
}

impl AuthBody {
    /// The body of the initial login call.
    pub fn for_login(username: String, password: String) -> (r: Self)
        ensures
            is_login_body(r, username@, password@),
    {
        AuthBody {
            username,
            password,
            client_id: TWITCH_CLIENT_ID.to_owned(),
            undelete_user: false,
            remember_me: true,
            captcha: None,
            authy_token: None,
            twitchguard_code: None,
        }
    }

    /// The body of the two-factor follow-up call.
    pub fn for_two_fa(body: TwoFaReqBody) -> (r: Self)
        ensures
            is_two_fa_body(r, body),
    {
        AuthBody {
            username: body.username,
            password: body.password,
            client_id: TWITCH_CLIENT_ID.to_owned(),
            undelete_user: false,
            remember_me: true,
            captcha: Some(Captcha { value: body.captcha }),
            authy_token: Some(body.two_fa),
            twitchguard_code: None,
        }
    }

    /// The body of the verification-code follow-up call.
    pub fn for_code(body: CodeReqBody) -> (r: Self)
        ensures
            is_code_body(r, body),
    {
        AuthBody {
            username: body.username,
            password: body.password,
            client_id: TWITCH_CLIENT_ID.to_owned(),
            undelete_user: false,
            remember_me: true,
            captcha: Some(Captcha { value: body.captcha }),
            authy_token: None,
            twitchguard_code: Some(body.code),
        }
    }

    /// The long-form name of [`AuthBody::for_code`].
    pub fn for_twitchguard_code(body: CodeReqBody) -> (r: Self)
        ensures
            is_code_body(r, body),
    {
        AuthBody::for_code(body)
    }
}

/// The fixed URL of the upstream login endpoint.
pub const AUTH_URL: &'static str = "https://passport.twitch.tv/login";

/// The login URL as a sequence of characters, for contracts.
pub open spec fn spec_auth_url() -> Seq<char> {
    "https://passport.twitch.tv/login"@
}

/// Everything an outbound call to the upstream login endpoint consists of:
/// the fixed URL, the client-identity headers, and the body of the step.
pub struct UpstreamRequest {
    pub url: String,
    pub headers: Vec<HeaderPair>,
    pub body: AuthBody,
}

/// A well-formed call to the auth upstream: the fixed URL and exactly the
/// default header set, which carries the client identity.
pub open spec fn is_upstream_auth_request(r: UpstreamRequest) -> bool {
    &&& r.url@ == spec_auth_url()
    &&& pairs_view(r.headers@) == spec_auth_headers()
    &&& carries_client_identity(pairs_view(r.headers@))
}

impl UpstreamRequest {
    /// The full outbound call for the initial login step.
    pub fn for_login(username: String, password: String) -> (r: Self)
        ensures
            is_upstream_auth_request(r),
            is_login_body(r.body, username@, password@),
    {
        UpstreamRequest {
            url: AUTH_URL.to_owned(),
            headers: auth_headers(),
            body: AuthBody::for_login(username, password),
        }
    }

    /// The full outbound call for the two-factor follow-up.
    pub fn for_two_fa(body: TwoFaReqBody) -> (r: Self)
        ensures
            is_upstream_auth_request(r),
            is_two_fa_body(r.body, body),
    {
        UpstreamRequest {
            url: AUTH_URL.to_owned(),
            headers: auth_headers(),
            body: AuthBody::for_two_fa(body),
        }
    }

    /// The full outbound call for the verification-code follow-up.
    pub fn for_code(body: CodeReqBody) -> (r: Self)
        ensures
            is_upstream_auth_request(r),
            is_code_body(r.body, body),
    {
        UpstreamRequest {
            url: AUTH_URL.to_owned(),
            headers: auth_headers(),
            body: AuthBody::for_code(body),
        }
    }
}

} // verus!
