//! A small HTTP façade over the password-login endpoint of a streaming
//! platform: it shapes upstream request bodies, sequences the multi-step
//! challenge flow (two-factor token, out-of-band verification code, CAPTCHA
//! proof), translates the upstream's numeric error space into a stable
//! client-facing schema, and projects the caller's own profile record.
//!
//! All protocol decisions live here, verified; the HTTP server and the
//! network transport stand outside and hand this crate plain values.

pub mod auth;
pub mod http;
pub mod models;
pub mod profile;

use vstd::prelude::*;

verus! {

/// Envelope for a successful public response: `{ "data": ... }`.
pub struct ApiResponse<T> {
    pub data: T,
}

impl<T> ApiResponse<T> {
    pub fn new(data: T) -> (r: Self)
        ensures
            r.data == data,
    {
        ApiResponse { data }
    }
}

/// The error payload of the public API: an optional numeric code and a
/// human-readable message.
pub struct Error {
    pub code: Option<u16>,
    pub message: String,
}

/// Envelope for a public error response: `{ "error": { ... } }`.
pub struct ApiError {
    pub error: Error,
}

impl ApiError {
    pub fn new(code: Option<u16>, message: &str) -> (r: Self)
        ensures
            r.error.code == code,
            r.error.message@ == message@,
    {
        ApiError { error: Error { code, message: message.to_owned() } }
    }
}

/// Failure to take a Bearer token out of the request headers.
#[derive(Clone, Copy, Debug, PartialEq, Eq, Structural)]
pub enum AuthTokenError {
    NotBearer,
    NotFound,
}

/// The message owed for each way of failing to take the token.
pub open spec fn token_error_message(e: AuthTokenError) -> Seq<char> {
    match e {
        AuthTokenError::NotFound => "Authorization token is missing"@,
        AuthTokenError::NotBearer => "Authorization token must be of type Bearer"@,
    }
}

impl AuthTokenError {
    /// The message shown to the client with the 401 answer.
    pub fn get_message(&self) -> (r: &'static str)
        ensures
            r@ == token_error_message(*self),
    {
        match self {
            Self::NotFound => "Authorization token is missing",
            Self::NotBearer => "Authorization token must be of type Bearer",
        }
    }
}

pub type TokenResult<'a> = Result<&'a str, AuthTokenError>;

/// The index of the first space of `s`, or `s.len()` where there is none.
pub open spec fn first_space(s: Seq<char>) -> int
    decreases s.len(),
{
    if s.len() == 0 {
        0
    } else if s[0] == ' ' {
        0
    } else {
        1 + first_space(s.subrange(1, s.len() as int))
    }
}

proof fn lemma_first_space_of(s: Seq<char>, i: int)
    requires
        0 <= i <= s.len(),
        forall|j: int| 0 <= j < i ==> s[j] != ' ',
        i < s.len() ==> s[i] == ' ',
    ensures
        first_space(s) == i,
    decreases s.len(),
{
    if i > 0 {
        let tail = s.subrange(1, s.len() as int);
        assert(forall|j: int| 0 <= j < i - 1 ==> tail[j] == s[j + 1] && s[j + 1] != ' ');
        lemma_first_space_of(tail, i - 1);
    }
}

/// True exactly when the two string slices hold the same characters.
fn str_eq(a: &str, b: &str) -> (r: bool)
    ensures
        r == (a@ == b@),
{
    a.to_owned() == b.to_owned()
}

/// Reads the value of the `authorization` header, absent or present: absent
/// fails with `NotFound`; a present value splits on the first space into at
/// most two tokens, fails with `NotBearer` unless the first is exactly
/// `Bearer`, and otherwise yields the second, borrowed from the header.
pub fn get_token_from_auth_headers<'a>(auth_header: Option<&'a str>) -> (r: TokenResult<'a>)
    requires
        auth_header matches Some(s) ==> s@ != "Bearer"@,
    ensures
        (auth_header is None) <==> (r matches Err(e) && e == AuthTokenError::NotFound),
        auth_header matches Some(s) ==> ({
            let i = first_space(s@);
            &&& s@.subrange(0, i) != "Bearer"@ ==> (r matches Err(e) && e
                == AuthTokenError::NotBearer)
            &&& s@.subrange(0, i) == "Bearer"@ ==> (r matches Ok(t) && t@ == s@.subrange(
                i + 1,
                s@.len() as int,
            ))
        }),
{
    match auth_header {
        None => Err(AuthTokenError::NotFound),
        Some(s) => {
            let n = s.unicode_len();
            let mut i: usize = 0;
            while i < n && s.get_char(i) != ' '
                invariant
                    n == s@.len(),
                    0 <= i <= n,
                    forall|j: int| 0 <= j < i ==> s@[j] != ' ',
                decreases n - i,
            {
                i += 1;
            }
            proof {
                lemma_first_space_of(s@, i as int);
            }
            let head = s.substring_char(0, i);
            if !str_eq(head, "Bearer") {
                Err(AuthTokenError::NotBearer)
            } else {
                proof {
                    if i == n {
                        assert(s@.subrange(0, n as int) =~= s@);
                    }
                }
                let token = s.substring_char(i + 1, n);
                Ok(token)
            }
        },
    }
}

} // verus!
