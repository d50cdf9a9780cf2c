use twester::auth::{AuthBody, AuthResponse, TwitchAuthError, UpstreamRequest};
use twester::models::{CodeReqBody, TwitchAuthResponse, TwoFaReqBody};

fn upstream_response(
    access_token: Option<&str>,
    captcha_proof: Option<&str>,
    error_code: Option<i32>,
    obscured_email: Option<&str>,
) -> TwitchAuthResponse {
    TwitchAuthResponse {
        access_token: access_token.map(|s| s.to_string()),
        captcha_proof: captcha_proof.map(|s| s.to_string()),
        error: None,
        error_code,
        error_description: None,
        obscured_email: obscured_email.map(|s| s.to_string()),
    }
}

#[test]
fn translator_invalid_credentials_codes() {
    for code in [3001, 3002, 3003] {
        let e = TwitchAuthError::new(code);
        assert_eq!(e, TwitchAuthError::InvalidLoginCredentials);
        assert_eq!(e.get_message(), "Invalid username or password.");
    }
}

#[test]
fn translator_challenge_codes() {
    assert_eq!(
        TwitchAuthError::new(3011).get_message(),
        "Two factor authentication token required."
    );
    assert_eq!(
        TwitchAuthError::new(3012).get_message(),
        "Invalid two factor authentication token."
    );
    assert_eq!(
        TwitchAuthError::new(3022).get_message(),
        "Twitchguard verification code required."
    );
    assert_eq!(
        TwitchAuthError::new(3023).get_message(),
        "Invalid Twitchguard verification code."
    );
}

#[test]
fn translator_captcha_notice() {
    assert_eq!(
        TwitchAuthError::new(1000).get_message(),
        "You have made several failed login attempts. You will have to wait for sometime(typically several hours) before trying again. This occurs because a CAPTCHA SOLVING is required by Twitch and we cannot do that."
    );
}

#[test]
fn translator_unknown_codes() {
    for code in [0, -1, 42, 2999, 9999] {
        let e = TwitchAuthError::new(code);
        assert_eq!(e, TwitchAuthError::Unknown);
        assert_eq!(e.get_message(), "Something unexpected happened");
    }
}

#[test]
fn translator_is_deterministic() {
    for code in [3001, 3011, 1000, 77] {
        let first = TwitchAuthError::new(code).get_message();
        let second = TwitchAuthError::new(code).get_message();
        assert_eq!(first, second);
    }
}

#[test]
fn login_body_has_no_challenge_fields() {
    let body = AuthBody::for_login("alice".to_string(), "pw".to_string());
    assert_eq!(body.username, "alice");
    assert_eq!(body.password, "pw");
    assert_eq!(body.client_id, "kimne78kx3ncx6brgo4mv6wki5h1ko");
    assert!(!body.undelete_user);
    assert!(body.remember_me);
    assert!(body.captcha.is_none());
    assert!(body.authy_token.is_none());
    assert!(body.twitchguard_code.is_none());
}

#[test]
fn two_fa_body_sets_captcha_and_authy_token() {
    let body = AuthBody::for_two_fa(TwoFaReqBody {
        username: "alice".to_string(),
        password: "pw".to_string(),
        captcha: "CX".to_string(),
        two_fa: "123456".to_string(),
    });
    assert_eq!(body.username, "alice");
    assert_eq!(body.password, "pw");
    assert_eq!(body.client_id, "kimne78kx3ncx6brgo4mv6wki5h1ko");
    assert!(!body.undelete_user);
    assert!(body.remember_me);
    assert_eq!(body.captcha.unwrap().value, "CX");
    assert_eq!(body.authy_token.unwrap(), "123456");
    assert!(body.twitchguard_code.is_none());
}

#[test]
fn code_body_sets_captcha_and_twitchguard_code() {
    let body = AuthBody::for_code(CodeReqBody {
        username: "alice".to_string(),
        password: "pw".to_string(),
        captcha: "CX".to_string(),
        code: "999999".to_string(),
    });
    assert_eq!(body.captcha.unwrap().value, "CX");
    assert!(body.authy_token.is_none());
    assert_eq!(body.twitchguard_code.unwrap(), "999999");
}

#[test]
fn twitchguard_code_body_matches_code_body() {
    let req = || CodeReqBody {
        username: "alice".to_string(),
        password: "pw".to_string(),
        captcha: "CX".to_string(),
        code: "999999".to_string(),
    };
    let long_form = AuthBody::for_twitchguard_code(req());
    let short_form = AuthBody::for_code(req());
    assert_eq!(long_form.captcha.unwrap().value, short_form.captcha.unwrap().value);
    assert_eq!(long_form.twitchguard_code, short_form.twitchguard_code);
    assert_eq!(long_form.authy_token, short_form.authy_token);
}

#[test]
fn upstream_request_carries_url_and_identity_headers() {
    let req = UpstreamRequest::for_login("alice".to_string(), "pw".to_string());
    assert_eq!(req.url, "https://passport.twitch.tv/login");
    assert_eq!(req.headers.len(), 2);
    assert_eq!(req.headers[0].name, "Client-Id");
    assert_eq!(req.headers[0].value, "kimne78kx3ncx6brgo4mv6wki5h1ko");
    assert_eq!(req.headers[1].name, "User-Agent");
    assert!(!req.headers[1].value.is_empty());
}

#[test]
fn upstream_request_two_fa_keeps_body_shape() {
    let req = UpstreamRequest::for_two_fa(TwoFaReqBody {
        username: "alice".to_string(),
        password: "pw".to_string(),
        captcha: "CX".to_string(),
        two_fa: "123456".to_string(),
    });
    assert_eq!(req.url, "https://passport.twitch.tv/login");
    assert_eq!(req.body.captcha.unwrap().value, "CX");
    assert_eq!(req.body.authy_token.unwrap(), "123456");
    assert!(req.body.twitchguard_code.is_none());
}

#[test]
fn upstream_request_code_keeps_body_shape() {
    let req = UpstreamRequest::for_code(CodeReqBody {
        username: "alice".to_string(),
        password: "pw".to_string(),
        captcha: "CX".to_string(),
        code: "999999".to_string(),
    });
    assert_eq!(req.url, "https://passport.twitch.tv/login");
    assert_eq!(req.body.captcha.unwrap().value, "CX");
    assert!(req.body.authy_token.is_none());
    assert_eq!(req.body.twitchguard_code.unwrap(), "999999");
}

#[test]
fn normalize_two_fa_challenge_with_captcha() {
    let public = AuthResponse::from_twitch_auth_response(upstream_response(
        None,
        Some("CX"),
        Some(3011),
        None,
    ));
    assert!(public.access_token.is_none());
    assert_eq!(public.captcha.unwrap(), "CX");
    assert!(public.email.is_none());
    let error = public.error.unwrap();
    assert_eq!(error.code, Some(3011));
    assert_eq!(
        error.message.unwrap(),
        "Two factor authentication token required."
    );
}

#[test]
fn normalize_successful_login_with_email() {
    let public = AuthResponse::from_twitch_auth_response(upstream_response(
        Some("oauth:abc"),
        None,
        None,
        Some("a***@x.com"),
    ));
    assert_eq!(public.access_token.unwrap(), "oauth:abc");
    assert!(public.captcha.is_none());
    assert!(public.error.is_none());
    assert_eq!(public.email.unwrap(), "a***@x.com");
}

#[test]
fn normalize_invalid_verification_code() {
    let public = AuthResponse::from_twitch_auth_response(upstream_response(
        None,
        None,
        Some(3023),
        None,
    ));
    assert!(public.access_token.is_none());
    assert!(public.captcha.is_none());
    assert!(public.email.is_none());
    let error = public.error.unwrap();
    assert_eq!(error.code, Some(3023));
    assert_eq!(
        error.message.unwrap(),
        "Invalid Twitchguard verification code."
    );
}

#[test]
fn normalize_invalid_credentials() {
    let public = AuthResponse::from_twitch_auth_response(upstream_response(
        None,
        None,
        Some(3001),
        None,
    ));
    let error = public.error.unwrap();
    assert_eq!(error.code, Some(3001));
    assert_eq!(error.message.unwrap(), "Invalid username or password.");
}

#[test]
fn normalize_empty_upstream_response() {
    let public = AuthResponse::from_twitch_auth_response(upstream_response(
        None, None, None, None,
    ));
    assert!(public.access_token.is_none());
    assert!(public.captcha.is_none());
    assert!(public.error.is_none());
    assert!(public.email.is_none());
}

#[test]
fn normalize_drops_error_description() {
    let mut upstream = upstream_response(None, None, Some(3012), None);
    upstream.error = Some("an upstream label".to_string());
    upstream.error_description = Some("an upstream description".to_string());
    let public = AuthResponse::from_twitch_auth_response(upstream);
    let error = public.error.unwrap();
    assert_eq!(error.code, Some(3012));
    assert_eq!(
        error.message.unwrap(),
        "Invalid two factor authentication token."
    );
}
