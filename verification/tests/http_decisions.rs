use rocy::adapters::http::cookie_util::{make_cookie, CookieAttrs};
use rocy::adapters::http::cors::{cors_policy, CorsPolicy};
use rocy::adapters::http::handler::{
    callback_cookies, check_oauth_callback, is_multipart_content_type, login_cookies, logout_cookies, require_session_id,
    require_session_user, require_user, LOGIN_COOKIE_TTL_SECS, SESSION_TTL_SECS,
};
use rocy::application::entities::user_entity::UserEntity;
use rocy::application::errors::AppError;
use rocy::application::types::{CSRFToken, Email, PKCEVerifier, Provider, SessionId, SessionUser, Sub, UserId};
use rocy::config::{Config, SameSiteMode};

fn config() -> Config {
    let mut c = Config::default();
    c.cookie_domain = Some("example.com".into());
    c.cookie_secure = true;
    c.cookie_samesite = SameSiteMode::Strict;
    c
}

fn check(c: &CookieAttrs, name: &str, value: &str, max_age: i64) {
    assert_eq!(c.name, name);
    assert_eq!(c.value, value);
    assert_eq!(c.path, "/");
    assert!(c.http_only);
    assert_eq!(c.max_age_secs, max_age);
    assert_eq!(c.domain.as_deref(), Some("example.com"));
    assert!(c.secure);
    assert_eq!(c.same_site, SameSiteMode::Strict);
}

#[test]
fn cookies_carry_the_configured_attributes() {
    let c = make_cookie(config(), "n", "v", 42, false);
    assert_eq!(c.name, "n");
    assert_eq!(c.value, "v");
    assert_eq!(c.path, "/");
    assert!(!c.http_only);
    assert_eq!(c.max_age_secs, 42);
    assert_eq!(c.domain.as_deref(), Some("example.com"));
    assert!(c.secure);
    assert_eq!(c.same_site, SameSiteMode::Strict);

    let plain = make_cookie(Config::default(), "n", "v", 1, true);
    assert_eq!(plain.domain, None);
    assert!(!plain.secure);
    assert_eq!(plain.same_site, SameSiteMode::Lax);
}

#[test]
fn login_callback_and_logout_cookies() {
    let c = config();
    let login = login_cookies(&c, &PKCEVerifier("ver".into()), &CSRFToken("csrf".into()));
    assert_eq!(login.len(), 2);
    check(&login[0], "pkce_v", "ver", 600);
    check(&login[1], "oauth_state", "csrf", LOGIN_COOKIE_TTL_SECS);

    let cb = callback_cookies(&c, &SessionId("sid-1".into()), SESSION_TTL_SECS);
    assert_eq!(cb.len(), 3);
    check(&cb[0], "sid", "sid-1", 3600);
    check(&cb[1], "pkce_v", "", 0);
    check(&cb[2], "oauth_state", "", 0);

    let out = logout_cookies(&c);
    assert_eq!(out.len(), 3);
    check(&out[0], "sid", "", 0);
    check(&out[1], "pkce_v", "", 0);
    check(&out[2], "oauth_state", "", 0);
}

#[test]
fn oauth_callback_requires_matching_state_and_verifier() {
    let ok = check_oauth_callback(Some("st".into()), "st", Some("ver".into())).unwrap();
    assert_eq!(ok.0, "ver");
    assert!(matches!(check_oauth_callback(None, "st", Some("ver".into())), Err(AppError::Unauthorized)));
    assert!(matches!(check_oauth_callback(Some("st".into()), "other", Some("ver".into())), Err(AppError::Unauthorized)));
    assert!(matches!(check_oauth_callback(Some("st".into()), "st", None), Err(AppError::Unauthorized)));
    assert!(matches!(check_oauth_callback(Some("ST".into()), "st", Some("v".into())), Err(AppError::Unauthorized)));
}

#[test]
fn uploads_need_a_multipart_content_type() {
    assert!(is_multipart_content_type(Some("multipart/form-data; boundary=x")));
    assert!(is_multipart_content_type(Some("MULTIPART/FORM-DATA")));
    assert!(is_multipart_content_type(Some("multipart/")));
    assert!(!is_multipart_content_type(Some("multipart")));
    assert!(!is_multipart_content_type(Some("application/json")));
    assert!(!is_multipart_content_type(Some(" multipart/form-data")));
    assert!(!is_multipart_content_type(None));
}

#[test]
fn protected_routes_need_a_session_and_a_user() {
    assert_eq!(require_session_id(Some("abc".into())).unwrap().0, "abc");
    assert!(matches!(require_session_id(None), Err(AppError::Unauthorized)));
    let u = SessionUser { user_id: UserId(7), email: Email("a@b".into()) };
    assert_eq!(require_session_user(Some(u)).unwrap().user_id, UserId(7));
    assert!(matches!(require_session_user(None), Err(AppError::Unauthorized)));
    let e = UserEntity {
        id: UserId(3),
        provider: Provider("google".into()),
        sub: Sub("s".into()),
        email: Email("e@x".into()),
        created: 0,
    };
    assert_eq!(require_user(Some(e)).unwrap().id, UserId(3));
    assert!(matches!(require_user(None), Err(AppError::Unauthorized)));
}

#[test]
fn cors_policy_from_setting() {
    assert!(matches!(cors_policy(&None), CorsPolicy::Permissive));
    assert!(matches!(cors_policy(&Some("*".into())), CorsPolicy::AnyOrigin));
    match cors_policy(&Some(" https://a.example , https://b.example,,".into())) {
        CorsPolicy::Origins(list) => {
            assert_eq!(list, vec!["https://a.example", "https://b.example", "", ""]);
        }
        other => panic!("unexpected policy {:?}", other),
    }
    match cors_policy(&Some(" * ".into())) {
        CorsPolicy::Origins(list) => assert_eq!(list, vec!["*"]),
        other => panic!("unexpected policy {:?}", other),
    }
}
