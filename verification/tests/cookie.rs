use token_auth::claims::Claims;
use token_auth::claims::UserExtension;
use token_auth::config::Token;
use token_auth::cookie::cookie_expiry;
use token_auth::cookie::LAST_COMMON_SECOND;
use token_auth::cookie::Cookie;
use token_auth::cookie::CookieExpiry;
use token_auth::cookie::Cookies;

#[test]
fn cookie_expires_with_the_token() {
    assert_eq!(cookie_expiry(0), CookieExpiry::At(0));
    assert_eq!(cookie_expiry(1_700_001_800), CookieExpiry::At(1_700_001_800));
    assert_eq!(cookie_expiry(4_002_592_000), CookieExpiry::At(4_002_592_000));
    assert_eq!(cookie_expiry(2_800), CookieExpiry::At(2_800));
    assert_eq!(cookie_expiry(LAST_COMMON_SECOND), CookieExpiry::At(253_402_300_799));
}

#[test]
fn cookie_of_an_inexpressible_expiry_expires_at_once() {
    assert_eq!(cookie_expiry(u64::MAX), CookieExpiry::Immediately);
    assert_eq!(cookie_expiry(i64::MAX as u64), CookieExpiry::Immediately);
    assert_eq!(cookie_expiry(i64::MAX as u64 + 1), CookieExpiry::Immediately);
    assert_eq!(cookie_expiry(1 << 62), CookieExpiry::Immediately);
}

#[test]
fn built_cookie_is_closed() {
    let cookie = Cookie::build(Token::Refresh, "abc".to_string(), 1_700_000_000);
    assert_eq!(cookie.class, Token::Refresh);
    assert_eq!(cookie.name(), "refresh_token");
    assert_eq!(cookie.value(), "abc");
    assert!(cookie.http_only);
    assert!(cookie.secure);
    assert_eq!(cookie.expires, CookieExpiry::At(1_700_000_000));

    let cookie = Cookie::build(Token::Access, "abc".to_string(), u64::MAX);
    assert_eq!(cookie.name(), "access_token");
    assert!(cookie.http_only);
    assert!(cookie.secure);
    assert_eq!(cookie.expires, CookieExpiry::Immediately);
}

#[test]
fn plain_cookie_has_no_attribute() {
    let cookie = Cookie::new(Token::Access, "abc".to_string());
    assert_eq!(cookie.name(), "access_token");
    assert_eq!(cookie.value(), "abc");
    assert!(!cookie.http_only);
    assert!(!cookie.secure);
    assert_eq!(cookie.expires, CookieExpiry::Session);
}

#[test]
fn claims_to_cookie_takes_the_expiry_of_the_claims() {
    let claims = Claims { exp: 1_702_592_000, user: UserExtension { id: 1 } };
    let cookie = claims.to_cookie(Token::Refresh, "token".to_string());
    assert_eq!(cookie, Cookie::build(Token::Refresh, "token".to_string(), 1_702_592_000));
    assert_eq!(cookie.expires, CookieExpiry::At(1_702_592_000));
    assert_eq!(cookie.value, "token");
}

#[test]
fn claims_into_cookie_files_the_cookie() {
    let mut cookies = Cookies::new();
    let claims = Claims { exp: 1_700_001_800, user: UserExtension { id: 1 } };
    claims.into_cookie(&mut cookies, Token::Access, "token".to_string());
    assert_eq!(
        cookies.get(Token::Access),
        Some(&Cookie::build(Token::Access, "token".to_string(), 1_700_001_800))
    );
    assert_eq!(cookies.get(Token::Refresh), None);
}

#[test]
fn cookies_hold_one_cookie_per_class() {
    let mut cookies = Cookies::new();
    assert!(!cookies.has(Token::Access));
    assert!(!cookies.has(Token::Refresh));
    assert_eq!(cookies.get(Token::Access), None);

    cookies.add(Cookie::new(Token::Access, "one".to_string()));
    assert!(cookies.has(Token::Access));
    assert!(!cookies.has(Token::Refresh));

    cookies.add(Cookie::new(Token::Refresh, "two".to_string()));
    cookies.add(Cookie::new(Token::Access, "three".to_string()));
    assert_eq!(cookies.get(Token::Access).unwrap().value(), "three");
    assert_eq!(cookies.get(Token::Refresh).unwrap().value(), "two");

    cookies.remove(Token::Access);
    assert_eq!(cookies.get(Token::Access), None);
    assert_eq!(cookies.get(Token::Refresh).unwrap().value(), "two");
    cookies.remove(Token::Access);
    assert!(!cookies.has(Token::Access));
    cookies.remove(Token::Refresh);
    assert_eq!(cookies, Cookies::new());
}
