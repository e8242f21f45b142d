use token_auth::claims::LoginBody;
use token_auth::claims::UserExtension;
use token_auth::config::Config;
use token_auth::config::Token;
use token_auth::cookie::Cookie;
use token_auth::cookie::Cookies;
use token_auth::error::HandlerError;
use token_auth::error::StatusCode;
use token_auth::handler::auth;
use token_auth::handler::index;
use token_auth::handler::login;
use token_auth::store::RevocationStore;

fn prepare() -> (Cookies, RevocationStore, Config) {
    let mut store = RevocationStore::new();
    store.register(1);
    let cfg =
        Config::new(Some(b"access-secret".to_vec()), Some(b"refresh-secret".to_vec())).unwrap();
    (Cookies::new(), store, cfg)
}

fn check_cookies(cookies: &Cookies, exists: bool) {
    assert_eq!(cookies.get(Token::Access).is_some(), exists);
    assert_eq!(cookies.get(Token::Refresh).is_some(), exists);
}

fn request_with(cookies: &Cookies, class: Token) -> Cookies {
    let mut sent = Cookies::new();
    sent.add(Cookie::new(class, cookies.get(class).unwrap().value().clone()));
    sent
}

#[test]
fn auth_login_valid_body() {
    let (mut cookies, mut store, cfg) = prepare();
    let body = LoginBody { id: 1 };

    let res = login(&mut cookies, &mut store, &cfg, &body);

    check_cookies(&cookies, true);
    assert_eq!(res, Ok(StatusCode::Success));
}

#[test]
fn auth_login_unknown_body() {
    let (mut cookies, mut store, cfg) = prepare();
    let body = LoginBody { id: 9999 };

    let res = login(&mut cookies, &mut store, &cfg, &body);

    check_cookies(&cookies, false);
    assert_eq!(res, Err(HandlerError(StatusCode::NotFound)));
}

#[test]
fn auth_protected_authenticated() {
    let (mut cookies, mut store, cfg) = prepare();
    let body = LoginBody { id: 1 };

    login(&mut cookies, &mut store, &cfg, &body).unwrap();
    let res = auth(&mut cookies, &mut store, &cfg);

    assert_eq!(res.map(|user| index(&user)), Ok("1".to_string()));
    assert_eq!(res, Ok(UserExtension { id: 1 }));
}

#[test]
fn auth_protected_unauthenticated() {
    let (mut cookies, mut store, cfg) = prepare();

    let res = auth(&mut cookies, &mut store, &cfg);

    assert_eq!(res, Err(HandlerError(StatusCode::Unauthorized)));
}

#[test]
fn protected_missing_access_cookie() {
    let (mut cookies, mut store, cfg) = prepare();
    let body = LoginBody { id: 1 };

    login(&mut cookies, &mut store, &cfg, &body).unwrap();
    let mut cookies = request_with(&cookies, Token::Refresh);
    let res = auth(&mut cookies, &mut store, &cfg);

    assert_eq!(res, Ok(UserExtension { id: 1 }));
}

#[test]
fn protected_missing_refresh_cookie() {
    let (mut cookies, mut store, cfg) = prepare();
    let body = LoginBody { id: 1 };

    login(&mut cookies, &mut store, &cfg, &body).unwrap();
    let mut cookies = request_with(&cookies, Token::Access);
    let res = auth(&mut cookies, &mut store, &cfg);

    assert_eq!(res, Err(HandlerError(StatusCode::Unauthorized)));
}
