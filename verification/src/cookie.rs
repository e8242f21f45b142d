//! The cookies that carry the tokens.
//!
//! A cookie that the library issues is never readable by scripts, is only sent
//! over a secure channel, and expires when the token inside it does.
use crate::config::Token;
use tower_cookies::cookie::time::OffsetDateTime;
use vstd::prelude::*;

verus! {

/// The last second of the year 9999, as a Unix timestamp.
pub const LAST_COMMON_SECOND: u64 = 253_402_300_799;

/// Whether a Unix timestamp before 1970 or after 9999 can be expressed as a date
/// and time of a cookie. That depends on how the `time` crate is built.
pub uninterp spec fn is_far_datetime(timestamp: i64) -> bool;

/// Whether a Unix timestamp can be expressed as a date and time of a cookie:
/// every second from 1970 to 9999, and the others as the build has it.
pub open spec fn is_datetime(timestamp: i64) -> bool {
    0 <= timestamp <= 253_402_300_799 || is_far_datetime(timestamp)
}

/// Calls `OffsetDateTime::from_unix_timestamp` of the `time` crate and tells
/// whether it gave a value.
///
/// Assumed of the crate: it accepts a timestamp if and only if the timestamp lies
/// between two bounds fixed by the build, and with either setting of its
/// `large-dates` feature every second of the years 1970 to 9999 lies between
/// them.
#[verifier::external_body]
pub(crate) fn datetime_exists(timestamp: i64) -> (ok: bool)
    ensures
        ok == (0 <= timestamp <= 253_402_300_799 || is_far_datetime(timestamp)),
{
    OffsetDateTime::from_unix_timestamp(timestamp).is_ok()
}

/// When a cookie expires.
#[derive(Clone, Copy, Debug, PartialEq, Eq, Structural)]
pub enum CookieExpiry {
    /// No expiry is set: the form of a cookie read from a request.
    Session,
    /// At the given Unix timestamp.
    At(i64),
    /// At the moment of sending.
    Immediately,
}

/// The expiry of the cookie for a token that expires at `exp`: the same instant,
/// or at once where that instant cannot be expressed.
pub open spec fn cookie_expiry_spec(exp: u64) -> CookieExpiry {
    if exp <= i64::MAX && is_datetime(exp as i64) {
        CookieExpiry::At(exp as i64)
    } else {
        CookieExpiry::Immediately
    }
}

pub fn cookie_expiry(exp: u64) -> (expires: CookieExpiry)
    ensures
        expires == cookie_expiry_spec(exp),
        exp <= LAST_COMMON_SECOND ==> expires == CookieExpiry::At(exp as i64),
{
    if exp > 0x7fff_ffff_ffff_ffff {
        return CookieExpiry::Immediately;
    }
    let timestamp = exp as i64;
    if datetime_exists(timestamp) {
        CookieExpiry::At(timestamp)
    } else {
        CookieExpiry::Immediately
    }
}

/// A cookie.
#[derive(Clone, Debug, PartialEq, Eq)]
pub struct Cookie {
    pub class: Token,
    pub value: String,
    pub http_only: bool,
    pub secure: bool,
    pub expires: CookieExpiry,
}

/// What a cookie is, its value taken as a sequence of characters.
pub struct CookieView {
    pub class: Token,
    pub value: Seq<char>,
    pub http_only: bool,
    pub secure: bool,
    pub expires: CookieExpiry,
}

impl View for Cookie {
    type V = CookieView;

    open spec fn view(&self) -> CookieView {
        CookieView {
            class: self.class,
            value: self.value@,
            http_only: self.http_only,
            secure: self.secure,
            expires: self.expires,
        }
    }
}

/// The cookie that is issued for a token of the given class and expiry.
pub open spec fn issued_cookie(class: Token, value: Seq<char>, exp: u64) -> CookieView {
    CookieView {
        class,
        value,
        http_only: true,
        secure: true,
        expires: cookie_expiry_spec(exp),
    }
}

/// A cookie as a request carries it: a name and a value.
pub open spec fn plain_cookie(class: Token, value: Seq<char>) -> CookieView {
    CookieView { class, value, http_only: false, secure: false, expires: CookieExpiry::Session }
}

impl Cookie {
    /// A cookie with a value and no attribute.
    pub fn new(class: Token, value: String) -> (cookie: Cookie)
        ensures
            cookie@ == plain_cookie(class, value@),
    {
        Cookie { class, value, http_only: false, secure: false, expires: CookieExpiry::Session }
    }

    /// The cookie to issue for a token that expires at `exp`.
    pub fn build(class: Token, value: String, exp: u64) -> (cookie: Cookie)
        ensures
            cookie@ == issued_cookie(class, value@, exp),
    {
        Cookie { class, value, http_only: true, secure: true, expires: cookie_expiry(exp) }
    }

    pub fn name(&self) -> (name: &'static str)
        ensures
            name@ == self.class.cookie_name_spec(),
    {
        self.class.cookie_name()
    }

    pub fn value(&self) -> (value: &String)
        ensures
            value@ == self@.value,
    {
        &self.value
    }
}

/// The cookies of one request: those it came with, and over them those that were
/// issued while it was handled. There is at most one per class.
#[derive(Clone, Debug, PartialEq, Eq)]
pub struct Cookies {
    access: Option<Cookie>,
    refresh: Option<Cookie>,
}

impl Cookies {
    /// The cookie of a class, if there is one.
    pub closed spec fn get_spec(&self, class: Token) -> Option<CookieView> {
        match class {
            Token::Access => match self.access {
                Some(c) => Some(c@),
                None => None,
            },
            Token::Refresh => match self.refresh {
                Some(c) => Some(c@),
                None => None,
            },
        }
    }

    /// Every cookie is filed under its own class.
    pub open spec fn wf(&self) -> bool {
        &&& self.get_spec(Token::Access) is Some ==> self.get_spec(Token::Access)->0.class
            == Token::Access
        &&& self.get_spec(Token::Refresh) is Some ==> self.get_spec(Token::Refresh)->0.class
            == Token::Refresh
    }

    /// Two sets of cookies hold the same.
    pub open spec fn same(&self, other: &Cookies) -> bool {
        &&& self.get_spec(Token::Access) == other.get_spec(Token::Access)
        &&& self.get_spec(Token::Refresh) == other.get_spec(Token::Refresh)
    }

    /// No cookies.
    pub fn new() -> (cookies: Cookies)
        ensures
            cookies.wf(),
            forall|class: Token| #[trigger] cookies.get_spec(class) is None,
    {
        Cookies { access: None, refresh: None }
    }

    pub fn get(&self, class: Token) -> (cookie: Option<&Cookie>)
        ensures
            match cookie {
                Some(c) => self.get_spec(class) == Some(c@),
                None => self.get_spec(class) is None,
            },
    {
        match class {
            Token::Access => self.access.as_ref(),
            Token::Refresh => self.refresh.as_ref(),
        }
    }

    /// Whether there is a cookie of the class.
    pub fn has(&self, class: Token) -> (yes: bool)
        ensures
            yes == self.get_spec(class) is Some,
    {
        match class {
            Token::Access => self.access.is_some(),
            Token::Refresh => self.refresh.is_some(),
        }
    }

    /// Files a cookie under its class, in place of the one that was there.
    pub fn add(&mut self, cookie: Cookie)
        ensures
            final(self).get_spec(cookie.class) == Some(cookie@),
            forall|class: Token|
                class != cookie.class ==> #[trigger] final(self).get_spec(class) == old(
                    self,
                ).get_spec(class),
            old(self).wf() ==> final(self).wf(),
    {
        match cookie.class {
            Token::Access => {
                self.access = Some(cookie);
            },
            Token::Refresh => {
                self.refresh = Some(cookie);
            },
        }
    }

    /// Takes the cookie of a class away.
    pub fn remove(&mut self, class: Token)
        ensures
            final(self).get_spec(class) is None,
            forall|other: Token|
                other != class ==> #[trigger] final(self).get_spec(other) == old(self).get_spec(
                    other,
                ),
            old(self).wf() ==> final(self).wf(),
    {
        match class {
            Token::Access => {
                self.access = None;
            },
            Token::Refresh => {
                self.refresh = None;
            },
        }
    }
}

/// A cookie that the library issues is closed to scripts, bound to secure
/// channels and has an expiry: the token's own where that instant can be
/// expressed, and the moment of sending where it cannot.
pub proof fn issued_cookie_is_closed(class: Token, value: Seq<char>, exp: u64)
    ensures
        issued_cookie(class, value, exp).http_only,
        issued_cookie(class, value, exp).secure,
        issued_cookie(class, value, exp).expires != CookieExpiry::Session,
        issued_cookie(class, value, exp).expires is At ==> issued_cookie(
            class,
            value,
            exp,
        ).expires->At_0 == exp,
{
}

/// Up to the end of the year 9999 a cookie expires in the very second in which
/// its token does.
pub proof fn cookie_expires_with_token(exp: u64)
    requires
        exp <= LAST_COMMON_SECOND,
    ensures
        cookie_expiry_spec(exp) == CookieExpiry::At(exp as i64),
{
}

} // verus!
