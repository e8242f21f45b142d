//! The two token classes and what is configured for each.
use vstd::prelude::*;

verus! {

/// Lifetime of an access token in seconds: thirty minutes.
pub const ACCESS_LIFETIME: u64 = 1_800;

/// Lifetime of a refresh token in seconds: thirty days.
pub const REFRESH_LIFETIME: u64 = 2_592_000;

/// The class of a token.
#[derive(Clone, Copy, Debug, PartialEq, Eq, Structural)]
pub enum Token {
    /// Short-lived; its presence marks a recently authenticated session.
    Access,
    /// Long-lived; the only token that is verified, and the one the store tracks.
    Refresh,
}

impl Token {
    /// The name of the cookie that carries a token of this class.
    pub open spec fn cookie_name_spec(self) -> Seq<char> {
        match self {
            Token::Access => "access_token"@,
            Token::Refresh => "refresh_token"@,
        }
    }

    pub fn cookie_name(self) -> (name: &'static str)
        ensures
            name@ == self.cookie_name_spec(),
    {
        match self {
            Token::Access => "access_token",
            Token::Refresh => "refresh_token",
        }
    }
}

/// Secrets and lifetimes, fixed at start-up and handed to the codec and the
/// handlers by reference.
///
/// A secret may be unavailable. Where both are available they differ, so that a
/// leaked secret of one class signs no token of the other.
pub struct Config {
    access_secret: Option<Vec<u8>>,
    refresh_secret: Option<Vec<u8>>,
    access_lifetime: u64,
    refresh_lifetime: u64,
}

/// Whether two byte strings are equal.
pub fn bytes_eq(a: &Vec<u8>, b: &Vec<u8>) -> (same: bool)
    ensures
        same == (a@ == b@),
{
    if a.len() != b.len() {
        return false;
    }
    let mut i: usize = 0;
    while i < a.len()
        invariant
            a@.len() == b@.len(),
            i <= a@.len(),
            forall|k: int| 0 <= k < i ==> a@[k] == b@[k],
        decreases a@.len() - i,
    {
        if a[i] != b[i] {
            return false;
        }
        i += 1;
    }
    assert(a@ =~= b@);
    true
}

impl Config {
    /// The secret of a class, or `None` where it is unavailable.
    pub closed spec fn secret_spec(&self, class: Token) -> Option<Seq<u8>> {
        match class {
            Token::Access => match self.access_secret {
                Some(s) => Some(s@),
                None => None,
            },
            Token::Refresh => match self.refresh_secret {
                Some(s) => Some(s@),
                None => None,
            },
        }
    }

    /// The lifetime of a class in seconds.
    pub closed spec fn lifetime_spec(&self, class: Token) -> u64 {
        match class {
            Token::Access => self.access_lifetime,
            Token::Refresh => self.refresh_lifetime,
        }
    }

    /// The two classes share no secret.
    pub open spec fn wf(&self) -> bool {
        self.secret_spec(Token::Access) is Some ==> self.secret_spec(Token::Access)
            != self.secret_spec(Token::Refresh)
    }

    /// A configuration with the default lifetimes. Refused where both secrets are
    /// available and equal.
    pub fn new(access_secret: Option<Vec<u8>>, refresh_secret: Option<Vec<u8>>) -> (cfg: Option<
        Config,
    >)
        ensures
            cfg is None <==> (access_secret is Some && refresh_secret is Some
                && access_secret->0@ == refresh_secret->0@),
            cfg is Some ==> {
                &&& cfg->0.wf()
                &&& cfg->0.secret_spec(Token::Access) == match access_secret {
                    Some(s) => Some(s@),
                    None => None,
                }
                &&& cfg->0.secret_spec(Token::Refresh) == match refresh_secret {
                    Some(s) => Some(s@),
                    None => None,
                }
                &&& cfg->0.lifetime_spec(Token::Access) == ACCESS_LIFETIME
                &&& cfg->0.lifetime_spec(Token::Refresh) == REFRESH_LIFETIME
            },
    {
        let shared = match (&access_secret, &refresh_secret) {
            (Some(a), Some(r)) => bytes_eq(a, r),
            _ => false,
        };
        if shared {
            None
        } else {
            Some(
                Config {
                    access_secret,
                    refresh_secret,
                    access_lifetime: ACCESS_LIFETIME,
                    refresh_lifetime: REFRESH_LIFETIME,
                },
            )
        }
    }

    /// The same secrets with other lifetimes.
    pub fn with_lifetimes(self, access_lifetime: u64, refresh_lifetime: u64) -> (cfg: Config)
        ensures
            cfg.wf() == self.wf(),
            cfg.secret_spec(Token::Access) == self.secret_spec(Token::Access),
            cfg.secret_spec(Token::Refresh) == self.secret_spec(Token::Refresh),
            cfg.lifetime_spec(Token::Access) == access_lifetime,
            cfg.lifetime_spec(Token::Refresh) == refresh_lifetime,
    {
        Config {
            access_secret: self.access_secret,
            refresh_secret: self.refresh_secret,
            access_lifetime,
            refresh_lifetime,
        }
    }

    pub fn secret(&self, class: Token) -> (secret: Option<&Vec<u8>>)
        ensures
            match secret {
                Some(s) => self.secret_spec(class) == Some(s@),
                None => self.secret_spec(class) is None,
            },
    {
        match class {
            Token::Access => self.access_secret.as_ref(),
            Token::Refresh => self.refresh_secret.as_ref(),
        }
    }

    pub fn lifetime(&self, class: Token) -> (seconds: u64)
        ensures
            seconds == self.lifetime_spec(class),
    {
        match class {
            Token::Access => self.access_lifetime,
            Token::Refresh => self.refresh_lifetime,
        }
    }
}

} // verus!
