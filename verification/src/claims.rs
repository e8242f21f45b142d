//! The payload of a token: whom it names and when it expires.
use crate::clock::current_time;
use crate::clock::expired_at;
use crate::clock::expiry_at;
use crate::clock::expiry_from;
use crate::clock::is_expired;
use crate::clock::Reading;
use crate::codec::sign_claims;
use crate::codec::signed_token;
use crate::codec::verified_payload;
use crate::codec::verify_token;
use crate::config::Config;
use crate::config::Token;
use crate::config::ACCESS_LIFETIME;
use crate::config::REFRESH_LIFETIME;
use crate::cookie::issued_cookie;
use crate::cookie::Cookie;
use crate::cookie::Cookies;
use crate::error::Failure;
use vstd::prelude::*;

verus! {

/// The identity of a user, as it is shared with the handlers behind the
/// protected-route check.
#[derive(Clone, Copy, Debug, PartialEq, Eq, Structural)]
pub struct UserExtension {
    pub id: i32,
}

/// The payload of a login request. The identity in it is trusted as it stands.
#[derive(Clone, Copy, Debug, PartialEq, Eq, Structural)]
pub struct LoginBody {
    pub id: i32,
}

/// What a token states: an identity, and the second at which the token expires.
#[derive(Clone, Copy, Debug, PartialEq, Eq, Structural)]
pub struct Claims {
    pub exp: u64,
    pub user: UserExtension,
}

/// The claims of an access token and of a refresh token issued at `now` for one
/// user. The two expire independently.
pub open spec fn pair_spec(
    user: UserExtension,
    now: Reading,
    access_lifetime: u64,
    refresh_lifetime: u64,
) -> (Claims, Claims) {
    (
        Claims { exp: expiry_at(now, access_lifetime), user },
        Claims { exp: expiry_at(now, refresh_lifetime), user },
    )
}

/// The token that encoding claims with the secret of a class gives: a backend
/// failure where the secret is unavailable.
pub open spec fn encoding(secret: Option<Seq<u8>>, claims: Claims) -> Result<Seq<char>, Failure> {
    match secret {
        Some(s) => Ok(signed_token(s, claims.exp, claims.user.id)),
        None => Err(Failure::BackendFailure),
    }
}

/// Whether an outcome of encoding is the one that [`encoding`] gives.
pub open spec fn is_encoding(
    outcome: Result<String, Failure>,
    secret: Option<Seq<u8>>,
    claims: Claims,
) -> bool {
    match outcome {
        Ok(t) => encoding(secret, claims) == Ok::<Seq<char>, Failure>(t@),
        Err(e) => encoding(secret, claims) == Err::<Seq<char>, Failure>(e),
    }
}

/// The claims in a verified payload. The identity must fit the type of an
/// identity; every failure is the one condition "unauthenticated".
pub open spec fn payload_claims(payload: Option<(u64, i64)>) -> Result<Claims, Failure> {
    match payload {
        Some((exp, id)) => if i32::MIN <= id <= i32::MAX {
            Ok(Claims { exp, user: UserExtension { id: id as i32 } })
        } else {
            Err(Failure::Unauthenticated)
        },
        None => Err(Failure::Unauthenticated),
    }
}

/// The claims that decoding a token at `now` gives: those in its payload, if the
/// secret is available, the signature verifies against it and the expiry does
/// not lie in the past. Every failure is the one condition "unauthenticated".
pub open spec fn decoding(secret: Option<Seq<u8>>, token: Seq<char>, now: Reading) -> Result<
    Claims,
    Failure,
> {
    match secret {
        Some(s) => match payload_claims(verified_payload(s, token)) {
            Ok(claims) => if expired_at(claims.exp, now) {
                Err(Failure::Unauthenticated)
            } else {
                Ok(claims)
            },
            Err(e) => Err(e),
        },
        None => Err(Failure::Unauthenticated),
    }
}

/// Whether a token decodes, with the given secret, to the given claims at every
/// reading of the clock at which they have not expired, and fails at every
/// other.
pub open spec fn decodes_to(secret: Seq<u8>, token: Seq<char>, claims: Claims) -> bool {
    forall|now: Reading| #[trigger]
        decoding(Some(secret), token, now) == if expired_at(claims.exp, now) {
            Err::<Claims, Failure>(Failure::Unauthenticated)
        } else {
            Ok::<Claims, Failure>(claims)
        }
}

impl Claims {
    /// The claims of the two tokens issued at `now` under a configuration.
    pub fn pair_at(user: UserExtension, now: Reading, cfg: &Config) -> (pair: (Claims, Claims))
        ensures
            pair == pair_spec(
                user,
                now,
                cfg.lifetime_spec(Token::Access),
                cfg.lifetime_spec(Token::Refresh),
            ),
    {
        (
            Claims { exp: expiry_from(now, cfg.lifetime(Token::Access)), user },
            Claims { exp: expiry_from(now, cfg.lifetime(Token::Refresh)), user },
        )
    }

    /// The claims of the two tokens issued now, with the default lifetimes, for
    /// the user with the given id.
    pub fn pair(id: i32) -> (pair: (Claims, Claims))
        ensures
            exists|now: Reading|
                pair == #[trigger] pair_spec(
                    UserExtension { id },
                    now,
                    ACCESS_LIFETIME,
                    REFRESH_LIFETIME,
                ),
    {
        Claims::new_pair(UserExtension { id })
    }

    /// The claims of the two tokens issued now, with the default lifetimes, for
    /// a user.
    pub fn new_pair(user: UserExtension) -> (pair: (Claims, Claims))
        ensures
            exists|now: Reading|
                pair == #[trigger] pair_spec(user, now, ACCESS_LIFETIME, REFRESH_LIFETIME),
    {
        let now = current_time();
        let pair = (
            Claims { exp: expiry_from(now, ACCESS_LIFETIME), user },
            Claims { exp: expiry_from(now, REFRESH_LIFETIME), user },
        );
        assert(pair == pair_spec(user, now, ACCESS_LIFETIME, REFRESH_LIFETIME));
        pair
    }

    /// Signs the claims with a secret. The token decodes to the same claims until
    /// they expire, and to nothing after.
    pub fn into_token(&self, secret: &[u8]) -> (token: Result<String, Failure>)
        ensures
            token is Ok,
            token->Ok_0@ == signed_token(secret@, self.exp, self.user.id),
            decodes_to(secret@, token->Ok_0@, *self),
    {
        match sign_claims(secret, self.exp, self.user.id) {
            Some(t) => {
                assert(payload_claims(verified_payload(secret@, t@)) == Ok::<Claims, Failure>(
                    *self,
                ));
                Ok(t)
            },
            None => Err(Failure::BackendFailure),
        }
    }

    /// Signs the claims with the secret of a class. This fails if and only if
    /// that secret is unavailable. The token decodes, against the secret of the
    /// same class, to the same claims until they expire, and to nothing after.
    pub fn to_token(&self, cfg: &Config, class: Token) -> (token: Result<String, Failure>)
        ensures
            is_encoding(token, cfg.secret_spec(class), *self),
            token is Ok <==> cfg.secret_spec(class) is Some,
            token is Ok ==> decodes_to(cfg.secret_spec(class)->0, token->Ok_0@, *self),
    {
        match cfg.secret(class) {
            Some(secret) => self.into_token(secret.as_slice()),
            None => Err(Failure::BackendFailure),
        }
    }

    /// The claims in what verifying a token gave.
    pub fn from_payload(payload: Option<(u64, i64)>) -> (claims: Result<Claims, Failure>)
        ensures
            claims == payload_claims(payload),
    {
        match payload {
            Some((exp, id)) => {
                if -0x8000_0000 <= id && id <= 0x7fff_ffff {
                    Ok(Claims { exp, user: UserExtension { id: id as i32 } })
                } else {
                    Err(Failure::Unauthenticated)
                }
            },
            None => Err(Failure::Unauthenticated),
        }
    }

    /// Verifies a token against the secret of a class and reads its claims, as
    /// the clock stands at `now`.
    pub fn from_token_at(cfg: &Config, class: Token, value: &str, now: Reading) -> (claims: Result<
        Claims,
        Failure,
    >)
        ensures
            claims == decoding(cfg.secret_spec(class), value@, now),
    {
        let payload = match cfg.secret(class) {
            Some(secret) => verify_token(secret.as_slice(), value),
            None => {
                return Err(Failure::Unauthenticated);
            },
        };
        match Claims::from_payload(payload) {
            Ok(claims) => {
                if is_expired(claims.exp, now) {
                    Err(Failure::Unauthenticated)
                } else {
                    Ok(claims)
                }
            },
            Err(e) => Err(e),
        }
    }

    /// Verifies a token against the secret of a class and reads its claims, as
    /// the clock stands at the time of the call.
    ///
    /// Whatever the clock shows, a failure is always the same one, nothing
    /// verifies without a secret or with a signature that does not verify, and a
    /// token that cannot expire decodes.
    pub fn from_token(cfg: &Config, class: Token, value: &str) -> (claims: Result<Claims, Failure>)
        ensures
            exists|now: Reading|
                claims == #[trigger] decoding(cfg.secret_spec(class), value@, now),
            claims is Err ==> claims == Err::<Claims, Failure>(Failure::Unauthenticated),
            cfg.secret_spec(class) is None ==> claims is Err,
            cfg.secret_spec(class) is Some && payload_claims(
                verified_payload(cfg.secret_spec(class)->0, value@),
            ) is Err ==> claims is Err,
            claims is Ok ==> payload_claims(verified_payload(cfg.secret_spec(class)->0, value@))
                == claims,
    {
        let now = current_time();
        let claims = Claims::from_token_at(cfg, class, value, now);
        assert(claims == decoding(cfg.secret_spec(class), value@, now));
        claims
    }

    /// The cookie that carries a token with these claims.
    pub fn to_cookie(&self, class: Token, value: String) -> (cookie: Cookie)
        ensures
            cookie@ == issued_cookie(class, value@, self.exp),
    {
        Cookie::build(class, value, self.exp)
    }

    /// Files the cookie that carries a token with these claims among the cookies
    /// of the request.
    pub fn into_cookie(self, cookies: &mut Cookies, class: Token, value: String)
        ensures
            final(cookies).get_spec(class) == Some(issued_cookie(class, value@, self.exp)),
            forall|other: Token|
                other != class ==> #[trigger] final(cookies).get_spec(other) == old(
                    cookies,
                ).get_spec(other),
            old(cookies).wf() ==> final(cookies).wf(),
    {
        cookies.add(self.to_cookie(class, value));
    }
}

/// The two tokens of a pair name the same user, the user they were issued for.
pub proof fn pair_shares_identity(
    user: UserExtension,
    now: Reading,
    access_lifetime: u64,
    refresh_lifetime: u64,
)
    ensures
        pair_spec(user, now, access_lifetime, refresh_lifetime).0.user == user,
        pair_spec(user, now, access_lifetime, refresh_lifetime).1.user == user,
{
}

/// With the default lifetimes and the clock at or after the epoch, the access
/// token expires 1 800 seconds and the refresh token 2 592 000 seconds after the
/// time of issue.
pub proof fn default_pair_expiries(user: UserExtension, now: u64)
    requires
        now + REFRESH_LIFETIME <= u64::MAX,
    ensures
        pair_spec(user, Reading::Since(now), ACCESS_LIFETIME, REFRESH_LIFETIME).0.exp == now
            + 1_800,
        pair_spec(user, Reading::Since(now), ACCESS_LIFETIME, REFRESH_LIFETIME).1.exp == now
            + 2_592_000,
{
}

/// With the clock before the epoch by whole seconds, each token expires at its
/// lifetime less those seconds, and at the epoch where that is negative: the
/// two are decided independently.
pub proof fn pair_before_the_epoch(user: UserExtension, secs: u64, short: u64, long: u64)
    requires
        short < secs <= long,
    ensures
        pair_spec(user, Reading::Before { secs, nanos: 0 }, short, long).0.exp == 0,
        pair_spec(user, Reading::Before { secs, nanos: 0 }, short, long).1.exp == long - secs,
{
}

/// Reading claims out of the two numbers they were written as gives the same
/// claims back.
pub proof fn payload_round_trip(claims: Claims)
    ensures
        payload_claims(Some((claims.exp, claims.user.id as i64))) == Ok::<Claims, Failure>(
            claims,
        ),
{
}

/// A token that decodes to given claims at one reading of the clock decodes to
/// the same claims at every reading at which they have not expired, and fails
/// at every reading at which they have.
pub proof fn decoding_depends_on_expiry_alone(
    secret: Seq<u8>,
    token: Seq<char>,
    claims: Claims,
    once: Reading,
)
    requires
        decoding(Some(secret), token, once) == Ok::<Claims, Failure>(claims),
    ensures
        decodes_to(secret, token, claims),
{
}

} // verus!
