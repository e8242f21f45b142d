//! Login and the protected-route check.
//!
//! Both are written twice. [`login`] and [`auth`] run a whole request against a
//! store in memory. Where the store is reached by other means, the same
//! decisions are taken step by step: [`login_begin`] and [`login_finish`] around
//! the write, and [`auth_begin`], [`auth_rotate`] and [`auth_finish`] around the
//! read and the write.
use crate::claims::decodes_to;
use crate::claims::decoding;
use crate::claims::encoding;
use crate::claims::pair_spec;
use crate::claims::Claims;
use crate::claims::LoginBody;
use crate::claims::UserExtension;
use crate::clock::current_time;
use crate::clock::Reading;
use crate::config::Config;
use crate::config::Token;
use crate::cookie::issued_cookie;
use crate::cookie::Cookies;
use crate::error::Failure;
use crate::error::HandlerError;
use crate::error::HandlerResult;
use crate::error::StatusCode;
use crate::store::after_rotate;
use crate::store::after_set;
use crate::store::holds;
use crate::store::is_current;
use crate::store::rotate_result;
use crate::store::set_result;
use crate::store::Ledger;
use crate::store::RevocationStore;
use vstd::prelude::*;

verus! {

/// A freshly issued pair of tokens: the claims of each, and the token that
/// encodes them.
#[derive(Debug)]
pub struct Issued {
    pub acc_claims: Claims,
    pub acc_token: String,
    pub ref_claims: Claims,
    pub ref_token: String,
}

pub struct IssuedView {
    pub acc_claims: Claims,
    pub acc_token: Seq<char>,
    pub ref_claims: Claims,
    pub ref_token: Seq<char>,
}

impl View for Issued {
    type V = IssuedView;

    open spec fn view(&self) -> IssuedView {
        IssuedView {
            acc_claims: self.acc_claims,
            acc_token: self.acc_token@,
            ref_claims: self.ref_claims,
            ref_token: self.ref_token@,
        }
    }
}

/// The pair issued at `now` for a user: claims with the configured lifetimes,
/// each encoded with the secret of its class.
pub open spec fn issuing(cfg: &Config, user: UserExtension, now: Reading) -> Result<
    IssuedView,
    Failure,
> {
    let pair = pair_spec(
        user,
        now,
        cfg.lifetime_spec(Token::Access),
        cfg.lifetime_spec(Token::Refresh),
    );
    match encoding(cfg.secret_spec(Token::Access), pair.0) {
        Err(e) => Err(e),
        Ok(acc_token) => match encoding(cfg.secret_spec(Token::Refresh), pair.1) {
            Err(e) => Err(e),
            Ok(ref_token) => Ok(
                IssuedView { acc_claims: pair.0, acc_token, ref_claims: pair.1, ref_token },
            ),
        },
    }
}

/// Whether an outcome of issuing is the one that [`issuing`] gives.
pub open spec fn is_issuing(
    outcome: Result<Issued, Failure>,
    cfg: &Config,
    user: UserExtension,
    now: Reading,
) -> bool {
    match outcome {
        Ok(issued) => issuing(cfg, user, now) == Ok::<IssuedView, Failure>(issued@),
        Err(e) => issuing(cfg, user, now) == Err::<IssuedView, Failure>(e),
    }
}

/// Whether each token of a pair decodes, against the secret of its class, to its
/// claims until they expire, and to nothing after.
pub open spec fn verifiable(cfg: &Config, issued: IssuedView) -> bool {
    &&& cfg.secret_spec(Token::Access) is Some
    &&& cfg.secret_spec(Token::Refresh) is Some
    &&& decodes_to(cfg.secret_spec(Token::Access)->0, issued.acc_token, issued.acc_claims)
    &&& decodes_to(cfg.secret_spec(Token::Refresh)->0, issued.ref_token, issued.ref_claims)
}

/// Whether the refresh cookie among the cookies decodes to the given claims until
/// they expire, and to nothing after.
pub open spec fn refresh_cookie_verifies(cookies: &Cookies, cfg: &Config, claims: Claims) -> bool {
    &&& cookies.get_spec(Token::Refresh) is Some
    &&& cfg.secret_spec(Token::Refresh) is Some
    &&& decodes_to(
        cfg.secret_spec(Token::Refresh)->0,
        cookies.get_spec(Token::Refresh)->0.value,
        claims,
    )
}

/// Issues a pair of tokens at `now`. This fails if and only if a secret is
/// unavailable.
pub fn issue_tokens(cfg: &Config, user: UserExtension, now: Reading) -> (issued: Result<
    Issued,
    Failure,
>)
    ensures
        is_issuing(issued, cfg, user, now),
        issued is Ok ==> verifiable(cfg, issued->Ok_0@),
{
    let (acc_claims, ref_claims) = Claims::pair_at(user, now, cfg);
    let acc_token = match acc_claims.to_token(cfg, Token::Access) {
        Ok(token) => token,
        Err(e) => {
            return Err(e);
        },
    };
    let ref_token = match ref_claims.to_token(cfg, Token::Refresh) {
        Ok(token) => token,
        Err(e) => {
            return Err(e);
        },
    };
    Ok(Issued { acc_claims, acc_token, ref_claims, ref_token })
}

/// Whether the cookies hold an issued pair: each token in the cookie of its
/// class, which expires when the token does.
pub open spec fn attached(issued: IssuedView, after: &Cookies) -> bool {
    &&& after.get_spec(Token::Access) == Some(
        issued_cookie(Token::Access, issued.acc_token, issued.acc_claims.exp),
    )
    &&& after.get_spec(Token::Refresh) == Some(
        issued_cookie(Token::Refresh, issued.ref_token, issued.ref_claims.exp),
    )
}

/// Files both tokens of an issued pair, each in its cookie, among the cookies of
/// the request.
pub fn attach(cookies: &mut Cookies, issued: Issued)
    ensures
        attached(issued@, final(cookies)),
        old(cookies).wf() ==> final(cookies).wf(),
{
    issued.acc_claims.into_cookie(cookies, Token::Access, issued.acc_token);
    issued.ref_claims.into_cookie(cookies, Token::Refresh, issued.ref_token);
}

/// How a login goes on after [`login_begin`].
#[derive(Debug)]
pub enum LoginStep {
    /// The request is answered; nothing is to be stored.
    Done(HandlerResult<StatusCode>),
    /// The refresh token of the pair is to be set for its user; the outcome goes
    /// to [`login_finish`].
    Store(Issued),
}

/// What [`login_begin`] decides.
pub open spec fn login_begin_spec(
    cookies: &Cookies,
    cfg: &Config,
    id: i32,
    now: Reading,
    step: LoginStep,
) -> bool {
    if cookies.get_spec(Token::Access) is Some {
        step == LoginStep::Done(Ok(StatusCode::NoContent))
    } else {
        match issuing(cfg, UserExtension { id }, now) {
            Err(e) => step == LoginStep::Done(Err(HandlerError::of(e))),
            Ok(issued) => step is Store && step->Store_0@ == issued,
        }
    }
}

/// The first step of a login: a session that still has its access cookie is left
/// alone; otherwise a pair is issued for the identity in the payload.
pub fn login_begin(cookies: &Cookies, cfg: &Config, body: &LoginBody, now: Reading) -> (step:
    LoginStep)
    ensures
        login_begin_spec(cookies, cfg, body.id, now, step),
        step is Store ==> verifiable(cfg, step->Store_0@),
{
    if cookies.has(Token::Access) {
        return LoginStep::Done(Ok(StatusCode::NoContent));
    }
    match issue_tokens(cfg, UserExtension { id: body.id }, now) {
        Ok(issued) => LoginStep::Store(issued),
        Err(e) => LoginStep::Done(Err(HandlerError::from_failure(e))),
    }
}

/// The last step of a login: the cookies are attached if the store took the
/// refresh token, and the failure is answered if it did not.
pub fn login_finish(cookies: &mut Cookies, issued: Issued, stored: Result<(), Failure>) -> (answer:
    HandlerResult<StatusCode>)
    ensures
        old(cookies).wf() ==> final(cookies).wf(),
        match stored {
            Ok(_) => {
                &&& answer == Ok::<StatusCode, HandlerError>(StatusCode::Success)
                &&& attached(issued@, final(cookies))
            },
            Err(e) => {
                &&& answer == Err::<StatusCode, HandlerError>(HandlerError::of(e))
                &&& final(cookies).same(old(cookies))
            },
        },
{
    match stored {
        Ok(_) => {
            attach(cookies, issued);
            Ok(StatusCode::Success)
        },
        Err(e) => Err(HandlerError::from_failure(e)),
    }
}

/// What a login at `now` answers and changes.
pub open spec fn login_effect(
    before: &Cookies,
    ledger: Ledger,
    cfg: &Config,
    id: i32,
    now: Reading,
    answer: HandlerResult<StatusCode>,
    after: &Cookies,
    ledger_after: Ledger,
) -> bool {
    if before.get_spec(Token::Access) is Some {
        &&& answer == Ok::<StatusCode, HandlerError>(StatusCode::NoContent)
        &&& after.same(before)
        &&& ledger_after == ledger
    } else {
        match issuing(cfg, UserExtension { id }, now) {
            Err(e) => {
                &&& answer == Err::<StatusCode, HandlerError>(HandlerError::of(e))
                &&& after.same(before)
                &&& ledger_after == ledger
            },
            Ok(issued) => match set_result(ledger, id) {
                Ok(_) => {
                    &&& answer == Ok::<StatusCode, HandlerError>(StatusCode::Success)
                    &&& attached(issued, after)
                    &&& ledger_after == after_set(ledger, id, issued.ref_token)
                },
                Err(e) => {
                    &&& answer == Err::<StatusCode, HandlerError>(HandlerError::of(e))
                    &&& after.same(before)
                    &&& ledger_after == ledger
                },
            },
        }
    }
}

/// Logs the identity of the payload in at `now`, against a store in memory.
pub fn login_at(
    cookies: &mut Cookies,
    store: &mut RevocationStore,
    cfg: &Config,
    body: &LoginBody,
    now: Reading,
) -> (answer: HandlerResult<StatusCode>)
    requires
        old(store).wf(),
    ensures
        final(store).wf(),
        old(cookies).wf() ==> final(cookies).wf(),
        login_effect(
            old(cookies),
            old(store)@,
            cfg,
            body.id,
            now,
            answer,
            final(cookies),
            final(store)@,
        ),
        answer == Ok::<StatusCode, HandlerError>(StatusCode::Success) ==> refresh_cookie_verifies(
            final(cookies),
            cfg,
            pair_spec(
                UserExtension { id: body.id },
                now,
                cfg.lifetime_spec(Token::Access),
                cfg.lifetime_spec(Token::Refresh),
            ).1,
        ),
{
    match login_begin(cookies, cfg, body, now) {
        LoginStep::Done(answer) => answer,
        LoginStep::Store(issued) => {
            let stored = store.set_token(body.id, issued.ref_token.clone());
            login_finish(cookies, issued, stored)
        },
    }
}

/// Logs the identity of the payload in, against a store in memory.
///
/// The pair is issued at the time of the call, so the contract holds for some
/// reading of the clock.
pub fn login(cookies: &mut Cookies, store: &mut RevocationStore, cfg: &Config, body: &LoginBody) -> (answer:
    HandlerResult<StatusCode>)
    requires
        old(store).wf(),
    ensures
        final(store).wf(),
        old(cookies).wf() ==> final(cookies).wf(),
        exists|now: Reading| #[trigger]
            login_effect(
                old(cookies),
                old(store)@,
                cfg,
                body.id,
                now,
                answer,
                final(cookies),
                final(store)@,
            ),
{
    let now = current_time();
    let answer = login_at(cookies, store, cfg, body, now);
    assert(login_effect(
        old(cookies),
        old(store)@,
        cfg,
        body.id,
        now,
        answer,
        final(cookies),
        final(store)@,
    ));
    answer
}

/// What verifying the refresh cookie of a request at `now` gives: the claims of
/// the token in it, or "unauthenticated" where there is no such cookie or the
/// token does not decode.
pub open spec fn refresh_decoding(cookies: &Cookies, cfg: &Config, now: Reading) -> Result<
    Claims,
    Failure,
> {
    match cookies.get_spec(Token::Refresh) {
        Some(cookie) => decoding(cfg.secret_spec(Token::Refresh), cookie.value, now),
        None => Err(Failure::Unauthenticated),
    }
}

/// Verifies the refresh cookie of a request and reads its claims, as the clock
/// stands at `now`.
pub fn decode_refresh_at(cookies: &Cookies, cfg: &Config, now: Reading) -> (decoded: Result<
    Claims,
    Failure,
>)
    ensures
        decoded == refresh_decoding(cookies, cfg, now),
{
    match cookies.get(Token::Refresh) {
        Some(cookie) => Claims::from_token_at(cfg, Token::Refresh, cookie.value().as_str(), now),
        None => Err(Failure::Unauthenticated),
    }
}

/// Verifies the refresh cookie of a request and reads its claims, as the clock
/// stands at the time of the call. A request without one is unauthenticated.
pub fn decode_refresh(cookies: &Cookies, cfg: &Config) -> (decoded: Result<Claims, Failure>)
    ensures
        exists|now: Reading| decoded == #[trigger] refresh_decoding(cookies, cfg, now),
        decoded is Err ==> decoded == Err::<Claims, Failure>(Failure::Unauthenticated),
        cookies.get_spec(Token::Refresh) is None ==> decoded is Err,
        cfg.secret_spec(Token::Refresh) is None ==> decoded is Err,
{
    let now = current_time();
    let decoded = decode_refresh_at(cookies, cfg, now);
    assert(decoded == refresh_decoding(cookies, cfg, now));
    decoded
}

/// How the protected-route check goes on after [`auth_begin`].
#[derive(Debug)]
pub enum AuthStep {
    /// The request is answered: rejected, or let through as the user.
    Done(HandlerResult<UserExtension>),
    /// The access cookie is gone. The store is to be asked whether `token` is
    /// still current; the answer goes to [`auth_rotate`].
    Check { claims: Claims, token: String },
}

/// What [`auth_begin`] decides.
pub open spec fn auth_begin_spec(
    cookies: &Cookies,
    decoded: Result<Claims, Failure>,
    step: AuthStep,
) -> bool {
    match cookies.get_spec(Token::Refresh) {
        None => step == AuthStep::Done(Err(HandlerError::of(Failure::Unauthenticated))),
        Some(refresh) => match decoded {
            Err(_) => step == AuthStep::Done(Err(HandlerError::of(Failure::Unauthenticated))),
            Ok(claims) => if cookies.get_spec(Token::Access) is Some {
                step == AuthStep::Done(Ok(claims.user))
            } else {
                &&& step is Check
                &&& step->claims == claims
                &&& step->token@ == refresh.value
            },
        },
    }
}

/// The first step of the protected-route check, given what verifying the
/// refresh cookie gave.
///
/// Without a refresh cookie, or with one that does not verify, the request is
/// rejected. With a verified one and an access cookie beside it, the request is
/// let through as the user of the refresh token: the access cookie is not looked
/// into. With a verified one alone, the tokens are to be rotated.
pub fn auth_begin(cookies: &Cookies, decoded: Result<Claims, Failure>) -> (step: AuthStep)
    ensures
        auth_begin_spec(cookies, decoded, step),
{
    let refresh = match cookies.get(Token::Refresh) {
        Some(cookie) => cookie,
        None => {
            return AuthStep::Done(Err(HandlerError::from_failure(Failure::Unauthenticated)));
        },
    };
    match decoded {
        Err(_) => AuthStep::Done(Err(HandlerError::from_failure(Failure::Unauthenticated))),
        Ok(claims) => {
            if cookies.has(Token::Access) {
                AuthStep::Done(Ok(claims.user))
            } else {
                AuthStep::Check { claims, token: refresh.value().clone() }
            }
        },
    }
}

/// The pair that a rotation is to put in place, given what the store said of the
/// token presented: none if the store failed or the token is superseded.
pub open spec fn auth_rotate_spec(
    cfg: &Config,
    claims: Claims,
    current: Result<bool, Failure>,
    now: Reading,
) -> Result<IssuedView, Failure> {
    match current {
        Err(e) => Err(e),
        Ok(found) => if found {
            issuing(cfg, claims.user, now)
        } else {
            Err(Failure::Unauthenticated)
        },
    }
}

/// The second step of a rotation: a token that the store no longer holds is
/// rejected; for one that it holds, a new pair is issued for the same user.
pub fn auth_rotate(
    cfg: &Config,
    claims: &Claims,
    current: Result<bool, Failure>,
    now: Reading,
) -> (issued: Result<Issued, Failure>)
    ensures
        match issued {
            Ok(pair) => auth_rotate_spec(cfg, *claims, current, now) == Ok::<
                IssuedView,
                Failure,
            >(pair@),
            Err(e) => auth_rotate_spec(cfg, *claims, current, now) == Err::<IssuedView, Failure>(
                e,
            ),
        },
        issued is Ok ==> verifiable(cfg, issued->Ok_0@),
{
    match current {
        Err(e) => Err(e),
        Ok(found) => {
            if found {
                issue_tokens(cfg, claims.user, now)
            } else {
                Err(Failure::Unauthenticated)
            }
        },
    }
}

/// The answer to a request whose rotation the store accepted or refused.
pub open spec fn rotation_answer(claims: Claims, rotated: Result<(), Failure>) -> HandlerResult<
    UserExtension,
> {
    match rotated {
        Ok(_) => Ok(claims.user),
        Err(e) => Err(HandlerError::of(e)),
    }
}

/// The last step of a rotation: if the store replaced the old refresh token, the
/// new cookies are attached and the request is let through; if it did not, the
/// request is rejected and keeps its cookies.
pub fn auth_finish(
    cookies: &mut Cookies,
    claims: &Claims,
    issued: Issued,
    rotated: Result<(), Failure>,
) -> (answer: HandlerResult<UserExtension>)
    ensures
        old(cookies).wf() ==> final(cookies).wf(),
        answer == rotation_answer(*claims, rotated),
        rotated is Ok ==> attached(issued@, final(cookies)),
        rotated is Err ==> final(cookies).same(old(cookies)),
{
    match rotated {
        Ok(_) => {
            attach(cookies, issued);
            Ok(claims.user)
        },
        Err(e) => Err(HandlerError::from_failure(e)),
    }
}

/// What the protected-route check at `now` answers and changes, given what
/// verifying the refresh cookie gave.
pub open spec fn auth_effect(
    before: &Cookies,
    ledger: Ledger,
    cfg: &Config,
    decoded: Result<Claims, Failure>,
    now: Reading,
    answer: HandlerResult<UserExtension>,
    after: &Cookies,
    ledger_after: Ledger,
) -> bool {
    let rejected = {
        &&& answer == Err::<UserExtension, HandlerError>(
            HandlerError::of(Failure::Unauthenticated),
        )
        &&& after.same(before)
        &&& ledger_after == ledger
    };
    match before.get_spec(Token::Refresh) {
        None => rejected,
        Some(refresh) => match decoded {
            Err(_) => rejected,
            Ok(claims) => if before.get_spec(Token::Access) is Some {
                &&& answer == Ok::<UserExtension, HandlerError>(claims.user)
                &&& after.same(before)
                &&& ledger_after == ledger
            } else if !holds(ledger, refresh.value) {
                rejected
            } else {
                match issuing(cfg, claims.user, now) {
                    Err(e) => {
                        &&& answer == Err::<UserExtension, HandlerError>(HandlerError::of(e))
                        &&& after.same(before)
                        &&& ledger_after == ledger
                    },
                    Ok(issued) => match rotate_result(ledger, claims.user.id, refresh.value) {
                        Ok(_) => {
                            &&& answer == Ok::<UserExtension, HandlerError>(claims.user)
                            &&& attached(issued, after)
                            &&& ledger_after == after_rotate(
                                ledger,
                                claims.user.id,
                                refresh.value,
                                issued.ref_token,
                            )
                        },
                        Err(e) => {
                            &&& answer == Err::<UserExtension, HandlerError>(HandlerError::of(e))
                            &&& after.same(before)
                            &&& ledger_after == ledger
                        },
                    },
                }
            },
        },
    }
}

/// Checks a request to a protected route at `now`, against a store in memory,
/// given what verifying the refresh cookie gave.
pub fn auth_with(
    cookies: &mut Cookies,
    store: &mut RevocationStore,
    cfg: &Config,
    decoded: Result<Claims, Failure>,
    now: Reading,
) -> (answer: HandlerResult<UserExtension>)
    requires
        old(store).wf(),
    ensures
        final(store).wf(),
        old(cookies).wf() ==> final(cookies).wf(),
        auth_effect(
            old(cookies),
            old(store)@,
            cfg,
            decoded,
            now,
            answer,
            final(cookies),
            final(store)@,
        ),
        answer is Ok && old(cookies).get_spec(Token::Access) is None ==> decoded is Ok
            && refresh_cookie_verifies(
            final(cookies),
            cfg,
            pair_spec(
                decoded->Ok_0.user,
                now,
                cfg.lifetime_spec(Token::Access),
                cfg.lifetime_spec(Token::Refresh),
            ).1,
        ),
{
    match auth_begin(cookies, decoded) {
        AuthStep::Done(answer) => answer,
        AuthStep::Check { claims, token } => {
            let current = Ok(store.exists_token(token.as_str()));
            match auth_rotate(cfg, &claims, current, now) {
                Err(e) => Err(HandlerError::from_failure(e)),
                Ok(issued) => {
                    let rotated = store.rotate_token(
                        claims.user.id,
                        token.as_str(),
                        issued.ref_token.clone(),
                    );
                    auth_finish(cookies, &claims, issued, rotated)
                },
            }
        },
    }
}

/// Checks a request to a protected route as the clock stands at `now`, against
/// a store in memory: the refresh cookie is verified at `now`, and a new pair, if
/// one is due, is issued at `now`.
pub fn auth_at(cookies: &mut Cookies, store: &mut RevocationStore, cfg: &Config, now: Reading) -> (answer:
    HandlerResult<UserExtension>)
    requires
        old(store).wf(),
    ensures
        final(store).wf(),
        old(cookies).wf() ==> final(cookies).wf(),
        auth_effect(
            old(cookies),
            old(store)@,
            cfg,
            refresh_decoding(old(cookies), cfg, now),
            now,
            answer,
            final(cookies),
            final(store)@,
        ),
        answer is Ok && old(cookies).get_spec(Token::Access) is None ==> refresh_cookie_verifies(
            final(cookies),
            cfg,
            pair_spec(
                answer->Ok_0,
                now,
                cfg.lifetime_spec(Token::Access),
                cfg.lifetime_spec(Token::Refresh),
            ).1,
        ),
{
    let decoded = decode_refresh_at(cookies, cfg, now);
    auth_with(cookies, store, cfg, decoded, now)
}

/// Checks a request to a protected route, against a store in memory.
///
/// The clock is read once, so the contract holds for some reading of it.
/// Whatever it shows, a request without a refresh cookie is rejected and changes
/// nothing, and so is every request while the secret of the refresh class is
/// unavailable.
pub fn auth(cookies: &mut Cookies, store: &mut RevocationStore, cfg: &Config) -> (answer:
    HandlerResult<UserExtension>)
    requires
        old(store).wf(),
    ensures
        final(store).wf(),
        old(cookies).wf() ==> final(cookies).wf(),
        exists|now: Reading| #[trigger]
            auth_effect(
                old(cookies),
                old(store)@,
                cfg,
                refresh_decoding(old(cookies), cfg, now),
                now,
                answer,
                final(cookies),
                final(store)@,
            ),
        old(cookies).get_spec(Token::Refresh) is None ==> {
            &&& answer == Err::<UserExtension, HandlerError>(
                HandlerError::of(Failure::Unauthenticated),
            )
            &&& final(cookies).same(old(cookies))
            &&& final(store)@ == old(store)@
        },
        cfg.secret_spec(Token::Refresh) is None ==> {
            &&& answer == Err::<UserExtension, HandlerError>(
                HandlerError::of(Failure::Unauthenticated),
            )
            &&& final(cookies).same(old(cookies))
            &&& final(store)@ == old(store)@
        },
{
    let now = current_time();
    let answer = auth_at(cookies, store, cfg, now);
    assert(auth_effect(
        old(cookies),
        old(store)@,
        cfg,
        refresh_decoding(old(cookies), cfg, now),
        now,
        answer,
        final(cookies),
        final(store)@,
    ));
    answer
}

/// The character of a decimal digit.
pub open spec fn digit_char(d: int) -> char {
    if d == 0 {
        '0'
    } else if d == 1 {
        '1'
    } else if d == 2 {
        '2'
    } else if d == 3 {
        '3'
    } else if d == 4 {
        '4'
    } else if d == 5 {
        '5'
    } else if d == 6 {
        '6'
    } else if d == 7 {
        '7'
    } else if d == 8 {
        '8'
    } else {
        '9'
    }
}

/// A natural number in decimal, without leading zeros.
pub open spec fn decimal_nat(n: nat) -> Seq<char>
    decreases n,
{
    if n < 10 {
        seq![digit_char(n as int)]
    } else {
        decimal_nat(n / 10).push(digit_char((n % 10) as int))
    }
}

/// An integer in decimal, with a minus sign where it is negative.
pub open spec fn decimal(n: int) -> Seq<char> {
    if n < 0 {
        seq!['-'] + decimal_nat((-n) as nat)
    } else {
        decimal_nat(n as nat)
    }
}

fn digit_text(d: u64) -> (text: &'static str)
    requires
        d < 10,
    ensures
        text@ == seq![digit_char(d as int)],
{
    proof {
        reveal_strlit("0");
        reveal_strlit("1");
        reveal_strlit("2");
        reveal_strlit("3");
        reveal_strlit("4");
        reveal_strlit("5");
        reveal_strlit("6");
        reveal_strlit("7");
        reveal_strlit("8");
        reveal_strlit("9");
    }
    let text = if d == 0 {
        "0"
    } else if d == 1 {
        "1"
    } else if d == 2 {
        "2"
    } else if d == 3 {
        "3"
    } else if d == 4 {
        "4"
    } else if d == 5 {
        "5"
    } else if d == 6 {
        "6"
    } else if d == 7 {
        "7"
    } else if d == 8 {
        "8"
    } else {
        "9"
    };
    assert(text@ =~= seq![digit_char(d as int)]);
    text
}

fn nat_text(n: u64) -> (text: String)
    ensures
        text@ == decimal_nat(n as nat),
    decreases n,
{
    if n < 10 {
        digit_text(n).to_owned()
    } else {
        let text = nat_text(n / 10).concat(digit_text(n % 10));
        assert(text@ =~= decimal_nat((n / 10) as nat).push(digit_char((n % 10) as int)));
        text
    }
}

/// The protected handler: answers with the id of the authenticated user, in
/// decimal.
pub fn index(user: &UserExtension) -> (body: String)
    ensures
        body@ == decimal(user.id as int),
{
    let id: i64 = user.id as i64;
    if id < 0 {
        proof {
            reveal_strlit("-");
        }
        let digits = nat_text((-id) as u64);
        let body = "-".to_owned().concat(digits.as_str());
        assert(body@ =~= seq!['-'] + decimal_nat((-id) as nat));
        body
    } else {
        nat_text(id as u64)
    }
}

/// A login that follows a successful login, with the cookies that one left, is
/// answered with "no content": it issues no cookie and leaves the store alone,
/// whoever logs in.
pub proof fn login_twice_is_no_op(
    cfg: &Config,
    before: &Cookies,
    ledger: Ledger,
    first_id: i32,
    first_now: Reading,
    between: &Cookies,
    ledger_between: Ledger,
    second_id: i32,
    second_now: Reading,
    answer: HandlerResult<StatusCode>,
    after: &Cookies,
    ledger_after: Ledger,
)
    requires
        login_effect(
            before,
            ledger,
            cfg,
            first_id,
            first_now,
            Ok(StatusCode::Success),
            between,
            ledger_between,
        ),
        login_effect(
            between,
            ledger_between,
            cfg,
            second_id,
            second_now,
            answer,
            after,
            ledger_after,
        ),
    ensures
        answer == Ok::<StatusCode, HandlerError>(StatusCode::NoContent),
        after.same(between),
        ledger_after == ledger_between,
{
}

/// While the access cookie is present, a login is answered with "no content" and
/// changes nothing.
pub proof fn login_with_access_cookie_is_no_op(
    cfg: &Config,
    before: &Cookies,
    ledger: Ledger,
    id: i32,
    now: Reading,
    answer: HandlerResult<StatusCode>,
    after: &Cookies,
    ledger_after: Ledger,
)
    requires
        before.get_spec(Token::Access) is Some,
        login_effect(before, ledger, cfg, id, now, answer, after, ledger_after),
    ensures
        answer == Ok::<StatusCode, HandlerError>(StatusCode::NoContent),
        after.same(before),
        ledger_after == ledger,
{
}

/// After a successful login the store holds, for the identity that logged in,
/// exactly the token in the refresh cookie, and both cookies are closed to
/// scripts and bound to secure channels.
pub proof fn login_stores_the_cookie_token(
    cfg: &Config,
    before: &Cookies,
    ledger: Ledger,
    id: i32,
    now: Reading,
    after: &Cookies,
    ledger_after: Ledger,
)
    requires
        login_effect(before, ledger, cfg, id, now, Ok(StatusCode::Success), after, ledger_after),
    ensures
        after.get_spec(Token::Access) is Some,
        after.get_spec(Token::Refresh) is Some,
        is_current(ledger_after, id, after.get_spec(Token::Refresh)->0.value),
        after.get_spec(Token::Access)->0.http_only && after.get_spec(Token::Access)->0.secure,
        after.get_spec(Token::Refresh)->0.http_only && after.get_spec(Token::Refresh)->0.secure,
        ledger.contains_key(id),
{
}

/// Issuing a pair fails if and only if a secret is unavailable, whatever the
/// clock shows.
pub proof fn issuing_needs_both_secrets(cfg: &Config, user: UserExtension, now: Reading)
    ensures
        issuing(cfg, user, now) is Ok <==> cfg.secret_spec(Token::Access) is Some
            && cfg.secret_spec(Token::Refresh) is Some,
        issuing(cfg, user, now) is Err ==> issuing(cfg, user, now) == Err::<
            IssuedView,
            Failure,
        >(Failure::BackendFailure),
{
}

/// A login without an access cookie succeeds if and only if both secrets are
/// available and the identity is known; with both secrets and an unknown
/// identity it is answered with "not found".
pub proof fn login_succeeds_for_known_identity(
    cfg: &Config,
    before: &Cookies,
    ledger: Ledger,
    id: i32,
    now: Reading,
    answer: HandlerResult<StatusCode>,
    after: &Cookies,
    ledger_after: Ledger,
)
    requires
        before.get_spec(Token::Access) is None,
        cfg.secret_spec(Token::Access) is Some,
        cfg.secret_spec(Token::Refresh) is Some,
        login_effect(before, ledger, cfg, id, now, answer, after, ledger_after),
    ensures
        ledger.contains_key(id) ==> answer == Ok::<StatusCode, HandlerError>(StatusCode::Success),
        !ledger.contains_key(id) ==> answer == Err::<StatusCode, HandlerError>(
            HandlerError(StatusCode::NotFound),
        ),
{
}

/// Two requests present the same refresh token without an access cookie, one
/// after the other. If the token is current and the first puts a different one
/// in its place, the first is let through with new cookies and the store
/// updated, and the second is rejected as unauthorized and changes nothing.
pub proof fn rotation_has_one_winner(
    cfg: &Config,
    cookies: &Cookies,
    ledger: Ledger,
    claims: Claims,
    first_now: Reading,
    first_answer: HandlerResult<UserExtension>,
    first_after: &Cookies,
    ledger_between: Ledger,
    second_now: Reading,
    second_answer: HandlerResult<UserExtension>,
    second_after: &Cookies,
    ledger_after: Ledger,
)
    requires
        cookies.get_spec(Token::Access) is None,
        cookies.get_spec(Token::Refresh) is Some,
        is_current(ledger, claims.user.id, cookies.get_spec(Token::Refresh)->0.value),
        issuing(cfg, claims.user, first_now) is Ok,
        issuing(cfg, claims.user, first_now)->Ok_0.ref_token != cookies.get_spec(
            Token::Refresh,
        )->0.value,
        auth_effect(
            cookies,
            ledger,
            cfg,
            Ok(claims),
            first_now,
            first_answer,
            first_after,
            ledger_between,
        ),
        auth_effect(
            cookies,
            ledger_between,
            cfg,
            Ok(claims),
            second_now,
            second_answer,
            second_after,
            ledger_after,
        ),
    ensures
        first_answer == Ok::<UserExtension, HandlerError>(claims.user),
        attached(issuing(cfg, claims.user, first_now)->Ok_0, first_after),
        is_current(
            ledger_between,
            claims.user.id,
            issuing(cfg, claims.user, first_now)->Ok_0.ref_token,
        ),
        second_answer == Err::<UserExtension, HandlerError>(
            HandlerError(StatusCode::Unauthorized),
        ),
        second_after.same(cookies),
        ledger_after == ledger_between,
{
    let old_token = cookies.get_spec(Token::Refresh)->0.value;
    assert(holds(ledger, old_token)) by {
        assert(ledger.contains_key(claims.user.id) && ledger[claims.user.id] == Some(old_token));
    }
}

/// Two requests present the same current refresh token and both find it in the
/// store before either rotates. Whatever the order in which the store then takes
/// the two rotations, the first is let through and the second is rejected as
/// unauthorized, and the store keeps the token of the first.
///
/// This needs the first to put a token in place that differs from the one it
/// replaces.
pub proof fn racing_rotations_have_one_winner(
    ledger: Ledger,
    claims: Claims,
    old_token: Seq<char>,
    first: Seq<char>,
    second: Seq<char>,
)
    requires
        is_current(ledger, claims.user.id, old_token),
        first != old_token,
    ensures
        rotation_answer(claims, rotate_result(ledger, claims.user.id, old_token)) == Ok::<
            UserExtension,
            HandlerError,
        >(claims.user),
        rotation_answer(
            claims,
            rotate_result(
                after_rotate(ledger, claims.user.id, old_token, first),
                claims.user.id,
                old_token,
            ),
        ) == Err::<UserExtension, HandlerError>(HandlerError(StatusCode::Unauthorized)),
        after_rotate(
            after_rotate(ledger, claims.user.id, old_token, first),
            claims.user.id,
            old_token,
            second,
        ) == after_rotate(ledger, claims.user.id, old_token, first),
        is_current(after_rotate(ledger, claims.user.id, old_token, first), claims.user.id, first),
{
}

/// A request that presents, without an access cookie, a refresh token that the
/// store does not hold is rejected as unauthorized and changes nothing, whether
/// or not the token still verifies.
pub proof fn superseded_refresh_is_rejected(
    cfg: &Config,
    cookies: &Cookies,
    ledger: Ledger,
    decoded: Result<Claims, Failure>,
    now: Reading,
    answer: HandlerResult<UserExtension>,
    after: &Cookies,
    ledger_after: Ledger,
)
    requires
        cookies.get_spec(Token::Access) is None,
        cookies.get_spec(Token::Refresh) is Some ==> !holds(
            ledger,
            cookies.get_spec(Token::Refresh)->0.value,
        ),
        auth_effect(cookies, ledger, cfg, decoded, now, answer, after, ledger_after),
    ensures
        answer == Err::<UserExtension, HandlerError>(HandlerError(StatusCode::Unauthorized)),
        after.same(cookies),
        ledger_after == ledger,
{
}

/// A request is let through only with a refresh cookie that verified, and then
/// as the user that the refresh token names. A request that is rejected changes
/// neither its cookies nor the store, and a rotation replaces both tokens
/// together or none.
pub proof fn auth_grants_the_decoded_identity(
    cfg: &Config,
    cookies: &Cookies,
    ledger: Ledger,
    decoded: Result<Claims, Failure>,
    now: Reading,
    answer: HandlerResult<UserExtension>,
    after: &Cookies,
    ledger_after: Ledger,
)
    requires
        auth_effect(cookies, ledger, cfg, decoded, now, answer, after, ledger_after),
    ensures
        answer is Ok ==> cookies.get_spec(Token::Refresh) is Some && decoded is Ok
            && answer->Ok_0 == decoded->Ok_0.user,
        answer is Err ==> after.same(cookies) && ledger_after == ledger,
        answer is Err ==> answer->Err_0.0 == StatusCode::Unauthorized || answer->Err_0.0
            == StatusCode::InternalServerError,
        ledger_after != ledger ==> after.get_spec(Token::Access) is Some && after.get_spec(
            Token::Refresh,
        ) is Some && is_current(
            ledger_after,
            decoded->Ok_0.user.id,
            after.get_spec(Token::Refresh)->0.value,
        ),
{
}

} // verus!
