//! Readings of the clock and the expiry instants computed from them, in whole
//! seconds since the Unix epoch.
//!
//! The clock is read in one place, [`current_time`]. Everything that depends on
//! the time takes a [`Reading`] as an argument, or says of itself that it reads
//! the clock.
use crate::config::Config;
use crate::config::Token;
use std::time::SystemTime;
use std::time::UNIX_EPOCH;
use vstd::prelude::*;

verus! {

/// What the clock shows, relative to the Unix epoch.
#[derive(Clone, Copy, Debug, PartialEq, Eq, Structural)]
pub enum Reading {
    /// The epoch or later: this many whole seconds after it.
    Since(u64),
    /// Earlier than the epoch, by `secs` whole seconds and `nanos` nanoseconds.
    Before { secs: u64, nanos: u32 },
}

/// Reads the system clock with `std::time::SystemTime::now` and measures it
/// against the Unix epoch with `duration_since`: the whole seconds since the
/// epoch, or, where the clock is set before it, the seconds and nanoseconds by
/// which it is. Nothing is claimed of the reading.
#[verifier::external_body]
pub(crate) fn unix_now() -> (now: Reading) {
    match SystemTime::now().duration_since(UNIX_EPOCH) {
        Ok(elapsed) => Reading::Since(elapsed.as_secs()),
        Err(behind) => Reading::Before {
            secs: behind.duration().as_secs(),
            nanos: behind.duration().subsec_nanos(),
        },
    }
}

/// The reading of the clock at the time of the call.
pub fn current_time() -> (now: Reading) {
    unix_now()
}

/// The instant at which a token issued at `now` with the given lifetime expires:
/// `now + lifetime`, in whole seconds since the epoch, rounded down.
///
/// Where the sum lies before the epoch or beyond the last instant that can be
/// written, the result is the epoch itself: the token is born expired.
pub open spec fn expiry_at(now: Reading, lifetime: u64) -> u64 {
    match now {
        Reading::Since(n) => if n + lifetime <= u64::MAX {
            (n + lifetime) as u64
        } else {
            0
        },
        Reading::Before { secs, nanos } => {
            let behind = if nanos == 0 {
                secs as int
            } else {
                secs + 1
            };
            if lifetime >= behind {
                (lifetime - behind) as u64
            } else {
                0
            }
        },
    }
}

pub fn expiry_from(now: Reading, lifetime: u64) -> (exp: u64)
    ensures
        exp == expiry_at(now, lifetime),
{
    match now {
        Reading::Since(n) => match n.checked_add(lifetime) {
            Some(exp) => exp,
            None => 0,
        },
        Reading::Before { secs, nanos } => {
            if lifetime < secs {
                0
            } else if nanos == 0 {
                lifetime - secs
            } else if lifetime > secs {
                lifetime - secs - 1
            } else {
                0
            }
        },
    }
}

/// Whether an expiry lies in the past at a reading of the clock. Before the
/// epoch no expiry does.
pub open spec fn expired_at(exp: u64, now: Reading) -> bool {
    match now {
        Reading::Since(n) => exp < n,
        Reading::Before { secs, nanos } => false,
    }
}

pub fn is_expired(exp: u64, now: Reading) -> (expired: bool)
    ensures
        expired == expired_at(exp, now),
{
    match now {
        Reading::Since(n) => exp < n,
        Reading::Before { secs, nanos } => false,
    }
}

/// The expiry of a token of the given class issued now.
pub fn expiry_for(cfg: &Config, class: Token) -> (exp: u64)
    ensures
        exists|now: Reading| exp == #[trigger] expiry_at(now, cfg.lifetime_spec(class)),
{
    let now = current_time();
    let exp = expiry_from(now, cfg.lifetime(class));
    assert(exp == expiry_at(now, cfg.lifetime_spec(class)));
    exp
}

/// With the clock at or after the epoch an expiry is the epoch or no earlier
/// than the lifetime; with the clock before the epoch it is no later than the
/// lifetime.
pub proof fn expiry_bounds(now: Reading, lifetime: u64)
    ensures
        now is Since ==> expiry_at(now, lifetime) == 0 || expiry_at(now, lifetime)
            == now->Since_0 + lifetime,
        now is Before ==> expiry_at(now, lifetime) <= lifetime,
        now is Before && now->nanos == 0 && lifetime >= now->secs ==> expiry_at(now, lifetime)
            == lifetime - now->secs,
{
}

/// Issued at the same time, the token with the longer lifetime expires no earlier,
/// unless its expiry cannot be expressed.
pub proof fn expiry_monotonic(now: Reading, short: u64, long: u64)
    requires
        short <= long,
        expiry_at(now, long) != 0,
    ensures
        expiry_at(now, short) <= expiry_at(now, long),
{
}

/// A token is not expired at the reading it was issued at, unless it was born
/// expired.
pub proof fn fresh_token_is_live(now: Reading, lifetime: u64)
    requires
        expiry_at(now, lifetime) != 0,
    ensures
        !expired_at(expiry_at(now, lifetime), now),
{
}

} // verus!
