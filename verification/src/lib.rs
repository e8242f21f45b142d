//! Cookie-borne authentication with a short-lived access token and a long-lived,
//! server-revocable refresh token.
//!
//! The crate is organised leaf-first:
//!
//! * [`error`]: the failure taxonomy and the status each failure is answered with;
//! * [`config`]: the two token classes, their secrets and lifetimes;
//! * [`clock`]: expiry instants computed from the current time;
//! * [`codec`]: signing and verifying tokens;
//! * [`cookie`]: the cookies that carry the tokens;
//! * [`claims`]: the payload of a token;
//! * [`store`]: the record of the one refresh token that is current per identity;
//! * [`handler`]: login and the protected-route check, which rotates tokens.
pub mod error;
pub mod config;
pub mod clock;
pub mod codec;
pub mod cookie;
pub mod claims;
pub mod store;
pub mod handler;
