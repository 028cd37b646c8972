//! Session and token lifecycle engine.
//!
//! The crate issues short-lived signed access tokens and long-lived opaque
//! refresh tokens, verifies the bearer token of each request against a
//! TTL-capable revocation store, revokes access tokens on logout, and renews
//! sessions through a refresh protocol that conditionally rotates the refresh
//! token.
//!
//! All store traffic is expressed as plain values: the engine computes store
//! keys and write commands ([`store::StoreWrite`]) and interprets lookup
//! results, while the surrounding application performs the actual round trips
//! and supplies the current time.

pub mod b64;
pub mod codec;
pub mod keys;
pub mod laws;
pub mod login;
pub mod password;
pub mod random;
pub mod refresh;
pub mod session;
pub mod store;
pub mod text;
pub mod user_id;
