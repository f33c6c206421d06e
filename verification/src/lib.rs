//! Server-side validation of Cloudflare Turnstile challenge tokens.
//!
//! A verification is one HTTP call. This library decides what goes out and
//! what the answer comes to, and leaves the exchange itself to its caller:
//!
//! 1. [`TurnstileClient::outbound`] fills in the client's secret where the
//!    request has none and writes the JSON body of the call;
//! 2. the caller posts it and collects the body of the answer;
//! 3. [`TurnstileClient::conclude`] reads that body and returns the
//!    normalized answer, or the error codes that the service sent, or the
//!    reason why there is neither.
//!
//! Every function is verified against a contract stated over the models in
//! [`request`] and [`response`]; what is taken on trust from other crates is
//! gathered in [`bindings`].

pub mod bindings;
pub mod client;
pub mod error;
pub mod request;
pub mod response;

pub use client::{generate_indepotency_key, user_agent, PostRequest, TurnstileClient};
pub use request::SiteVerifyRequest;
pub use response::{RawSiteVerifyResponse, SiteVerifyResponse};
