//! The client: it keeps the site's secret and turns a request into the one
//! HTTP call to make, and what came back into the caller's result.

use crate::bindings::{is_version_four, random_uuid, secret_text, uuid_bits, Credential};
use crate::error::TurnstileError;
use crate::request::{lemma_request_round_trip, lookup, RequestFields, SiteVerifyRequest};
use crate::response::{outcome_of, outcome_of_body, SiteVerifyResponse};
use vstd::prelude::*;

verus! {

/// Where every verification call goes.
pub const SITEVERIFY_URL: &'static str = "https://challenges.cloudflare.com/turnstile/v0/siteverify";

/// The content type of the body of every verification call.
pub const CONTENT_TYPE: &'static str = "application/json";

/// The product name at the head of the user agent.
pub const PRODUCT: &'static str = "cf-turnstile";

/// A client for the Cloudflare Turnstile API.
pub struct TurnstileClient {
    secret: Credential,
}

/// The one HTTP call that a verification makes: a `POST` of `body` to `uri`
/// with the header `Content-Type: content_type`. The body holds the secret:
/// the type has no `Debug`, so that it does not end up in a log.
pub struct PostRequest {
    pub uri: &'static str,
    pub content_type: &'static str,
    pub body: String,
}

/// The request as it goes out: with the caller's secret where the caller
/// set one and the client's where not, and nothing else changed.
pub open spec fn prepared(credential: Seq<char>, request: RequestFields) -> RequestFields {
    RequestFields {
        secret: Some(
            match request.secret {
                Some(secret) => secret,
                None => credential,
            },
        ),
        ..request
    }
}

/// The user agent of a product at a homepage and in a version.
pub open spec fn user_agent_text(homepage: Seq<char>, version: Seq<char>) -> Seq<char> {
    PRODUCT@ + " ("@ + homepage + ", "@ + version + ")"@
}

/// The user agent to send with every call: the product name, then the
/// homepage and the version in parentheses.
pub fn user_agent(homepage: &str, version: &str) -> (agent: String)
    ensures
        agent@ == user_agent_text(homepage@, version@),
{
    PRODUCT.to_owned().concat(" (").concat(homepage).concat(", ").concat(version).concat(")")
}

/// Generate a new idempotency key: a random UUID, which is one of version 4.
/// There always is one. Which one it is differs from call to call.
pub fn generate_indepotency_key() -> (key: Option<uuid::Uuid>)
    ensures
        key matches Some(id) && is_version_four(uuid_bits(id)),
{
    Some(random_uuid())
}

impl TurnstileClient {
    /// The secret that the client keeps.
    pub closed spec fn credential(self) -> Seq<char> {
        secret_text(self.secret)
    }

    /// Create a new Turnstile client that keeps `secret` as its own.
    pub fn new(secret: String) -> (client: TurnstileClient)
        ensures
            client.credential() == secret@,
    {
        TurnstileClient { secret: Credential::hold(secret) }
    }

    /// Fills in the client's secret where the request has none. A secret
    /// that the caller set stays, and so does every other field.
    pub fn prepare(&self, request: SiteVerifyRequest) -> (ready: SiteVerifyRequest)
        ensures
            ready@ == prepared(self.credential(), request@),
    {
        match request.secret {
            Some(_) => request,
            None => SiteVerifyRequest {
                secret: Some(self.secret.expose()),
                response: request.response,
                remote_ip: request.remote_ip,
                idempotency_key: request.idempotency_key,
            },
        }
    }

    /// The HTTP call that verifies `request`: a `POST` of the prepared
    /// request's JSON body to the fixed address. It fails, with an error of
    /// the serialization kind, exactly where the body cannot be written.
    pub fn outbound(&self, request: SiteVerifyRequest) -> (call: Result<PostRequest, TurnstileError>)
        ensures
            match call {
                Ok(post) => {
                    &&& post.uri@ == SITEVERIFY_URL@
                    &&& post.content_type@ == CONTENT_TYPE@
                    &&& prepared(self.credential(), request@).body() == Some(post.body@)
                },
                Err(error) => error is SerdeError && prepared(
                    self.credential(),
                    request@,
                ).body() is None,
            },
    {
        match self.prepare(request).to_json() {
            Ok(body) => Ok(PostRequest { uri: SITEVERIFY_URL, content_type: CONTENT_TYPE, body }),
            Err(error) => Err(TurnstileError::SerdeError(error)),
        }
    }

    /// The caller's result from what the exchange gave. A failed exchange is
    /// handed on as it is; a body that arrived is read and decided on.
    pub fn conclude(exchange: Result<Vec<u8>, hyper::Error>) -> (result: Result<
        SiteVerifyResponse,
        TurnstileError,
    >)
        ensures
            match exchange {
                Ok(body) => outcome_of(result) == outcome_of_body(body@),
                Err(error) => result == Err::<SiteVerifyResponse, TurnstileError>(
                    TurnstileError::HyperError(error),
                ),
            },
    {
        match exchange {
            Ok(body) => SiteVerifyResponse::from_body(body.as_slice()),
            Err(error) => Err(TurnstileError::HyperError(error)),
        }
    }
}

/// The secret member of an outbound body is the caller's secret where the
/// caller set one, and the client's where not; whoever reads the body back
/// finds the prepared request in it.
pub proof fn lemma_outbound_secret(credential: Seq<char>, request: RequestFields)
    ensures
        request.secret is None ==> lookup(prepared(credential, request).members(), "secret"@)
            == Some(credential),
        request.secret is Some ==> lookup(prepared(credential, request).members(), "secret"@)
            == request.secret,
        RequestFields::of_members(prepared(credential, request).members()) == Some(
            prepared(credential, request),
        ),
{
    lemma_request_round_trip(prepared(credential, request));
}

} // verus!
