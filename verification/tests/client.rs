//! The client: what goes out, and what the caller gets back.
//!
//! The service is stood in for by `dummy_service`, which answers as
//! Cloudflare documents its dummy secret keys to answer:
//! <https://developers.cloudflare.com/turnstile/troubleshooting/testing/>

use cf_turnstile::client::{CONTENT_TYPE, SITEVERIFY_URL};
use cf_turnstile::error::{SiteVerifyError, TurnstileError};
use cf_turnstile::{
    generate_indepotency_key, user_agent, PostRequest, SiteVerifyRequest, SiteVerifyResponse,
    TurnstileClient,
};
use hyper::body::HttpBody;
use serde_json::Value;
use std::pin::Pin;
use std::task::{Context, Poll, Waker};

type Result<T> = std::result::Result<T, Box<dyn std::error::Error + Send + Sync + 'static>>;

/// Answers a call as the service does for its dummy secret keys.
fn dummy_service(post: &PostRequest) -> Vec<u8> {
    let sent: Value = serde_json::from_str(&post.body).unwrap();
    let secret = sent["secret"].as_str().unwrap();
    assert_eq!(sent["response"].as_str(), Some("myresponse"));
    let answer = if secret.starts_with("1x") {
        "{\"success\":true,\"error-codes\":[],\"challenge_ts\":\"2022-10-06T00:07:23.274Z\",\
         \"hostname\":\"example.com\",\"metadata\":{\"interactive\":false}}"
    } else if secret.starts_with("2x") {
        "{\"success\":false,\"error-codes\":[\"invalid-input-response\"],\"messages\":[]}"
    } else {
        "{\"success\":false,\"error-codes\":[\"timeout-or-duplicate\"],\"messages\":[]}"
    };
    answer.as_bytes().to_vec()
}

/// One whole call against the dummy service.
fn siteverify(
    client: &TurnstileClient,
    request: SiteVerifyRequest,
) -> std::result::Result<SiteVerifyResponse, TurnstileError> {
    let post = client.outbound(request)?;
    TurnstileClient::conclude(Ok(dummy_service(&post)))
}

/// An exchange that failed: the error of a body whose sender gave up.
fn failed_exchange() -> hyper::Error {
    let (sender, mut body) = hyper::Body::channel();
    sender.abort();
    let mut context = Context::from_waker(Waker::noop());
    match Pin::new(&mut body).poll_data(&mut context) {
        Poll::Ready(Some(Err(error))) => error,
        _ => panic!("the aborted body gave no error"),
    }
}

fn sent_secret(client: &TurnstileClient, request: SiteVerifyRequest) -> Option<String> {
    let post = client.outbound(request).unwrap();
    let sent: Value = serde_json::from_str(&post.body).unwrap();
    sent.get("secret").and_then(Value::as_str).map(str::to_string)
}

#[test]
fn test_success() -> Result<()> {
    let client = TurnstileClient::new("1x0000000000000000000000000000000AA".to_string().into());

    let validated = match siteverify(
        &client,
        SiteVerifyRequest {
            response: "myresponse".to_string(),
            ..Default::default()
        },
    ) {
        Ok(validated) => validated,
        Err(error) => panic!("Unexpected error: {:?}", error),
    };

    assert!(validated.success);

    Ok(())
}

#[test]
fn test_fail() -> Result<()> {
    let client = TurnstileClient::new("2x0000000000000000000000000000000AA".to_string().into());

    let validated = siteverify(
        &client,
        SiteVerifyRequest {
            response: "myresponse".to_string(),
            ..Default::default()
        },
    );

    assert!(validated.is_err());

    Ok(())
}

#[test]
fn test_token_already_spent() -> Result<()> {
    let client = TurnstileClient::new("3x0000000000000000000000000000000AA".to_string().into());

    let validated = siteverify(
        &client,
        SiteVerifyRequest {
            response: "myresponse".to_string(),
            ..Default::default()
        },
    );

    assert!(validated.is_err());
    match validated.unwrap_err() {
        TurnstileError::SiteVerifyError(e) => match e.first().unwrap() {
            SiteVerifyError::TimeoutOrDuplicate => {}
            _ => panic!("Unexpected error"),
        },
        e => panic!("Unexpected error: {:?}", e),
    }

    Ok(())
}

#[test]
fn an_unset_secret_is_filled_with_the_clients() {
    let client = TurnstileClient::new("client-secret".to_string());
    let request = SiteVerifyRequest { response: "tok".to_string(), ..Default::default() };
    assert_eq!(client.prepare(request.clone()).secret, Some("client-secret".to_string()));
    assert_eq!(sent_secret(&client, request), Some("client-secret".to_string()));
}

#[test]
fn a_set_secret_is_sent_as_the_caller_gave_it() {
    let client = TurnstileClient::new("client-secret".to_string());
    let request = SiteVerifyRequest {
        secret: Some("callers-own".to_string()),
        response: "tok".to_string(),
        ..Default::default()
    };
    assert_eq!(client.prepare(request.clone()).secret, Some("callers-own".to_string()));
    assert_eq!(sent_secret(&client, request), Some("callers-own".to_string()));
}

#[test]
fn an_empty_secret_of_the_caller_is_still_the_callers() {
    let client = TurnstileClient::new("client-secret".to_string());
    let request = SiteVerifyRequest {
        secret: Some(String::new()),
        response: "tok".to_string(),
        ..Default::default()
    };
    assert_eq!(sent_secret(&client, request), Some(String::new()));
}

#[test]
fn prepare_changes_nothing_but_the_secret() {
    let client = TurnstileClient::new("client-secret".to_string());
    let key = generate_indepotency_key();
    let ready = client.prepare(SiteVerifyRequest {
        secret: None,
        response: "tok".to_string(),
        remote_ip: Some("198.51.100.1".to_string()),
        idempotency_key: key,
    });
    assert_eq!(ready.secret, Some("client-secret".to_string()));
    assert_eq!(ready.response, "tok");
    assert_eq!(ready.remote_ip, Some("198.51.100.1".to_string()));
    assert_eq!(ready.idempotency_key, key);
}

#[test]
fn the_client_keeps_its_secret_across_calls() {
    let client = TurnstileClient::new("client-secret".to_string());
    for _ in 0..3 {
        let request = SiteVerifyRequest { response: "tok".to_string(), ..Default::default() };
        assert_eq!(sent_secret(&client, request), Some("client-secret".to_string()));
    }
}

#[test]
fn outbound_is_a_post_of_json_to_the_fixed_address() {
    let client = TurnstileClient::new("s".to_string());
    let post = client
        .outbound(SiteVerifyRequest {
            response: "tok".to_string(),
            remote_ip: Some("::1".to_string()),
            ..Default::default()
        })
        .unwrap();
    assert_eq!(post.uri, "https://challenges.cloudflare.com/turnstile/v0/siteverify");
    assert_eq!(post.uri, SITEVERIFY_URL);
    assert_eq!(post.content_type, "application/json");
    assert_eq!(post.content_type, CONTENT_TYPE);
    assert_eq!(post.body, "{\"secret\":\"s\",\"response\":\"tok\",\"remote_ip\":\"::1\"}");
}

#[test]
fn outbound_writes_the_idempotency_key_as_hyphenated_text() {
    let client = TurnstileClient::new("s".to_string());
    let key = generate_indepotency_key().unwrap();
    let post = client
        .outbound(SiteVerifyRequest {
            response: "tok".to_string(),
            idempotency_key: Some(key),
            ..Default::default()
        })
        .unwrap();
    let sent: Value = serde_json::from_str(&post.body).unwrap();
    let text = sent["idempotency_key"].as_str().unwrap();
    assert_eq!(text.len(), 36);
    assert_eq!(text, key.hyphenated().to_string());
    assert_eq!(uuid::Uuid::parse_str(text).unwrap(), key);
}

#[test]
fn generated_keys_are_random_version_four() {
    let first = generate_indepotency_key().unwrap();
    let second = generate_indepotency_key().unwrap();
    for key in [first, second] {
        assert_eq!(key.get_version_num(), 4);
        assert_eq!(key.get_variant(), uuid::Variant::RFC4122);
        assert_eq!(
            key.as_u128() & 0xF000_C000_0000_0000_0000,
            0x4000_8000_0000_0000_0000
        );
        let text = key.hyphenated().to_string();
        assert_eq!(&text[14..15], "4");
        assert!(matches!(&text[19..20], "8" | "9" | "a" | "b"));
    }
    assert_ne!(first, second);
}

#[test]
fn conclude_hands_a_failed_exchange_on() {
    let error = failed_exchange();
    let text = error.to_string();
    match TurnstileClient::conclude(Err(error)) {
        Err(TurnstileError::HyperError(handed_on)) => {
            assert!(handed_on.is_body_write_aborted());
            assert_eq!(handed_on.to_string(), text);
        }
        other => panic!("not a transport error: {:?}", other),
    }
}

#[test]
fn conclude_reads_a_body_that_arrived() {
    let response = TurnstileClient::conclude(Ok(
        b"{\"success\":true,\"error-codes\":[],\"hostname\":\"example.com\"}".to_vec(),
    ))
    .unwrap();
    assert!(response.success);
    assert_eq!(response.hostname, "example.com");
    assert_eq!(response.timestamp, "");

    assert!(matches!(
        TurnstileClient::conclude(Ok(b"<html>".to_vec())),
        Err(TurnstileError::SerdeError(_))
    ));
    assert!(matches!(
        TurnstileClient::conclude(Ok(
            b"{\"success\":false,\"error-codes\":[\"bad-request\"]}".to_vec()
        )),
        Err(TurnstileError::SiteVerifyError(_))
    ));
}

#[test]
fn user_agent_names_product_homepage_and_version() {
    assert_eq!(
        user_agent("https://example.com/turnstile", "0.1.0"),
        "cf-turnstile (https://example.com/turnstile, 0.1.0)"
    );
    assert_eq!(user_agent("", ""), "cf-turnstile (, )");
}
