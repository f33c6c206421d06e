//! The nine error codes: their wire strings and their meanings.

use cf_turnstile::error::{same_text, SiteVerifyError};

const ALL: [SiteVerifyError; 9] = [
    SiteVerifyError::MissingInputSecret,
    SiteVerifyError::InvalidInputSecret,
    SiteVerifyError::MissingInputResponse,
    SiteVerifyError::InvalidInputResponse,
    SiteVerifyError::InvalidWidgetId,
    SiteVerifyError::InvalidParsedSecret,
    SiteVerifyError::BadRequest,
    SiteVerifyError::TimeoutOrDuplicate,
    SiteVerifyError::InternalError,
];

#[test]
fn every_code_has_its_wire_string() {
    assert_eq!(SiteVerifyError::MissingInputSecret.code(), "missing-input-secret");
    assert_eq!(SiteVerifyError::InvalidInputSecret.code(), "invalid-input-secret");
    assert_eq!(SiteVerifyError::MissingInputResponse.code(), "missing-input-response");
    assert_eq!(SiteVerifyError::InvalidInputResponse.code(), "invalid-input-response");
    assert_eq!(SiteVerifyError::InvalidWidgetId.code(), "invalid-widget-id");
    assert_eq!(SiteVerifyError::InvalidParsedSecret.code(), "invalid-parsed-secret");
    assert_eq!(SiteVerifyError::BadRequest.code(), "bad-request");
    assert_eq!(SiteVerifyError::TimeoutOrDuplicate.code(), "timeout-or-duplicate");
    assert_eq!(SiteVerifyError::InternalError.code(), "internal-error");
}

#[test]
fn every_wire_string_reads_back_as_its_code() {
    for code in ALL {
        assert_eq!(SiteVerifyError::from_code(code.code()), Some(code));
    }
}

#[test]
fn the_wire_strings_are_pairwise_different() {
    for (i, a) in ALL.iter().enumerate() {
        for (j, b) in ALL.iter().enumerate() {
            assert_eq!(a.code() == b.code(), i == j);
        }
    }
}

#[test]
fn a_string_outside_the_nine_is_no_code() {
    assert_eq!(SiteVerifyError::from_code(""), None);
    assert_eq!(SiteVerifyError::from_code("timeout"), None);
    assert_eq!(SiteVerifyError::from_code("Bad-Request"), None);
    assert_eq!(SiteVerifyError::from_code("bad-request "), None);
    assert_eq!(SiteVerifyError::from_code("internal_error"), None);
}

#[test]
fn every_code_has_its_meaning() {
    assert_eq!(
        SiteVerifyError::MissingInputSecret.message(),
        "The secret parameter was not passed."
    );
    assert_eq!(
        SiteVerifyError::InvalidInputSecret.message(),
        "The secret parameter was invalid or did not exist."
    );
    assert_eq!(
        SiteVerifyError::MissingInputResponse.message(),
        "The response parameter was not passed."
    );
    assert_eq!(
        SiteVerifyError::InvalidInputResponse.message(),
        "The response parameter is invalid or has expired."
    );
    assert_eq!(
        SiteVerifyError::InvalidWidgetId.message(),
        "The widget ID extracted from the parsed site secret key was invalid or did not exist."
    );
    assert_eq!(
        SiteVerifyError::InvalidParsedSecret.message(),
        "The secret extracted from the parsed site secret key was invalid."
    );
    assert_eq!(
        SiteVerifyError::BadRequest.message(),
        "The request was rejected because it was malformed."
    );
    assert_eq!(
        SiteVerifyError::TimeoutOrDuplicate.message(),
        "The response parameter has already been validated before."
    );
    assert_eq!(
        SiteVerifyError::InternalError.message(),
        "An internal error happened while validating the response. The request can be retried."
    );
}

#[test]
fn same_text_compares_by_content() {
    assert!(same_text("", ""));
    assert!(same_text("bad-request", "bad-request"));
    assert!(!same_text("bad-request", "bad-requesT"));
    assert!(!same_text("bad-request", "bad-reques"));
    assert!(!same_text("", " "));
}
