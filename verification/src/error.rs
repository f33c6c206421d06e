//! Error types for the Turnstile API.

use vstd::prelude::*;

verus! {

/// Everything that can go wrong with one verification call. The three kinds
/// never overlap: the service answered with error codes, the exchange itself
/// failed, or a body could not be written or read as JSON of the agreed shape.
#[derive(Debug)]
pub enum TurnstileError {
    /// The service answered with a non-empty list of error codes, kept in the
    /// order in which they were received.
    SiteVerifyError(SiteVerifyErrors),
    /// The HTTP exchange failed.
    HyperError(hyper::Error),
    /// A body was not JSON of the expected shape.
    SerdeError(serde_json::Error),
}

/// The error codes of one answer, in the order of the wire.
pub type SiteVerifyErrors = Vec<SiteVerifyError>;

/// One error code of the Turnstile API.
///
/// <https://developers.cloudflare.com/turnstile/get-started/server-side-validation/#error-codes>
#[derive(Debug, Clone, Copy, PartialEq, Eq, Structural)]
pub enum SiteVerifyError {
    /// The secret parameter was not passed.
    MissingInputSecret,
    /// The secret parameter was invalid or did not exist.
    InvalidInputSecret,
    /// The response parameter was not passed.
    MissingInputResponse,
    /// The response parameter is invalid or has expired.
    InvalidInputResponse,
    /// The widget ID extracted from the parsed site secret key was invalid or did not exist.
    InvalidWidgetId,
    /// The secret extracted from the parsed site secret key was invalid.
    InvalidParsedSecret,
    /// The request was rejected because it was malformed.
    BadRequest,
    /// The response parameter has already been validated before.
    TimeoutOrDuplicate,
    /// An internal error happened while validating the response. The request can be retried.
    InternalError,
}

/// Whether two texts read the same.
pub fn same_text(a: &str, b: &str) -> (same: bool)
    ensures
        same == (a@ == b@),
{
    a.to_owned() == b.to_owned()
}

impl SiteVerifyError {
    /// The string that stands for this code on the wire.
    pub open spec fn wire_code(self) -> Seq<char> {
        match self {
            SiteVerifyError::MissingInputSecret => "missing-input-secret"@,
            SiteVerifyError::InvalidInputSecret => "invalid-input-secret"@,
            SiteVerifyError::MissingInputResponse => "missing-input-response"@,
            SiteVerifyError::InvalidInputResponse => "invalid-input-response"@,
            SiteVerifyError::InvalidWidgetId => "invalid-widget-id"@,
            SiteVerifyError::InvalidParsedSecret => "invalid-parsed-secret"@,
            SiteVerifyError::BadRequest => "bad-request"@,
            SiteVerifyError::TimeoutOrDuplicate => "timeout-or-duplicate"@,
            SiteVerifyError::InternalError => "internal-error"@,
        }
    }

    /// The code that a wire string stands for, if it stands for one.
    pub open spec fn of_wire_code(code: Seq<char>) -> Option<SiteVerifyError> {
        if code == "missing-input-secret"@ {
            Some(SiteVerifyError::MissingInputSecret)
        } else if code == "invalid-input-secret"@ {
            Some(SiteVerifyError::InvalidInputSecret)
        } else if code == "missing-input-response"@ {
            Some(SiteVerifyError::MissingInputResponse)
        } else if code == "invalid-input-response"@ {
            Some(SiteVerifyError::InvalidInputResponse)
        } else if code == "invalid-widget-id"@ {
            Some(SiteVerifyError::InvalidWidgetId)
        } else if code == "invalid-parsed-secret"@ {
            Some(SiteVerifyError::InvalidParsedSecret)
        } else if code == "bad-request"@ {
            Some(SiteVerifyError::BadRequest)
        } else if code == "timeout-or-duplicate"@ {
            Some(SiteVerifyError::TimeoutOrDuplicate)
        } else if code == "internal-error"@ {
            Some(SiteVerifyError::InternalError)
        } else {
            None
        }
    }

    /// What the service means by this code.
    pub open spec fn meaning(self) -> Seq<char> {
        match self {
            SiteVerifyError::MissingInputSecret => "The secret parameter was not passed."@,
            SiteVerifyError::InvalidInputSecret => "The secret parameter was invalid or did not exist."@,
            SiteVerifyError::MissingInputResponse => "The response parameter was not passed."@,
            SiteVerifyError::InvalidInputResponse => "The response parameter is invalid or has expired."@,
            SiteVerifyError::InvalidWidgetId => "The widget ID extracted from the parsed site secret key was invalid or did not exist."@,
            SiteVerifyError::InvalidParsedSecret => "The secret extracted from the parsed site secret key was invalid."@,
            SiteVerifyError::BadRequest => "The request was rejected because it was malformed."@,
            SiteVerifyError::TimeoutOrDuplicate => "The response parameter has already been validated before."@,
            SiteVerifyError::InternalError => "An internal error happened while validating the response. The request can be retried."@,
        }
    }

    /// The string that stands for this code on the wire.
    pub fn code(&self) -> (code: &'static str)
        ensures
            code@ == self.wire_code(),
    {
        match self {
            SiteVerifyError::MissingInputSecret => "missing-input-secret",
            SiteVerifyError::InvalidInputSecret => "invalid-input-secret",
            SiteVerifyError::MissingInputResponse => "missing-input-response",
            SiteVerifyError::InvalidInputResponse => "invalid-input-response",
            SiteVerifyError::InvalidWidgetId => "invalid-widget-id",
            SiteVerifyError::InvalidParsedSecret => "invalid-parsed-secret",
            SiteVerifyError::BadRequest => "bad-request",
            SiteVerifyError::TimeoutOrDuplicate => "timeout-or-duplicate",
            SiteVerifyError::InternalError => "internal-error",
        }
    }

    /// Reads a wire string as a code. A string outside the nine gives `None`.
    pub fn from_code(code: &str) -> (found: Option<SiteVerifyError>)
        ensures
            found == Self::of_wire_code(code@),
    {
        if same_text(code, "missing-input-secret") {
            Some(SiteVerifyError::MissingInputSecret)
        } else if same_text(code, "invalid-input-secret") {
            Some(SiteVerifyError::InvalidInputSecret)
        } else if same_text(code, "missing-input-response") {
            Some(SiteVerifyError::MissingInputResponse)
        } else if same_text(code, "invalid-input-response") {
            Some(SiteVerifyError::InvalidInputResponse)
        } else if same_text(code, "invalid-widget-id") {
            Some(SiteVerifyError::InvalidWidgetId)
        } else if same_text(code, "invalid-parsed-secret") {
            Some(SiteVerifyError::InvalidParsedSecret)
        } else if same_text(code, "bad-request") {
            Some(SiteVerifyError::BadRequest)
        } else if same_text(code, "timeout-or-duplicate") {
            Some(SiteVerifyError::TimeoutOrDuplicate)
        } else if same_text(code, "internal-error") {
            Some(SiteVerifyError::InternalError)
        } else {
            None
        }
    }

    /// What the service means by this code, as a sentence for people.
    pub fn message(&self) -> (text: String)
        ensures
            text@ == self.meaning(),
    {
        match self {
            SiteVerifyError::MissingInputSecret => "The secret parameter was not passed.".to_owned(),
            SiteVerifyError::InvalidInputSecret => "The secret parameter was invalid or did not exist.".to_owned(),
            SiteVerifyError::MissingInputResponse => "The response parameter was not passed.".to_owned(),
            SiteVerifyError::InvalidInputResponse => "The response parameter is invalid or has expired.".to_owned(),
            SiteVerifyError::InvalidWidgetId => "The widget ID extracted from the parsed site secret key was invalid or did not exist.".to_owned(),
            SiteVerifyError::InvalidParsedSecret => "The secret extracted from the parsed site secret key was invalid.".to_owned(),
            SiteVerifyError::BadRequest => "The request was rejected because it was malformed.".to_owned(),
            SiteVerifyError::TimeoutOrDuplicate => "The response parameter has already been validated before.".to_owned(),
            SiteVerifyError::InternalError => "An internal error happened while validating the response. The request can be retried.".to_owned(),
        }
    }

    /// The nine wire strings are pairwise different, so reading back the
    /// string of a code gives that code again.
    pub proof fn lemma_code_round_trip(code: SiteVerifyError)
        ensures
            Self::of_wire_code(code.wire_code()) == Some(code),
    {
        reveal_strlit("missing-input-secret");
        reveal_strlit("invalid-input-secret");
        reveal_strlit("missing-input-response");
        reveal_strlit("invalid-input-response");
        reveal_strlit("invalid-widget-id");
        reveal_strlit("invalid-parsed-secret");
        reveal_strlit("bad-request");
        reveal_strlit("timeout-or-duplicate");
        reveal_strlit("internal-error");
        // Equal strings have equal lengths and equal first characters; no two
        // of the nine agree in both.
        assert("missing-input-secret"@.len() == 20 && "missing-input-secret"@[0] == 'm');
        assert("invalid-input-secret"@.len() == 20 && "invalid-input-secret"@[0] == 'i');
        assert("missing-input-response"@.len() == 22 && "missing-input-response"@[0] == 'm');
        assert("invalid-input-response"@.len() == 22 && "invalid-input-response"@[0] == 'i');
        assert("invalid-widget-id"@.len() == 17);
        assert("invalid-parsed-secret"@.len() == 21);
        assert("bad-request"@.len() == 11);
        assert("timeout-or-duplicate"@.len() == 20 && "timeout-or-duplicate"@[0] == 't');
        assert("internal-error"@.len() == 14);
    }

    /// A string is read as a code only if it is that code's wire string.
    pub proof fn lemma_code_read_is_exact(text: Seq<char>, code: SiteVerifyError)
        ensures
            Self::of_wire_code(text) == Some(code) <==> text == code.wire_code(),
    {
        Self::lemma_code_round_trip(code);
    }
}

} // verus!
