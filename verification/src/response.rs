//! The inbound side of a verification call: the answer of the service, from
//! its JSON body to the result that the caller gets.

use crate::bindings::{as_bool, as_list, as_text, is_null, json_model, json_parse, member, parse, shape_error, Json};
use crate::error::{SiteVerifyError, SiteVerifyErrors, TurnstileError};
use crate::request::optional_text;
use vstd::prelude::*;

verus! {

/// A successful answer of the Turnstile API.
///
/// <https://developers.cloudflare.com/turnstile/get-started/server-side-validation/#error-codes:~:text=Successful%20validation%20response>
#[derive(Debug, Clone)]
pub struct SiteVerifyResponse {
    /// Whether the service calls the token valid.
    pub success: bool,
    /// When the challenge was solved.
    pub timestamp: String,
    /// The hostname on which the challenge was solved.
    pub hostname: String,
    /// The action that the widget was set up with.
    pub action: String,
    /// Data that the site passed to the widget.
    pub cdata: String,
}

/// An answer as it stands on the wire, before anything is decided: every
/// optional string may be missing, and the error codes are still in it.
#[derive(Debug, Clone)]
pub struct RawSiteVerifyResponse {
    pub success: bool,
    pub timestamp: Option<String>,
    pub hostname: Option<String>,
    pub error_codes: SiteVerifyErrors,
    pub action: Option<String>,
    pub cdata: Option<String>,
}

/// A member of the answer's JSON object.
#[derive(Debug, Clone, Copy, PartialEq, Eq, Structural)]
pub enum WireField {
    Success,
    Timestamp,
    Hostname,
    ErrorCodes,
    Action,
    Cdata,
}

/// Why a JSON document is not an answer of the expected shape.
#[derive(Debug, Clone)]
pub enum ShapeFault {
    /// A member that must be there is not (or the document is no object).
    MissingField(WireField),
    /// A member holds a value of another type than its own.
    WrongType(WireField),
    /// An error code is a string outside the nine that are known.
    UnknownCode(String),
}

/// A successful answer as contracts see it.
pub struct ResponseFields {
    pub success: bool,
    pub timestamp: Seq<char>,
    pub hostname: Seq<char>,
    pub action: Seq<char>,
    pub cdata: Seq<char>,
}

/// A wire answer as contracts see it.
pub struct RawFields {
    pub success: bool,
    pub timestamp: Option<Seq<char>>,
    pub hostname: Option<Seq<char>>,
    pub error_codes: Seq<SiteVerifyError>,
    pub action: Option<Seq<char>>,
    pub cdata: Option<Seq<char>>,
}

/// A shape fault as contracts see it.
pub enum Fault {
    MissingField(WireField),
    WrongType(WireField),
    UnknownCode(Seq<char>),
}

/// What a verification call comes to, as contracts see it.
pub enum Outcome {
    /// The service sent no error code: the normalized answer.
    Verified(ResponseFields),
    /// The service sent error codes: the codes, in the order of the wire.
    Rejected(Seq<SiteVerifyError>),
    /// A body was not JSON of the expected shape.
    Unreadable,
    /// The exchange itself failed.
    Unreachable,
}

/// The text of an optional string, and the empty text where it is missing.
pub open spec fn or_empty(field: Option<Seq<char>>) -> Seq<char> {
    match field {
        Some(text) => text,
        None => Seq::empty(),
    }
}

/// The value of the member called `name`, if the document is an object that
/// has one.
pub open spec fn member_of(document: Json, name: Seq<char>) -> Option<Json> {
    match document {
        Json::Object(members) => if members.contains_key(name) {
            Some(members[name])
        } else {
            None
        },
        _ => None,
    }
}

/// A member that must be there and hold a boolean.
pub open spec fn flag_of(document: Json, field: WireField) -> Result<bool, Fault> {
    match member_of(document, field.wire_name()) {
        None => Err(Fault::MissingField(field)),
        Some(Json::Bool(flag)) => Ok(flag),
        Some(_) => Err(Fault::WrongType(field)),
    }
}

/// A member that holds a string where it is there: a member that is missing
/// or `null` counts as unset.
pub open spec fn text_of(document: Json, field: WireField) -> Result<Option<Seq<char>>, Fault> {
    match member_of(document, field.wire_name()) {
        None => Ok(None),
        Some(Json::Null) => Ok(None),
        Some(Json::Text(text)) => Ok(Some(text)),
        Some(_) => Err(Fault::WrongType(field)),
    }
}

/// The codes for which the items of a list stand. Every item must be the
/// wire string of a code; the first item that is not decides the fault.
pub open spec fn codes_of_items(items: Seq<Json>) -> Result<Seq<SiteVerifyError>, Fault>
    decreases items.len(),
{
    if items.len() == 0 {
        Ok(Seq::empty())
    } else {
        match codes_of_items(items.drop_last()) {
            Err(fault) => Err(fault),
            Ok(codes) => match items.last() {
                Json::Text(text) => match SiteVerifyError::of_wire_code(text) {
                    Some(code) => Ok(codes.push(code)),
                    None => Err(Fault::UnknownCode(text)),
                },
                _ => Err(Fault::WrongType(WireField::ErrorCodes)),
            },
        }
    }
}

/// The member that must be there and hold the list of error codes.
pub open spec fn codes_of(document: Json) -> Result<Seq<SiteVerifyError>, Fault> {
    match member_of(document, WireField::ErrorCodes.wire_name()) {
        None => Err(Fault::MissingField(WireField::ErrorCodes)),
        Some(Json::List(items)) => codes_of_items(items),
        Some(_) => Err(Fault::WrongType(WireField::ErrorCodes)),
    }
}

/// The wire answer that a JSON document holds, or the first fault in it,
/// going through the members in the order `success`, `challenge_ts`,
/// `hostname`, `error-codes`, `action`, `cdata`. Members of other names
/// are passed over.
pub open spec fn raw_of(document: Json) -> Result<RawFields, Fault> {
    match flag_of(document, WireField::Success) {
        Err(fault) => Err(fault),
        Ok(success) => match text_of(document, WireField::Timestamp) {
            Err(fault) => Err(fault),
            Ok(timestamp) => match text_of(document, WireField::Hostname) {
                Err(fault) => Err(fault),
                Ok(hostname) => match codes_of(document) {
                    Err(fault) => Err(fault),
                    Ok(error_codes) => match text_of(document, WireField::Action) {
                        Err(fault) => Err(fault),
                        Ok(action) => match text_of(document, WireField::Cdata) {
                            Err(fault) => Err(fault),
                            Ok(cdata) => Ok(
                                RawFields { success, timestamp, hostname, error_codes, action, cdata },
                            ),
                        },
                    },
                },
            },
        },
    }
}

/// What a body that arrived comes to.
pub open spec fn outcome_of_body(body: Seq<u8>) -> Outcome {
    match json_parse(body) {
        None => Outcome::Unreadable,
        Some(document) => match raw_of(document) {
            Err(_) => Outcome::Unreadable,
            Ok(raw) => raw.outcome(),
        },
    }
}

/// What a result that the caller gets says.
pub open spec fn outcome_of(result: Result<SiteVerifyResponse, TurnstileError>) -> Outcome {
    match result {
        Ok(response) => Outcome::Verified(response@),
        Err(TurnstileError::SiteVerifyError(codes)) => Outcome::Rejected(codes@),
        Err(TurnstileError::SerdeError(_)) => Outcome::Unreadable,
        Err(TurnstileError::HyperError(_)) => Outcome::Unreachable,
    }
}

impl WireField {
    /// The name of the member on the wire.
    pub open spec fn wire_name(self) -> Seq<char> {
        match self {
            WireField::Success => "success"@,
            WireField::Timestamp => "challenge_ts"@,
            WireField::Hostname => "hostname"@,
            WireField::ErrorCodes => "error-codes"@,
            WireField::Action => "action"@,
            WireField::Cdata => "cdata"@,
        }
    }

    /// The name of the member on the wire.
    pub fn name(&self) -> (name: &'static str)
        ensures
            name@ == self.wire_name(),
    {
        match self {
            WireField::Success => "success",
            WireField::Timestamp => "challenge_ts",
            WireField::Hostname => "hostname",
            WireField::ErrorCodes => "error-codes",
            WireField::Action => "action",
            WireField::Cdata => "cdata",
        }
    }
}

impl RawFields {
    /// The answer with every missing string made empty.
    pub open spec fn normalized(self) -> ResponseFields {
        ResponseFields {
            success: self.success,
            timestamp: or_empty(self.timestamp),
            hostname: or_empty(self.hostname),
            action: or_empty(self.action),
            cdata: or_empty(self.cdata),
        }
    }

    /// What the answer comes to: the list of error codes alone decides,
    /// whatever `success` says.
    pub open spec fn outcome(self) -> Outcome {
        if self.error_codes.len() == 0 {
            Outcome::Verified(self.normalized())
        } else {
            Outcome::Rejected(self.error_codes)
        }
    }
}

impl Fault {
    /// The fault in words.
    pub open spec fn text(self) -> Seq<char> {
        match self {
            Fault::MissingField(field) => "missing field `"@ + field.wire_name() + "`"@,
            Fault::WrongType(field) => "invalid type for field `"@ + field.wire_name() + "`"@,
            Fault::UnknownCode(code) => "unknown error code `"@ + code + "`"@,
        }
    }
}

impl View for SiteVerifyResponse {
    type V = ResponseFields;

    open spec fn view(&self) -> ResponseFields {
        ResponseFields {
            success: self.success,
            timestamp: self.timestamp@,
            hostname: self.hostname@,
            action: self.action@,
            cdata: self.cdata@,
        }
    }
}

impl View for RawSiteVerifyResponse {
    type V = RawFields;

    open spec fn view(&self) -> RawFields {
        RawFields {
            success: self.success,
            timestamp: optional_text(self.timestamp),
            hostname: optional_text(self.hostname),
            error_codes: self.error_codes@,
            action: optional_text(self.action),
            cdata: optional_text(self.cdata),
        }
    }
}

impl View for ShapeFault {
    type V = Fault;

    open spec fn view(&self) -> Fault {
        match self {
            ShapeFault::MissingField(field) => Fault::MissingField(*field),
            ShapeFault::WrongType(field) => Fault::WrongType(*field),
            ShapeFault::UnknownCode(code) => Fault::UnknownCode(code@),
        }
    }
}

/// The string, or an empty one where it is missing.
fn unwrap_or_empty(field: Option<String>) -> (text: String)
    ensures
        text@ == or_empty(optional_text(field)),
{
    match field {
        Some(text) => text,
        None => String::new(),
    }
}

impl SiteVerifyResponse {
    /// Normalizes a wire answer: `success` as it came, every missing string
    /// made empty. The error codes play no part.
    pub fn from(raw: RawSiteVerifyResponse) -> (response: SiteVerifyResponse)
        ensures
            response@ == raw@.normalized(),
    {
        SiteVerifyResponse {
            success: raw.success,
            timestamp: unwrap_or_empty(raw.timestamp),
            hostname: unwrap_or_empty(raw.hostname),
            action: unwrap_or_empty(raw.action),
            cdata: unwrap_or_empty(raw.cdata),
        }
    }

    /// Reads the body of an answer and decides what it comes to: a body
    /// that is not JSON of the expected shape is an error of its own kind, an
    /// answer with error codes is refused with those codes, and any other
    /// answer is returned normalized.
    pub fn from_body(body: &[u8]) -> (result: Result<SiteVerifyResponse, TurnstileError>)
        ensures
            outcome_of(result) == outcome_of_body(body@),
    {
        match parse(body) {
            Err(error) => Err(TurnstileError::SerdeError(error)),
            Ok(document) => match RawSiteVerifyResponse::read(&document) {
                Err(fault) => Err(TurnstileError::SerdeError(shape_error(fault.message().as_str()))),
                Ok(raw) => raw.outcome(),
            },
        }
    }
}

impl ShapeFault {
    /// The fault in words.
    pub fn message(&self) -> (text: String)
        ensures
            text@ == self@.text(),
    {
        match self {
            ShapeFault::MissingField(field) => "missing field `".to_owned().concat(field.name()).concat("`"),
            ShapeFault::WrongType(field) => "invalid type for field `".to_owned().concat(
                field.name(),
            ).concat("`"),
            ShapeFault::UnknownCode(code) => "unknown error code `".to_owned().concat(
                code.as_str(),
            ).concat("`"),
        }
    }
}

impl RawSiteVerifyResponse {
    /// Reads a wire answer out of a parsed JSON document, or names the first
    /// fault in its shape.
    pub fn read(document: &serde_json::Value) -> (read: Result<RawSiteVerifyResponse, ShapeFault>)
        ensures
            match read {
                Ok(raw) => raw_of(json_model(*document)) == Ok::<RawFields, Fault>(raw@),
                Err(fault) => raw_of(json_model(*document)) == Err::<RawFields, Fault>(fault@),
            },
    {
        let success = read_flag(document, WireField::Success)?;
        let timestamp = read_text(document, WireField::Timestamp)?;
        let hostname = read_text(document, WireField::Hostname)?;
        let error_codes = read_codes(document)?;
        let action = read_text(document, WireField::Action)?;
        let cdata = read_text(document, WireField::Cdata)?;
        Ok(RawSiteVerifyResponse { success, timestamp, hostname, error_codes, action, cdata })
    }

    /// Decides what the answer comes to. The list of error codes alone
    /// decides: with a code in it the answer is refused and the codes are
    /// handed on as they came, whatever `success` says; with none the answer
    /// is returned normalized.
    pub fn outcome(self) -> (result: Result<SiteVerifyResponse, TurnstileError>)
        ensures
            outcome_of(result) == self@.outcome(),
    {
        if self.error_codes.len() > 0 {
            Err(TurnstileError::SiteVerifyError(self.error_codes))
        } else {
            Ok(SiteVerifyResponse::from(self))
        }
    }
}

/// Reads a member that must be there and hold a boolean.
fn read_flag(document: &serde_json::Value, field: WireField) -> (read: Result<bool, ShapeFault>)
    ensures
        match read {
            Ok(flag) => flag_of(json_model(*document), field) == Ok::<bool, Fault>(flag),
            Err(fault) => flag_of(json_model(*document), field) == Err::<bool, Fault>(fault@),
        },
{
    match member(document, field.name()) {
        None => Err(ShapeFault::MissingField(field)),
        Some(value) => match as_bool(value) {
            Some(flag) => Ok(flag),
            None => Err(ShapeFault::WrongType(field)),
        },
    }
}

/// Reads a member that holds a string where it is there.
fn read_text(document: &serde_json::Value, field: WireField) -> (read: Result<
    Option<String>,
    ShapeFault,
>)
    ensures
        match read {
            Ok(text) => text_of(json_model(*document), field) == Ok::<Option<Seq<char>>, Fault>(
                optional_text(text),
            ),
            Err(fault) => text_of(json_model(*document), field) == Err::<Option<Seq<char>>, Fault>(
                fault@,
            ),
        },
{
    match member(document, field.name()) {
        None => Ok(None),
        Some(value) => if is_null(value) {
            Ok(None)
        } else {
            match as_text(value) {
                Some(text) => Ok(Some(text)),
                None => Err(ShapeFault::WrongType(field)),
            }
        },
    }
}

/// Reads the member that must be there and hold the list of error codes.
fn read_codes(document: &serde_json::Value) -> (read: Result<SiteVerifyErrors, ShapeFault>)
    ensures
        match read {
            Ok(codes) => codes_of(json_model(*document)) == Ok::<Seq<SiteVerifyError>, Fault>(codes@),
            Err(fault) => codes_of(json_model(*document)) == Err::<Seq<SiteVerifyError>, Fault>(
                fault@,
            ),
        },
{
    let items = match member(document, WireField::ErrorCodes.name()) {
        None => {
            return Err(ShapeFault::MissingField(WireField::ErrorCodes));
        },
        Some(value) => match as_list(value) {
            None => {
                return Err(ShapeFault::WrongType(WireField::ErrorCodes));
            },
            Some(items) => items,
        },
    };
    let ghost models = json_model(*document)->Object_0[WireField::ErrorCodes.wire_name()]->List_0;
    let mut codes: Vec<SiteVerifyError> = Vec::new();
    let mut i: usize = 0;
    while i < items.len()
        invariant
            i <= items.len(),
            items@.len() == models.len(),
            codes_of(json_model(*document)) == codes_of_items(models),
            forall|k: int| 0 <= k < models.len() ==> json_model(#[trigger] items@[k]) == models[k],
            codes_of_items(models.take(i as int)) == Ok::<Seq<SiteVerifyError>, Fault>(codes@),
        decreases items.len() - i,
    {
        proof {
            assert(models.take(i + 1).drop_last() =~= models.take(i as int));
        }
        match as_text(&items[i]) {
            None => {
                proof {
                    lemma_fault_stays(models, i + 1);
                }
                return Err(ShapeFault::WrongType(WireField::ErrorCodes));
            },
            Some(text) => match SiteVerifyError::from_code(text.as_str()) {
                None => {
                    proof {
                        lemma_fault_stays(models, i + 1);
                    }
                    return Err(ShapeFault::UnknownCode(text));
                },
                Some(code) => {
                    codes.push(code);
                },
            },
        }
        i += 1;
    }
    assert(models.take(i as int) =~= models);
    Ok(codes)
}

/// A fault among the first `count` items of a list is the fault of the
/// whole list.
pub proof fn lemma_fault_stays(items: Seq<Json>, count: int)
    requires
        0 <= count <= items.len(),
        codes_of_items(items.take(count)) is Err,
    ensures
        codes_of_items(items) == codes_of_items(items.take(count)),
    decreases items.len() - count,
{
    if count < items.len() {
        assert(items.take(count + 1).drop_last() =~= items.take(count));
        lemma_fault_stays(items, count + 1);
    } else {
        assert(items.take(count) =~= items);
    }
}

} // verus!
