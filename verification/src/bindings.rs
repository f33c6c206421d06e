//! What this crate takes from other crates: their types, and the calls into
//! them.
//!
//! Nothing in this file is proved. Each contract below is a claim about code
//! that lives elsewhere, and every proof in the crate rests on these claims.

use vstd::prelude::*;

verus! {

/// A site's secret key, kept in a `secrecy::Secret` so that it stays out of
/// debug output and is wiped when dropped. Verus sees nothing inside it: what
/// it holds is named by [`secret_text`].
#[verifier::external_body]
pub struct Credential {
    inner: secrecy::Secret<String>,
}

/// `serde_json::Error`: why a JSON text could not be written or read. Opaque here.
#[verifier::external_type_specification]
#[verifier::external_body]
pub struct ExJsonError(serde_json::Error);

/// `serde_json::Value`: a parsed JSON document. Opaque here: what it holds is
/// named by [`json_model`].
#[verifier::external_type_specification]
#[verifier::external_body]
pub struct ExJsonValue(serde_json::Value);

/// `hyper::Error`: why an HTTP exchange failed. Opaque here.
#[verifier::external_type_specification]
#[verifier::external_body]
pub struct ExHyperError(hyper::Error);

/// `uuid::Uuid`: a 128-bit identifier. Opaque here: its bits are named by
/// [`uuid_bits`] and its text by [`uuid_text`].
#[verifier::external_type_specification]
#[verifier::external_body]
pub struct ExUuid(uuid::Uuid);

/// A JSON document as contracts see it. Numbers and the order of an object's
/// members are left out: nothing in this crate reads them.
pub enum Json {
    Null,
    Bool(bool),
    Number,
    Text(Seq<char>),
    List(Seq<Json>),
    Object(Map<Seq<char>, Json>),
}

/// The text that a credential holds.
pub uninterp spec fn secret_text(credential: Credential) -> Seq<char>;

/// The document that a `serde_json::Value` holds.
pub uninterp spec fn json_model(value: serde_json::Value) -> Json;

/// The document that `serde_json` reads from a text, or `None` where it
/// rejects the text.
pub uninterp spec fn json_parse(text: Seq<u8>) -> Option<Json>;

/// The JSON string literal that `serde_json` writes for a text: the text
/// between double quotes, with the escapes that JSON asks for. `None` where
/// it gives an error in place of a literal.
pub uninterp spec fn json_quoted(text: Seq<char>) -> Option<Seq<char>>;

/// The 128 bits that a UUID holds, its first byte in the highest place, as
/// `uuid::Uuid::as_u128` gives them.
pub uninterp spec fn uuid_bits(id: uuid::Uuid) -> u128;

/// Whether 128 bits are laid out as a random UUID is: the version field
/// holds 4, and the variant field begins with the bits 1 and 0 (the variant
/// of RFC 4122). The other 122 bits are free.
pub open spec fn is_version_four(bits: u128) -> bool {
    bits & 0xF000_C000_0000_0000_0000u128 == 0x4000_8000_0000_0000_0000u128
}

/// The text form of a UUID: 32 lower-case hexadecimal digits in five groups
/// parted by hyphens.
pub uninterp spec fn uuid_text(id: uuid::Uuid) -> Seq<char>;

impl Credential {
    /// `secrecy::Secret::new`: takes ownership of the text and holds it unchanged.
    #[verifier::external_body]
    pub(crate) fn hold(text: String) -> (credential: Credential)
        ensures
            secret_text(credential) == text@,
    {
        Credential { inner: secrecy::Secret::new(text) }
    }

    /// `secrecy::ExposeSecret::expose_secret`, then a clone of the `String` it
    /// lends: the copy reads the same as what the holder keeps.
    #[verifier::external_body]
    pub(crate) fn expose(&self) -> (text: String)
        ensures
            text@ == secret_text(*self),
    {
        secrecy::ExposeSecret::expose_secret(&self.inner).clone()
    }
}

/// `serde_json::to_string` on a `str`: the JSON string literal for the text.
/// It succeeds exactly where [`json_quoted`] gives a literal, and the result
/// is then that literal.
#[verifier::external_body]
pub(crate) fn quote(text: &str) -> (quoted: Result<String, serde_json::Error>)
    ensures
        match quoted {
            Ok(literal) => json_quoted(text@) == Some(literal@),
            Err(_) => json_quoted(text@) is None,
        },
{
    serde_json::to_string(text)
}

/// `serde_json::from_slice` into a `Value`: reads the whole text as one JSON
/// document. It succeeds exactly where [`json_parse`] gives a document, and
/// the value then holds that document.
#[verifier::external_body]
pub(crate) fn parse(text: &[u8]) -> (parsed: Result<serde_json::Value, serde_json::Error>)
    ensures
        match parsed {
            Ok(value) => json_parse(text@) == Some(json_model(value)),
            Err(_) => json_parse(text@) is None,
        },
{
    serde_json::from_slice(text)
}

/// `serde_json::Value::get` with a string index: the member of that name if
/// the value is an object that has one, `None` otherwise.
#[verifier::external_body]
pub(crate) fn member<'a>(value: &'a serde_json::Value, name: &str) -> (found: Option<
    &'a serde_json::Value,
>)
    ensures
        match json_model(*value) {
            Json::Object(members) => if members.contains_key(name@) {
                found matches Some(inner) && json_model(*inner) == members[name@]
            } else {
                found is None
            },
            _ => found is None,
        },
{
    value.get(name)
}

/// `serde_json::Value::is_null`.
#[verifier::external_body]
pub(crate) fn is_null(value: &serde_json::Value) -> (null: bool)
    ensures
        null == (json_model(*value) is Null),
{
    value.is_null()
}

/// `serde_json::Value::as_bool`: the boolean if the value is one.
#[verifier::external_body]
pub(crate) fn as_bool(value: &serde_json::Value) -> (found: Option<bool>)
    ensures
        found == match json_model(*value) {
            Json::Bool(b) => Some(b),
            _ => None,
        },
{
    value.as_bool()
}

/// `serde_json::Value::as_str`, then a copy into a `String`: the text if the
/// value is a string.
#[verifier::external_body]
pub(crate) fn as_text(value: &serde_json::Value) -> (found: Option<String>)
    ensures
        match json_model(*value) {
            Json::Text(text) => found matches Some(copy) && copy@ == text,
            _ => found is None,
        },
{
    value.as_str().map(str::to_owned)
}

/// `serde_json::Value::as_array`: the items, in order, if the value is an array.
#[verifier::external_body]
pub(crate) fn as_list(value: &serde_json::Value) -> (found: Option<&Vec<serde_json::Value>>)
    ensures
        match json_model(*value) {
            Json::List(items) => found matches Some(list) && list@.len() == items.len()
                && forall|i: int| 0 <= i < items.len() ==> json_model(#[trigger] list@[i]) == items[i],
            _ => found is None,
        },
{
    value.as_array()
}

/// `serde::de::Error::custom` for `serde_json::Error`: an error that carries
/// the message. Nothing is claimed about the error, which is opaque.
#[verifier::external_body]
pub(crate) fn shape_error(message: &str) -> serde_json::Error {
    <serde_json::Error as serde::de::Error>::custom(message)
}

/// `uuid::Uuid::new_v4`: a random identifier. It differs from call to call,
/// so only what holds of every outcome is claimed: 122 bits are drawn at
/// random, and the version and variant fields are set as
/// [`is_version_four`] says.
#[verifier::external_body]
pub(crate) fn random_uuid() -> (id: uuid::Uuid)
    ensures
        is_version_four(uuid_bits(id)),
{
    uuid::Uuid::new_v4()
}

/// `uuid::Uuid::hyphenated`, written out with `to_string`: the text form of
/// the identifier.
#[verifier::external_body]
pub(crate) fn hyphenated(id: &uuid::Uuid) -> (text: String)
    ensures
        text@ == uuid_text(*id),
{
    id.hyphenated().to_string()
}

} // verus!
