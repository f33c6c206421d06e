//! The outbound side of a verification call: the request and its JSON body.

use crate::bindings::{hyphenated, json_quoted, quote, uuid_text};
use vstd::prelude::*;

verus! {

/// A request to the Turnstile API.
///
/// <https://developers.cloudflare.com/turnstile/get-started/server-side-validation/#accepted-parameters>
#[derive(Debug, Clone)]
pub struct SiteVerifyRequest {
    /// The secret key of the site. Left unset, the client fills in its own.
    pub secret: Option<String>,
    /// The response token that the widget gave to the visitor.
    pub response: String,
    /// The IP address of the visitor who provided the token.
    pub remote_ip: Option<String>,
    /// A key by which the service recognises a repeated call.
    pub idempotency_key: Option<uuid::Uuid>,
}

/// A request as contracts see it: every field by its text, the idempotency
/// key in the text form that goes on the wire.
pub struct RequestFields {
    pub secret: Option<Seq<char>>,
    pub response: Seq<char>,
    pub remote_ip: Option<Seq<char>>,
    pub idempotency_key: Option<Seq<char>>,
}

/// One member of a JSON object: its name and its value.
pub type Member = (Seq<char>, Seq<char>);

/// The text of an optional string, where there is one.
pub open spec fn optional_text(field: Option<String>) -> Option<Seq<char>> {
    match field {
        Some(text) => Some(text@),
        None => None,
    }
}

/// `members` with one more member at its end where `value` is set, and
/// `members` itself where it is not.
pub open spec fn with_optional(members: Seq<Member>, name: Seq<char>, value: Option<Seq<char>>) -> Seq<
    Member,
> {
    match value {
        Some(text) => members.push((name, text)),
        None => members,
    }
}

/// The value of the member called `name`; of several by that name, the
/// last. `None` where no member has the name.
pub open spec fn lookup(members: Seq<Member>, name: Seq<char>) -> Option<Seq<char>>
    decreases members.len(),
{
    if members.len() == 0 {
        None
    } else if members.last().0 == name {
        Some(members.last().1)
    } else {
        lookup(members.drop_last(), name)
    }
}

/// Each member by the views of its two strings.
pub open spec fn members_view(members: Seq<(String, String)>) -> Seq<Member> {
    members.map_values(|member: (String, String)| (member.0@, member.1@))
}

/// The members of an object written one after the other, a comma between
/// each two: a member is its name in double quotes, a colon, and its value
/// as it stands.
pub open spec fn joined(members: Seq<Member>) -> Seq<char>
    decreases members.len(),
{
    if members.len() == 0 {
        Seq::empty()
    } else if members.len() == 1 {
        member_text(members.last())
    } else {
        joined(members.drop_last()) + ","@ + member_text(members.last())
    }
}

/// One member as it is written: `"name":value`.
pub open spec fn member_text(member: Member) -> Seq<char> {
    "\""@ + member.0 + "\":"@ + member.1
}

/// A JSON object as it is written: the members between braces.
pub open spec fn object_text(members: Seq<Member>) -> Seq<char> {
    "{"@ + joined(members) + "}"@
}

/// Whether every value can be written as a JSON string literal.
pub open spec fn quotable(members: Seq<Member>) -> bool {
    forall|i: int| 0 <= i < members.len() ==> json_quoted((#[trigger] members[i]).1) is Some
}

/// Each member with its value replaced by the JSON string literal for it.
pub open spec fn quoted(members: Seq<Member>) -> Seq<Member> {
    members.map_values(|member: Member| (member.0, json_quoted(member.1).unwrap()))
}

impl RequestFields {
    /// The members of the request's JSON body, in the order in which they
    /// are written. A field that is unset has no member.
    pub open spec fn members(self) -> Seq<Member> {
        let base = with_optional(Seq::empty(), "secret"@, self.secret).push(
            ("response"@, self.response),
        );
        with_optional(
            with_optional(base, "remote_ip"@, self.remote_ip),
            "idempotency_key"@,
            self.idempotency_key,
        )
    }

    /// The request that a reader of the body finds in its members: the token
    /// must be there, every other field is set exactly if it has a member.
    pub open spec fn of_members(members: Seq<Member>) -> Option<RequestFields> {
        match lookup(members, "response"@) {
            Some(response) => Some(
                RequestFields {
                    secret: lookup(members, "secret"@),
                    response,
                    remote_ip: lookup(members, "remote_ip"@),
                    idempotency_key: lookup(members, "idempotency_key"@),
                },
            ),
            None => None,
        }
    }

    /// The JSON body of the request: the object of its members, each value
    /// as a JSON string literal. `None` where a value cannot be written as
    /// one.
    pub open spec fn body(self) -> Option<Seq<char>> {
        if quotable(self.members()) {
            Some(object_text(quoted(self.members())))
        } else {
            None
        }
    }
}

impl View for SiteVerifyRequest {
    type V = RequestFields;

    open spec fn view(&self) -> RequestFields {
        RequestFields {
            secret: optional_text(self.secret),
            response: self.response@,
            remote_ip: optional_text(self.remote_ip),
            idempotency_key: match self.idempotency_key {
                Some(id) => Some(uuid_text(id)),
                None => None,
            },
        }
    }
}

impl Default for SiteVerifyRequest {
    /// The request with an empty token and nothing else set.
    fn default() -> (request: SiteVerifyRequest)
        ensures
            request.secret is None,
            request.response@ == Seq::<char>::empty(),
            request.remote_ip is None,
            request.idempotency_key is None,
    {
        SiteVerifyRequest {
            secret: None,
            response: String::new(),
            remote_ip: None,
            idempotency_key: None,
        }
    }
}

impl SiteVerifyRequest {
    /// The members of the request's JSON body, in the order in which they
    /// are written, each value as plain text. A field that is unset has no
    /// member.
    pub fn members(&self) -> (members: Vec<(String, String)>)
        ensures
            members_view(members@) == self@.members(),
    {
        let mut members: Vec<(String, String)> = Vec::new();
        if let Some(secret) = &self.secret {
            members.push(("secret".to_owned(), secret.clone()));
        }
        members.push(("response".to_owned(), self.response.clone()));
        if let Some(remote_ip) = &self.remote_ip {
            members.push(("remote_ip".to_owned(), remote_ip.clone()));
        }
        if let Some(id) = &self.idempotency_key {
            members.push(("idempotency_key".to_owned(), hyphenated(id)));
        }
        members
    }

    /// The JSON body of the request: an object with one string member for
    /// each field that is set. It fails exactly where a value cannot be
    /// written as a JSON string literal.
    pub fn to_json(&self) -> (body: Result<String, serde_json::Error>)
        ensures
            match body {
                Ok(text) => self@.body() == Some(text@),
                Err(_) => self@.body() is None,
            },
    {
        match quote_values(&self.members()) {
            Ok(literals) => Ok(write_object(&literals)),
            Err(error) => Err(error),
        }
    }
}

/// The same members with each value as a JSON string literal. It fails
/// exactly where a value cannot be written as one.
pub fn quote_values(members: &Vec<(String, String)>) -> (literals: Result<
    Vec<(String, String)>,
    serde_json::Error,
>)
    ensures
        match literals {
            Ok(list) => quotable(members_view(members@)) && members_view(list@) == quoted(
                members_view(members@),
            ),
            Err(_) => !quotable(members_view(members@)),
        },
{
    let mut list: Vec<(String, String)> = Vec::new();
    let mut i: usize = 0;
    while i < members.len()
        invariant
            i <= members.len(),
            list.len() == i,
            forall|k: int|
                0 <= k < i ==> (#[trigger] list@[k]).0@ == members@[k].0@ && json_quoted(
                    members@[k].1@,
                ) == Some(list@[k].1@),
        decreases members.len() - i,
    {
        match quote(members[i].1.as_str()) {
            Ok(literal) => list.push((members[i].0.clone(), literal)),
            Err(error) => {
                assert(json_quoted(members_view(members@)[i as int].1) is None);
                return Err(error);
            },
        }
        i += 1;
    }
    assert forall|k: int| 0 <= k < members@.len() implies json_quoted(
        (#[trigger] members_view(members@)[k]).1,
    ) is Some by {
        assert(list@[k].0@ == members@[k].0@);
    }
    Ok(list)
}

/// Writes a JSON object from members whose values are JSON texts already:
/// `{"name":value,...}`, the members in the order given.
pub fn write_object(members: &Vec<(String, String)>) -> (text: String)
    ensures
        text@ == object_text(members_view(members@)),
{
    let mut text = "{".to_owned();
    let mut i: usize = 0;
    while i < members.len()
        invariant
            i <= members.len(),
            text@ == "{"@ + joined(members_view(members@).take(i as int)),
        decreases members.len() - i,
    {
        let ghost before = members_view(members@).take(i as int);
        let ghost after = members_view(members@).take(i + 1);
        proof {
            assert(after.drop_last() =~= before);
        }
        if i > 0 {
            text.append(",");
        }
        text.append("\"");
        text.append(members[i].0.as_str());
        text.append("\":");
        text.append(members[i].1.as_str());
        i += 1;
    }
    assert(members_view(members@).take(i as int) =~= members_view(members@));
    text.append("}");
    text
}

/// Looking a name up after one more member was added finds the new member
/// if it has that name, and what was found before if it has not.
pub proof fn lemma_lookup_push(members: Seq<Member>, member: Member, name: Seq<char>)
    ensures
        lookup(members.push(member), name) == if member.0 == name {
            Some(member.1)
        } else {
            lookup(members, name)
        },
{
    assert(members.push(member).drop_last() =~= members);
}

/// The four member names are pairwise different.
pub proof fn lemma_names_differ()
    ensures
        "secret"@ != "response"@,
        "secret"@ != "remote_ip"@,
        "secret"@ != "idempotency_key"@,
        "response"@ != "remote_ip"@,
        "response"@ != "idempotency_key"@,
        "remote_ip"@ != "idempotency_key"@,
{
    reveal_strlit("secret");
    reveal_strlit("response");
    reveal_strlit("remote_ip");
    reveal_strlit("idempotency_key");
    assert("secret"@.len() == 6);
    assert("response"@.len() == 8);
    assert("remote_ip"@.len() == 9);
    assert("idempotency_key"@.len() == 15);
}

/// Encoding a request and reading the members back gives the same request:
/// every field that was set comes back with its value, and a field that was
/// unset has no member in the encoded form.
pub proof fn lemma_request_round_trip(request: RequestFields)
    ensures
        RequestFields::of_members(request.members()) == Some(request),
        lookup(request.members(), "secret"@) is None <==> request.secret is None,
        lookup(request.members(), "remote_ip"@) is None <==> request.remote_ip is None,
        lookup(request.members(), "idempotency_key"@) is None <==> request.idempotency_key is None,
{
    lemma_names_differ();
    let m0 = Seq::<Member>::empty();
    let m1 = with_optional(m0, "secret"@, request.secret);
    let m2 = m1.push(("response"@, request.response));
    let m3 = with_optional(m2, "remote_ip"@, request.remote_ip);
    let m4 = with_optional(m3, "idempotency_key"@, request.idempotency_key);
    assert forall|name: Seq<char>| #![auto] lookup(m1, name) == (if name == "secret"@ {
        request.secret
    } else {
        None
    }) by {
        if request.secret is Some {
            lemma_lookup_push(m0, ("secret"@, request.secret->0), name);
        }
    }
    assert forall|name: Seq<char>| #![auto] lookup(m2, name) == (if name == "response"@ {
        Some(request.response)
    } else {
        lookup(m1, name)
    }) by {
        lemma_lookup_push(m1, ("response"@, request.response), name);
    }
    assert forall|name: Seq<char>| #![auto] lookup(m3, name) == (if name == "remote_ip"@
        && request.remote_ip is Some {
        request.remote_ip
    } else {
        lookup(m2, name)
    }) by {
        if request.remote_ip is Some {
            lemma_lookup_push(m2, ("remote_ip"@, request.remote_ip->0), name);
        }
    }
    assert forall|name: Seq<char>| #![auto] lookup(m4, name) == (if name == "idempotency_key"@
        && request.idempotency_key is Some {
        request.idempotency_key
    } else {
        lookup(m3, name)
    }) by {
        if request.idempotency_key is Some {
            lemma_lookup_push(m3, ("idempotency_key"@, request.idempotency_key->0), name);
        }
    }
}

} // verus!
