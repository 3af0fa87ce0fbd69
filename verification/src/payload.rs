//! The payload of a `MSG` frame: a JSON object that carries at least the
//! sender's nick and the message text.

use vstd::prelude::*;

verus! {

/// `serde_json::Value`, a JSON document in memory. Nothing of its inside is
/// visible here but what [`string_members`] names.
#[verifier::external_type_specification]
#[verifier::external_body]
pub struct ExJsonValue(serde_json::Value);

/// `serde_json::Error`, the reason why a text was not read. It is carried,
/// never looked into.
#[verifier::external_type_specification]
#[verifier::external_body]
pub struct ExJsonError(serde_json::Error);

/// The members of a JSON object whose value is a JSON string, by key, each
/// with its text. A value that is not an object has none.
pub uninterp spec fn string_members(value: serde_json::Value) -> Map<Seq<char>, Seq<char>>;

/// The string members of the document that a text is read as, if it is JSON
/// that `serde_json` accepts.
pub uninterp spec fn document_members(text: Seq<char>) -> Option<Map<Seq<char>, Seq<char>>>;

/// The body of a chat message: who said it, and what.
#[derive(Clone, Debug, PartialEq, Eq)]
pub struct Msg {
    pub nick: String,
    pub data: String,
}

/// The mathematical content of a [`Msg`].
pub struct MsgView {
    pub nick: Seq<char>,
    pub data: Seq<char>,
}

impl View for Msg {
    type V = MsgView;

    open spec fn view(&self) -> MsgView {
        MsgView { nick: self.nick@, data: self.data@ }
    }
}

/// Why an argument is no payload.
#[derive(Clone, Copy, Debug, PartialEq, Eq, Structural)]
pub enum PayloadError {
    /// The argument is not JSON that `serde_json` accepts.
    NotJson,
    /// The document has no member `nick` that is a string.
    MissingNick,
    /// The document has no member `data` that is a string.
    MissingData,
}

/// The text of the member `key` among `members`, if there is one.
pub open spec fn text_member(members: Map<Seq<char>, Seq<char>>, key: Seq<char>) -> Option<
    Seq<char>,
> {
    if members.contains_key(key) {
        Some(members[key])
    } else {
        None
    }
}

/// The payload that the two members make up: both are required.
pub open spec fn payload_from(nick: Option<Seq<char>>, data: Option<Seq<char>>) -> Result<
    MsgView,
    PayloadError,
> {
    match (nick, data) {
        (None, _) => Err(PayloadError::MissingNick),
        (Some(_), None) => Err(PayloadError::MissingData),
        (Some(n), Some(d)) => Ok(MsgView { nick: n, data: d }),
    }
}

/// The payload that an argument stands for. Members other than `nick` and
/// `data` play no part.
pub open spec fn payload_of(argument: Seq<char>) -> Result<MsgView, PayloadError> {
    match document_members(argument) {
        None => Err(PayloadError::NotJson),
        Some(members) => payload_from(text_member(members, "nick"@), text_member(members, "data"@)),
    }
}

/// A document whose members `nick` and `data` are strings reads as the
/// payload of the two; a document that lacks either reads as an error.
pub proof fn lemma_payload_needs_both(argument: Seq<char>, document: Map<Seq<char>, Seq<char>>)
    requires
        document_members(argument) == Some(document),
    ensures
        text_member(document, "nick"@) is Some && text_member(document, "data"@) is Some
            ==> payload_of(argument) == Ok::<MsgView, PayloadError>(
            (MsgView {
                nick: text_member(document, "nick"@)->Some_0,
                data: text_member(document, "data"@)->Some_0,
            }),
        ),
        text_member(document, "nick"@) is None ==> payload_of(argument) == Err::<
            MsgView,
            PayloadError,
        >(PayloadError::MissingNick),
        text_member(document, "nick"@) is Some && text_member(document, "data"@) is None
            ==> payload_of(argument) == Err::<MsgView, PayloadError>(PayloadError::MissingData),
{
}

/// Two documents that agree on `nick` and on `data` read as the same
/// payload, whatever other members they hold.
pub proof fn lemma_other_members_ignored(
    first: Seq<char>,
    second: Seq<char>,
    first_document: Map<Seq<char>, Seq<char>>,
    second_document: Map<Seq<char>, Seq<char>>,
)
    requires
        document_members(first) == Some(first_document),
        document_members(second) == Some(second_document),
        text_member(first_document, "nick"@) == text_member(second_document, "nick"@),
        text_member(first_document, "data"@) == text_member(second_document, "data"@),
    ensures
        payload_of(first) == payload_of(second),
{
}

/// The content of an optional string.
pub open spec fn text_view(text: Option<String>) -> Option<Seq<char>> {
    match text {
        Some(t) => Some(t@),
        None => None,
    }
}

/// The content of a parse result.
pub open spec fn outcome_view(outcome: Result<Msg, PayloadError>) -> Result<MsgView, PayloadError> {
    match outcome {
        Ok(msg) => Ok(msg@),
        Err(e) => Err(e),
    }
}

/// `serde_json::from_str` at the type `serde_json::Value`: whether it gives
/// a value, and what that value holds, depends on the text alone.
#[verifier::external_body]
fn read_json(text: &str) -> (r: Result<serde_json::Value, serde_json::Error>)
    ensures
        r is Ok <==> document_members(text@) is Some,
        r matches Ok(value) ==> document_members(text@) == Some(string_members(value)),
{
    serde_json::from_str::<serde_json::Value>(text)
}

/// `serde_json::Value::get` with a string key: it finds the member of that
/// name where the value is an object that has one. Of what it finds, the
/// text is handed out where the member is a JSON string.
#[verifier::external_body]
fn read_text_member(value: &serde_json::Value, key: &str) -> (r: Option<String>)
    ensures
        r is Some <==> string_members(*value).contains_key(key@),
        r matches Some(text) ==> text@ == string_members(*value)[key@],
{
    match value.get(key) {
        Some(serde_json::Value::String(text)) => Some(text.clone()),
        _ => None,
    }
}

/// Makes a payload of the two members read from a document. Both are
/// required: a missing `nick` is reported first, then a missing `data`.
pub fn payload_from_members(nick: Option<String>, data: Option<String>) -> (r: Result<
    Msg,
    PayloadError,
>)
    ensures
        outcome_view(r) == payload_from(text_view(nick), text_view(data)),
{
    match nick {
        None => Err(PayloadError::MissingNick),
        Some(nick) => match data {
            None => Err(PayloadError::MissingData),
            Some(data) => Ok(Msg { nick, data }),
        },
    }
}

/// Reads the argument of a `MSG` frame as a payload.
pub fn parse_payload(argument: &str) -> (r: Result<Msg, PayloadError>)
    ensures
        outcome_view(r) == payload_of(argument@),
{
    match read_json(argument) {
        Err(_) => Err(PayloadError::NotJson),
        Ok(document) => {
            let nick = read_text_member(&document, "nick");
            let data = read_text_member(&document, "data");
            payload_from_members(nick, data)
        },
    }
}

/// Reads the second piece of a split line as a payload.
pub fn parse(in_msg: Vec<&str>) -> (r: Result<Msg, PayloadError>)
    requires
        in_msg@.len() >= 2,
    ensures
        outcome_view(r) == payload_of(in_msg@[1]@),
{
    parse_payload(in_msg[1])
}

} // verus!
