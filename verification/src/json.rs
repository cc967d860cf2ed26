//! JSON objects as plain data. The text is parsed by `serde_json`; what is
//! read out of a parsed object is verified here.

use crate::error::PaymentError;
use vstd::prelude::*;

verus! {

/// `serde_json::Error`, what the parser says of a text it rejects. Opaque
/// here: only that there is one is used.
#[verifier::external_type_specification]
#[verifier::external_body]
pub struct ExJsonError(serde_json::Error);

/// The members of the JSON object that `serde_json` reads from `text`, each
/// with its name and, where its value is a JSON string, that string; `None`
/// where `serde_json` does not read `text` as one JSON object. Where the
/// text gives a name more than once, the object holds the name once, with
/// the value given last. Trusted to be a function of the text alone; which
/// texts are objects, and what their members are, is not stated.
pub uninterp spec fn json_object(text: Seq<char>) -> Option<Seq<(String, Option<String>)>>;

/// The text of the first of `members` that is named `name`; `None` where
/// there is no such member or its value is not a string.
pub open spec fn first_text(members: Seq<(String, Option<String>)>, name: Seq<char>) -> Option<
    Seq<char>,
>
    decreases members.len(),
{
    if members.len() == 0 {
        None
    } else if members[0].0@ == name {
        match members[0].1 {
            Some(text) => Some(text@),
            None => None,
        }
    } else {
        first_text(members.skip(1), name)
    }
}

/// Trusted: calls `serde_json::from_str` for a `serde_json::Map`, which
/// accepts a text that is one JSON object and nothing but blanks around it,
/// and hands the members out as the map holds them: each name once (of a
/// name that the text repeats, the map keeps the value given last), a
/// string value as its text, any other value as `None`. Not verified. The
/// contract claims only that the outcome is the one that `json_object` names
/// for this text, that is, that equal texts are read alike.
#[verifier::external_body]
fn read_object(text: &str) -> (outcome: Result<Vec<(String, Option<String>)>, serde_json::Error>)
    ensures
        outcome matches Ok(members) ==> json_object(text@) == Some(members@),
        outcome is Err ==> json_object(text@) is None,
{
    let object = serde_json::from_str::<serde_json::Map<String, serde_json::Value>>(text)?;
    Ok(
        object.into_iter().map(
            |(name, value)|
                match value {
                    serde_json::Value::String(text) => (name, Some(text)),
                    _ => (name, None),
                },
        ).collect(),
    )
}

/// A JSON object, as far as its string members go.
#[derive(Debug, PartialEq, Eq)]
pub struct JsonObject {
    /// Each member's name, and its text where its value is a string. A
    /// parsed object holds each name once.
    pub members: Vec<(String, Option<String>)>,
}

impl JsonObject {
    /// Parses `text` as one JSON object. Text that is not JSON, whose
    /// document is not an object, or that holds anything but blanks around
    /// the object, is an invalid message. A name that the text gives more
    /// than once is no error: the parsed object holds it once, with the
    /// value given last.
    pub fn parse(text: &str) -> (outcome: Result<JsonObject, PaymentError>)
        ensures
            match json_object(text@) {
                Some(members) => outcome matches Ok(object) && object.members@ == members,
                None => outcome == Err::<JsonObject, PaymentError>(PaymentError::InvalidMessage),
            },
    {
        match read_object(text) {
            Ok(members) => Ok(JsonObject { members }),
            Err(_) => Err(PaymentError::InvalidMessage),
        }
    }

    /// The text of the member named `name`; `None` where there is no such
    /// member or its value is not a string. A parsed object has at most one
    /// member of a name. In an object put together by hand that has
    /// several, the first in `members` counts.
    pub fn text_member(&self, name: &str) -> (found: Option<&String>)
        ensures
            match first_text(self.members@, name@) {
                Some(text) => found matches Some(s) && s@ == text,
                None => found is None,
            },
    {
        let wanted = name.to_owned();
        let mut i: usize = 0;
        assert(self.members@.skip(0) =~= self.members@);
        while i < self.members.len()
            invariant
                i <= self.members.len(),
                wanted@ == name@,
                first_text(self.members@, name@) == first_text(
                    self.members@.skip(i as int),
                    name@,
                ),
            decreases self.members.len() - i,
        {
            assert(self.members@.skip(i as int)[0] == self.members@[i as int]);
            if self.members[i].0 == wanted {
                return match &self.members[i].1 {
                    Some(text) => Some(text),
                    None => None,
                };
            }
            assert(self.members@.skip(i as int).skip(1) =~= self.members@.skip(i + 1));
            i += 1;
        }
        None
    }
}

} // verus!
