//! JSON text, read and written by `serde_json`.
//!
//! Two functions here are not verified: `parse_object` and `object_text`
//! call `serde_json`, and their contracts say only that what comes back
//! depends on the arguments and on nothing else. What is done with a parsed
//! object is verified.

use vstd::prelude::*;
use crate::models::text_of;

verus! {

/// A member of a JSON object: its name, and its text where its value is a
/// string.
#[derive(Clone, Debug, PartialEq, Eq)]
pub struct Member {
    pub name: String,
    pub text: Option<String>,
}

impl View for Member {
    type V = (Seq<char>, Option<Seq<char>>);

    open spec fn view(&self) -> (Seq<char>, Option<Seq<char>>) {
        (self.name@, text_of(self.text))
    }
}

/// The views of a list of members.
pub open spec fn members_view(members: Seq<Member>) -> Seq<(Seq<char>, Option<Seq<char>>)> {
    members.map_values(|m: Member| m@)
}

/// The views of the members of a parsed object, if there is one.
pub open spec fn object_view(object: Option<Vec<Member>>) -> Option<
    Seq<(Seq<char>, Option<Seq<char>>)>,
> {
    match object {
        Some(members) => Some(members_view(members@)),
        None => None,
    }
}

/// What `serde_json` reads from `text`: the members of the JSON object that
/// `text` holds, each with its name and, where its value is a string, that
/// string. `None` where `text` is not one JSON value or the value is not an
/// object.
pub uninterp spec fn json_members(text: Seq<char>) -> Option<Seq<(Seq<char>, Option<Seq<char>>)>>;

/// What `serde_json` writes for the JSON object whose one member `name` is
/// the string `value`, pretty-printed. `None` where it reports an error.
pub uninterp spec fn json_object_text(name: Seq<char>, value: Seq<char>) -> Option<Seq<char>>;

/// The text of the first member called `name`; `None` where there is no
/// such member or its value is not a string.
pub open spec fn member_text(
    members: Seq<(Seq<char>, Option<Seq<char>>)>,
    name: Seq<char>,
) -> Option<Seq<char>>
    decreases members.len(),
{
    if members.len() == 0 {
        None
    } else if members[0].0 == name {
        members[0].1
    } else {
        member_text(members.drop_first(), name)
    }
}

/// The text of member `name` of the object that `text` holds, as
/// `serde_json` reads it.
pub open spec fn json_member_text(text: Seq<char>, name: Seq<char>) -> Option<Seq<char>> {
    match json_members(text) {
        Some(members) => member_text(members, name),
        None => None,
    }
}

/// A member's text is found exactly where a member of that name exists and
/// the first of them is a string.
pub proof fn lemma_member_text(
    members: Seq<(Seq<char>, Option<Seq<char>>)>,
    name: Seq<char>,
    text: Seq<char>,
)
    ensures
        member_text(members, name) == Some(text) <==> exists|i: int|
            #![trigger members[i]]
            0 <= i < members.len() && members[i] == (name, Some(text)) && forall|j: int|
                #![trigger members[j]]
                0 <= j < i ==> members[j].0 != name,
    decreases members.len(),
{
    if members.len() > 0 {
        let rest = members.drop_first();
        lemma_member_text(rest, name, text);
        if members[0].0 == name {
            if members[0].1 == Some(text) {
                assert(members[0] == (name, Some(text)));
            }
        } else {
            if member_text(rest, name) == Some(text) {
                let i = choose|i: int|
                    #![trigger rest[i]]
                    0 <= i < rest.len() && rest[i] == (name, Some(text)) && forall|j: int|
                        #![trigger rest[j]]
                        0 <= j < i ==> rest[j].0 != name;
                assert(members[i + 1] == rest[i]);
                assert forall|j: int| #![trigger members[j]] 0 <= j < i + 1 implies members[j].0
                    != name by {
                    if j > 0 {
                        assert(members[j] == rest[j - 1]);
                    }
                }
            }
            if exists|i: int|
                #![trigger members[i]]
                0 <= i < members.len() && members[i] == (name, Some(text)) && forall|j: int|
                    #![trigger members[j]]
                    0 <= j < i ==> members[j].0 != name {
                let i = choose|i: int|
                    #![trigger members[i]]
                    0 <= i < members.len() && members[i] == (name, Some(text)) && forall|j: int|
                        #![trigger members[j]]
                        0 <= j < i ==> members[j].0 != name;
                assert(i > 0);
                assert(rest[i - 1] == members[i]);
                assert forall|j: int| #![trigger rest[j]] 0 <= j < i - 1 implies rest[j].0
                    != name by {
                    assert(rest[j] == members[j + 1]);
                }
            }
        }
    }
}

/// Parses `text` with `serde_json::from_str` into a `serde_json::Value` and
/// hands out the members of the object it finds, a string value as text and
/// any other value as none. The contract names the result and claims nothing
/// of it but that it is a function of `text`.
#[verifier::external_body]
pub(crate) fn parse_object(text: &str) -> (r: Option<Vec<Member>>)
    ensures
        object_view(r) == json_members(text@),
{
    match serde_json::from_str::<serde_json::Value>(text) {
        Ok(serde_json::Value::Object(members)) => Some(
            members.into_iter().map(|(name, value)| match value {
                serde_json::Value::String(text) => Member { name, text: Some(text) },
                _ => Member { name, text: None },
            }).collect(),
        ),
        Ok(_) => None,
        Err(_) => None,
    }
}

/// Builds the object with `serde_json::Map::insert` and writes it with
/// `serde_json::to_string_pretty`. The contract names the result and claims
/// nothing of it but that it is a function of `name` and `value`.
#[verifier::external_body]
pub(crate) fn object_text(name: &str, value: &str) -> (r: Option<String>)
    ensures
        text_of(r) == json_object_text(name@, value@),
{
    let mut members = serde_json::Map::new();
    members.insert(name.to_owned(), serde_json::Value::String(value.to_owned()));
    serde_json::to_string_pretty(&serde_json::Value::Object(members)).ok()
}

/// Finds the text of the first member called `name`.
pub fn find_text(members: &Vec<Member>, name: &str) -> (r: Option<String>)
    ensures
        text_of(r) == member_text(members_view(members@), name@),
{
    let ghost all = members_view(members@);
    let wanted = name.to_owned();
    let mut i: usize = 0;
    assert(all.skip(0) =~= all);
    while i < members.len()
        invariant
            i <= members@.len(),
            wanted@ == name@,
            all == members_view(members@),
            member_text(all, name@) == member_text(all.skip(i as int), name@),
        decreases members@.len() - i,
    {
        assert(all.skip(i as int)[0] == members@[i as int]@);
        assert(all.skip(i as int).drop_first() =~= all.skip(i + 1));
        if members[i].name == wanted {
            return members[i].text.clone();
        }
        i += 1;
    }
    None
}

/// Reads member `name` of the JSON object that `text` holds: its text where
/// `text` holds an object with such a member and the member is a string.
pub fn string_member(text: &str, name: &str) -> (r: Option<String>)
    ensures
        text_of(r) == json_member_text(text@, name@),
{
    match parse_object(text) {
        Some(members) => find_text(&members, name),
        None => None,
    }
}

} // verus!
