//! JSON response bodies, read one level deep: the members of the top-level
//! object, each as `null`, a string, an array (its entries as JSON text) or
//! something else.
use vstd::prelude::*;

use serde_json::Value;

use crate::calls::str_eq;

verus! {

/// The value of a member of a JSON object, read one level deep.
pub enum JsonMember {
    Null,
    String(String),
    /// An array, its entries written back as compact JSON text.
    Array(Vec<String>),
    /// A boolean, a number or an object.
    Other,
}

/// What a member's value stands for, as texts.
pub enum JsonMemberView {
    Null,
    String(Seq<char>),
    Array(Seq<Seq<char>>),
    Other,
}

/// The texts of a list of strings.
pub open spec fn texts(strings: Seq<String>) -> Seq<Seq<char>> {
    strings.map_values(|t: String| t@)
}

impl View for JsonMember {
    type V = JsonMemberView;

    open spec fn view(&self) -> JsonMemberView {
        match self {
            JsonMember::Null => JsonMemberView::Null,
            JsonMember::String(s) => JsonMemberView::String(s@),
            JsonMember::Array(entries) => JsonMemberView::Array(texts(entries@)),
            JsonMember::Other => JsonMemberView::Other,
        }
    }
}

/// The members of an object, as texts.
pub open spec fn members_view(members: Seq<(String, JsonMember)>) -> Seq<(Seq<char>, JsonMemberView)> {
    members.map_values(|m: (String, JsonMember)| (m.0@, m.1@))
}

/// What `serde_json` reads from `body`: `None` where it is not JSON;
/// otherwise the members of the top-level object, in the order of
/// `serde_json`'s map, or `None` inside where the document is not an object.
pub uninterp spec fn json_document(body: Seq<u8>) -> Option<Option<Seq<(Seq<char>, JsonMemberView)>>>;

/// `serde_json::from_slice::<Value>(body)`, with the members of a top-level
/// object converted one for one: `null`, a string, an array whose entries
/// are written back with `to_string`, or anything else. Which
/// `serde_json::Error` comes on a body that is not JSON is not stated.
#[verifier::external_body]
pub(crate) fn parse_json_document(body: &[u8]) -> (r: Result<Option<Vec<(String, JsonMember)>>, serde_json::Error>)
    ensures
        r is Ok <==> json_document(body@) is Some,
        r matches Ok(doc) ==> json_document(body@) == Some(
            match doc {
                Some(members) => Some(members_view(members@)),
                None => None,
            },
        ),
{
    match serde_json::from_slice::<Value>(body) {
        Ok(Value::Object(map)) => Ok(Some(map.into_iter().map(|(k, v)| (k, match v {
            Value::Null => JsonMember::Null,
            Value::String(s) => JsonMember::String(s),
            Value::Array(a) => JsonMember::Array(a.iter().map(|e| e.to_string()).collect()),
            _ => JsonMember::Other,
        })).collect())),
        Ok(_) => Ok(None),
        Err(e) => Err(e),
    }
}

/// The value of the first member named `key`, if any.
pub open spec fn member_named(members: Seq<(Seq<char>, JsonMemberView)>, key: Seq<char>) -> Option<
    JsonMemberView,
>
    decreases members.len(),
{
    if members.len() == 0 {
        None
    } else if members[0].0 == key {
        Some(members[0].1)
    } else {
        member_named(members.drop_first(), key)
    }
}

/// `member_named` gives the value of the first member with the key: where
/// the `i`-th member is the first one named `key`, its value.
pub proof fn lemma_member_named_first(members: Seq<(Seq<char>, JsonMemberView)>, key: Seq<char>, i: int)
    requires
        0 <= i < members.len(),
        members[i].0 == key,
        forall|j: int| 0 <= j < i ==> #[trigger] members[j].0 != key,
    ensures
        member_named(members, key) == Some(members[i].1),
    decreases i,
{
    if i > 0 {
        let rest = members.drop_first();
        assert forall|j: int| 0 <= j < i - 1 implies #[trigger] rest[j].0 != key by {
            assert(rest[j] == members[j + 1]);
        }
        assert(rest[i - 1] == members[i]);
        lemma_member_named_first(rest, key, i - 1);
    }
}

/// `member_named` finds nothing where no member is named `key`.
pub proof fn lemma_member_named_absent(members: Seq<(Seq<char>, JsonMemberView)>, key: Seq<char>)
    requires
        forall|j: int| 0 <= j < members.len() ==> #[trigger] members[j].0 != key,
    ensures
        member_named(members, key) is None,
    decreases members.len(),
{
    if members.len() > 0 {
        let rest = members.drop_first();
        assert forall|j: int| 0 <= j < rest.len() implies #[trigger] rest[j].0 != key by {
            assert(rest[j] == members[j + 1]);
        }
        lemma_member_named_absent(rest, key);
    }
}

/// The position of the first member named `key`, if any.
pub fn find_member(members: &Vec<(String, JsonMember)>, key: &str) -> (r: Option<usize>)
    ensures
        match r {
            Some(i) => i < members.len() && members@[i as int].0@ == key@ && member_named(
                members_view(members@),
                key@,
            ) == Some(members@[i as int].1@),
            None => member_named(members_view(members@), key@) is None,
        },
{
    let ghost all = members_view(members@);
    let mut i: usize = 0;
    assert(all.skip(0) =~= all);
    while i < members.len()
        invariant
            i <= members.len(),
            all == members_view(members@),
            member_named(all, key@) == member_named(all.skip(i as int), key@),
        decreases members.len() - i,
    {
        let ghost rest = all.skip(i as int);
        assert(rest[0] == all[i as int]);
        if str_eq(members[i].0.as_str(), key) {
            return Some(i);
        }
        assert(rest.drop_first() =~= all.skip(i + 1));
        i = i + 1;
    }
    assert(all.skip(i as int).len() == 0);
    None
}

} // verus!
