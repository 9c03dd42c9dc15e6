//! JSON documents as the relay reads and writes them.
//!
//! Text becomes a document, and a document text, through `serde_json`. The
//! four functions at the end of this module are the calls into it; their
//! contracts are not proved here. What a text parses to and what a document
//! prints as are given names, `json_parse` and `json_text`, and nothing more
//! is said of either.

use vstd::prelude::*;
use serde_json::Value;

verus! {

/// `serde_json::Value`, of which nothing is seen here but its name.
#[verifier::external_type_specification]
#[verifier::external_body]
pub struct ExValue(Value);

/// `serde_json::Error`, of which nothing is seen here but its name.
#[verifier::external_type_specification]
#[verifier::external_body]
pub struct ExJsonError(serde_json::Error);

/// A JSON document.
#[derive(Debug)]
pub enum Json {
    Null,
    Bool(bool),
    /// A number. It carries its value where it is a whole number from 0 to
    /// `u64::MAX`, and `None` where it is negative, fractional or larger.
    Number(Option<u64>),
    Text(String),
    List(Vec<Json>),
    /// An object: its members in the order in which they stand. Of two members
    /// with one key the later one counts.
    Object(Vec<(String, Json)>),
}

/// The mathematical value of a JSON document.
pub enum JsonView {
    Null,
    Bool(bool),
    Number(Option<u64>),
    Text(Seq<char>),
    List(Seq<JsonView>),
    Object(Map<Seq<char>, JsonView>),
}

impl JsonView {
    /// Every number in the document has a value, so that the document can be
    /// written out as it is.
    pub open spec fn printable(self) -> bool
        decreases self,
    {
        match self {
            JsonView::Number(n) => n is Some,
            JsonView::List(items) => forall|i: int|
                0 <= i < items.len() ==> (#[trigger] items[i]).printable(),
            JsonView::Object(members) => forall|key: Seq<char>|
                members.dom().contains(key) ==> (#[trigger] members[key]).printable(),
            _ => true,
        }
    }
}

/// The members of an object as a map: of two members with one key the later
/// one counts.
pub open spec fn object_view(members: Seq<(String, Json)>) -> Map<Seq<char>, JsonView>
    decreases members,
{
    if members.len() == 0 {
        Map::empty()
    } else {
        object_view(members.drop_last()).insert(members.last().0@, members.last().1.view())
    }
}

impl View for Json {
    type V = JsonView;

    open spec fn view(&self) -> JsonView
        decreases self,
    {
        match self {
            Json::Null => JsonView::Null,
            Json::Bool(b) => JsonView::Bool(*b),
            Json::Number(n) => JsonView::Number(*n),
            Json::Text(text) => JsonView::Text(text@),
            Json::List(items) => JsonView::List(
                Seq::new(
                    items@.len(),
                    |i: int|
                        if 0 <= i < items@.len() {
                            items@[i].view()
                        } else {
                            JsonView::Null
                        },
                ),
            ),
            Json::Object(members) => JsonView::Object(object_view(members@)),
        }
    }
}

impl Json {
    /// Every number that stands anywhere in the document has a value.
    pub open spec fn complete(&self) -> bool
        decreases self,
    {
        match self {
            Json::Number(n) => n is Some,
            Json::List(items) => forall|i: int|
                0 <= i < items@.len() ==> (#[trigger] items@[i]).complete(),
            Json::Object(members) => forall|i: int|
                0 <= i < members@.len() ==> (#[trigger] members@[i]).1.complete(),
            _ => true,
        }
    }
}

/// An object has a key exactly when one of its members has it.
pub proof fn lemma_object_keys(members: Seq<(String, Json)>, key: Seq<char>)
    ensures
        object_view(members).dom().contains(key) <==> exists|i: int|
            0 <= i < members.len() && (#[trigger] members[i]).0@ == key,
    decreases members.len(),
{
    if members.len() > 0 {
        let rest = members.drop_last();
        let last = members.last();
        lemma_object_keys(rest, key);
        assert(object_view(members) == object_view(rest).insert(last.0@, last.1.view()));
        if object_view(members).dom().contains(key) {
            if last.0@ == key {
                assert(members[members.len() - 1].0@ == key);
            } else {
                let i = choose|i: int| 0 <= i < rest.len() && (#[trigger] rest[i]).0@ == key;
                assert(rest[i] == members[i]);
                assert(members[i].0@ == key);
            }
        }
        if exists|i: int| 0 <= i < members.len() && (#[trigger] members[i]).0@ == key {
            let i = choose|i: int| 0 <= i < members.len() && (#[trigger] members[i]).0@ == key;
            if i < members.len() - 1 {
                assert(rest[i] == members[i]);
                assert(rest[i].0@ == key);
            }
        }
    }
}

/// Every member of the list is complete.
pub open spec fn all_complete(members: Seq<(String, Json)>) -> bool {
    forall|i: int| 0 <= i < members.len() ==> (#[trigger] members[i]).1.complete()
}

impl Json {
    /// Adds the member `key: value` behind the members of an object in the
    /// making, where it takes the place of any earlier member with that key.
    pub fn put(members: &mut Vec<(String, Json)>, key: &str, value: Json)
        ensures
            object_view(final(members)@) == object_view(old(members)@).insert(key@, value@),
            all_complete(old(members)@) && value.complete() ==> all_complete(final(members)@),
    {
        members.push((key.to_owned(), value));
        proof {
            assert(members@.drop_last() =~= old(members)@);
        }
    }

    /// The member of an object under `key`: the last one, where several have
    /// the key. `None` where no member has it, or the document is no object.
    #[verifier::loop_isolation(false)]
    pub fn member(&self, key: &str) -> (found: Option<&Json>)
        ensures
            match found {
                Some(value) => self@ is Object && self@->Object_0.dom().contains(key@)
                    && self@->Object_0[key@] == value@,
                None => !(self@ is Object) || !self@->Object_0.dom().contains(key@),
            },
    {
        match self {
            Json::Object(members) => {
                let wanted = key.to_owned();
                let mut i: usize = 0;
                let mut found: Option<&Json> = None;
                while i < members.len()
                    invariant
                        i <= members.len(),
                        wanted@ == key@,
                        match found {
                            Some(value) => object_view(members@.take(i as int)).dom().contains(key@)
                                && object_view(members@.take(i as int))[key@] == value@,
                            None => !object_view(members@.take(i as int)).dom().contains(key@),
                        },
                    decreases members.len() - i,
                {
                    proof {
                        let next = members@.take(i + 1);
                        assert(next.drop_last() =~= members@.take(i as int));
                        assert(next.last() == members@[i as int]);
                        assert(object_view(next) == object_view(next.drop_last()).insert(
                            next.last().0@,
                            next.last().1.view(),
                        ));
                    }
                    if members[i].0 == wanted {
                        found = Some(&members[i].1);
                    }
                    i = i + 1;
                }
                proof {
                    assert(members@.take(i as int) =~= members@);
                }
                found
            },
            _ => None,
        }
    }
}

/// What a `serde_json::Value` holds, as a document. A number that is negative,
/// fractional or above `u64::MAX` stands in it without its value.
pub uninterp spec fn value_model(value: Value) -> JsonView;

/// What `serde_json::from_str` reads in a text as a `serde_json::Value`:
/// `None` where it rejects the text.
pub uninterp spec fn json_parse(text: Seq<char>) -> Option<JsonView>;

/// What `serde_json::to_string` writes for a `serde_json::Value` that holds
/// the given printable document: `None` where it fails.
pub uninterp spec fn json_text(doc: JsonView) -> Option<Seq<char>>;

/// `serde_json::from_str` at the type `serde_json::Value`: the value that the
/// text spells, or the parser's error.
#[verifier::external_body]
pub(crate) fn parse_value(text: &str) -> (parsed: Result<Value, serde_json::Error>)
    ensures
        parsed is Ok <==> json_parse(text@) is Some,
        parsed matches Ok(value) ==> json_parse(text@) == Some(value_model(value)),
{
    serde_json::from_str::<Value>(text)
}

/// Turns a `serde_json::Value` into a document, part for part. A number keeps
/// what `Number::as_u64` gives for it; an object gives its members in the
/// order in which its map hands them out.
#[verifier::external_body]
pub(crate) fn json_of_value(value: Value) -> (doc: Json)
    ensures
        doc@ == value_model(value),
{
    match value {
        Value::Null => Json::Null,
        Value::Bool(b) => Json::Bool(b),
        Value::Number(n) => Json::Number(n.as_u64()),
        Value::String(text) => Json::Text(text),
        Value::Array(items) => Json::List(items.into_iter().map(json_of_value).collect()),
        Value::Object(members) => Json::Object(
            members.into_iter().map(|(key, member)| (key, json_of_value(member))).collect(),
        ),
    }
}

/// Turns a document into a `serde_json::Value`, part for part, or gives
/// `None` where a number in it has no value. The members of an object go
/// into the value's map one after the other through `Map::insert`, which
/// replaces the value of a key that is already there: of two members with
/// one key the later one stays.
#[verifier::external_body]
pub(crate) fn value_of_json(doc: &Json) -> (value: Option<Value>)
    ensures
        value is Some <==> doc.complete(),
        value matches Some(v) ==> value_model(v) == doc@,
{
    Some(match doc {
        Json::Null => Value::Null,
        Json::Bool(b) => Value::Bool(*b),
        Json::Number(n) => Value::from((*n)?),
        Json::Text(text) => Value::String(text.clone()),
        Json::List(items) => Value::Array(items.iter().map(value_of_json).collect::<Option<_>>()?),
        Json::Object(members) => Value::Object(
            members.iter().try_fold(serde_json::Map::new(), |mut map, m| {
                map.insert(m.0.clone(), value_of_json(&m.1)?);
                Some(map)
            })?,
        ),
    })
}

/// `serde_json::to_string` on a `serde_json::Value`: the JSON text of the
/// value, or the serialiser's error.
#[verifier::external_body]
pub(crate) fn render_value(value: &Value) -> (text: Result<String, serde_json::Error>)
    ensures
        value_model(*value).printable() ==> (text is Ok <==> json_text(value_model(*value)) is Some),
        text matches Ok(s) ==> value_model(*value).printable() ==> json_text(value_model(*value)) == Some(s@),
{
    serde_json::to_string(value)
}

} // verus!
