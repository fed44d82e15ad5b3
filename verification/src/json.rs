use crate::decimal::is_number_literal;
use crate::views::outcome;
use vstd::prelude::*;

verus! {

/// A JSON document held as a tree.
///
/// A number is held as a decimal literal: in a document that was read, the
/// one that `serde_json` displays for the number; in a document that is to
/// be written, the one that shall stand in the text. An object keeps its
/// members in a list; looking a key up finds the first member that carries
/// it.
#[derive(Debug, PartialEq, Eq)]
pub enum Json {
    Null,
    Bool(bool),
    Number(String),
    Str(String),
    Array(Vec<Json>),
    Object(Vec<(String, Json)>),
}

/// The mathematical value of a [`Json`] tree.
pub enum JsonValue {
    Null,
    Bool(bool),
    Number(Seq<char>),
    Str(Seq<char>),
    Array(Seq<JsonValue>),
    Object(Seq<(Seq<char>, JsonValue)>),
}

impl View for Json {
    type V = JsonValue;

    open spec fn view(&self) -> JsonValue
        decreases self,
    {
        match self {
            Json::Null => JsonValue::Null,
            Json::Bool(b) => JsonValue::Bool(*b),
            Json::Number(n) => JsonValue::Number(n@),
            Json::Str(s) => JsonValue::Str(s@),
            Json::Array(items) => JsonValue::Array(
                Seq::new(
                    items@.len(),
                    |i: int|
                        if 0 <= i < items@.len() {
                            items@[i].view()
                        } else {
                            JsonValue::Null
                        },
                ),
            ),
            Json::Object(members) => JsonValue::Object(
                Seq::new(
                    members@.len(),
                    |i: int|
                        if 0 <= i < members@.len() {
                            (members@[i].0@, members@[i].1.view())
                        } else {
                            (Seq::empty(), JsonValue::Null)
                        },
                ),
            ),
        }
    }
}

impl DeepView for Json {
    type V = JsonValue;

    open spec fn deep_view(&self) -> JsonValue {
        self.view()
    }
}

/// The value of an array is the array of its items' values.
pub proof fn lemma_array_view(items: Vec<Json>)
    ensures
        Json::Array(items)@ == JsonValue::Array(items.deep_view()),
{
    assert(Json::Array(items)@->Array_0 =~= items.deep_view());
}

/// The value of an object is the list of its members' keys and values.
pub proof fn lemma_object_view(members: Vec<(String, Json)>)
    ensures
        Json::Object(members)@ == JsonValue::Object(members.deep_view()),
{
    reveal_with_fuel(<Json as View>::view, 2);
    assert(Json::Object(members)@->Object_0 =~= members.deep_view());
}

/// The value of the first of `members` that carries `key`.
pub open spec fn lookup(members: Seq<(Seq<char>, JsonValue)>, key: Seq<char>) -> Option<JsonValue>
    decreases members.len(),
{
    if members.len() == 0 {
        None
    } else if members[0].0 == key {
        Some(members[0].1)
    } else {
        lookup(members.drop_first(), key)
    }
}

impl JsonValue {
    /// Whether every number in the document is held as a number literal, so
    /// that it is a number in the text too.
    pub open spec fn well_formed(self) -> bool
        decreases self,
    {
        match self {
            JsonValue::Number(literal) => is_number_literal(literal),
            JsonValue::Array(items) => forall|i: int|
                0 <= i < items.len() ==> (#[trigger] items[i]).well_formed(),
            JsonValue::Object(members) => forall|i: int|
                0 <= i < members.len() ==> (#[trigger] members[i]).1.well_formed(),
            _ => true,
        }
    }

    /// What stands under `key`, where this is an object that has such a
    /// member.
    pub open spec fn field(self, key: Seq<char>) -> Option<JsonValue> {
        match self {
            JsonValue::Object(members) => lookup(members, key),
            _ => None,
        }
    }
}

/// A member that carries the key is found, and none stands before it.
pub proof fn lemma_lookup_found(members: Seq<(Seq<char>, JsonValue)>, key: Seq<char>, at: int)
    requires
        0 <= at < members.len(),
        members[at].0 == key,
        forall|i: int| 0 <= i < at ==> (#[trigger] members[i]).0 != key,
    ensures
        lookup(members, key) == Some(members[at].1),
    decreases at,
{
    if at > 0 {
        let rest = members.drop_first();
        assert forall|i: int| 0 <= i < at - 1 implies (#[trigger] rest[i]).0 != key by {
            assert(rest[i] == members[i + 1]);
        }
        lemma_lookup_found(rest, key, at - 1);
    }
}

/// Where no member carries the key, none is found.
pub proof fn lemma_lookup_missing(members: Seq<(Seq<char>, JsonValue)>, key: Seq<char>)
    requires
        forall|i: int| 0 <= i < members.len() ==> (#[trigger] members[i]).0 != key,
    ensures
        lookup(members, key) is None,
    decreases members.len(),
{
    if members.len() > 0 {
        let rest = members.drop_first();
        assert forall|i: int| 0 <= i < rest.len() implies (#[trigger] rest[i]).0 != key by {
            assert(rest[i] == members[i + 1]);
        }
        lemma_lookup_missing(rest, key);
    }
}

/// A key is looked up in two lists laid end to end as in the first, and
/// only where the first has no such member in the second.
pub proof fn lemma_lookup_append(
    first: Seq<(Seq<char>, JsonValue)>,
    second: Seq<(Seq<char>, JsonValue)>,
    key: Seq<char>,
)
    ensures
        lookup(first + second, key) == match lookup(first, key) {
            Some(value) => Some(value),
            None => lookup(second, key),
        },
    decreases first.len(),
{
    if first.len() == 0 {
        assert(first + second =~= second);
    } else {
        assert((first + second).drop_first() =~= first.drop_first() + second);
        if first[0].0 != key {
            lemma_lookup_append(first.drop_first(), second, key);
        }
    }
}

impl Json {
    /// Whether this is an object.
    pub fn is_object(&self) -> (b: bool)
        ensures
            b == (self@ is Object),
    {
        match self {
            Json::Object(_) => true,
            _ => false,
        }
    }

    /// The value under `key`, where this is an object that has such a
    /// member.
    pub fn get(&self, key: &str) -> (found: Option<&Json>)
        ensures
            found.deep_view() == self@.field(key@),
    {
        match self {
            Json::Object(members) => {
                let wanted = String::from_str(key);
                let ghost all = members.deep_view();
                proof {
                    lemma_object_view(*members);
                }
                let mut i: usize = 0;
                while i < members.len()
                    invariant
                        i <= members.len(),
                        wanted@ == key@,
                        all == members.deep_view(),
                        self@ == JsonValue::Object(all),
                        forall|j: int| 0 <= j < i ==> (#[trigger] all[j]).0 != key@,
                    decreases members.len() - i,
                {
                    if members[i].0 == wanted {
                        let found = Some(&members[i].1);
                        proof {
                            assert(all[i as int] == (members@[i as int].0@, members@[i as int].1@));
                            lemma_lookup_found(all, key@, i as int);
                            assert(found.deep_view() == Some(members@[i as int].1@));
                        }
                        return found;
                    }
                    i = i + 1;
                }
                proof {
                    lemma_lookup_missing(all, key@);
                }
                None
            },
            _ => None,
        }
    }
}

/// Declares `serde_json::Value`. A value of it is handed from the reader to
/// the copy, and nothing here looks into it.
#[verifier::external_type_specification]
#[verifier::external_body]
pub struct ExValue(serde_json::Value);

/// What `serde_json::from_str` makes of a text when asked for a
/// `serde_json::Value`: the tree it read, or how it reports the fault, the
/// report being the error as `{:?}` prints it.
pub uninterp spec fn parsed(text: Seq<char>) -> Result<JsonValue, Seq<char>>;

/// The tree that a `serde_json::Value` holds.
pub uninterp spec fn tree_of(value: serde_json::Value) -> JsonValue;

/// Calls `serde_json::from_str::<serde_json::Value>`. The contract only
/// names the outcome: it is the one that `parsed` stands for, so the same
/// text is always read the same way.
#[verifier::external_body]
fn read_value(text: &str) -> (r: Result<serde_json::Value, String>)
    ensures
        match r {
            Ok(value) => parsed(text@) == Ok::<JsonValue, Seq<char>>(tree_of(value)),
            Err(report) => parsed(text@) == Err::<JsonValue, Seq<char>>(report@),
        },
{
    serde_json::from_str::<serde_json::Value>(text).map_err(|e| format!("{:?}", e))
}

/// Copies a `serde_json::Value` into a [`Json`], variant by variant. A
/// number is carried over as `serde_json::Number` displays it; the members
/// of an object come in the order in which the map hands them out.
#[verifier::external_body]
fn copy_value(value: &serde_json::Value) -> (j: Json)
    ensures
        j@ == tree_of(*value),
{
    match value {
        serde_json::Value::Null => Json::Null,
        serde_json::Value::Bool(b) => Json::Bool(*b),
        serde_json::Value::Number(n) => Json::Number(n.to_string()),
        serde_json::Value::String(s) => Json::Str(s.clone()),
        serde_json::Value::Array(items) => Json::Array(items.iter().map(copy_value).collect()),
        serde_json::Value::Object(members) => Json::Object(
            members.iter().map(|(k, v)| (k.clone(), copy_value(v))).collect(),
        ),
    }
}

/// Reads a JSON text.
pub fn parse(text: &str) -> (r: Result<Json, String>)
    ensures
        outcome(r) == parsed(text@),
{
    match read_value(text) {
        Ok(value) => Ok(copy_value(&value)),
        Err(report) => Err(report),
    }
}

} // verus!
