use crate::decimal::{is_number_literal, lemma_numeral_literal, lemma_signed_literal, Decimal};
use crate::digits::{numeral, render_signed, render_unsigned, signed_numeral};
use crate::json::{lemma_array_view, lemma_object_view, Json, JsonValue};
use crate::logit_bias::LogitBias;
use vstd::prelude::*;

verus! {

/// A count on the wire: its numeral.
pub open spec fn count_value(n: u32) -> JsonValue {
    JsonValue::Number(numeral(n as nat))
}

/// A list of texts on the wire: an array of strings.
pub open spec fn texts_value(texts: Seq<Seq<char>>) -> JsonValue {
    JsonValue::Array(texts.map_values(|text: Seq<char>| JsonValue::Str(text)))
}

/// Biases on the wire: an object with one member for each token, which
/// holds the bias as a signed numeral.
pub open spec fn biases_value(entries: Seq<(Seq<char>, i32)>) -> JsonValue {
    JsonValue::Object(
        entries.map_values(
            |entry: (Seq<char>, i32)| (entry.0, JsonValue::Number(signed_numeral(entry.1 as int))),
        ),
    )
}

/// A member that is on the wire whatever the settings.
pub open spec fn always(key: Seq<char>, value: JsonValue) -> Seq<(Seq<char>, JsonValue)> {
    seq![(key, value)]
}

/// A member that is on the wire only where it has a value.
pub open spec fn present(key: Seq<char>, value: Option<JsonValue>) -> Seq<(Seq<char>, JsonValue)> {
    match value {
        Some(value) => seq![(key, value)],
        None => Seq::empty(),
    }
}

/// Whether every number in the values of the members is held as a number
/// literal.
pub open spec fn all_well_formed(members: Seq<(Seq<char>, JsonValue)>) -> bool {
    forall|i: int| 0 <= i < members.len() ==> (#[trigger] members[i]).1.well_formed()
}

/// Counts, lists of texts and biases are written with number literals for
/// their numbers.
pub proof fn lemma_values_well_formed(n: u32, list: Seq<Seq<char>>, entries: Seq<(Seq<char>, i32)>)
    ensures
        count_value(n).well_formed(),
        texts_value(list).well_formed(),
        biases_value(entries).well_formed(),
{
    lemma_numeral_literal(n as nat);
    assert forall|i: int| 0 <= i < list.len() implies (#[trigger] texts_value(
        list,
    )->Array_0[i]).well_formed() by {
        assert(texts_value(list)->Array_0[i] == JsonValue::Str(list[i]));
    }
    assert forall|i: int| 0 <= i < entries.len() implies (#[trigger] biases_value(
        entries,
    )->Object_0[i]).1.well_formed() by {
        lemma_signed_literal(entries[i].1 as int);
    }
}

/// Members whose numbers are number literals stay so when more of their
/// kind follow.
pub proof fn lemma_append_well_formed(
    first: Seq<(Seq<char>, JsonValue)>,
    second: Seq<(Seq<char>, JsonValue)>,
)
    requires
        all_well_formed(first),
        all_well_formed(second),
    ensures
        all_well_formed(first + second),
{
    assert forall|i: int| 0 <= i < (first + second).len() implies (#[trigger] (first
        + second)[i]).1.well_formed() by {
        if i < first.len() {
            assert((first + second)[i] == first[i]);
        } else {
            assert((first + second)[i] == second[i - first.len()]);
        }
    }
}

/// Puts the member `key` with the value `value` behind `members`.
pub fn put(members: &mut Vec<(String, Json)>, key: &str, value: Json)
    ensures
        final(members).deep_view() == old(members).deep_view() + always(key@, value@),
{
    let ghost before = members.deep_view();
    members.push((String::from_str(key), value));
    assert(members.deep_view() =~= before + always(key@, value@));
}

/// Puts the member `key` behind `members` if it has a value.
pub fn put_if(members: &mut Vec<(String, Json)>, key: &str, value: Option<Json>)
    ensures
        final(members).deep_view() == old(members).deep_view() + present(
            key@,
            value.deep_view(),
        ),
{
    let ghost before = members.deep_view();
    match value {
        Some(value) => {
            members.push((String::from_str(key), value));
            assert(members.deep_view() =~= before + present(key@, Some(value@)));
        },
        None => {
            assert(members.deep_view() =~= before + present(key@, None));
        },
    }
}

/// Makes a string.
pub fn text(content: &str) -> (j: Json)
    ensures
        j@ == JsonValue::Str(content@),
{
    Json::Str(String::from_str(content))
}

/// Makes a count.
pub fn count(n: u32) -> (j: Json)
    ensures
        j@ == count_value(n),
{
    Json::Number(render_unsigned(n as u64))
}

/// Makes a number from its decimal literal.
pub fn decimal(number: &Decimal) -> (j: Json)
    ensures
        j@ == JsonValue::Number(number@),
        is_number_literal(number@),
{
    Json::Number(String::from_str(number.as_str()))
}

/// Makes an array of strings.
pub fn texts(list: &Vec<String>) -> (j: Json)
    ensures
        j@ == texts_value(list.deep_view()),
{
    let mut items: Vec<Json> = Vec::new();
    let mut i: usize = 0;
    while i < list.len()
        invariant
            i <= list.len(),
            items.len() == i,
            forall|k: int| 0 <= k < i ==> (#[trigger] items@[k])@ == JsonValue::Str(list@[k]@),
        decreases list.len() - i,
    {
        items.push(Json::Str(list[i].clone()));
        i = i + 1;
    }
    proof {
        lemma_array_view(items);
        assert(items.deep_view() =~= list.deep_view().map_values(
            |text: Seq<char>| JsonValue::Str(text),
        ));
    }
    Json::Array(items)
}

/// Makes the object of biases.
pub fn biases(table: &LogitBias) -> (j: Json)
    ensures
        j@ == biases_value(table@),
{
    let mut members: Vec<(String, Json)> = Vec::new();
    let n = table.len();
    let mut i: usize = 0;
    while i < n
        invariant
            i <= n,
            n == table@.len(),
            members.len() == i,
            forall|k: int|
                0 <= k < i ==> (#[trigger] members@[k]).0@ == table@[k].0 && members@[k].1@
                    == JsonValue::Number(signed_numeral(table@[k].1 as int)),
        decreases n - i,
    {
        let (token, bias) = table.entry(i);
        members.push((String::from_str(token), Json::Number(render_signed(bias as i64))));
        i = i + 1;
    }
    proof {
        lemma_object_view(members);
        assert(members.deep_view() =~= table@.map_values(
            |entry: (Seq<char>, i32)| (entry.0, JsonValue::Number(signed_numeral(entry.1 as int))),
        ));
    }
    Json::Object(members)
}

} // verus!
