use crate::digits::{parse_u32, u32_of};
use crate::error::{ShapeError, ShapeFault};
use crate::json::{lemma_array_view, Json, JsonValue};
use crate::views::outcome;
use vstd::prelude::*;

verus! {

/// A type that a JSON document can be read as.
///
/// A shape is read from an object by the names of its members. Members that
/// the shape does not name are passed over.
pub trait Shape: Sized + DeepView {
    /// What `document` reads as, or the first reason why it does not.
    spec fn shape(document: JsonValue) -> Result<<Self as DeepView>::V, ShapeFault>;

    /// Reads `document`.
    fn decode(document: &Json) -> (r: Result<Self, ShapeError>)
        ensures
            outcome(r) == Self::shape(document@),
    ;
}

/// The text under `key`, which must be there and be a string.
pub open spec fn required_text(document: JsonValue, key: Seq<char>) -> Result<
    Seq<char>,
    ShapeFault,
> {
    match document.field(key) {
        None => Err(ShapeFault::Missing(key)),
        Some(JsonValue::Str(text)) => Ok(text),
        Some(_) => Err(ShapeFault::Mismatch(key)),
    }
}

/// The text under `key`, if there is a member of that name and it is not
/// null; where it is there, it must be a string.
pub open spec fn optional_text(document: JsonValue, key: Seq<char>) -> Result<
    Option<Seq<char>>,
    ShapeFault,
> {
    match document.field(key) {
        None => Ok(None),
        Some(JsonValue::Null) => Ok(None),
        Some(JsonValue::Str(text)) => Ok(Some(text)),
        Some(_) => Err(ShapeFault::Mismatch(key)),
    }
}

/// The count under `key`, which must be there and be a whole number, not
/// negative, that fits in 32 bits.
pub open spec fn required_count(document: JsonValue, key: Seq<char>) -> Result<u32, ShapeFault> {
    match document.field(key) {
        None => Err(ShapeFault::Missing(key)),
        Some(JsonValue::Number(literal)) => match u32_of(literal) {
            Some(count) => Ok(count),
            None => Err(ShapeFault::Mismatch(key)),
        },
        Some(_) => Err(ShapeFault::Mismatch(key)),
    }
}

/// What the first `count` of `items` read as, or the fault of the first of
/// them that does not have the shape.
pub open spec fn shapes<T: Shape>(items: Seq<JsonValue>, count: nat) -> Result<
    Seq<<T as DeepView>::V>,
    ShapeFault,
>
    decreases count,
{
    if count == 0 || count > items.len() {
        Ok(Seq::empty())
    } else {
        match shapes::<T>(items, (count - 1) as nat) {
            Err(fault) => Err(fault),
            Ok(read) => match T::shape(items[count - 1]) {
                Err(fault) => Err(fault),
                Ok(item) => Ok(read.push(item)),
            },
        }
    }
}

/// The list under `key`, which must be there and be an array of documents
/// that each have the shape.
pub open spec fn required_list<T: Shape>(document: JsonValue, key: Seq<char>) -> Result<
    Seq<<T as DeepView>::V>,
    ShapeFault,
> {
    match document.field(key) {
        None => Err(ShapeFault::Missing(key)),
        Some(JsonValue::Array(items)) => shapes::<T>(items, items.len()),
        Some(_) => Err(ShapeFault::Mismatch(key)),
    }
}

/// The part under `key`, which must be there and have the shape.
pub open spec fn required_part<T: Shape>(document: JsonValue, key: Seq<char>) -> Result<
    <T as DeepView>::V,
    ShapeFault,
> {
    match document.field(key) {
        None => Err(ShapeFault::Missing(key)),
        Some(part) => T::shape(part),
    }
}

/// A fault among the first items is the fault of any longer row of them.
pub proof fn lemma_shapes_fault<T: Shape>(items: Seq<JsonValue>, count: nat, longer: nat)
    requires
        count <= longer <= items.len(),
        shapes::<T>(items, count) is Err,
    ensures
        shapes::<T>(items, longer) == shapes::<T>(items, count),
    decreases longer,
{
    if count < longer {
        lemma_shapes_fault::<T>(items, count, (longer - 1) as nat);
    }
}

/// A row of items reads as a list exactly when each item has the shape, and
/// then item by item.
pub proof fn lemma_shapes_each<T: Shape>(items: Seq<JsonValue>, count: nat)
    requires
        count <= items.len(),
    ensures
        shapes::<T>(items, count) is Ok <==> forall|i: int|
            0 <= i < count ==> (#[trigger] T::shape(items[i])) is Ok,
        shapes::<T>(items, count) matches Ok(read) ==> read.len() == count && forall|i: int|
            0 <= i < count ==> T::shape(items[i]) == Ok::<<T as DeepView>::V, ShapeFault>(
                #[trigger] read[i],
            ),
    decreases count,
{
    if count > 0 {
        lemma_shapes_each::<T>(items, (count - 1) as nat);
    }
}

/// Reads the text under `key`.
pub fn text_at(document: &Json, key: &'static str) -> (r: Result<String, ShapeError>)
    ensures
        outcome(r) == required_text(document@, key@),
{
    match document.get(key) {
        None => Err(ShapeError::Missing(key)),
        Some(Json::Str(text)) => Ok(text.clone()),
        Some(_) => Err(ShapeError::Mismatch(key)),
    }
}

/// Reads the text under `key`, if there is one.
pub fn text_if_at(document: &Json, key: &'static str) -> (r: Result<Option<String>, ShapeError>)
    ensures
        outcome(r) == optional_text(document@, key@),
{
    match document.get(key) {
        None => Ok(None),
        Some(Json::Null) => Ok(None),
        Some(Json::Str(text)) => Ok(Some(text.clone())),
        Some(_) => Err(ShapeError::Mismatch(key)),
    }
}

/// Reads the count under `key`.
pub fn count_at(document: &Json, key: &'static str) -> (r: Result<u32, ShapeError>)
    ensures
        outcome(r) == required_count(document@, key@),
{
    match document.get(key) {
        None => Err(ShapeError::Missing(key)),
        Some(Json::Number(literal)) => match parse_u32(literal.as_str()) {
            Some(count) => Ok(count),
            None => Err(ShapeError::Mismatch(key)),
        },
        Some(_) => Err(ShapeError::Mismatch(key)),
    }
}

/// Reads each of `items`.
pub fn decode_each<T: Shape>(items: &Vec<Json>) -> (r: Result<Vec<T>, ShapeError>)
    ensures
        outcome(r) == shapes::<T>(items.deep_view(), items.len() as nat),
{
    let ghost all = items.deep_view();
    let mut read: Vec<T> = Vec::new();
    assert(read.deep_view() =~= Seq::<<T as DeepView>::V>::empty());
    let mut i: usize = 0;
    while i < items.len()
        invariant
            i <= items.len(),
            all == items.deep_view(),
            shapes::<T>(all, i as nat) == Ok::<Seq<<T as DeepView>::V>, ShapeFault>(
                read.deep_view(),
            ),
        decreases items.len() - i,
    {
        let ghost before = read.deep_view();
        proof {
            assert(all[i as int] == items@[i as int]@);
        }
        match T::decode(&items[i]) {
            Err(fault) => {
                proof {
                    lemma_shapes_fault::<T>(all, (i + 1) as nat, all.len());
                }
                return Err(fault);
            },
            Ok(item) => {
                let ghost value = item.deep_view();
                read.push(item);
                proof {
                    assert(read.deep_view() =~= before.push(value));
                }
            },
        }
        i = i + 1;
    }
    Ok(read)
}

/// Reads the list under `key`.
pub fn list_at<T: Shape>(document: &Json, key: &'static str) -> (r: Result<Vec<T>, ShapeError>)
    ensures
        outcome(r) == required_list::<T>(document@, key@),
{
    match document.get(key) {
        None => Err(ShapeError::Missing(key)),
        Some(Json::Array(items)) => {
            proof {
                lemma_array_view(*items);
            }
            decode_each::<T>(items)
        },
        Some(_) => Err(ShapeError::Mismatch(key)),
    }
}

/// Reads the part under `key`.
pub fn part_at<T: Shape>(document: &Json, key: &'static str) -> (r: Result<T, ShapeError>)
    ensures
        outcome(r) == required_part::<T>(document@, key@),
{
    match document.get(key) {
        None => Err(ShapeError::Missing(key)),
        Some(part) => T::decode(part),
    }
}

} // verus!
