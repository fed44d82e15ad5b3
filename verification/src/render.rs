use crate::json::{lemma_array_view, lemma_object_view, Json, JsonValue};
use crate::views::outcome;
use vstd::prelude::*;

verus! {

/// What `serde_json::to_string` gives for a string: the JSON string literal
/// that writes it, quotes and escapes included, or how it reports a fault,
/// the report being the error as `{:?}` prints it.
pub uninterp spec fn quoted(text: Seq<char>) -> Result<Seq<char>, Seq<char>>;

/// Calls `serde_json::to_string` on a string. The contract only names the
/// outcome: it is the one that `quoted` stands for.
#[verifier::external_body]
fn quote(text: &str) -> (r: Result<String, String>)
    ensures
        outcome(r) == quoted(text@),
{
    serde_json::to_string(text).map_err(|e| format!("{:?}", e))
}

/// The pieces in a row, with a comma between each two.
pub open spec fn joined(pieces: Seq<Seq<char>>) -> Seq<char>
    decreases pieces.len(),
{
    if pieces.len() == 0 {
        Seq::empty()
    } else if pieces.len() == 1 {
        pieces[0]
    } else {
        joined(pieces.drop_last()) + seq![','] + pieces.last()
    }
}

/// The text of an array whose items are written as `pieces`.
pub open spec fn array_text(pieces: Seq<Seq<char>>) -> Seq<char> {
    seq!['['] + joined(pieces) + seq![']']
}

/// The text of a member: the key as written, a colon, the value as written.
pub open spec fn member_text(piece: (Seq<char>, Seq<char>)) -> Seq<char> {
    piece.0 + seq![':'] + piece.1
}

/// The text of an object whose members are written as `pieces`.
pub open spec fn object_text(pieces: Seq<(Seq<char>, Seq<char>)>) -> Seq<char> {
    seq!['{'] + joined(pieces.map_values(|piece| member_text(piece))) + seq!['}']
}

/// Puts a comma between each two of the pieces.
pub fn join(pieces: &Vec<String>) -> (text: String)
    ensures
        text@ == joined(pieces.deep_view()),
{
    let mut text = String::new();
    let ghost all = pieces.deep_view();
    let mut i: usize = 0;
    while i < pieces.len()
        invariant
            i <= pieces.len(),
            all == pieces.deep_view(),
            text@ == joined(all.subrange(0, i as int)),
        decreases pieces.len() - i,
    {
        proof {
            let head = all.subrange(0, i as int + 1);
            assert(head.drop_last() =~= all.subrange(0, i as int));
            assert(head.last() == pieces@[i as int]@);
            reveal_strlit(",");
            assert(","@ =~= seq![',']);
        }
        if i > 0 {
            text.append(",");
        }
        text.append(pieces[i].as_str());
        i = i + 1;
    }
    assert(all.subrange(0, i as int) =~= all);
    text
}

/// Writes an array whose items are written as `pieces`.
pub fn frame_array(pieces: &Vec<String>) -> (text: String)
    ensures
        text@ == array_text(pieces.deep_view()),
{
    proof {
        reveal_strlit("[");
        reveal_strlit("]");
        assert("["@ =~= seq!['[']);
        assert("]"@ =~= seq![']']);
    }
    let mut text = String::from_str("[");
    let inner = join(pieces);
    text.append(inner.as_str());
    text.append("]");
    text
}

/// Writes an object whose members are written as `pieces`: each the key as
/// written and the value as written.
pub fn frame_object(pieces: &Vec<(String, String)>) -> (text: String)
    ensures
        text@ == object_text(pieces.deep_view()),
{
    let ghost all = pieces.deep_view();
    let mut members: Vec<String> = Vec::new();
    let mut i: usize = 0;
    while i < pieces.len()
        invariant
            i <= pieces.len(),
            all == pieces.deep_view(),
            members.len() == i,
            forall|j: int| 0 <= j < i ==> (#[trigger] members@[j])@ == member_text(all[j]),
        decreases pieces.len() - i,
    {
        proof {
            reveal_strlit(":");
            assert(":"@ =~= seq![':']);
            assert(all[i as int] == (pieces@[i as int].0@, pieces@[i as int].1@));
        }
        let mut member = pieces[i].0.clone();
        member.append(":");
        member.append(pieces[i].1.as_str());
        members.push(member);
        i = i + 1;
    }
    proof {
        reveal_strlit("{");
        reveal_strlit("}");
        assert("{"@ =~= seq!['{']);
        assert("}"@ =~= seq!['}']);
        assert(members.deep_view() =~= all.map_values(|piece| member_text(piece)));
    }
    let mut text = String::from_str("{");
    let inner = join(&members);
    text.append(inner.as_str());
    text.append("}");
    text
}

/// How a document is written: compactly, the members of an object and the
/// items of an array in their order. A string, and the key of a member, is
/// written as `quoted` says; a number is written as the literal it holds. The
/// first fault in quoting, in the order of the text, is the fault of the
/// whole.
pub open spec fn rendered(document: JsonValue) -> Result<Seq<char>, Seq<char>>
    decreases document, 0nat,
{
    match document {
        JsonValue::Null => Ok(seq!['n', 'u', 'l', 'l']),
        JsonValue::Bool(true) => Ok(seq!['t', 'r', 'u', 'e']),
        JsonValue::Bool(false) => Ok(seq!['f', 'a', 'l', 's', 'e']),
        JsonValue::Number(literal) => Ok(literal),
        JsonValue::Str(text) => quoted(text),
        JsonValue::Array(items) => match rendered_items(items, items.len()) {
            Ok(pieces) => Ok(array_text(pieces)),
            Err(report) => Err(report),
        },
        JsonValue::Object(members) => match rendered_members(members, members.len()) {
            Ok(pieces) => Ok(object_text(pieces)),
            Err(report) => Err(report),
        },
    }
}

/// How the first `count` items are written, each for itself.
pub open spec fn rendered_items(items: Seq<JsonValue>, count: nat) -> Result<
    Seq<Seq<char>>,
    Seq<char>,
>
    decreases items, count,
{
    if count == 0 || count > items.len() {
        Ok(Seq::empty())
    } else {
        match rendered_items(items, (count - 1) as nat) {
            Err(report) => Err(report),
            Ok(pieces) => match rendered(items[count - 1]) {
                Err(report) => Err(report),
                Ok(piece) => Ok(pieces.push(piece)),
            },
        }
    }
}

/// How the first `count` members are written, each as its key and its value.
pub open spec fn rendered_members(members: Seq<(Seq<char>, JsonValue)>, count: nat) -> Result<
    Seq<(Seq<char>, Seq<char>)>,
    Seq<char>,
>
    decreases members, count,
{
    if count == 0 || count > members.len() {
        Ok(Seq::empty())
    } else {
        match rendered_members(members, (count - 1) as nat) {
            Err(report) => Err(report),
            Ok(pieces) => match quoted(members[count - 1].0) {
                Err(report) => Err(report),
                Ok(key) => match rendered(members[count - 1].1) {
                    Err(report) => Err(report),
                    Ok(value) => Ok(pieces.push((key, value))),
                },
            },
        }
    }
}

/// A fault among the first items is the fault of any longer row of them.
pub proof fn lemma_items_fault(items: Seq<JsonValue>, count: nat, longer: nat)
    requires
        count <= longer <= items.len(),
        rendered_items(items, count) is Err,
    ensures
        rendered_items(items, longer) == rendered_items(items, count),
    decreases longer,
{
    if count < longer {
        lemma_items_fault(items, count, (longer - 1) as nat);
    }
}

/// A fault among the first members is the fault of any longer row of them.
pub proof fn lemma_members_fault(members: Seq<(Seq<char>, JsonValue)>, count: nat, longer: nat)
    requires
        count <= longer <= members.len(),
        rendered_members(members, count) is Err,
    ensures
        rendered_members(members, longer) == rendered_members(members, count),
    decreases longer,
{
    if count < longer {
        lemma_members_fault(members, count, (longer - 1) as nat);
    }
}

impl Json {
    /// Writes the document as compact JSON text.
    pub fn render(&self) -> (r: Result<String, String>)
        ensures
            outcome(r) == rendered(self@),
        decreases self,
    {
        proof {
            reveal_strlit("null");
            reveal_strlit("true");
            reveal_strlit("false");
        }
        match self {
            Json::Null => {
                assert("null"@ =~= seq!['n', 'u', 'l', 'l']);
                Ok(String::from_str("null"))
            },
            Json::Bool(b) => {
                assert("true"@ =~= seq!['t', 'r', 'u', 'e']);
                assert("false"@ =~= seq!['f', 'a', 'l', 's', 'e']);
                if *b {
                    Ok(String::from_str("true"))
                } else {
                    Ok(String::from_str("false"))
                }
            },
            Json::Number(literal) => Ok(literal.clone()),
            Json::Str(text) => quote(text.as_str()),
            Json::Array(items) => {
                let ghost all = items.deep_view();
                proof {
                    lemma_array_view(*items);
                }
                let mut pieces: Vec<String> = Vec::new();
                assert(pieces.deep_view() =~= Seq::<Seq<char>>::empty());
                let mut i: usize = 0;
                while i < items.len()
                    invariant
                        i <= items.len(),
                        *self == Json::Array(*items),
                        all == items.deep_view(),
                        self@ == JsonValue::Array(all),
                        rendered_items(all, i as nat) == Ok::<Seq<Seq<char>>, Seq<char>>(
                            pieces.deep_view(),
                        ),
                    decreases items.len() - i,
                {
                    let ghost before = pieces.deep_view();
                    match items[i].render() {
                        Err(report) => {
                            proof {
                                assert(all[i as int] == items@[i as int]@);
                                assert(rendered_items(all, (i + 1) as nat) == Err::<
                                    Seq<Seq<char>>,
                                    Seq<char>,
                                >(report@));
                                lemma_items_fault(all, (i + 1) as nat, all.len());
                            }
                            return Err(report);
                        },
                        Ok(piece) => {
                            pieces.push(piece);
                            proof {
                                assert(all[i as int] == items@[i as int]@);
                                assert(pieces.deep_view() =~= before.push(piece@));
                            }
                        },
                    }
                    i = i + 1;
                }
                Ok(frame_array(&pieces))
            },
            Json::Object(members) => {
                let ghost all = members.deep_view();
                proof {
                    lemma_object_view(*members);
                }
                let mut pieces: Vec<(String, String)> = Vec::new();
                assert(pieces.deep_view() =~= Seq::<(Seq<char>, Seq<char>)>::empty());
                let mut i: usize = 0;
                while i < members.len()
                    invariant
                        i <= members.len(),
                        *self == Json::Object(*members),
                        all == members.deep_view(),
                        self@ == JsonValue::Object(all),
                        rendered_members(all, i as nat) == Ok::<
                            Seq<(Seq<char>, Seq<char>)>,
                            Seq<char>,
                        >(pieces.deep_view()),
                    decreases members.len() - i,
                {
                    let ghost before = pieces.deep_view();
                    proof {
                        assert(all[i as int] == (members@[i as int].0@, members@[i as int].1@));
                    }
                    let key = match quote(members[i].0.as_str()) {
                        Err(report) => {
                            proof {
                                lemma_members_fault(all, (i + 1) as nat, all.len());
                            }
                            return Err(report);
                        },
                        Ok(key) => key,
                    };
                    let value = match members[i].1.render() {
                        Err(report) => {
                            proof {
                                lemma_members_fault(all, (i + 1) as nat, all.len());
                            }
                            return Err(report);
                        },
                        Ok(value) => value,
                    };
                    let ghost piece = (key@, value@);
                    pieces.push((key, value));
                    proof {
                        assert(pieces.deep_view() =~= before.push(piece));
                    }
                    i = i + 1;
                }
                Ok(frame_object(&pieces))
            },
        }
    }
}

} // verus!
