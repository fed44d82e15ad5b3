use openai_client::error::ShapeError;
use openai_client::json::{parse, Json};
use openai_client::render::{frame_array, frame_object, join};
use openai_client::response::{ErrorResponse, ErrorResponseObject, Usage};
use openai_client::shape::{count_at, decode_each, list_at, part_at, text_at, text_if_at, Shape};
use openai_client::views::copy_texts;
use openai_client::wire::{biases, count, decimal, put, put_if, text, texts};
use openai_client::{Decimal, LogitBias};

fn s(text: &str) -> String {
    text.to_string()
}

#[test]
fn a_text_is_read_into_a_tree() {
    let tree = parse(r#" {"b": [1, -2, 2.5, 1e2, true, false, null, "x"], "a": {"k": "v"}, "n": 10000000000000000000000} "#)
        .unwrap();
    assert_eq!(
        tree,
        Json::Object(vec![
            (s("a"), Json::Object(vec![(s("k"), Json::Str(s("v")))])),
            (
                s("b"),
                Json::Array(vec![
                    Json::Number(s("1")),
                    Json::Number(s("-2")),
                    Json::Number(s("2.5")),
                    Json::Number(s("100.0")),
                    Json::Bool(true),
                    Json::Bool(false),
                    Json::Null,
                    Json::Str(s("x")),
                ])
            ),
            (s("n"), Json::Number(s("1e+22"))),
        ])
    );
}

#[test]
fn a_text_that_is_no_json_is_reported() {
    assert_eq!(parse("{"), Err(s("Error(\"EOF while parsing an object\", line: 1, column: 1)")));
    assert_eq!(parse("{} x"), Err(s("Error(\"trailing characters\", line: 1, column: 4)")));
    assert!(parse("").is_err());
    assert!(parse("{'a': 1}").is_err());
    let deep = "[".repeat(200) + &"]".repeat(200);
    assert!(parse(&deep).is_err());
}

#[test]
fn escapes_in_a_text_are_read() {
    assert_eq!(parse(r#""a\n\"b\" \u00e9 \ud83d\ude00""#), Ok(Json::Str(s("a\n\"b\" \u{e9} \u{1f600}"))));
}

#[test]
fn a_key_is_looked_up_among_the_members() {
    let tree = Json::Object(vec![
        (s("a"), Json::Number(s("1"))),
        (s("b"), Json::Null),
        (s("a"), Json::Number(s("2"))),
        (s(""), Json::Bool(true)),
    ]);
    assert_eq!(tree.get("a"), Some(&Json::Number(s("1"))));
    assert_eq!(tree.get("b"), Some(&Json::Null));
    assert_eq!(tree.get(""), Some(&Json::Bool(true)));
    assert_eq!(tree.get("c"), None);
    assert_eq!(tree.get("A"), None);
    assert!(tree.is_object());
    for other in [Json::Null, Json::Bool(true), Json::Number(s("1")), Json::Str(s("a")), Json::Array(vec![])] {
        assert_eq!(other.get("a"), None);
        assert!(!other.is_object());
    }
    assert_eq!(Json::Object(vec![]).get("a"), None);
}

#[test]
fn a_tree_is_written_compactly() {
    assert_eq!(Json::Null.render(), Ok(s("null")));
    assert_eq!(Json::Bool(true).render(), Ok(s("true")));
    assert_eq!(Json::Bool(false).render(), Ok(s("false")));
    assert_eq!(Json::Number(s("-1.5e3")).render(), Ok(s("-1.5e3")));
    assert_eq!(Json::Str(s("plain")).render(), Ok(s("\"plain\"")));
    assert_eq!(Json::Str(s("a\"b\\c\n")).render(), Ok(s("\"a\\\"b\\\\c\\n\"")));
    assert_eq!(Json::Str(s("")).render(), Ok(s("\"\"")));
    assert_eq!(Json::Array(vec![]).render(), Ok(s("[]")));
    assert_eq!(Json::Object(vec![]).render(), Ok(s("{}")));
    assert_eq!(Json::Array(vec![Json::Null]).render(), Ok(s("[null]")));
    let tree = Json::Object(vec![
        (s("k\"1"), Json::Array(vec![Json::Number(s("1")), Json::Str(s("two")), Json::Array(vec![])])),
        (s("o"), Json::Object(vec![(s("in"), Json::Bool(false)), (s("nil"), Json::Null)])),
    ]);
    assert_eq!(
        tree.render(),
        Ok(s("{\"k\\\"1\":[1,\"two\",[]],\"o\":{\"in\":false,\"nil\":null}}"))
    );
}

#[test]
fn writing_agrees_with_the_reader() {
    let text = r#"{"a":[1,2.5,"x",{"b":null}],"c":{"d":true,"e":"\u00e9\n"},"f":-3}"#;
    let tree = parse(text).unwrap();
    let written = tree.render().unwrap();
    assert_eq!(parse(&written), Ok(tree));
    let value: serde_json::Value = serde_json::from_str(text).unwrap();
    assert_eq!(written, serde_json::to_string(&value).unwrap());
}

#[test]
fn pieces_are_framed() {
    assert_eq!(join(&vec![]), "");
    assert_eq!(join(&vec![s("a")]), "a");
    assert_eq!(join(&vec![s("a"), s(""), s("c")]), "a,,c");
    assert_eq!(frame_array(&vec![]), "[]");
    assert_eq!(frame_array(&vec![s("1"), s("\"x\"")]), "[1,\"x\"]");
    assert_eq!(frame_object(&vec![]), "{}");
    assert_eq!(frame_object(&vec![(s("\"a\""), s("1"))]), "{\"a\":1}");
    assert_eq!(
        frame_object(&vec![(s("\"a\""), s("1")), (s("\"b\""), s("[]"))]),
        "{\"a\":1,\"b\":[]}"
    );
}

#[test]
fn values_for_the_wire_are_made() {
    assert_eq!(text("x"), Json::Str(s("x")));
    assert_eq!(count(0), Json::Number(s("0")));
    assert_eq!(count(u32::MAX), Json::Number(s("4294967295")));
    assert_eq!(decimal(&Decimal::parse("0.25").unwrap()), Json::Number(s("0.25")));
    assert_eq!(texts(&vec![]), Json::Array(vec![]));
    assert_eq!(texts(&vec![s("a"), s("b")]), Json::Array(vec![Json::Str(s("a")), Json::Str(s("b"))]));
    assert_eq!(biases(&LogitBias::new()), Json::Object(vec![]));
    assert_eq!(
        biases(&LogitBias::new().with(s("5"), -5).with(s("6"), 6)),
        Json::Object(vec![(s("5"), Json::Number(s("-5"))), (s("6"), Json::Number(s("6")))])
    );
    let mut members = vec![];
    put(&mut members, "k", Json::Null);
    put_if(&mut members, "absent", None);
    put_if(&mut members, "there", Some(Json::Bool(true)));
    assert_eq!(members, vec![(s("k"), Json::Null), (s("there"), Json::Bool(true))]);
    assert_eq!(copy_texts(&vec![s("a"), s("")]), vec![s("a"), s("")]);
}

#[test]
fn members_are_read_by_what_they_must_hold() {
    let tree = parse(r#"{"t":"text","n":7,"z":null,"l":[],"o":{},"big":4294967296}"#).unwrap();
    assert_eq!(text_at(&tree, "t"), Ok(s("text")));
    assert_eq!(text_at(&tree, "n"), Err(ShapeError::Mismatch("n")));
    assert_eq!(text_at(&tree, "z"), Err(ShapeError::Mismatch("z")));
    assert_eq!(text_at(&tree, "x"), Err(ShapeError::Missing("x")));
    assert_eq!(text_if_at(&tree, "t"), Ok(Some(s("text"))));
    assert_eq!(text_if_at(&tree, "z"), Ok(None));
    assert_eq!(text_if_at(&tree, "x"), Ok(None));
    assert_eq!(text_if_at(&tree, "n"), Err(ShapeError::Mismatch("n")));
    assert_eq!(text_if_at(&tree, "o"), Err(ShapeError::Mismatch("o")));
    assert_eq!(count_at(&tree, "n"), Ok(7));
    assert_eq!(count_at(&tree, "t"), Err(ShapeError::Mismatch("t")));
    assert_eq!(count_at(&tree, "big"), Err(ShapeError::Mismatch("big")));
    assert_eq!(count_at(&tree, "x"), Err(ShapeError::Missing("x")));
    assert_eq!(list_at::<Usage>(&tree, "l"), Ok(vec![]));
    assert_eq!(list_at::<Usage>(&tree, "o"), Err(ShapeError::Mismatch("o")));
    assert_eq!(list_at::<Usage>(&tree, "x"), Err(ShapeError::Missing("x")));
    assert_eq!(part_at::<Usage>(&tree, "o"), Err(ShapeError::Missing("prompt_tokens")));
    assert_eq!(part_at::<Usage>(&tree, "l"), Err(ShapeError::NotObject));
    assert_eq!(part_at::<Usage>(&tree, "x"), Err(ShapeError::Missing("x")));
    assert_eq!(text_at(&Json::Null, "t"), Err(ShapeError::Missing("t")));
}

fn items(text: &str) -> Vec<Json> {
    match parse(text).unwrap() {
        Json::Array(items) => items,
        _ => unreachable!(),
    }
}

#[test]
fn the_first_fault_in_a_list_is_the_fault_of_the_list() {
    let three = items(
        r#"[{"prompt_tokens":1,"completion_tokens":2,"total_tokens":3},
            {"prompt_tokens":1,"completion_tokens":"2","total_tokens":3},
            {"prompt_tokens":1}]"#,
    );
    assert_eq!(decode_each::<Usage>(&three), Err(ShapeError::Mismatch("completion_tokens")));
    let two = items(
        r#"[{"prompt_tokens":1,"completion_tokens":2,"total_tokens":3},
            {"prompt_tokens":4,"completion_tokens":5,"total_tokens":9}]"#,
    );
    assert_eq!(
        decode_each::<Usage>(&two),
        Ok(vec![
            Usage { prompt_tokens: 1, completion_tokens: 2, total_tokens: 3 },
            Usage { prompt_tokens: 4, completion_tokens: 5, total_tokens: 9 },
        ])
    );
    assert_eq!(decode_each::<Usage>(&vec![]), Ok(vec![]));
}

#[test]
fn a_refusal_has_its_shape() {
    let tree = parse(r#"{"error":{"message":"m","type":"t","param":"p","code":"c","more":1},"x":2}"#)
        .unwrap();
    assert_eq!(
        ErrorResponse::decode(&tree),
        Ok(ErrorResponse {
            error: ErrorResponseObject {
                message: s("m"),
                kind: s("t"),
                param: Some(s("p")),
                code: Some(s("c")),
            }
        })
    );
    let tree = parse(r#"{"error":{"message":"m"}}"#).unwrap();
    assert_eq!(ErrorResponse::decode(&tree), Err(ShapeError::Missing("type")));
    let tree = parse(r#"{"error":{"message":"m","type":"t","code":404}}"#).unwrap();
    assert_eq!(ErrorResponse::decode(&tree), Err(ShapeError::Mismatch("code")));
    assert_eq!(ErrorResponse::decode(&Json::Array(vec![])), Err(ShapeError::NotObject));
}

#[test]
fn a_fault_of_shape_reads_in_words() {
    assert_eq!(ShapeError::NotObject.describe(), "expected an object");
    assert_eq!(ShapeError::Missing("id").describe(), "missing field `id`");
    assert_eq!(ShapeError::Mismatch("created").describe(), "unexpected value in field `created`");
}
