use openai_client::classify::{classify, classify_document};
use openai_client::completions::{CompletionsChoice, CompletionsResponse};
use openai_client::edits::{EditsChoice, EditsResponse};
use openai_client::error::ClientError;
use openai_client::json::{parse, Json};
use openai_client::response::Usage;

const COMPLETION: &str = r#"{
  "id": "cmpl-1",
  "object": "text_completion",
  "created": 1589478378,
  "model": "text-davinci-003",
  "choices": [
    {"text": " No", "index": 0, "logprobs": null, "finish_reason": "length"}
  ],
  "usage": {"prompt_tokens": 5, "completion_tokens": 7, "total_tokens": 12}
}"#;

const REFUSAL: &str = r#"{"error":{"message":"invalid api key","type":"invalid_request_error","param":null,"code":null}}"#;

fn completion() -> CompletionsResponse {
    CompletionsResponse {
        id: "cmpl-1".to_string(),
        object: "text_completion".to_string(),
        created: 1589478378,
        model: "text-davinci-003".to_string(),
        choices: vec![CompletionsChoice {
            text: " No".to_string(),
            index: 0,
            logprobs: None,
            finish_reason: "length".to_string(),
        }],
        usage: Usage { prompt_tokens: 5, completion_tokens: 7, total_tokens: 12 },
    }
}

#[test]
fn a_completion_is_read_field_by_field() {
    let got: Result<CompletionsResponse, ClientError> = classify(COMPLETION.as_bytes());
    assert_eq!(got, Ok(completion()));
}

#[test]
fn an_edit_is_read_field_by_field() {
    let body = r#"{"object":"edit","created":17,"choices":[{"text":"Hello, Mick!","index":0}],
        "usage":{"prompt_tokens":1,"completion_tokens":2,"total_tokens":3}}"#;
    let got: Result<EditsResponse, ClientError> = classify(body.as_bytes());
    assert_eq!(
        got,
        Ok(EditsResponse {
            object: "edit".to_string(),
            created: 17,
            choices: vec![EditsChoice { text: "Hello, Mick!".to_string(), index: 0 }],
            usage: Usage { prompt_tokens: 1, completion_tokens: 2, total_tokens: 3 },
        })
    );
}

#[test]
fn a_body_with_both_shapes_is_a_response() {
    let body = r#"{
      "error": {"message": "never shown", "type": "invalid_request_error"},
      "id": "cmpl-1", "object": "text_completion", "created": 1589478378,
      "model": "text-davinci-003",
      "choices": [{"text": " No", "index": 0, "finish_reason": "length"}],
      "usage": {"prompt_tokens": 5, "completion_tokens": 7, "total_tokens": 12}
    }"#;
    let got: Result<CompletionsResponse, ClientError> = classify(body.as_bytes());
    assert_eq!(got, Ok(completion()));
    let tree = parse(body).unwrap();
    assert!(tree.get("error").is_some());
}

#[test]
fn a_minimal_body_with_both_shapes_is_a_response() {
    let body = r#"{"object":"edit","created":0,"choices":[],
        "usage":{"prompt_tokens":0,"completion_tokens":0,"total_tokens":0},
        "error":{"message":"m","type":"t"}}"#;
    let got: Result<EditsResponse, ClientError> = classify(body.as_bytes());
    assert_eq!(
        got,
        Ok(EditsResponse {
            object: "edit".to_string(),
            created: 0,
            choices: vec![],
            usage: Usage { prompt_tokens: 0, completion_tokens: 0, total_tokens: 0 },
        })
    );
}

#[test]
fn a_refusal_is_an_api_error_with_the_message_of_the_service() {
    let got: Result<CompletionsResponse, ClientError> = classify(REFUSAL.as_bytes());
    assert_eq!(got, Err(ClientError::APIError("invalid api key".to_string())));
    let got: Result<EditsResponse, ClientError> = classify(REFUSAL.as_bytes());
    assert_eq!(got, Err(ClientError::APIError("invalid api key".to_string())));
}

#[test]
fn a_refusal_may_leave_out_param_and_code() {
    let body = r#"{"error":{"message":"insufficient quota","type":"insufficient_quota"}}"#;
    let got: Result<CompletionsResponse, ClientError> = classify(body.as_bytes());
    assert_eq!(got, Err(ClientError::APIError("insufficient quota".to_string())));
}

#[test]
fn a_response_that_lacks_a_field_and_holds_an_error_is_an_api_error() {
    let body = r#"{"id":"cmpl-1","object":"text_completion","created":1,"model":"m",
        "choices":[],"error":{"message":"invalid model","type":"invalid_request_error"}}"#;
    let got: Result<CompletionsResponse, ClientError> = classify(body.as_bytes());
    assert_eq!(got, Err(ClientError::APIError("invalid model".to_string())));
}

#[test]
fn json_of_neither_shape_is_an_other_error_with_both_reasons() {
    let got: Result<CompletionsResponse, ClientError> = classify(br#"{"foo": "bar"}"#);
    assert_eq!(
        got,
        Err(ClientError::OtherError("missing field `error` missing field `id`".to_string()))
    );
    let got: Result<EditsResponse, ClientError> = classify(br#"{"foo": "bar"}"#);
    assert_eq!(
        got,
        Err(ClientError::OtherError("missing field `error` missing field `object`".to_string()))
    );
}

#[test]
fn json_that_is_no_object_is_an_other_error() {
    for body in ["[]", "null", "17", "\"text\"", "true"] {
        let got: Result<CompletionsResponse, ClientError> = classify(body.as_bytes());
        assert_eq!(
            got,
            Err(ClientError::OtherError("expected an object expected an object".to_string()))
        );
    }
}

#[test]
fn a_refusal_of_the_wrong_make_is_an_other_error() {
    let body = r#"{"error":{"message":17,"type":"t"}}"#;
    let got: Result<CompletionsResponse, ClientError> = classify(body.as_bytes());
    assert_eq!(
        got,
        Err(ClientError::OtherError(
            "unexpected value in field `message` missing field `id`".to_string()
        ))
    );
    let body = r#"{"error":"down"}"#;
    let got: Result<CompletionsResponse, ClientError> = classify(body.as_bytes());
    assert_eq!(
        got,
        Err(ClientError::OtherError("expected an object missing field `id`".to_string()))
    );
}

#[test]
fn text_that_is_no_json_is_an_other_error_with_the_report_of_the_reader() {
    let got: Result<CompletionsResponse, ClientError> = classify(b"<html>Bad Gateway</html>");
    let report = format!("{:?}", serde_json::from_str::<serde_json::Value>("<html>Bad Gateway</html>").unwrap_err());
    assert_eq!(got, Err(ClientError::OtherError(format!("{} {}", report, report))));
    assert_eq!(report, "Error(\"expected value\", line: 1, column: 1)");
}

#[test]
fn an_empty_body_is_an_other_error() {
    let got: Result<EditsResponse, ClientError> = classify(b"");
    assert!(matches!(got, Err(ClientError::OtherError(_))));
}

#[test]
fn bytes_that_are_no_utf8_are_an_other_error() {
    let body: [u8; 4] = [0x7b, 0xff, 0xfe, 0x7d];
    let got: Result<CompletionsResponse, ClientError> = classify(&body);
    let report = format!("{:?}", std::str::from_utf8(&body).unwrap_err());
    assert_eq!(got, Err(ClientError::OtherError(report)));
    let got: Result<EditsResponse, ClientError> = classify(&[0xc3]);
    assert!(matches!(got, Err(ClientError::OtherError(_))));
}

#[test]
fn utf8_beyond_ascii_is_read() {
    let body = "{\"error\":{\"message\":\"cl\u{e9} invalide \u{1f511}\",\"type\":\"t\"}}";
    let got: Result<CompletionsResponse, ClientError> = classify(body.as_bytes());
    assert_eq!(got, Err(ClientError::APIError("cl\u{e9} invalide \u{1f511}".to_string())));
}

#[test]
fn the_order_of_the_choices_is_kept() {
    let body = r#"{"id":"i","object":"o","created":1,"model":"m","choices":[
        {"text":"c","index":2,"finish_reason":"stop"},
        {"text":"a","index":0,"logprobs":"lp","finish_reason":"stop"},
        {"text":"b","index":1,"finish_reason":"length"}],
        "usage":{"prompt_tokens":1,"completion_tokens":1,"total_tokens":2}}"#;
    let got: CompletionsResponse = classify(body.as_bytes()).unwrap();
    let texts: Vec<&str> = got.choices.iter().map(|choice| choice.text.as_str()).collect();
    assert_eq!(texts, vec!["c", "a", "b"]);
    assert_eq!(got.choices[1].logprobs, Some("lp".to_string()));
    assert_eq!(got.choices[0].index, 2);
}

#[test]
fn a_fault_in_a_later_choice_fails_the_response() {
    let body = r#"{"id":"i","object":"o","created":1,"model":"m","choices":[
        {"text":"a","index":0,"finish_reason":"stop"},
        {"text":"b","finish_reason":"stop"}],
        "usage":{"prompt_tokens":1,"completion_tokens":1,"total_tokens":2}}"#;
    let got: Result<CompletionsResponse, ClientError> = classify(body.as_bytes());
    assert_eq!(
        got,
        Err(ClientError::OtherError("missing field `error` missing field `index`".to_string()))
    );
}

#[test]
fn counts_must_be_whole_and_fit_in_32_bits() {
    let with_created = |created: &str| {
        format!(
            r#"{{"object":"edit","created":{},"choices":[],"usage":{{"prompt_tokens":0,"completion_tokens":0,"total_tokens":0}}}}"#,
            created
        )
    };
    let read = |created: &str| -> Result<EditsResponse, ClientError> {
        classify(with_created(created).as_bytes())
    };
    assert_eq!(read("4294967295").unwrap().created, 4294967295);
    assert_eq!(read("0").unwrap().created, 0);
    let mismatch = Err(ClientError::OtherError(
        "missing field `error` unexpected value in field `created`".to_string(),
    ));
    assert_eq!(read("4294967296"), mismatch);
    assert_eq!(read("-1"), mismatch);
    assert_eq!(read("1.0"), mismatch);
    assert_eq!(read("1e2"), mismatch);
    assert_eq!(read("\"1\""), mismatch);
    assert_eq!(read("null"), mismatch);
    assert_eq!(read("18446744073709551616"), mismatch);
}

#[test]
fn a_document_is_classified_as_it_stands() {
    let tree = Json::Object(vec![
        ("object".to_string(), Json::Str("edit".to_string())),
        ("created".to_string(), Json::Number("3".to_string())),
        ("choices".to_string(), Json::Array(vec![])),
        (
            "usage".to_string(),
            Json::Object(vec![
                ("prompt_tokens".to_string(), Json::Number("1".to_string())),
                ("completion_tokens".to_string(), Json::Number("2".to_string())),
                ("total_tokens".to_string(), Json::Number("3".to_string())),
            ]),
        ),
    ]);
    let got: Result<EditsResponse, ClientError> = classify_document(Ok(tree));
    assert_eq!(got.unwrap().usage.total_tokens, 3);
    let got: Result<EditsResponse, ClientError> = classify_document(Err("no json".to_string()));
    assert_eq!(got, Err(ClientError::OtherError("no json no json".to_string())));
    let refusal = Json::Object(vec![(
        "error".to_string(),
        Json::Object(vec![
            ("message".to_string(), Json::Str("no".to_string())),
            ("type".to_string(), Json::Str("t".to_string())),
            ("param".to_string(), Json::Str("model".to_string())),
            ("code".to_string(), Json::Null),
        ]),
    )]);
    let got: Result<EditsResponse, ClientError> = classify_document(Ok(refusal));
    assert_eq!(got, Err(ClientError::APIError("no".to_string())));
}

#[test]
fn of_two_members_with_one_name_the_reader_keeps_the_last() {
    let body = r#"{"error":{"message":"first","type":"t"},"error":{"message":"last","type":"t"}}"#;
    let got: Result<CompletionsResponse, ClientError> = classify(body.as_bytes());
    assert_eq!(got, Err(ClientError::APIError("last".to_string())));
    assert_eq!(
        parse(r#"{"a":1,"a":2}"#),
        Ok(Json::Object(vec![("a".to_string(), Json::Number("2".to_string()))]))
    );
}
