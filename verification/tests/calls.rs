use openai_client::completions::{
    completions_pretty_response, completions_response, CompletionsParams, CompletionsResponse,
};
use openai_client::edits::{edits_pretty_response, edits_response, EditsParams};
use openai_client::response::NO_CHOICE;
use openai_client::transport::{answer, perform};
use openai_client::{
    completions, completions_pretty, edits, edits_pretty, ClientError, HttpRequest, Reply,
};
use std::cell::Cell;

const REFUSAL: &str = r#"{"error":{"message":"invalid api key","type":"invalid_request_error","param":null,"code":null}}"#;

const THREE: &str = r#"{"id":"cmpl-3","object":"text_completion","created":3,"model":"m",
    "choices":[{"text":" 4","index":0,"logprobs":null,"finish_reason":"stop"},
               {"text":" five","index":1,"logprobs":null,"finish_reason":"length"},
               {"text":"{\"error\":{}}","index":2,"logprobs":null,"finish_reason":"stop"}],
    "usage":{"prompt_tokens":4,"completion_tokens":3,"total_tokens":7}}"#;

const EDITED: &str = r#"{"object":"edit","created":9,
    "choices":[{"text":"Hello, Mick!\n","index":0},{"text":"Hullo","index":1},{"text":"","index":2}],
    "usage":{"prompt_tokens":4,"completion_tokens":3,"total_tokens":7}}"#;

fn body(text: &str) -> Reply {
    Reply::Body(text.as_bytes().to_vec())
}

#[test]
fn a_refusal_comes_back_from_both_calls_as_an_api_error() {
    let params = CompletionsParams::pretty("m", 5);
    let got = completions("2+2=", &params, "wrong", |_| body(REFUSAL));
    assert_eq!(got, Err(ClientError::APIError("invalid api key".to_string())));
    let got = completions_pretty("2+2=", "m", 5, "wrong", |_| body(REFUSAL));
    assert_eq!(got, Err(ClientError::APIError("invalid api key".to_string())));
    let got = edits("a", "b", &EditsParams::pretty("m"), "wrong", |_| body(REFUSAL));
    assert_eq!(got, Err(ClientError::APIError("invalid api key".to_string())));
    let got = edits_pretty("a", "b", "m", "wrong", |_| body(REFUSAL));
    assert_eq!(got, Err(ClientError::APIError("invalid api key".to_string())));
    assert_eq!(
        completions_response(body(REFUSAL)),
        Err(ClientError::APIError("invalid api key".to_string()))
    );
    assert_eq!(
        completions_pretty_response(body(REFUSAL)),
        Err(ClientError::APIError("invalid api key".to_string()))
    );
}

#[test]
fn the_pretty_call_gives_the_text_of_the_first_choice() {
    let got = completions_pretty("2+2=", "m", 5, "k", |_| body(THREE));
    assert_eq!(got, Ok(" 4".to_string()));
    let full = completions("2+2=", &CompletionsParams::pretty("m", 5), "k", |_| body(THREE));
    let full = full.unwrap();
    assert_eq!(full.choices.len(), 3);
    assert_eq!(full.choices[0].text, " 4");
    assert_eq!(full.first_text(), Ok(" 4".to_string()));
    assert_eq!(full.usage.total_tokens, 7);
    let got = edits_pretty("Helsllo, Mick!", "Fix grammar", "m", "k", |_| body(EDITED));
    assert_eq!(got, Ok("Hello, Mick!\n".to_string()));
    assert_eq!(edits_pretty_response(body(EDITED)), Ok("Hello, Mick!\n".to_string()));
    assert_eq!(completions_pretty_response(body(THREE)), Ok(" 4".to_string()));
}

#[test]
fn the_other_choices_do_not_change_the_pretty_text() {
    let other = THREE.replace(" five", "another").replace("{\\\"error\\\":{}}", "third");
    assert_ne!(other, THREE);
    let first = completions_pretty("2+2=", "m", 5, "k", |_| body(THREE));
    let second = completions_pretty("2+2=", "m", 5, "k", |_| body(&other));
    assert_eq!(first, second);
    assert_eq!(first, Ok(" 4".to_string()));
}

#[test]
fn a_response_without_a_choice_is_an_other_error_of_the_pretty_call() {
    let empty = r#"{"object":"edit","created":9,"choices":[],
        "usage":{"prompt_tokens":4,"completion_tokens":0,"total_tokens":4}}"#;
    assert_eq!(
        edits_pretty("a", "b", "m", "k", |_| body(empty)),
        Err(ClientError::OtherError(NO_CHOICE.to_string()))
    );
    assert_eq!(NO_CHOICE, "the response holds no choice");
    assert_eq!(edits_response(body(empty)).unwrap().choices.len(), 0);
    let empty = r#"{"id":"i","object":"o","created":9,"model":"m","choices":[],
        "usage":{"prompt_tokens":4,"completion_tokens":0,"total_tokens":4}}"#;
    assert_eq!(
        completions_pretty("a", "m", 1, "k", |_| body(empty)),
        Err(ClientError::OtherError(NO_CHOICE.to_string()))
    );
}

#[test]
fn a_request_is_sent_once_and_as_it_was_made() {
    let sent = Cell::new(0);
    let mut seen: Option<HttpRequest> = None;
    let got = completions_pretty("2+2=", "m", 5, "sk-1", |request| {
        sent.set(sent.get() + 1);
        seen = Some(request);
        body(THREE)
    });
    assert_eq!(got, Ok(" 4".to_string()));
    assert_eq!(sent.get(), 1);
    let seen = seen.unwrap();
    assert_eq!(seen.url, "https://api.openai.com/v1/completions");
    assert_eq!(seen.authorization, "Bearer sk-1");
    assert_eq!(seen.content_type, "application/json");
    assert_eq!(seen.timeout_secs, 30);
    assert!(seen.body.starts_with("{\"model\":\"m\",\"prompt\":\"2+2=\""));
    let sent = Cell::new(0);
    let got = edits("a", "b", &EditsParams::pretty("m"), "k", |request| {
        sent.set(sent.get() + 1);
        assert_eq!(request.url, "https://api.openai.com/v1/edits");
        Reply::SendFailed("timed out".to_string())
    });
    assert_eq!(got, Err(ClientError::NetworkError("timed out".to_string())));
    assert_eq!(sent.get(), 1);
}

#[test]
fn a_request_that_cannot_be_sent_is_a_network_error() {
    let down = || Reply::SendFailed("Connect(Timeout)".to_string());
    assert_eq!(
        completions("p", &CompletionsParams::pretty("m", 1), "k", |_| down()),
        Err(ClientError::NetworkError("Connect(Timeout)".to_string()))
    );
    assert_eq!(
        completions_pretty("p", "m", 1, "k", |_| down()),
        Err(ClientError::NetworkError("Connect(Timeout)".to_string()))
    );
    assert_eq!(
        edits("a", "b", &EditsParams::pretty("m"), "k", |_| down()),
        Err(ClientError::NetworkError("Connect(Timeout)".to_string()))
    );
    assert_eq!(
        edits_pretty("a", "b", "m", "k", |_| down()),
        Err(ClientError::NetworkError("Connect(Timeout)".to_string()))
    );
}

#[test]
fn an_answer_that_cannot_be_read_is_a_network_error() {
    let cut = || Reply::ReadFailed("Incomplete".to_string());
    assert_eq!(
        completions_response(cut()),
        Err(ClientError::NetworkError("Incomplete".to_string()))
    );
    assert_eq!(edits_response(cut()), Err(ClientError::NetworkError("Incomplete".to_string())));
    assert_eq!(
        edits_pretty_response(cut()),
        Err(ClientError::NetworkError("Incomplete".to_string()))
    );
    let got: Result<CompletionsResponse, ClientError> = answer(cut());
    assert_eq!(got, Err(ClientError::NetworkError("Incomplete".to_string())));
}

#[test]
fn a_request_that_could_not_be_made_is_not_sent() {
    let sent = Cell::new(false);
    let got: Result<CompletionsResponse, ClientError> =
        perform(Err(ClientError::OtherError("unwritable".to_string())), |_| {
            sent.set(true);
            body(THREE)
        });
    assert_eq!(got, Err(ClientError::OtherError("unwritable".to_string())));
    assert!(!sent.get());
}

#[test]
fn bytes_that_are_no_utf8_come_back_from_the_call_as_an_other_error() {
    let got = completions_pretty("p", "m", 1, "k", |_| Reply::Body(vec![0xff, 0xfe]));
    assert!(matches!(got, Err(ClientError::OtherError(_))));
    let got = edits_pretty("a", "b", "m", "k", |_| Reply::Body(vec![0x80]));
    assert!(matches!(got, Err(ClientError::OtherError(_))));
}

#[test]
fn json_of_neither_shape_comes_back_from_the_call_as_an_other_error() {
    let got = completions_pretty("p", "m", 1, "k", |_| body("{\"foo\": \"bar\"}"));
    assert_eq!(
        got,
        Err(ClientError::OtherError("missing field `error` missing field `id`".to_string()))
    );
}

#[test]
fn an_error_reads_as_its_kind_and_its_detail() {
    assert_eq!(
        ClientError::APIError("invalid api key".to_string()).message(),
        "OpenAI API error: `invalid api key`"
    );
    assert_eq!(
        ClientError::NetworkError("timed out".to_string()).message(),
        "Network error: `timed out`"
    );
    assert_eq!(ClientError::OtherError("".to_string()).message(), "Other error: ``");
}
