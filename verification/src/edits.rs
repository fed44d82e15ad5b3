pub mod request;
pub mod response;

pub use crate::edits::request::{
    pretty_params, request_of, EditsParams, EditsParamsView, RequestEdit, RequestEditView,
};
pub use crate::edits::response::{
    EditsChoice, EditsChoiceView, EditsResponse, EditsResponseView,
};
use crate::error::{ClientError, ClientFault};
use crate::render::rendered;
use crate::transport::{
    answer, answered, perform, performed, prepare, prepared, HttpRequest, HttpRequestView, Reply,
};
use crate::views::outcome;
use vstd::prelude::*;

verus! {

/// Where edits are asked for.
pub const EDITS_URL: &'static str = "https://api.openai.com/v1/edits";

/// What is sent to ask for an edit of `input`: the request's body, posted to
/// [`EDITS_URL`]; or, where the body cannot be written, the local error that
/// carries the report.
pub open spec fn edits_call(
    input: Seq<char>,
    instruction: Seq<char>,
    params: EditsParamsView,
    api_key: Seq<char>,
) -> Result<HttpRequestView, ClientFault> {
    prepared(EDITS_URL@, api_key, rendered(request_of(input, instruction, params).wire()))
}

/// Makes the request that asks for an edit of `input`.
pub fn edits_request(input: &str, instruction: &str, params: &EditsParams, api_key: &str) -> (r:
    Result<HttpRequest, ClientError>)
    ensures
        outcome(r) == edits_call(input@, instruction@, params@, api_key@),
{
    let request = RequestEdit::new(input, instruction, params);
    let document = request.to_json();
    prepare(EDITS_URL, api_key, &document)
}

/// Turns the reply to a request for an edit into the response or the error
/// that the caller gets.
pub fn edits_response(reply: Reply) -> (r: Result<EditsResponse, ClientError>)
    ensures
        outcome(r) == answered::<EditsResponse>(reply@),
{
    answer::<EditsResponse>(reply)
}

/// Asks for an edit of `input` as `instruction` says, with the settings
/// `params`: makes the request, sends it once through `send`, and reads the
/// reply.
pub fn edits<F: FnOnce(HttpRequest) -> Reply>(
    input: &str,
    instruction: &str,
    params: &EditsParams,
    api_key: &str,
    send: F,
) -> (r: Result<EditsResponse, ClientError>)
    requires
        forall|request: HttpRequest| send.requires((request,)),
    ensures
        performed::<EditsResponse, F>(
            edits_call(input@, instruction@, params@, api_key@),
            send,
            outcome(r),
        ),
{
    perform::<EditsResponse, F>(edits_request(input, instruction, params, api_key), send)
}

/// What a pretty call gives for what the full call gave: of a response the
/// text of the first choice, and every error as it is.
pub open spec fn pretty_text(got: Result<EditsResponseView, ClientFault>) -> Result<
    Seq<char>,
    ClientFault,
> {
    match got {
        Ok(response) => response.first_text(),
        Err(fault) => Err(fault),
    }
}

/// Of a response that offers a choice a pretty call gives the text of the
/// first one, whatever the other choices hold.
pub proof fn lemma_first_choice(response: EditsResponseView)
    requires
        response.choices.len() > 0,
    ensures
        pretty_text(Ok(response)) == Ok::<Seq<char>, ClientFault>(response.choices[0].text),
{
}

/// Makes the request that asks for an edit of `input` with the pretty
/// settings.
pub fn edits_pretty_request(input: &str, instruction: &str, model: &str, api_key: &str) -> (r:
    Result<HttpRequest, ClientError>)
    ensures
        outcome(r) == edits_call(input@, instruction@, pretty_params(model@), api_key@),
{
    let params = EditsParams::pretty(model);
    edits_request(input, instruction, &params, api_key)
}

/// Turns the reply to a pretty request into the edited text or the error that
/// the caller gets.
pub fn edits_pretty_response(reply: Reply) -> (r: Result<String, ClientError>)
    ensures
        outcome(r) == pretty_text(answered::<EditsResponse>(reply@)),
{
    match edits_response(reply) {
        Ok(response) => response.first_text(),
        Err(fault) => Err(fault),
    }
}

/// Asks for an edit of `input` with the pretty settings, and gives the text
/// of the first choice.
pub fn edits_pretty<F: FnOnce(HttpRequest) -> Reply>(
    input: &str,
    instruction: &str,
    model: &str,
    api_key: &str,
    send: F,
) -> (r: Result<String, ClientError>)
    requires
        forall|request: HttpRequest| send.requires((request,)),
    ensures
        exists|got: Result<EditsResponseView, ClientFault>|
            performed::<EditsResponse, F>(
                edits_call(input@, instruction@, pretty_params(model@), api_key@),
                send,
                got,
            ) && outcome(r) == pretty_text(got),
{
    let params = EditsParams::pretty(model);
    let got = edits(input, instruction, &params, api_key, send);
    let r = match got {
        Ok(response) => response.first_text(),
        Err(fault) => Err(fault),
    };
    assert(performed::<EditsResponse, F>(
        edits_call(input@, instruction@, pretty_params(model@), api_key@),
        send,
        outcome(got),
    ) && outcome(r) == pretty_text(outcome(got)));
    r
}

} // verus!
