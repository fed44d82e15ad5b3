pub mod request;
pub mod response;

pub use crate::completions::request::{
    pretty_params, request_of, CompletionsParams, CompletionsParamsView, Request, RequestView,
};
pub use crate::completions::response::{
    CompletionsChoice, CompletionsChoiceView, CompletionsResponse, CompletionsResponseView,
};
use crate::error::{ClientError, ClientFault};
use crate::render::rendered;
use crate::transport::{
    answer, answered, perform, performed, prepare, prepared, HttpRequest, HttpRequestView, Reply,
};
use crate::views::outcome;
use vstd::prelude::*;

verus! {

/// Where completions are asked for.
pub const COMPLETIONS_URL: &'static str = "https://api.openai.com/v1/completions";

/// What is sent to ask for a completion of `prompt` with the settings
/// `params`: the request's body, posted to [`COMPLETIONS_URL`]; or, where
/// the body cannot be written, the local error that carries the report.
pub open spec fn completions_call(
    prompt: Seq<char>,
    params: CompletionsParamsView,
    api_key: Seq<char>,
) -> Result<HttpRequestView, ClientFault> {
    prepared(COMPLETIONS_URL@, api_key, rendered(request_of(prompt, params).wire()))
}

/// Makes the request that asks for a completion of `prompt`.
pub fn completions_request(prompt: &str, params: &CompletionsParams, api_key: &str) -> (r: Result<
    HttpRequest,
    ClientError,
>)
    ensures
        outcome(r) == completions_call(prompt@, params@, api_key@),
{
    let request = Request::new(prompt, params);
    let document = request.to_json();
    prepare(COMPLETIONS_URL, api_key, &document)
}

/// Turns the reply to a request for a completion into the response or the
/// error that the caller gets.
pub fn completions_response(reply: Reply) -> (r: Result<CompletionsResponse, ClientError>)
    ensures
        outcome(r) == answered::<CompletionsResponse>(reply@),
{
    answer::<CompletionsResponse>(reply)
}

/// Asks for a completion of `prompt` with the settings `params`: makes the
/// request, sends it once through `send`, and reads the reply.
pub fn completions<F: FnOnce(HttpRequest) -> Reply>(
    prompt: &str,
    params: &CompletionsParams,
    api_key: &str,
    send: F,
) -> (r: Result<CompletionsResponse, ClientError>)
    requires
        forall|request: HttpRequest| send.requires((request,)),
    ensures
        performed::<CompletionsResponse, F>(
            completions_call(prompt@, params@, api_key@),
            send,
            outcome(r),
        ),
{
    perform::<CompletionsResponse, F>(completions_request(prompt, params, api_key), send)
}

/// What a pretty call gives for what the full call gave: of a response the
/// text of the first choice, and every error as it is.
pub open spec fn pretty_text(got: Result<CompletionsResponseView, ClientFault>) -> Result<
    Seq<char>,
    ClientFault,
> {
    match got {
        Ok(response) => response.first_text(),
        Err(fault) => Err(fault),
    }
}

/// Of a response that offers a choice a pretty call gives the text of the
/// first one, whatever the other choices hold.
pub proof fn lemma_first_choice(response: CompletionsResponseView)
    requires
        response.choices.len() > 0,
    ensures
        pretty_text(Ok(response)) == Ok::<Seq<char>, ClientFault>(response.choices[0].text),
{
}

/// Makes the request that asks for a completion of `prompt` with the pretty
/// settings.
pub fn completions_pretty_request(prompt: &str, model: &str, max_tokens: u32, api_key: &str) -> (r:
    Result<HttpRequest, ClientError>)
    ensures
        outcome(r) == completions_call(prompt@, pretty_params(model@, max_tokens), api_key@),
{
    let params = CompletionsParams::pretty(model, max_tokens);
    completions_request(prompt, &params, api_key)
}

/// Turns the reply to a pretty request into the completion or the error that
/// the caller gets.
pub fn completions_pretty_response(reply: Reply) -> (r: Result<String, ClientError>)
    ensures
        outcome(r) == pretty_text(answered::<CompletionsResponse>(reply@)),
{
    match completions_response(reply) {
        Ok(response) => response.first_text(),
        Err(fault) => Err(fault),
    }
}

/// Asks for a completion of `prompt` with the pretty settings, and gives the
/// text of the first choice.
pub fn completions_pretty<F: FnOnce(HttpRequest) -> Reply>(
    prompt: &str,
    model: &str,
    max_tokens: u32,
    api_key: &str,
    send: F,
) -> (r: Result<String, ClientError>)
    requires
        forall|request: HttpRequest| send.requires((request,)),
    ensures
        exists|got: Result<CompletionsResponseView, ClientFault>|
            performed::<CompletionsResponse, F>(
                completions_call(prompt@, pretty_params(model@, max_tokens), api_key@),
                send,
                got,
            ) && outcome(r) == pretty_text(got),
{
    let params = CompletionsParams::pretty(model, max_tokens);
    let got = completions(prompt, &params, api_key, send);
    let r = match got {
        Ok(response) => response.first_text(),
        Err(fault) => Err(fault),
    };
    assert(performed::<CompletionsResponse, F>(
        completions_call(prompt@, pretty_params(model@, max_tokens), api_key@),
        send,
        outcome(got),
    ) && outcome(r) == pretty_text(outcome(got)));
    r
}

} // verus!
