use crate::error::{ClientError, ClientFault};
use crate::json::{parse, parsed, Json, JsonValue};
use crate::response::ErrorResponse;
use crate::shape::Shape;
use crate::views::outcome;
use vstd::prelude::*;
use vstd::utf8::{decode_utf8, encode_utf8, encode_utf8_decode_utf8, valid_utf8};

verus! {

/// How `std::str::from_utf8` reports bytes that are no UTF-8: the error as
/// `{:?}` prints it.
pub uninterp spec fn utf8_report(bytes: Seq<u8>) -> Seq<char>;

/// Calls `std::str::from_utf8`. Bytes that are UTF-8 come back as the text
/// that is encoded by those very bytes; of others the contract only names
/// the report.
#[verifier::external_body]
fn read_utf8(bytes: &[u8]) -> (r: Result<&str, String>)
    ensures
        r is Ok <==> valid_utf8(bytes@),
        r matches Ok(text) ==> encode_utf8(text@) == bytes@,
        r matches Err(report) ==> report@ == utf8_report(bytes@),
{
    std::str::from_utf8(bytes).map_err(|e| format!("{:?}", e))
}

/// The two reasons why a document has neither shape, in one line: why it is
/// no refusal, then why it is no response.
pub open spec fn neither(refusal: Seq<char>, response: Seq<char>) -> Seq<char> {
    refusal + seq![' '] + response
}

/// What a document that was read, or the report that it could not be read,
/// is classified as.
///
/// A document with the shape `R` is the response, whatever else it holds. One
/// without it that has the shape of a refusal is an error of the service,
/// with the service's message. Anything else is a local error that carries
/// both reasons: why the document is no refusal, and why it is no response.
/// A text that could not be read is neither for one and the same reason, so
/// its report stands there twice.
pub open spec fn classified<R: Shape>(document: Result<JsonValue, Seq<char>>) -> Result<
    <R as DeepView>::V,
    ClientFault,
> {
    match document {
        Err(report) => Err(ClientFault::OtherError(neither(report, report))),
        Ok(tree) => match R::shape(tree) {
            Ok(response) => Ok(response),
            Err(first) => match ErrorResponse::shape(tree) {
                Ok(refusal) => Err(ClientFault::APIError(refusal.error.message)),
                Err(second) => Err(
                    ClientFault::OtherError(neither(second.described(), first.described())),
                ),
            },
        },
    }
}

/// What the bytes of an answer are classified as.
pub open spec fn classified_bytes<R: Shape>(body: Seq<u8>) -> Result<
    <R as DeepView>::V,
    ClientFault,
> {
    if valid_utf8(body) {
        classified::<R>(parsed(decode_utf8(body)))
    } else {
        Err(ClientFault::OtherError(utf8_report(body)))
    }
}

/// Puts the two reasons in one line.
fn pair(refusal: &str, response: &str) -> (text: String)
    ensures
        text@ == neither(refusal@, response@),
{
    proof {
        reveal_strlit(" ");
        assert(" "@ =~= seq![' ']);
    }
    let mut text = String::from_str(refusal);
    text.append(" ");
    text.append(response);
    text
}

/// Classifies a document that was read, or the report that it could not be
/// read. The shape of a refusal is tried only where the document does not
/// have the shape of a response.
pub fn classify_document<R: Shape>(document: Result<Json, String>) -> (r: Result<R, ClientError>)
    ensures
        outcome(r) == classified::<R>(outcome(document)),
{
    match document {
        Err(report) => Err(ClientError::OtherError(pair(report.as_str(), report.as_str()))),
        Ok(tree) => match R::decode(&tree) {
            Ok(response) => Ok(response),
            Err(first) => match ErrorResponse::decode(&tree) {
                Ok(refusal) => Err(ClientError::APIError(refusal.error.message)),
                Err(second) => {
                    let why_no_refusal = second.describe();
                    let why_no_response = first.describe();
                    Err(
                        ClientError::OtherError(
                            pair(why_no_refusal.as_str(), why_no_response.as_str()),
                        ),
                    )
                },
            },
        },
    }
}

/// Classifies the bytes of an answer: they are read as UTF-8, then as JSON,
/// then as a response, then as a refusal.
pub fn classify<R: Shape>(body: &[u8]) -> (r: Result<R, ClientError>)
    ensures
        outcome(r) == classified_bytes::<R>(body@),
        !valid_utf8(body@) ==> r matches Err(ClientError::OtherError(_)),
{
    match read_utf8(body) {
        Err(report) => Err(ClientError::OtherError(report)),
        Ok(text) => {
            proof {
                encode_utf8_decode_utf8(text@);
            }
            classify_document::<R>(parse(text))
        },
    }
}

/// A document that has the shape of a response is classified as that
/// response, also where it has the shape of a refusal too.
pub proof fn lemma_response_first<R: Shape>(tree: JsonValue)
    requires
        R::shape(tree) is Ok,
    ensures
        classified::<R>(Ok(tree)) == Ok::<<R as DeepView>::V, ClientFault>(R::shape(tree)->Ok_0),
{
}

/// A document that has no shape of a response and has that of a refusal is
/// classified as an error of the service, with the service's message.
pub proof fn lemma_refusal_second<R: Shape>(tree: JsonValue)
    requires
        R::shape(tree) is Err,
        ErrorResponse::shape(tree) is Ok,
    ensures
        classified::<R>(Ok(tree)) == Err::<<R as DeepView>::V, ClientFault>(
            ClientFault::APIError(ErrorResponse::shape(tree)->Ok_0.error.message),
        ),
{
}

/// Whatever has neither shape, and whatever could not be read at all, is
/// classified as a local error, which says why: a document that was read
/// carries the reason why it is no refusal and the reason why it is no
/// response.
pub proof fn lemma_other_last<R: Shape>(document: Result<JsonValue, Seq<char>>)
    requires
        document matches Ok(tree) ==> R::shape(tree) is Err && ErrorResponse::shape(tree) is Err,
    ensures
        classified::<R>(document) matches Err(ClientFault::OtherError(_)),
        document matches Ok(tree) ==> classified::<R>(document) == Err::<
            <R as DeepView>::V,
            ClientFault,
        >(
            ClientFault::OtherError(
                neither(
                    ErrorResponse::shape(tree)->Err_0.described(),
                    R::shape(tree)->Err_0.described(),
                ),
            ),
        ),
{
}

/// Bytes are classified as exactly one of the three: a response, an error of
/// the service, or a local error; never as a network error.
pub proof fn lemma_three_ways<R: Shape>(body: Seq<u8>)
    ensures
        !(classified_bytes::<R>(body) matches Err(ClientFault::NetworkError(_))),
        !valid_utf8(body) ==> classified_bytes::<R>(body) matches Err(ClientFault::OtherError(_)),
{
}

} // verus!
