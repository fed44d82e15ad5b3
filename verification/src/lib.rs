//! A client for the completions and edits of the OpenAI API that does no
//! input or output of its own.
//!
//! A call has two halves. The first makes the request: the settings become
//! the JSON body, and the body becomes one HTTP POST with its headers
//! ([`completions::completions_request`], [`edits::edits_request`]). The
//! second reads the reply: the bytes of the answer are classified as the
//! response, as an error that the service reports, or as an error of reading
//! ([`completions::completions_response`], [`edits::edits_response`]). What
//! lies between the halves, the sending, is the caller's: it is handed in as
//! a function ([`completions()`], [`edits()`]), or done between two calls.
//!
//! Every function is verified against a contract over the mathematical value
//! of what it takes and gives. Reading and writing JSON text is left to
//! `serde_json`: what it gives is named in the contracts, not described.

pub mod classify;
pub mod completions;
pub mod decimal;
pub mod digits;
pub mod edits;
pub mod error;
pub mod json;
pub mod logit_bias;
pub mod render;
pub mod response;
pub mod shape;
pub mod transport;
pub mod views;
pub mod wire;

pub use crate::completions::{
    completions, completions_pretty, CompletionsChoice, CompletionsParams, CompletionsResponse,
    Request,
};
pub use crate::decimal::Decimal;
pub use crate::edits::{edits, edits_pretty, EditsChoice, EditsParams, EditsResponse};
pub use crate::error::ClientError;
pub use crate::logit_bias::LogitBias;
pub use crate::response::{ErrorResponse, ErrorResponseObject, Usage};
pub use crate::transport::{HttpRequest, Reply};
