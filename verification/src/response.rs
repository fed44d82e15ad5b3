use crate::error::{ShapeError, ShapeFault};
use crate::json::{Json, JsonValue};
use crate::shape::{
    count_at, optional_text, part_at, required_count, required_part, required_text, text_at,
    text_if_at, Shape,
};
use vstd::prelude::*;

verus! {

/// The detail of the error that a pretty call gives where the service
/// answers with a response that offers no text.
pub const NO_CHOICE: &'static str = "the response holds no choice";

/// How many tokens a call took.
#[derive(Debug, Clone, Copy, PartialEq, Eq)]
pub struct Usage {
    pub prompt_tokens: u32,
    pub completion_tokens: u32,
    pub total_tokens: u32,
}

impl DeepView for Usage {
    type V = Usage;

    open spec fn deep_view(&self) -> Usage {
        *self
    }
}

impl View for Usage {
    type V = Usage;

    open spec fn view(&self) -> Usage {
        *self
    }
}

impl Shape for Usage {
    open spec fn shape(document: JsonValue) -> Result<Usage, ShapeFault> {
        let prompt_tokens = required_count(document, "prompt_tokens"@);
        let completion_tokens = required_count(document, "completion_tokens"@);
        let total_tokens = required_count(document, "total_tokens"@);
        if !(document is Object) {
            Err(ShapeFault::NotObject)
        } else if prompt_tokens is Err {
            Err(prompt_tokens->Err_0)
        } else if completion_tokens is Err {
            Err(completion_tokens->Err_0)
        } else if total_tokens is Err {
            Err(total_tokens->Err_0)
        } else {
            Ok(
                Usage {
                    prompt_tokens: prompt_tokens->Ok_0,
                    completion_tokens: completion_tokens->Ok_0,
                    total_tokens: total_tokens->Ok_0,
                },
            )
        }
    }

    fn decode(document: &Json) -> (r: Result<Usage, ShapeError>) {
        if !document.is_object() {
            return Err(ShapeError::NotObject);
        }
        let prompt_tokens = match count_at(document, "prompt_tokens") {
            Ok(count) => count,
            Err(fault) => {
                return Err(fault);
            },
        };
        let completion_tokens = match count_at(document, "completion_tokens") {
            Ok(count) => count,
            Err(fault) => {
                return Err(fault);
            },
        };
        let total_tokens = match count_at(document, "total_tokens") {
            Ok(count) => count,
            Err(fault) => {
                return Err(fault);
            },
        };
        Ok(Usage { prompt_tokens, completion_tokens, total_tokens })
    }
}

/// What the service says of a request that it refuses.
#[derive(Debug, PartialEq, Eq)]
pub struct ErrorResponseObject {
    pub message: String,
    /// The member `type` of the answer.
    pub kind: String,
    pub param: Option<String>,
    pub code: Option<String>,
}

/// The mathematical value of an [`ErrorResponseObject`].
pub struct ErrorResponseObjectView {
    pub message: Seq<char>,
    pub kind: Seq<char>,
    pub param: Option<Seq<char>>,
    pub code: Option<Seq<char>>,
}

impl DeepView for ErrorResponseObject {
    type V = ErrorResponseObjectView;

    open spec fn deep_view(&self) -> ErrorResponseObjectView {
        ErrorResponseObjectView {
            message: self.message@,
            kind: self.kind@,
            param: self.param.deep_view(),
            code: self.code.deep_view(),
        }
    }
}

impl View for ErrorResponseObject {
    type V = ErrorResponseObjectView;

    open spec fn view(&self) -> ErrorResponseObjectView {
        self.deep_view()
    }
}

impl Shape for ErrorResponseObject {
    open spec fn shape(document: JsonValue) -> Result<ErrorResponseObjectView, ShapeFault> {
        let message = required_text(document, "message"@);
        let kind = required_text(document, "type"@);
        let param = optional_text(document, "param"@);
        let code = optional_text(document, "code"@);
        if !(document is Object) {
            Err(ShapeFault::NotObject)
        } else if message is Err {
            Err(message->Err_0)
        } else if kind is Err {
            Err(kind->Err_0)
        } else if param is Err {
            Err(param->Err_0)
        } else if code is Err {
            Err(code->Err_0)
        } else {
            Ok(
                ErrorResponseObjectView {
                    message: message->Ok_0,
                    kind: kind->Ok_0,
                    param: param->Ok_0,
                    code: code->Ok_0,
                },
            )
        }
    }

    fn decode(document: &Json) -> (r: Result<ErrorResponseObject, ShapeError>) {
        if !document.is_object() {
            return Err(ShapeError::NotObject);
        }
        let message = match text_at(document, "message") {
            Ok(text) => text,
            Err(fault) => {
                return Err(fault);
            },
        };
        let kind = match text_at(document, "type") {
            Ok(text) => text,
            Err(fault) => {
                return Err(fault);
            },
        };
        let param = match text_if_at(document, "param") {
            Ok(text) => text,
            Err(fault) => {
                return Err(fault);
            },
        };
        let code = match text_if_at(document, "code") {
            Ok(text) => text,
            Err(fault) => {
                return Err(fault);
            },
        };
        Ok(ErrorResponseObject { message, kind, param, code })
    }
}

/// The answer of the service to a request that it refuses.
#[derive(Debug, PartialEq, Eq)]
pub struct ErrorResponse {
    pub error: ErrorResponseObject,
}

/// The mathematical value of an [`ErrorResponse`].
pub struct ErrorResponseView {
    pub error: ErrorResponseObjectView,
}

impl DeepView for ErrorResponse {
    type V = ErrorResponseView;

    open spec fn deep_view(&self) -> ErrorResponseView {
        ErrorResponseView { error: self.error.deep_view() }
    }
}

impl View for ErrorResponse {
    type V = ErrorResponseView;

    open spec fn view(&self) -> ErrorResponseView {
        self.deep_view()
    }
}

impl Shape for ErrorResponse {
    open spec fn shape(document: JsonValue) -> Result<ErrorResponseView, ShapeFault> {
        let error = required_part::<ErrorResponseObject>(document, "error"@);
        if !(document is Object) {
            Err(ShapeFault::NotObject)
        } else if error is Err {
            Err(error->Err_0)
        } else {
            Ok(ErrorResponseView { error: error->Ok_0 })
        }
    }

    fn decode(document: &Json) -> (r: Result<ErrorResponse, ShapeError>) {
        if !document.is_object() {
            return Err(ShapeError::NotObject);
        }
        match part_at::<ErrorResponseObject>(document, "error") {
            Ok(error) => Ok(ErrorResponse { error }),
            Err(fault) => Err(fault),
        }
    }
}

} // verus!
