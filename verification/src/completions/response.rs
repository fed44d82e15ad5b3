use crate::error::{ClientError, ClientFault, ShapeError, ShapeFault};
use crate::json::{Json, JsonValue};
use crate::response::{Usage, NO_CHOICE};
use crate::shape::{
    count_at, list_at, optional_text, part_at, required_count, required_list, required_part,
    required_text, text_at, text_if_at, Shape,
};
use crate::views::outcome;
use vstd::prelude::*;

verus! {

/// One of the texts that the service offers as the completion.
#[derive(Debug, PartialEq, Eq)]
pub struct CompletionsChoice {
    pub text: String,
    pub index: u32,
    pub logprobs: Option<String>,
    pub finish_reason: String,
}

/// The mathematical value of a [`CompletionsChoice`].
pub struct CompletionsChoiceView {
    pub text: Seq<char>,
    pub index: u32,
    pub logprobs: Option<Seq<char>>,
    pub finish_reason: Seq<char>,
}

impl DeepView for CompletionsChoice {
    type V = CompletionsChoiceView;

    open spec fn deep_view(&self) -> CompletionsChoiceView {
        CompletionsChoiceView {
            text: self.text@,
            index: self.index,
            logprobs: self.logprobs.deep_view(),
            finish_reason: self.finish_reason@,
        }
    }
}

impl View for CompletionsChoice {
    type V = CompletionsChoiceView;

    open spec fn view(&self) -> CompletionsChoiceView {
        self.deep_view()
    }
}

impl Shape for CompletionsChoice {
    open spec fn shape(document: JsonValue) -> Result<CompletionsChoiceView, ShapeFault> {
        let text = required_text(document, "text"@);
        let index = required_count(document, "index"@);
        let logprobs = optional_text(document, "logprobs"@);
        let finish_reason = required_text(document, "finish_reason"@);
        if !(document is Object) {
            Err(ShapeFault::NotObject)
        } else if text is Err {
            Err(text->Err_0)
        } else if index is Err {
            Err(index->Err_0)
        } else if logprobs is Err {
            Err(logprobs->Err_0)
        } else if finish_reason is Err {
            Err(finish_reason->Err_0)
        } else {
            Ok(
                CompletionsChoiceView {
                    text: text->Ok_0,
                    index: index->Ok_0,
                    logprobs: logprobs->Ok_0,
                    finish_reason: finish_reason->Ok_0,
                },
            )
        }
    }

    fn decode(document: &Json) -> (r: Result<CompletionsChoice, ShapeError>) {
        if !document.is_object() {
            return Err(ShapeError::NotObject);
        }
        let text = match text_at(document, "text") {
            Ok(text) => text,
            Err(fault) => {
                return Err(fault);
            },
        };
        let index = match count_at(document, "index") {
            Ok(count) => count,
            Err(fault) => {
                return Err(fault);
            },
        };
        let logprobs = match text_if_at(document, "logprobs") {
            Ok(text) => text,
            Err(fault) => {
                return Err(fault);
            },
        };
        let finish_reason = match text_at(document, "finish_reason") {
            Ok(text) => text,
            Err(fault) => {
                return Err(fault);
            },
        };
        Ok(CompletionsChoice { text, index, logprobs, finish_reason })
    }
}

/// The answer of the service to a request for a completion.
#[derive(Debug, PartialEq, Eq)]
pub struct CompletionsResponse {
    pub id: String,
    pub object: String,
    pub created: u32,
    pub model: String,
    pub choices: Vec<CompletionsChoice>,
    pub usage: Usage,
}

/// The mathematical value of a [`CompletionsResponse`].
pub struct CompletionsResponseView {
    pub id: Seq<char>,
    pub object: Seq<char>,
    pub created: u32,
    pub model: Seq<char>,
    pub choices: Seq<CompletionsChoiceView>,
    pub usage: Usage,
}

impl DeepView for CompletionsResponse {
    type V = CompletionsResponseView;

    open spec fn deep_view(&self) -> CompletionsResponseView {
        CompletionsResponseView {
            id: self.id@,
            object: self.object@,
            created: self.created,
            model: self.model@,
            choices: self.choices.deep_view(),
            usage: self.usage,
        }
    }
}

impl View for CompletionsResponse {
    type V = CompletionsResponseView;

    open spec fn view(&self) -> CompletionsResponseView {
        self.deep_view()
    }
}

impl Shape for CompletionsResponse {
    open spec fn shape(document: JsonValue) -> Result<CompletionsResponseView, ShapeFault> {
        let id = required_text(document, "id"@);
        let object = required_text(document, "object"@);
        let created = required_count(document, "created"@);
        let model = required_text(document, "model"@);
        let choices = required_list::<CompletionsChoice>(document, "choices"@);
        let usage = required_part::<Usage>(document, "usage"@);
        if !(document is Object) {
            Err(ShapeFault::NotObject)
        } else if id is Err {
            Err(id->Err_0)
        } else if object is Err {
            Err(object->Err_0)
        } else if created is Err {
            Err(created->Err_0)
        } else if model is Err {
            Err(model->Err_0)
        } else if choices is Err {
            Err(choices->Err_0)
        } else if usage is Err {
            Err(usage->Err_0)
        } else {
            Ok(
                CompletionsResponseView {
                    id: id->Ok_0,
                    object: object->Ok_0,
                    created: created->Ok_0,
                    model: model->Ok_0,
                    choices: choices->Ok_0,
                    usage: usage->Ok_0,
                },
            )
        }
    }

    fn decode(document: &Json) -> (r: Result<CompletionsResponse, ShapeError>) {
        if !document.is_object() {
            return Err(ShapeError::NotObject);
        }
        let id = match text_at(document, "id") {
            Ok(text) => text,
            Err(fault) => {
                return Err(fault);
            },
        };
        let object = match text_at(document, "object") {
            Ok(text) => text,
            Err(fault) => {
                return Err(fault);
            },
        };
        let created = match count_at(document, "created") {
            Ok(count) => count,
            Err(fault) => {
                return Err(fault);
            },
        };
        let model = match text_at(document, "model") {
            Ok(text) => text,
            Err(fault) => {
                return Err(fault);
            },
        };
        let choices = match list_at::<CompletionsChoice>(document, "choices") {
            Ok(list) => list,
            Err(fault) => {
                return Err(fault);
            },
        };
        let usage = match part_at::<Usage>(document, "usage") {
            Ok(part) => part,
            Err(fault) => {
                return Err(fault);
            },
        };
        Ok(CompletionsResponse { id, object, created, model, choices, usage })
    }
}

impl CompletionsResponseView {
    /// The text of the first choice; where there is no choice, a local error.
    pub open spec fn first_text(self) -> Result<Seq<char>, ClientFault> {
        if self.choices.len() > 0 {
            Ok(self.choices[0].text)
        } else {
            Err(ClientFault::OtherError(NO_CHOICE@))
        }
    }
}

impl CompletionsResponse {
    /// The text of the first choice, whatever the other choices hold.
    pub fn first_text(&self) -> (r: Result<String, ClientError>)
        ensures
            outcome(r) == self@.first_text(),
    {
        if self.choices.len() > 0 {
            assert(self.choices.deep_view()[0] == self.choices@[0]@);
            Ok(self.choices[0].text.clone())
        } else {
            Err(ClientError::OtherError(String::from_str(NO_CHOICE)))
        }
    }
}

} // verus!
