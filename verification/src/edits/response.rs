use crate::error::{ClientError, ClientFault, ShapeError, ShapeFault};
use crate::json::{Json, JsonValue};
use crate::response::{Usage, NO_CHOICE};
use crate::shape::{
    count_at, list_at, part_at, required_count, required_list, required_part, required_text,
    text_at, Shape,
};
use crate::views::outcome;
use vstd::prelude::*;

verus! {

/// One of the texts that the service offers as the edit.
#[derive(Debug, PartialEq, Eq)]
pub struct EditsChoice {
    pub text: String,
    pub index: u32,
}

/// The mathematical value of an [`EditsChoice`].
pub struct EditsChoiceView {
    pub text: Seq<char>,
    pub index: u32,
}

impl DeepView for EditsChoice {
    type V = EditsChoiceView;

    open spec fn deep_view(&self) -> EditsChoiceView {
        EditsChoiceView { text: self.text@, index: self.index }
    }
}

impl View for EditsChoice {
    type V = EditsChoiceView;

    open spec fn view(&self) -> EditsChoiceView {
        self.deep_view()
    }
}

impl Shape for EditsChoice {
    open spec fn shape(document: JsonValue) -> Result<EditsChoiceView, ShapeFault> {
        let text = required_text(document, "text"@);
        let index = required_count(document, "index"@);
        if !(document is Object) {
            Err(ShapeFault::NotObject)
        } else if text is Err {
            Err(text->Err_0)
        } else if index is Err {
            Err(index->Err_0)
        } else {
            Ok(EditsChoiceView { text: text->Ok_0, index: index->Ok_0 })
        }
    }

    fn decode(document: &Json) -> (r: Result<EditsChoice, ShapeError>) {
        if !document.is_object() {
            return Err(ShapeError::NotObject);
        }
        let text = match text_at(document, "text") {
            Ok(text) => text,
            Err(fault) => {
                return Err(fault);
            },
        };
        let index = match count_at(document, "index") {
            Ok(count) => count,
            Err(fault) => {
                return Err(fault);
            },
        };
        Ok(EditsChoice { text, index })
    }
}

/// The answer of the service to a request for an edit.
#[derive(Debug, PartialEq, Eq)]
pub struct EditsResponse {
    pub object: String,
    pub created: u32,
    pub choices: Vec<EditsChoice>,
    pub usage: Usage,
}

/// The mathematical value of an [`EditsResponse`].
pub struct EditsResponseView {
    pub object: Seq<char>,
    pub created: u32,
    pub choices: Seq<EditsChoiceView>,
    pub usage: Usage,
}

impl DeepView for EditsResponse {
    type V = EditsResponseView;

    open spec fn deep_view(&self) -> EditsResponseView {
        EditsResponseView {
            object: self.object@,
            created: self.created,
            choices: self.choices.deep_view(),
            usage: self.usage,
        }
    }
}

impl View for EditsResponse {
    type V = EditsResponseView;

    open spec fn view(&self) -> EditsResponseView {
        self.deep_view()
    }
}

impl Shape for EditsResponse {
    open spec fn shape(document: JsonValue) -> Result<EditsResponseView, ShapeFault> {
        let object = required_text(document, "object"@);
        let created = required_count(document, "created"@);
        let choices = required_list::<EditsChoice>(document, "choices"@);
        let usage = required_part::<Usage>(document, "usage"@);
        if !(document is Object) {
            Err(ShapeFault::NotObject)
        } else if object is Err {
            Err(object->Err_0)
        } else if created is Err {
            Err(created->Err_0)
        } else if choices is Err {
            Err(choices->Err_0)
        } else if usage is Err {
            Err(usage->Err_0)
        } else {
            Ok(
                EditsResponseView {
                    object: object->Ok_0,
                    created: created->Ok_0,
                    choices: choices->Ok_0,
                    usage: usage->Ok_0,
                },
            )
        }
    }

    fn decode(document: &Json) -> (r: Result<EditsResponse, ShapeError>) {
        if !document.is_object() {
            return Err(ShapeError::NotObject);
        }
        let object = match text_at(document, "object") {
            Ok(text) => text,
            Err(fault) => {
                return Err(fault);
            },
        };
        let created = match count_at(document, "created") {
            Ok(count) => count,
            Err(fault) => {
                return Err(fault);
            },
        };
        let choices = match list_at::<EditsChoice>(document, "choices") {
            Ok(list) => list,
            Err(fault) => {
                return Err(fault);
            },
        };
        let usage = match part_at::<Usage>(document, "usage") {
            Ok(part) => part,
            Err(fault) => {
                return Err(fault);
            },
        };
        Ok(EditsResponse { object, created, choices, usage })
    }
}

impl EditsResponseView {
    /// The text of the first choice; where there is no choice, a local error.
    pub open spec fn first_text(self) -> Result<Seq<char>, ClientFault> {
        if self.choices.len() > 0 {
            Ok(self.choices[0].text)
        } else {
            Err(ClientFault::OtherError(NO_CHOICE@))
        }
    }
}

impl EditsResponse {
    /// The text of the first choice, whatever the other choices hold.
    pub fn first_text(&self) -> (r: Result<String, ClientError>)
        ensures
            outcome(r) == self@.first_text(),
    {
        if self.choices.len() > 0 {
            assert(self.choices.deep_view()[0] == self.choices@[0]@);
            Ok(self.choices[0].text.clone())
        } else {
            Err(ClientError::OtherError(String::from_str(NO_CHOICE)))
        }
    }
}

} // verus!
