use crate::decimal::{is_number_literal, Decimal};
use crate::json::{lemma_object_view, Json, JsonValue};
use crate::wire::{always, count, count_value, decimal, lemma_values_well_formed, put, text};
use vstd::prelude::*;

verus! {

/// The settings of a request for an edit.
///
/// `temperature` is a whole number, as it is on the wire of this client: a
/// temperature between two whole numbers cannot be asked for.
#[derive(Debug)]
pub struct EditsParams {
    pub model: String,
    pub temperature: u32,
    pub top_p: Decimal,
    pub n: u32,
}

/// The mathematical value of an [`EditsParams`].
pub struct EditsParamsView {
    pub model: Seq<char>,
    pub temperature: u32,
    pub top_p: Seq<char>,
    pub n: u32,
}

impl DeepView for EditsParams {
    type V = EditsParamsView;

    open spec fn deep_view(&self) -> EditsParamsView {
        EditsParamsView {
            model: self.model@,
            temperature: self.temperature,
            top_p: self.top_p@,
            n: self.n,
        }
    }
}

impl View for EditsParams {
    type V = EditsParamsView;

    open spec fn view(&self) -> EditsParamsView {
        self.deep_view()
    }
}

/// The settings that the pretty calls use: the given model, the likeliest
/// token at every step (temperature 0, the whole distribution), one edit.
pub open spec fn pretty_params(model: Seq<char>) -> EditsParamsView {
    EditsParamsView { model, temperature: 0, top_p: seq!['1', '.', '0'], n: 1 }
}

impl EditsParams {
    /// The settings that the pretty calls use.
    pub fn pretty(model: &str) -> (params: EditsParams)
        ensures
            params@ == pretty_params(model@),
    {
        let top_p = Decimal::whole(1);
        proof {
            reveal_with_fuel(crate::digits::numeral, 2);
            assert(top_p@ =~= seq!['1', '.', '0']);
        }
        EditsParams { model: String::from_str(model), temperature: 0, top_p, n: 1 }
    }
}

/// A request for an edit, as it goes on the wire.
#[derive(Debug)]
pub struct RequestEdit {
    pub model: String,
    pub input: String,
    pub instruction: String,
    pub n: u32,
    pub temperature: u32,
    pub top_p: Decimal,
}

/// The mathematical value of a [`RequestEdit`].
pub struct RequestEditView {
    pub model: Seq<char>,
    pub input: Seq<char>,
    pub instruction: Seq<char>,
    pub n: u32,
    pub temperature: u32,
    pub top_p: Seq<char>,
}

impl DeepView for RequestEdit {
    type V = RequestEditView;

    open spec fn deep_view(&self) -> RequestEditView {
        RequestEditView {
            model: self.model@,
            input: self.input@,
            instruction: self.instruction@,
            n: self.n,
            temperature: self.temperature,
            top_p: self.top_p@,
        }
    }
}

impl View for RequestEdit {
    type V = RequestEditView;

    open spec fn view(&self) -> RequestEditView {
        self.deep_view()
    }
}

/// The request that asks for `input` to be edited as `instruction` says,
/// with the settings `params`.
pub open spec fn request_of(input: Seq<char>, instruction: Seq<char>, params: EditsParamsView)
    -> RequestEditView {
    RequestEditView {
        model: params.model,
        input,
        instruction,
        n: params.n,
        temperature: params.temperature,
        top_p: params.top_p,
    }
}

impl RequestEditView {
    /// The members of the body, in their order: all six, whatever the
    /// settings.
    pub open spec fn members(self) -> Seq<(Seq<char>, JsonValue)> {
        always("model"@, JsonValue::Str(self.model))
            + always("input"@, JsonValue::Str(self.input))
            + always("instruction"@, JsonValue::Str(self.instruction))
            + always("n"@, count_value(self.n))
            + always("temperature"@, count_value(self.temperature))
            + always("top_p"@, JsonValue::Number(self.top_p))
    }

    /// The body of the request as a document.
    pub open spec fn wire(self) -> JsonValue {
        JsonValue::Object(self.members())
    }
}

/// Every number in the body of a request is written as a number literal,
/// where the fraction is one, as it is in every [`RequestEdit`].
pub proof fn lemma_wire_well_formed(request: RequestEditView)
    requires
        is_number_literal(request.top_p),
    ensures
        request.wire().well_formed(),
{
    let members = request.members();
    let no_list = Seq::<Seq<char>>::empty();
    let no_entries = Seq::<(Seq<char>, i32)>::empty();
    lemma_values_well_formed(request.n, no_list, no_entries);
    lemma_values_well_formed(request.temperature, no_list, no_entries);
    assert forall|i: int| 0 <= i < members.len() implies (#[trigger] members[i]).1.well_formed() by {
    }
}

impl RequestEdit {
    /// The request that asks for `input` to be edited as `instruction` says,
    /// with the settings `params`.
    pub fn new(input: &str, instruction: &str, params: &EditsParams) -> (request: RequestEdit)
        ensures
            request@ == request_of(input@, instruction@, params@),
    {
        RequestEdit {
            model: params.model.clone(),
            input: String::from_str(input),
            instruction: String::from_str(instruction),
            n: params.n,
            temperature: params.temperature,
            top_p: params.top_p.clone(),
        }
    }

    /// The body of the request as a document.
    pub fn to_json(&self) -> (document: Json)
        ensures
            document@ == self@.wire(),
            document@.well_formed(),
    {
        let mut members: Vec<(String, Json)> = Vec::new();
        put(&mut members, "model", text(self.model.as_str()));
        put(&mut members, "input", text(self.input.as_str()));
        put(&mut members, "instruction", text(self.instruction.as_str()));
        put(&mut members, "n", count(self.n));
        put(&mut members, "temperature", count(self.temperature));
        put(&mut members, "top_p", decimal(&self.top_p));
        proof {
            assert(members.deep_view() =~= self@.members());
            lemma_object_view(members);
            lemma_wire_well_formed(self@);
        }
        Json::Object(members)
    }
}

/// The body of a pretty request holds the model, the input and the
/// instruction that were given, and the fixed settings.
pub proof fn lemma_pretty_wire(input: Seq<char>, instruction: Seq<char>, model: Seq<char>)
    ensures
        request_of(input, instruction, pretty_params(model)).members() == seq![
            ("model"@, JsonValue::Str(model)),
            ("input"@, JsonValue::Str(input)),
            ("instruction"@, JsonValue::Str(instruction)),
            ("n"@, JsonValue::Number(seq!['1'])),
            ("temperature"@, JsonValue::Number(seq!['0'])),
            ("top_p"@, JsonValue::Number(seq!['1', '.', '0'])),
        ],
{
    assert(crate::digits::numeral(0) =~= seq!['0']);
    assert(crate::digits::numeral(1) =~= seq!['1']);
    assert(request_of(input, instruction, pretty_params(model)).members() =~= seq![
        ("model"@, JsonValue::Str(model)),
        ("input"@, JsonValue::Str(input)),
        ("instruction"@, JsonValue::Str(instruction)),
        ("n"@, JsonValue::Number(seq!['1'])),
        ("temperature"@, JsonValue::Number(seq!['0'])),
        ("top_p"@, JsonValue::Number(seq!['1', '.', '0'])),
    ]);
}

} // verus!
