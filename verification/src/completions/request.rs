use crate::decimal::{is_number_literal, Decimal};
use crate::json::{lemma_lookup_append, lemma_object_view, lookup, Json, JsonValue};
use crate::logit_bias::LogitBias;
use crate::views::copy_texts;
use crate::wire::{
    all_well_formed, always, biases, biases_value, count, count_value, decimal,
    lemma_append_well_formed, lemma_values_well_formed, present, put, put_if, text, texts,
    texts_value,
};
use vstd::prelude::*;

verus! {

/// The settings of a request for a completion.
///
/// `temperature` is a whole number, as it is on the wire of this client: a
/// temperature between two whole numbers cannot be asked for.
#[derive(Debug)]
pub struct CompletionsParams {
    pub model: String,
    pub temperature: u32,
    pub max_tokens: u32,
    pub top_p: Decimal,
    pub frequency_penalty: Decimal,
    pub presence_penalty: Decimal,
    pub stop: Option<Vec<String>>,
    pub suffix: Option<String>,
    pub n: u32,
    pub stream: bool,
    pub logprobs: Option<u32>,
    pub echo: bool,
    pub best_of: u32,
    pub logit_bias: Option<LogitBias>,
    pub user: Option<String>,
}

/// The mathematical value of a [`CompletionsParams`].
pub struct CompletionsParamsView {
    pub model: Seq<char>,
    pub temperature: u32,
    pub max_tokens: u32,
    pub top_p: Seq<char>,
    pub frequency_penalty: Seq<char>,
    pub presence_penalty: Seq<char>,
    pub stop: Option<Seq<Seq<char>>>,
    pub suffix: Option<Seq<char>>,
    pub n: u32,
    pub stream: bool,
    pub logprobs: Option<u32>,
    pub echo: bool,
    pub best_of: u32,
    pub logit_bias: Option<Seq<(Seq<char>, i32)>>,
    pub user: Option<Seq<char>>,
}

impl DeepView for CompletionsParams {
    type V = CompletionsParamsView;

    open spec fn deep_view(&self) -> CompletionsParamsView {
        CompletionsParamsView {
            model: self.model@,
            temperature: self.temperature,
            max_tokens: self.max_tokens,
            top_p: self.top_p@,
            frequency_penalty: self.frequency_penalty@,
            presence_penalty: self.presence_penalty@,
            stop: self.stop.deep_view(),
            suffix: self.suffix.deep_view(),
            n: self.n,
            stream: self.stream,
            logprobs: self.logprobs,
            echo: self.echo,
            best_of: self.best_of,
            logit_bias: self.logit_bias.deep_view(),
            user: self.user.deep_view(),
        }
    }
}

impl View for CompletionsParams {
    type V = CompletionsParamsView;

    open spec fn view(&self) -> CompletionsParamsView {
        self.deep_view()
    }
}

/// The settings that the pretty calls use: the given model and length, the
/// likeliest token at every step (temperature 0, the whole distribution, no
/// penalties), one completion from one candidate, no streaming, no echo, and
/// no optional setting.
pub open spec fn pretty_params(model: Seq<char>, max_tokens: u32) -> CompletionsParamsView {
    CompletionsParamsView {
        model,
        temperature: 0,
        max_tokens,
        top_p: seq!['1', '.', '0'],
        frequency_penalty: seq!['0', '.', '0'],
        presence_penalty: seq!['0', '.', '0'],
        stop: None,
        suffix: None,
        n: 1,
        stream: false,
        logprobs: None,
        echo: false,
        best_of: 1,
        logit_bias: None,
        user: None,
    }
}

impl CompletionsParams {
    /// The settings that the pretty calls use.
    pub fn pretty(model: &str, max_tokens: u32) -> (params: CompletionsParams)
        ensures
            params@ == pretty_params(model@, max_tokens),
    {
        let top_p = Decimal::whole(1);
        let frequency_penalty = Decimal::whole(0);
        let presence_penalty = Decimal::whole(0);
        proof {
            reveal_with_fuel(crate::digits::numeral, 2);
            assert(top_p@ =~= seq!['1', '.', '0']);
            assert(frequency_penalty@ =~= seq!['0', '.', '0']);
            assert(presence_penalty@ =~= seq!['0', '.', '0']);
        }
        CompletionsParams {
            model: String::from_str(model),
            temperature: 0,
            max_tokens,
            top_p,
            frequency_penalty,
            presence_penalty,
            stop: None,
            suffix: None,
            n: 1,
            stream: false,
            logprobs: None,
            echo: false,
            best_of: 1,
            logit_bias: None,
            user: None,
        }
    }
}

/// A request for a completion, as it goes on the wire.
#[derive(Debug)]
pub struct Request {
    pub model: String,
    pub prompt: String,
    pub temperature: u32,
    pub max_tokens: u32,
    pub top_p: Decimal,
    pub frequency_penalty: Decimal,
    pub presence_penalty: Decimal,
    pub stop: Option<Vec<String>>,
    pub suffix: Option<String>,
    pub n: u32,
    pub stream: bool,
    pub logprobs: Option<u32>,
    pub echo: bool,
    pub best_of: u32,
    pub logit_bias: Option<LogitBias>,
    pub user: Option<String>,
}

/// The mathematical value of a [`Request`].
pub struct RequestView {
    pub model: Seq<char>,
    pub prompt: Seq<char>,
    pub temperature: u32,
    pub max_tokens: u32,
    pub top_p: Seq<char>,
    pub frequency_penalty: Seq<char>,
    pub presence_penalty: Seq<char>,
    pub stop: Option<Seq<Seq<char>>>,
    pub suffix: Option<Seq<char>>,
    pub n: u32,
    pub stream: bool,
    pub logprobs: Option<u32>,
    pub echo: bool,
    pub best_of: u32,
    pub logit_bias: Option<Seq<(Seq<char>, i32)>>,
    pub user: Option<Seq<char>>,
}

impl DeepView for Request {
    type V = RequestView;

    open spec fn deep_view(&self) -> RequestView {
        RequestView {
            model: self.model@,
            prompt: self.prompt@,
            temperature: self.temperature,
            max_tokens: self.max_tokens,
            top_p: self.top_p@,
            frequency_penalty: self.frequency_penalty@,
            presence_penalty: self.presence_penalty@,
            stop: self.stop.deep_view(),
            suffix: self.suffix.deep_view(),
            n: self.n,
            stream: self.stream,
            logprobs: self.logprobs,
            echo: self.echo,
            best_of: self.best_of,
            logit_bias: self.logit_bias.deep_view(),
            user: self.user.deep_view(),
        }
    }
}

impl View for Request {
    type V = RequestView;

    open spec fn view(&self) -> RequestView {
        self.deep_view()
    }
}

/// The request that asks for a completion of `prompt` with the settings
/// `params`.
pub open spec fn request_of(prompt: Seq<char>, params: CompletionsParamsView) -> RequestView {
    RequestView {
        model: params.model,
        prompt,
        temperature: params.temperature,
        max_tokens: params.max_tokens,
        top_p: params.top_p,
        frequency_penalty: params.frequency_penalty,
        presence_penalty: params.presence_penalty,
        stop: params.stop,
        suffix: params.suffix,
        n: params.n,
        stream: params.stream,
        logprobs: params.logprobs,
        echo: params.echo,
        best_of: params.best_of,
        logit_bias: params.logit_bias,
        user: params.user,
    }
}

impl RequestView {
    /// Whether the three fractions are number literals, as they are in every
    /// [`Request`].
    pub open spec fn valid(self) -> bool {
        &&& is_number_literal(self.top_p)
        &&& is_number_literal(self.frequency_penalty)
        &&& is_number_literal(self.presence_penalty)
    }

    /// The stop sequences on the wire, if they are set.
    pub open spec fn stop_value(self) -> Option<JsonValue> {
        match self.stop {
            Some(stop) => Some(texts_value(stop)),
            None => None,
        }
    }

    /// The suffix on the wire, if it is set.
    pub open spec fn suffix_value(self) -> Option<JsonValue> {
        match self.suffix {
            Some(suffix) => Some(JsonValue::Str(suffix)),
            None => None,
        }
    }

    /// The number of log probabilities on the wire, if it is set.
    pub open spec fn logprobs_value(self) -> Option<JsonValue> {
        match self.logprobs {
            Some(logprobs) => Some(count_value(logprobs)),
            None => None,
        }
    }

    /// The biases on the wire, if they are set.
    pub open spec fn logit_bias_value(self) -> Option<JsonValue> {
        match self.logit_bias {
            Some(logit_bias) => Some(biases_value(logit_bias)),
            None => None,
        }
    }

    /// The user on the wire, if it is set.
    pub open spec fn user_value(self) -> Option<JsonValue> {
        match self.user {
            Some(user) => Some(JsonValue::Str(user)),
            None => None,
        }
    }

    /// The members of the body, in their order. A setting that may be unset
    /// has a member exactly where it is set; no member is null.
    pub open spec fn members(self) -> Seq<(Seq<char>, JsonValue)> {
        always("model"@, JsonValue::Str(self.model))
            + always("prompt"@, JsonValue::Str(self.prompt))
            + always("temperature"@, count_value(self.temperature))
            + always("max_tokens"@, count_value(self.max_tokens))
            + always("top_p"@, JsonValue::Number(self.top_p))
            + always("frequency_penalty"@, JsonValue::Number(self.frequency_penalty))
            + always("presence_penalty"@, JsonValue::Number(self.presence_penalty))
            + present("stop"@, self.stop_value())
            + present("suffix"@, self.suffix_value())
            + always("n"@, count_value(self.n))
            + always("stream"@, JsonValue::Bool(self.stream))
            + present("logprobs"@, self.logprobs_value())
            + always("echo"@, JsonValue::Bool(self.echo))
            + always("best_of"@, count_value(self.best_of))
            + present("logit_bias"@, self.logit_bias_value())
            + present("user"@, self.user_value())
    }

    /// The body of the request as a document.
    pub open spec fn wire(self) -> JsonValue {
        JsonValue::Object(self.members())
    }

    /// The value under `key` in the body, if the body has such a member:
    /// every setting that is always sent has one, and a setting that may be
    /// unset has one exactly where it is set.
    pub open spec fn sent(self, key: Seq<char>) -> Option<JsonValue> {
        if key == "model"@ {
            Some(JsonValue::Str(self.model))
        } else if key == "prompt"@ {
            Some(JsonValue::Str(self.prompt))
        } else if key == "temperature"@ {
            Some(count_value(self.temperature))
        } else if key == "max_tokens"@ {
            Some(count_value(self.max_tokens))
        } else if key == "top_p"@ {
            Some(JsonValue::Number(self.top_p))
        } else if key == "frequency_penalty"@ {
            Some(JsonValue::Number(self.frequency_penalty))
        } else if key == "presence_penalty"@ {
            Some(JsonValue::Number(self.presence_penalty))
        } else if key == "stop"@ {
            self.stop_value()
        } else if key == "suffix"@ {
            self.suffix_value()
        } else if key == "n"@ {
            Some(count_value(self.n))
        } else if key == "stream"@ {
            Some(JsonValue::Bool(self.stream))
        } else if key == "logprobs"@ {
            self.logprobs_value()
        } else if key == "echo"@ {
            Some(JsonValue::Bool(self.echo))
        } else if key == "best_of"@ {
            Some(count_value(self.best_of))
        } else if key == "logit_bias"@ {
            self.logit_bias_value()
        } else if key == "user"@ {
            self.user_value()
        } else {
            None
        }
    }
}

/// The names of the members differ from each other: by their length, or by
/// their first or second character.
proof fn lemma_names()
    ensures
        "model"@.len() == 5 && "model"@[0] == 'm',
        "prompt"@.len() == 6 && "prompt"@[0] == 'p',
        "temperature"@.len() == 11,
        "max_tokens"@.len() == 10 && "max_tokens"@[0] == 'm',
        "top_p"@.len() == 5 && "top_p"@[0] == 't',
        "frequency_penalty"@.len() == 17,
        "presence_penalty"@.len() == 16,
        "stop"@.len() == 4 && "stop"@[0] == 's',
        "suffix"@.len() == 6 && "suffix"@[0] == 's' && "suffix"@[1] == 'u',
        "n"@.len() == 1,
        "stream"@.len() == 6 && "stream"@[0] == 's' && "stream"@[1] == 't',
        "logprobs"@.len() == 8,
        "echo"@.len() == 4 && "echo"@[0] == 'e',
        "best_of"@.len() == 7,
        "logit_bias"@.len() == 10 && "logit_bias"@[0] == 'l',
        "user"@.len() == 4 && "user"@[0] == 'u',
{
    reveal_strlit("model");
    reveal_strlit("prompt");
    reveal_strlit("temperature");
    reveal_strlit("max_tokens");
    reveal_strlit("top_p");
    reveal_strlit("frequency_penalty");
    reveal_strlit("presence_penalty");
    reveal_strlit("stop");
    reveal_strlit("suffix");
    reveal_strlit("n");
    reveal_strlit("stream");
    reveal_strlit("logprobs");
    reveal_strlit("echo");
    reveal_strlit("best_of");
    reveal_strlit("logit_bias");
    reveal_strlit("user");
}

/// What is found under `key` in a list that goes on with a member that may
/// be absent: what was found before; failing that, the member, if it is
/// there and has that name.
proof fn lemma_lookup_next(
    before: Seq<(Seq<char>, JsonValue)>,
    name: Seq<char>,
    value: Option<JsonValue>,
    key: Seq<char>,
)
    ensures
        lookup(before + present(name, value), key) == match lookup(before, key) {
            Some(found) => Some(found),
            None => if key == name {
                value
            } else {
                None
            },
        },
        value matches Some(v) ==> before + always(name, v) == before + present(name, value),
{
    reveal_with_fuel(lookup, 2);
    lemma_lookup_append(before, present(name, value), key);
}

/// The body of a request holds under `key` what [`RequestView::sent`] says.
proof fn lemma_wire_member(request: RequestView, key: Seq<char>)
    ensures
        request.wire().field(key) == request.sent(key),
{
    lemma_names();
    let m0 = Seq::<(Seq<char>, JsonValue)>::empty();
    let m1 = always("model"@, JsonValue::Str(request.model));
    assert(m0 + m1 =~= m1);
    lemma_lookup_next(m0, "model"@, Some(JsonValue::Str(request.model)), key);
    let m2 = m1 + always("prompt"@, JsonValue::Str(request.prompt));
    lemma_lookup_next(m1, "prompt"@, Some(JsonValue::Str(request.prompt)), key);
    let m3 = m2 + always("temperature"@, count_value(request.temperature));
    lemma_lookup_next(m2, "temperature"@, Some(count_value(request.temperature)), key);
    let m4 = m3 + always("max_tokens"@, count_value(request.max_tokens));
    lemma_lookup_next(m3, "max_tokens"@, Some(count_value(request.max_tokens)), key);
    let m5 = m4 + always("top_p"@, JsonValue::Number(request.top_p));
    lemma_lookup_next(m4, "top_p"@, Some(JsonValue::Number(request.top_p)), key);
    let m6 = m5 + always("frequency_penalty"@, JsonValue::Number(request.frequency_penalty));
    lemma_lookup_next(
        m5,
        "frequency_penalty"@,
        Some(JsonValue::Number(request.frequency_penalty)),
        key,
    );
    let m7 = m6 + always("presence_penalty"@, JsonValue::Number(request.presence_penalty));
    lemma_lookup_next(
        m6,
        "presence_penalty"@,
        Some(JsonValue::Number(request.presence_penalty)),
        key,
    );
    let m8 = m7 + present("stop"@, request.stop_value());
    lemma_lookup_next(m7, "stop"@, request.stop_value(), key);
    let m9 = m8 + present("suffix"@, request.suffix_value());
    lemma_lookup_next(m8, "suffix"@, request.suffix_value(), key);
    let m10 = m9 + always("n"@, count_value(request.n));
    lemma_lookup_next(m9, "n"@, Some(count_value(request.n)), key);
    let m11 = m10 + always("stream"@, JsonValue::Bool(request.stream));
    lemma_lookup_next(m10, "stream"@, Some(JsonValue::Bool(request.stream)), key);
    let m12 = m11 + present("logprobs"@, request.logprobs_value());
    lemma_lookup_next(m11, "logprobs"@, request.logprobs_value(), key);
    let m13 = m12 + always("echo"@, JsonValue::Bool(request.echo));
    lemma_lookup_next(m12, "echo"@, Some(JsonValue::Bool(request.echo)), key);
    let m14 = m13 + always("best_of"@, count_value(request.best_of));
    lemma_lookup_next(m13, "best_of"@, Some(count_value(request.best_of)), key);
    let m15 = m14 + present("logit_bias"@, request.logit_bias_value());
    lemma_lookup_next(m14, "logit_bias"@, request.logit_bias_value(), key);
    let m16 = m15 + present("user"@, request.user_value());
    lemma_lookup_next(m15, "user"@, request.user_value(), key);
    assert(request.members() == m16);
}

/// The body of a request holds, under every key, exactly what
/// [`RequestView::sent`] says: the settings that are always sent and the
/// optional settings that are set, each with its value, and no other
/// member. No member is null.
pub proof fn lemma_wire_members(request: RequestView)
    ensures
        forall|key: Seq<char>| request.wire().field(key) == request.sent(key),
        forall|i: int|
            0 <= i < request.members().len() ==> !((#[trigger] request.members()[i]).1 is Null),
{
    assert forall|key: Seq<char>| request.wire().field(key) == request.sent(key) by {
        lemma_wire_member(request, key);
    }
}

/// The members of a list that goes on with one member more have number
/// literals for their numbers if those before have them and the member that
/// is added has them.
proof fn lemma_well_formed_next(
    before: Seq<(Seq<char>, JsonValue)>,
    name: Seq<char>,
    value: Option<JsonValue>,
)
    requires
        all_well_formed(before),
        value matches Some(v) ==> v.well_formed(),
    ensures
        all_well_formed(before + present(name, value)),
        value matches Some(v) ==> before + always(name, v) == before + present(name, value),
{
    lemma_append_well_formed(before, present(name, value));
}

/// Every number in the body of a request is written as a number literal.
pub proof fn lemma_wire_well_formed(request: RequestView)
    requires
        request.valid(),
    ensures
        request.wire().well_formed(),
{
    let no_list = Seq::<Seq<char>>::empty();
    let no_entries = Seq::<(Seq<char>, i32)>::empty();
    lemma_values_well_formed(request.temperature, no_list, no_entries);
    lemma_values_well_formed(request.max_tokens, no_list, no_entries);
    lemma_values_well_formed(request.n, no_list, no_entries);
    lemma_values_well_formed(request.best_of, no_list, no_entries);
    if request.stop is Some {
        lemma_values_well_formed(0, request.stop->Some_0, no_entries);
    }
    if request.logprobs is Some {
        lemma_values_well_formed(request.logprobs->Some_0, no_list, no_entries);
    }
    if request.logit_bias is Some {
        lemma_values_well_formed(0, no_list, request.logit_bias->Some_0);
    }
    let m0 = Seq::<(Seq<char>, JsonValue)>::empty();
    let m1 = always("model"@, JsonValue::Str(request.model));
    assert(m0 + m1 =~= m1);
    lemma_well_formed_next(m0, "model"@, Some(JsonValue::Str(request.model)));
    let m2 = m1 + always("prompt"@, JsonValue::Str(request.prompt));
    lemma_well_formed_next(m1, "prompt"@, Some(JsonValue::Str(request.prompt)));
    let m3 = m2 + always("temperature"@, count_value(request.temperature));
    lemma_well_formed_next(m2, "temperature"@, Some(count_value(request.temperature)));
    let m4 = m3 + always("max_tokens"@, count_value(request.max_tokens));
    lemma_well_formed_next(m3, "max_tokens"@, Some(count_value(request.max_tokens)));
    let m5 = m4 + always("top_p"@, JsonValue::Number(request.top_p));
    lemma_well_formed_next(m4, "top_p"@, Some(JsonValue::Number(request.top_p)));
    let m6 = m5 + always("frequency_penalty"@, JsonValue::Number(request.frequency_penalty));
    lemma_well_formed_next(
        m5,
        "frequency_penalty"@,
        Some(JsonValue::Number(request.frequency_penalty)),
    );
    let m7 = m6 + always("presence_penalty"@, JsonValue::Number(request.presence_penalty));
    lemma_well_formed_next(
        m6,
        "presence_penalty"@,
        Some(JsonValue::Number(request.presence_penalty)),
    );
    let m8 = m7 + present("stop"@, request.stop_value());
    lemma_well_formed_next(m7, "stop"@, request.stop_value());
    let m9 = m8 + present("suffix"@, request.suffix_value());
    lemma_well_formed_next(m8, "suffix"@, request.suffix_value());
    let m10 = m9 + always("n"@, count_value(request.n));
    lemma_well_formed_next(m9, "n"@, Some(count_value(request.n)));
    let m11 = m10 + always("stream"@, JsonValue::Bool(request.stream));
    lemma_well_formed_next(m10, "stream"@, Some(JsonValue::Bool(request.stream)));
    let m12 = m11 + present("logprobs"@, request.logprobs_value());
    lemma_well_formed_next(m11, "logprobs"@, request.logprobs_value());
    let m13 = m12 + always("echo"@, JsonValue::Bool(request.echo));
    lemma_well_formed_next(m12, "echo"@, Some(JsonValue::Bool(request.echo)));
    let m14 = m13 + always("best_of"@, count_value(request.best_of));
    lemma_well_formed_next(m13, "best_of"@, Some(count_value(request.best_of)));
    let m15 = m14 + present("logit_bias"@, request.logit_bias_value());
    lemma_well_formed_next(m14, "logit_bias"@, request.logit_bias_value());
    let m16 = m15 + present("user"@, request.user_value());
    lemma_well_formed_next(m15, "user"@, request.user_value());
    assert(request.members() == m16);
}

impl Request {
    /// The request that asks for a completion of `prompt` with the settings
    /// `params`.
    pub fn new(prompt: &str, params: &CompletionsParams) -> (request: Request)
        ensures
            request@ == request_of(prompt@, params@),
    {
        Request {
            model: params.model.clone(),
            prompt: String::from_str(prompt),
            temperature: params.temperature,
            max_tokens: params.max_tokens,
            top_p: params.top_p.clone(),
            frequency_penalty: params.frequency_penalty.clone(),
            presence_penalty: params.presence_penalty.clone(),
            stop: match &params.stop {
                Some(stop) => Some(copy_texts(stop)),
                None => None,
            },
            suffix: match &params.suffix {
                Some(suffix) => Some(suffix.clone()),
                None => None,
            },
            n: params.n,
            stream: params.stream,
            logprobs: params.logprobs,
            echo: params.echo,
            best_of: params.best_of,
            logit_bias: match &params.logit_bias {
                Some(logit_bias) => Some(logit_bias.clone()),
                None => None,
            },
            user: match &params.user {
                Some(user) => Some(user.clone()),
                None => None,
            },
        }
    }

    /// The body of the request as a document.
    pub fn to_json(&self) -> (document: Json)
        ensures
            document@ == self@.wire(),
            document@.well_formed(),
    {
        let mut members: Vec<(String, Json)> = Vec::new();
        assert(members.deep_view() + always("model"@, JsonValue::Str(self.model@)) =~= always(
            "model"@,
            JsonValue::Str(self.model@),
        ));
        put(&mut members, "model", text(self.model.as_str()));
        put(&mut members, "prompt", text(self.prompt.as_str()));
        put(&mut members, "temperature", count(self.temperature));
        put(&mut members, "max_tokens", count(self.max_tokens));
        put(&mut members, "top_p", decimal(&self.top_p));
        put(&mut members, "frequency_penalty", decimal(&self.frequency_penalty));
        put(&mut members, "presence_penalty", decimal(&self.presence_penalty));
        put_if(
            &mut members,
            "stop",
            match &self.stop {
                Some(stop) => Some(texts(stop)),
                None => None,
            },
        );
        put_if(
            &mut members,
            "suffix",
            match &self.suffix {
                Some(suffix) => Some(text(suffix.as_str())),
                None => None,
            },
        );
        put(&mut members, "n", count(self.n));
        put(&mut members, "stream", Json::Bool(self.stream));
        put_if(
            &mut members,
            "logprobs",
            match self.logprobs {
                Some(logprobs) => Some(count(logprobs)),
                None => None,
            },
        );
        put(&mut members, "echo", Json::Bool(self.echo));
        put(&mut members, "best_of", count(self.best_of));
        put_if(
            &mut members,
            "logit_bias",
            match &self.logit_bias {
                Some(logit_bias) => Some(biases(logit_bias)),
                None => None,
            },
        );
        put_if(
            &mut members,
            "user",
            match &self.user {
                Some(user) => Some(text(user.as_str())),
                None => None,
            },
        );
        proof {
            lemma_object_view(members);
            lemma_wire_well_formed(self@);
        }
        Json::Object(members)
    }
}

/// The body of a pretty request holds the prompt, the model and the length
/// that were given, the fixed settings, and no member for a setting that may
/// be unset.
pub proof fn lemma_pretty_wire(prompt: Seq<char>, model: Seq<char>, max_tokens: u32)
    ensures
        request_of(prompt, pretty_params(model, max_tokens)).members() == seq![
            ("model"@, JsonValue::Str(model)),
            ("prompt"@, JsonValue::Str(prompt)),
            ("temperature"@, JsonValue::Number(seq!['0'])),
            ("max_tokens"@, count_value(max_tokens)),
            ("top_p"@, JsonValue::Number(seq!['1', '.', '0'])),
            ("frequency_penalty"@, JsonValue::Number(seq!['0', '.', '0'])),
            ("presence_penalty"@, JsonValue::Number(seq!['0', '.', '0'])),
            ("n"@, JsonValue::Number(seq!['1'])),
            ("stream"@, JsonValue::Bool(false)),
            ("echo"@, JsonValue::Bool(false)),
            ("best_of"@, JsonValue::Number(seq!['1'])),
        ],
{
    let request = request_of(prompt, pretty_params(model, max_tokens));
    assert(crate::digits::numeral(0) =~= seq!['0']);
    assert(crate::digits::numeral(1) =~= seq!['1']);
    assert(request.members() =~= seq![
        ("model"@, JsonValue::Str(model)),
        ("prompt"@, JsonValue::Str(prompt)),
        ("temperature"@, JsonValue::Number(seq!['0'])),
        ("max_tokens"@, count_value(max_tokens)),
        ("top_p"@, JsonValue::Number(seq!['1', '.', '0'])),
        ("frequency_penalty"@, JsonValue::Number(seq!['0', '.', '0'])),
        ("presence_penalty"@, JsonValue::Number(seq!['0', '.', '0'])),
        ("n"@, JsonValue::Number(seq!['1'])),
        ("stream"@, JsonValue::Bool(false)),
        ("echo"@, JsonValue::Bool(false)),
        ("best_of"@, JsonValue::Number(seq!['1'])),
    ]);
}

} // verus!
