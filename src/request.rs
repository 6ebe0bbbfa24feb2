use vstd::prelude::*;

use crate::error::{ClientError, ClientErrorView};
use crate::json::{
    array, copy_json, decimal, decimal_text, entries_view, object, push_entry, push_opt, text,
    with_opt, JsonValue, JsonView,
};
use crate::json::{
    field, get, get_str, lemma_decimal_digits, lemma_lookup_push, lemma_lookup_with_opt, lookup,
    str_field,
};
use crate::messages::{
    content_json, lemma_content_reads_back, lemma_message_round_trip, message_json,
    message_of_json, optional_content_of_json, optional_member,
    parts_view, str_of_json, u32_from_json, u32_of_json, Content, ContentPart, ContentView,
    Message, MessageView, PartView,
};

verus! {

/// Who the request is made for.
#[derive(Debug)]
pub struct Metadata {
    pub user_id: Option<String>,
}

/// Whether, and which, tool the model must invoke.
#[derive(Debug)]
pub enum ToolChoiceKind {
    Auto,
    Any,
    Tool { name: String },
}

#[derive(Debug)]
pub struct ToolChoice {
    pub kind: ToolChoiceKind,
}

/// The shape of a tool's input.
#[derive(Debug)]
pub struct ToolInputSchema {
    pub kind: String,
    pub properties: JsonValue,
    pub required: Vec<String>,
}

/// A tool the model may invoke.
#[derive(Debug)]
pub struct Tool {
    pub description: Option<String>,
    pub name: String,
    pub input_schema: ToolInputSchema,
}

/// A request to create a message. Sampling parameters that are fractions
/// (`temperature`, `top_p`) are held as their decimal text.
#[derive(Debug)]
pub struct CreateMessageRequest {
    pub model: String,
    pub messages: Vec<Message>,
    pub max_tokens: u32,
    pub metadata: Option<Metadata>,
    pub stop_sequences: Option<Vec<String>>,
    pub system: Option<Content>,
    pub temperature: Option<String>,
    pub tool_choice: Option<ToolChoice>,
    pub tools: Option<Vec<Tool>>,
    pub top_k: Option<u32>,
    pub top_p: Option<String>,
}

/// A request together with whether its answer should be streamed.
#[derive(Debug)]
pub struct CreateMessageRequestWithStream {
    pub create_message_request: CreateMessageRequest,
    pub stream: bool,
}

/// A request as a caller submits it, where the stream flag may be left out.
#[derive(Debug)]
pub struct IncomingCreateMessageRequest {
    pub create_message_request: CreateMessageRequest,
    pub stream: Option<bool>,
}

pub enum ToolChoiceView {
    Auto,
    Any,
    Tool { name: Seq<char> },
}

pub struct ToolView {
    pub description: Option<Seq<char>>,
    pub name: Seq<char>,
    pub schema_kind: Seq<char>,
    pub properties: JsonView,
    pub required: Seq<Seq<char>>,
}

pub struct RequestView {
    pub model: Seq<char>,
    pub messages: Seq<MessageView>,
    pub max_tokens: u32,
    pub metadata: Option<Option<Seq<char>>>,
    pub stop_sequences: Option<Seq<Seq<char>>>,
    pub system: Option<ContentView>,
    pub temperature: Option<Seq<char>>,
    pub tool_choice: Option<ToolChoiceView>,
    pub tools: Option<Seq<ToolView>>,
    pub top_k: Option<u32>,
    pub top_p: Option<Seq<char>>,
}

pub open spec fn opt_text(o: Option<String>) -> Option<Seq<char>> {
    match o {
        Some(s) => Some(s@),
        None => None,
    }
}

pub open spec fn texts_view(v: Seq<String>) -> Seq<Seq<char>> {
    Seq::new(v.len(), |i: int| v[i]@)
}

pub open spec fn messages_view(v: Seq<Message>) -> Seq<MessageView> {
    Seq::new(v.len(), |i: int| v[i]@)
}

impl View for ToolChoice {
    type V = ToolChoiceView;

    open spec fn view(&self) -> ToolChoiceView {
        match self.kind {
            ToolChoiceKind::Auto => ToolChoiceView::Auto,
            ToolChoiceKind::Any => ToolChoiceView::Any,
            ToolChoiceKind::Tool { name } => ToolChoiceView::Tool { name: name@ },
        }
    }
}

impl View for Tool {
    type V = ToolView;

    open spec fn view(&self) -> ToolView {
        ToolView {
            description: opt_text(self.description),
            name: self.name@,
            schema_kind: self.input_schema.kind@,
            properties: self.input_schema.properties@,
            required: texts_view(self.input_schema.required@),
        }
    }
}

pub open spec fn tools_view(v: Seq<Tool>) -> Seq<ToolView> {
    Seq::new(v.len(), |i: int| v[i]@)
}

impl View for CreateMessageRequest {
    type V = RequestView;

    open spec fn view(&self) -> RequestView {
        RequestView {
            model: self.model@,
            messages: messages_view(self.messages@),
            max_tokens: self.max_tokens,
            metadata: match self.metadata {
                Some(m) => Some(opt_text(m.user_id)),
                None => None,
            },
            stop_sequences: match self.stop_sequences {
                Some(v) => Some(texts_view(v@)),
                None => None,
            },
            system: match self.system {
                Some(c) => Some(c@),
                None => None,
            },
            temperature: opt_text(self.temperature),
            tool_choice: match self.tool_choice {
                Some(c) => Some(c@),
                None => None,
            },
            tools: match self.tools {
                Some(v) => Some(tools_view(v@)),
                None => None,
            },
            top_k: self.top_k,
            top_p: opt_text(self.top_p),
        }
    }
}

// ----- the wire form of a request -----

pub open spec fn texts_json(v: Seq<Seq<char>>) -> JsonView {
    JsonView::Array(v.map_values(|s: Seq<char>| JsonView::Str(s)))
}

pub open spec fn metadata_json(user_id: Option<Seq<char>>) -> JsonView {
    JsonView::Object(
        with_opt(
            Seq::empty(),
            "user_id"@,
            match user_id {
                Some(u) => Some(JsonView::Str(u)),
                None => None,
            },
        ),
    )
}

pub open spec fn tool_choice_json(c: ToolChoiceView) -> JsonView {
    match c {
        ToolChoiceView::Auto => JsonView::Object(seq![("type"@, JsonView::Str("auto"@))]),
        ToolChoiceView::Any => JsonView::Object(seq![("type"@, JsonView::Str("any"@))]),
        ToolChoiceView::Tool { name } => JsonView::Object(
            seq![("type"@, JsonView::Str("tool"@)), ("name"@, JsonView::Str(name))],
        ),
    }
}

/// A tool's input schema as the wire carries it.
pub open spec fn schema_json(t: ToolView) -> JsonView {
    JsonView::Object(
        seq![
            ("type"@, JsonView::Str(t.schema_kind)),
            ("properties"@, t.properties),
            ("required"@, texts_json(t.required)),
        ],
    )
}

pub open spec fn tool_json(t: ToolView) -> JsonView {
    JsonView::Object(
        with_opt(
            Seq::empty(),
            "description"@,
            match t.description {
                Some(d) => Some(JsonView::Str(d)),
                None => None,
            },
        ) + seq![
            ("name"@, JsonView::Str(t.name)),
            ("input_schema"@, schema_json(t)),
        ],
    )
}

/// `es` followed by the members every backend's body shares, in order; an
/// absent optional field is left out, never written as null.
pub open spec fn add_shared(es: Seq<(Seq<char>, JsonView)>, r: RequestView) -> Seq<(Seq<char>, JsonView)> {
    let base = es + seq![
        ("messages"@, JsonView::Array(r.messages.map_values(|m: MessageView| message_json(m)))),
        ("max_tokens"@, JsonView::Number(decimal(r.max_tokens as nat))),
    ];
    let a = with_opt(base, "metadata"@, metadata_value(r));
    let b = with_opt(a, "stop_sequences"@, stop_sequences_value(r));
    let c = with_opt(b, "system"@, system_value(r));
    let d = with_opt(c, "temperature"@, temperature_value(r));
    let e = with_opt(d, "tool_choice"@, tool_choice_value(r));
    let f = with_opt(e, "tools"@, tools_value(r));
    let g = with_opt(f, "top_k"@, top_k_value(r));
    with_opt(g, "top_p"@, top_p_value(r))
}

pub open spec fn metadata_value(r: RequestView) -> Option<JsonView> {
    match r.metadata {
        Some(u) => Some(metadata_json(u)),
        None => None,
    }
}

pub open spec fn stop_sequences_value(r: RequestView) -> Option<JsonView> {
    match r.stop_sequences {
        Some(v) => Some(texts_json(v)),
        None => None,
    }
}

pub open spec fn system_value(r: RequestView) -> Option<JsonView> {
    match r.system {
        Some(s) => Some(content_json(s)),
        None => None,
    }
}

pub open spec fn temperature_value(r: RequestView) -> Option<JsonView> {
    match r.temperature {
        Some(t) => Some(JsonView::Number(t)),
        None => None,
    }
}

pub open spec fn tool_choice_value(r: RequestView) -> Option<JsonView> {
    match r.tool_choice {
        Some(t) => Some(tool_choice_json(t)),
        None => None,
    }
}

pub open spec fn tools_value(r: RequestView) -> Option<JsonView> {
    match r.tools {
        Some(v) => Some(JsonView::Array(v.map_values(|t: ToolView| tool_json(t)))),
        None => None,
    }
}

pub open spec fn top_k_value(r: RequestView) -> Option<JsonView> {
    match r.top_k {
        Some(k) => Some(JsonView::Number(decimal(k as nat))),
        None => None,
    }
}

pub open spec fn top_p_value(r: RequestView) -> Option<JsonView> {
    match r.top_p {
        Some(p) => Some(JsonView::Number(p)),
        None => None,
    }
}

/// The direct backend's body: the model, the shared members, and the stream
/// flag.
pub open spec fn direct_body(r: RequestView, stream: bool) -> JsonView {
    JsonView::Object(
        add_shared(seq![("model"@, JsonView::Str(r.model))], r).push(("stream"@, JsonView::Bool(stream))),
    )
}

/// Whether a part may be submitted: streamed fragments may not.
pub open spec fn part_submittable(p: PartView) -> bool {
    !(p is TextDelta) && !(p is InputJsonDelta)
}

pub open spec fn parts_submittable(parts: Seq<PartView>) -> bool {
    forall|i: int| 0 <= i < parts.len() ==> part_submittable(#[trigger] parts[i])
}

pub open spec fn content_submittable(c: ContentView) -> bool {
    match c {
        ContentView::Single(_) => true,
        ContentView::Multi(parts) => parts_submittable(parts),
    }
}

/// Whether a request holds no streamed fragment, in its turns or its system
/// prompt.
pub open spec fn submittable(r: RequestView) -> bool {
    &&& forall|i: int| 0 <= i < r.messages.len() ==> content_submittable(#[trigger] r.messages[i].content)
    &&& match r.system {
        Some(s) => content_submittable(s),
        None => true,
    }
}

fn texts_to_json(v: &Vec<String>) -> (r: JsonValue)
    ensures
        r@ == texts_json(texts_view(v@)),
{
    let mut out: Vec<JsonValue> = Vec::new();
    let mut i: usize = 0;
    while i < v.len()
        invariant
            i <= v@.len(),
            out@.len() == i,
            forall|k: int| 0 <= k < i ==> (#[trigger] out@[k])@ == JsonView::Str(v@[k]@),
        decreases v@.len() - i,
    {
        out.push(JsonValue::Str(v[i].clone()));
        i = i + 1;
    }
    let r = array(out);
    assert(r@->Array_0 =~= texts_json(texts_view(v@))->Array_0);
    r
}

impl Metadata {
    /// This metadata as the wire carries it.
    pub fn to_json(&self) -> (r: JsonValue)
        ensures
            r@ == metadata_json(opt_text(self.user_id)),
    {
        let mut es: Vec<(String, JsonValue)> = Vec::new();
        assert(entries_view(es@) =~= Seq::empty());
        let u = match &self.user_id {
            Some(u) => Some(JsonValue::Str(u.clone())),
            None => None,
        };
        push_opt(&mut es, "user_id", u);
        object(es)
    }
}

impl ToolChoice {
    /// This choice as the wire carries it.
    pub fn to_json(&self) -> (r: JsonValue)
        ensures
            r@ == tool_choice_json(self@),
    {
        let es = match &self.kind {
            ToolChoiceKind::Auto => vec![(String::from_str("type"), text("auto"))],
            ToolChoiceKind::Any => vec![(String::from_str("type"), text("any"))],
            ToolChoiceKind::Tool { name } => vec![
                (String::from_str("type"), text("tool")),
                (String::from_str("name"), JsonValue::Str(name.clone())),
            ],
        };
        let r = object(es);
        assert(r@->Object_0 =~= tool_choice_json(self@)->Object_0);
        r
    }
}

impl From<ToolChoiceKind> for ToolChoice {
    fn from(kind: ToolChoiceKind) -> (r: ToolChoice) {
        ToolChoice { kind }
    }
}

impl vstd::std_specs::convert::FromSpecImpl<ToolChoiceKind> for ToolChoice {
    open spec fn obeys_from_spec() -> bool {
        true
    }

    open spec fn from_spec(kind: ToolChoiceKind) -> ToolChoice {
        ToolChoice { kind }
    }
}

impl ToolInputSchema {
    /// This schema as the wire carries it.
    pub fn to_json(&self) -> (r: JsonValue)
        ensures
            r@ == JsonView::Object(
                seq![
                    ("type"@, JsonView::Str(self.kind@)),
                    ("properties"@, self.properties@),
                    ("required"@, texts_json(texts_view(self.required@))),
                ],
            ),
    {
        let es = vec![
            (String::from_str("type"), JsonValue::Str(self.kind.clone())),
            (String::from_str("properties"), copy_json(&self.properties)),
            (String::from_str("required"), texts_to_json(&self.required)),
        ];
        let r = object(es);
        assert(r@->Object_0 =~= seq![
            ("type"@, JsonView::Str(self.kind@)),
            ("properties"@, self.properties@),
            ("required"@, texts_json(texts_view(self.required@))),
        ]);
        r
    }
}

impl Tool {
    /// This tool as the wire carries it.
    pub fn to_json(&self) -> (r: JsonValue)
        ensures
            r@ == tool_json(self@),
    {
        let mut es: Vec<(String, JsonValue)> = Vec::new();
        assert(entries_view(es@) =~= Seq::empty());
        let d = match &self.description {
            Some(d) => Some(JsonValue::Str(d.clone())),
            None => None,
        };
        push_opt(&mut es, "description", d);
        push_entry(&mut es, "name", JsonValue::Str(self.name.clone()));
        push_entry(&mut es, "input_schema", self.input_schema.to_json());
        let r = object(es);
        assert(r@->Object_0 =~= tool_json(self@)->Object_0);
        r
    }
}

fn part_is_submittable(p: &ContentPart) -> (r: bool)
    ensures
        r == part_submittable(p@),
{
    match p {
        ContentPart::TextDelta { .. } => false,
        ContentPart::InputJsonDelta { .. } => false,
        _ => true,
    }
}

fn content_is_submittable(c: &Content) -> (r: bool)
    ensures
        r == content_submittable(c@),
{
    match c {
        Content::Single(_) => true,
        Content::Multi(parts) => {
            let mut i: usize = 0;
            while i < parts.len()
                invariant
                    i <= parts@.len(),
                    c@ == ContentView::Multi(parts_view(parts@)),
                    forall|k: int| 0 <= k < i ==> part_submittable(#[trigger] parts@[k]@),
                decreases parts@.len() - i,
            {
                if !part_is_submittable(&parts[i]) {
                    let ghost pv = parts_view(parts@);
                    assert(!part_submittable(pv[i as int]));
                    assert(!(forall|k: int| 0 <= k < pv.len() ==> part_submittable(#[trigger] pv[k])));
                    assert(!parts_submittable(pv));
                    return false;
                }
                i = i + 1;
            }
            assert forall|k: int| 0 <= k < parts_view(parts@).len() implies part_submittable(#[trigger] parts_view(parts@)[k]) by {
                assert(part_submittable(parts@[k]@));
            }
            true
        },
    }
}

impl CreateMessageRequest {
    /// A builder with no field set.
    pub fn builder() -> (r: CreateMessageRequestBuilder)
        ensures
            r.is_empty(),
    {
        CreateMessageRequestBuilder {
            model: None,
            messages: None,
            max_tokens: None,
            metadata: None,
            stop_sequences: None,
            system: None,
            temperature: None,
            tool_choice: None,
            tools: None,
            top_k: None,
            top_p: None,
        }
    }

    /// Whether the request holds no streamed fragment, which may only come
    /// from a backend and never be sent to one.
    pub fn is_submittable(&self) -> (r: bool)
        ensures
            r == submittable(self@),
    {
        let mut i: usize = 0;
        while i < self.messages.len()
            invariant
                i <= self.messages@.len(),
                forall|k: int| 0 <= k < i ==> content_submittable(#[trigger] self.messages@[k]@.content),
            decreases self.messages@.len() - i,
        {
            if !content_is_submittable(&self.messages[i].content) {
                assert(!content_submittable(self@.messages[i as int].content));
                return false;
            }
            i = i + 1;
        }
        assert forall|k: int| 0 <= k < self@.messages.len() implies content_submittable(#[trigger] self@.messages[k].content) by {
            assert(content_submittable(self.messages@[k]@.content));
        }
        match &self.system {
            Some(s) => content_is_submittable(s),
            None => true,
        }
    }

    /// Adds the members that every backend's body shares to `es`.
    pub fn push_shared_entries(&self, es: &mut Vec<(String, JsonValue)>)
        ensures
            entries_view(final(es)@) == add_shared(entries_view(old(es)@), self@),
    {
        let mut msgs: Vec<JsonValue> = Vec::new();
        let mut i: usize = 0;
        while i < self.messages.len()
            invariant
                i <= self.messages@.len(),
                msgs@.len() == i,
                forall|k: int| 0 <= k < i ==> (#[trigger] msgs@[k])@ == message_json(self.messages@[k]@),
            decreases self.messages@.len() - i,
        {
            msgs.push(self.messages[i].to_json());
            i = i + 1;
        }
        let msgs = array(msgs);
        assert(msgs@->Array_0 =~= self@.messages.map_values(|m: MessageView| message_json(m)));
        let ghost start = entries_view(es@);
        push_entry(es, "messages", msgs);
        push_entry(es, "max_tokens", JsonValue::Number(decimal_text(self.max_tokens as u64)));
        assert(entries_view(es@) =~= start + seq![
            ("messages"@, JsonView::Array(self@.messages.map_values(|m: MessageView| message_json(m)))),
            ("max_tokens"@, JsonView::Number(decimal(self.max_tokens as nat))),
        ]);
        let m = match &self.metadata {
            Some(m) => Some(m.to_json()),
            None => None,
        };
        push_opt(es, "metadata", m);
        let v = match &self.stop_sequences {
            Some(v) => Some(texts_to_json(v)),
            None => None,
        };
        push_opt(es, "stop_sequences", v);
        let c = match &self.system {
            Some(c) => Some(c.to_json()),
            None => None,
        };
        push_opt(es, "system", c);
        let t = match &self.temperature {
            Some(t) => Some(JsonValue::Number(t.clone())),
            None => None,
        };
        push_opt(es, "temperature", t);
        let tc = match &self.tool_choice {
            Some(tc) => Some(tc.to_json()),
            None => None,
        };
        push_opt(es, "tool_choice", tc);
        let tools = match &self.tools {
            Some(v) => {
                let mut out: Vec<JsonValue> = Vec::new();
                let mut i: usize = 0;
                while i < v.len()
                    invariant
                        i <= v@.len(),
                        out@.len() == i,
                        forall|k: int| 0 <= k < i ==> (#[trigger] out@[k])@ == tool_json(v@[k]@),
                    decreases v@.len() - i,
                {
                    out.push(v[i].to_json());
                    i = i + 1;
                }
                let a = array(out);
                assert(a@->Array_0 =~= tools_view(v@).map_values(|t: ToolView| tool_json(t)));
                Some(a)
            },
            None => None,
        };
        push_opt(es, "tools", tools);
        let k = match self.top_k {
            Some(k) => Some(JsonValue::Number(decimal_text(k as u64))),
            None => None,
        };
        push_opt(es, "top_k", k);
        let p = match &self.top_p {
            Some(p) => Some(JsonValue::Number(p.clone())),
            None => None,
        };
        push_opt(es, "top_p", p);
    }
}

impl CreateMessageRequestWithStream {
    /// The direct backend's body for this request, or a validation error
    /// naming `messages` when the request holds a streamed fragment.
    pub fn to_json(&self) -> (r: Result<JsonValue, ClientError>)
        ensures
            match r {
                Ok(j) => submittable(self.create_message_request@) && j@ == direct_body(
                    self.create_message_request@,
                    self.stream,
                ),
                Err(e) => !submittable(self.create_message_request@) && e@ == ClientErrorView::Validation("messages"@),
            },
    {
        let req = &self.create_message_request;
        if !req.is_submittable() {
            return Err(ClientError::Validation(String::from_str("messages")));
        }
        let mut es: Vec<(String, JsonValue)> = Vec::new();
        assert(entries_view(es@) =~= Seq::empty());
        push_entry(&mut es, "model", JsonValue::Str(req.model.clone()));
        req.push_shared_entries(&mut es);
        push_entry(&mut es, "stream", JsonValue::Bool(self.stream));
        Ok(object(es))
    }
}


// ----- the builder -----

/// Accumulates the fields of a request; only `build` can fail.
pub struct CreateMessageRequestBuilder {
    model: Option<String>,
    messages: Option<Vec<Message>>,
    max_tokens: Option<u32>,
    metadata: Option<Metadata>,
    stop_sequences: Option<Vec<String>>,
    system: Option<String>,
    temperature: Option<String>,
    tool_choice: Option<ToolChoice>,
    tools: Option<Vec<Tool>>,
    top_k: Option<u32>,
    top_p: Option<String>,
}

/// The fields a builder has gathered so far.
pub struct BuilderView {
    pub model: Option<Seq<char>>,
    pub messages: Option<Seq<MessageView>>,
    pub max_tokens: Option<u32>,
    pub metadata: Option<Option<Seq<char>>>,
    pub stop_sequences: Option<Seq<Seq<char>>>,
    pub system: Option<Seq<char>>,
    pub temperature: Option<Seq<char>>,
    pub tool_choice: Option<ToolChoiceView>,
    pub tools: Option<Seq<ToolView>>,
    pub top_k: Option<u32>,
    pub top_p: Option<Seq<char>>,
}

impl View for CreateMessageRequestBuilder {
    type V = BuilderView;

    closed spec fn view(&self) -> BuilderView {
        BuilderView {
            model: opt_text(self.model),
            messages: match self.messages {
                Some(v) => Some(messages_view(v@)),
                None => None,
            },
            max_tokens: self.max_tokens,
            metadata: match self.metadata {
                Some(m) => Some(opt_text(m.user_id)),
                None => None,
            },
            stop_sequences: match self.stop_sequences {
                Some(v) => Some(texts_view(v@)),
                None => None,
            },
            system: opt_text(self.system),
            temperature: opt_text(self.temperature),
            tool_choice: match self.tool_choice {
                Some(c) => Some(c@),
                None => None,
            },
            tools: match self.tools {
                Some(v) => Some(tools_view(v@)),
                None => None,
            },
            top_k: self.top_k,
            top_p: opt_text(self.top_p),
        }
    }
}

/// The name of the first mandatory field a builder lacks or holds an
/// invalid value in, if any: a model must be given, the messages must be
/// given and not be empty, and `max_tokens` must be given and above zero.
pub open spec fn first_invalid(b: BuilderView) -> Option<Seq<char>> {
    if b.model is None {
        Some("model"@)
    } else if b.messages is None || b.messages->Some_0.len() == 0 {
        Some("messages"@)
    } else if b.max_tokens is None || b.max_tokens->Some_0 == 0 {
        Some("max_tokens"@)
    } else {
        None
    }
}

/// The request a builder whose mandatory fields are all valid makes: the
/// fields as given, a system prompt as single text content.
pub open spec fn built(b: BuilderView) -> RequestView {
    RequestView {
        model: b.model->Some_0,
        messages: b.messages->Some_0,
        max_tokens: b.max_tokens->Some_0,
        metadata: b.metadata,
        stop_sequences: b.stop_sequences,
        system: match b.system {
            Some(s) => Some(ContentView::Single(s)),
            None => None,
        },
        temperature: b.temperature,
        tool_choice: b.tool_choice,
        tools: b.tools,
        top_k: b.top_k,
        top_p: b.top_p,
    }
}

impl CreateMessageRequestBuilder {
    /// Whether no field is set.
    pub open spec fn is_empty(&self) -> bool {
        self@ == BuilderView {
            model: None,
            messages: None,
            max_tokens: None,
            metadata: None,
            stop_sequences: None,
            system: None,
            temperature: None,
            tool_choice: None,
            tools: None,
            top_k: None,
            top_p: None,
        }
    }

    pub fn model(self, model: String) -> (r: Self)
        ensures
            r@ == (BuilderView { model: Some(model@), ..self@ }),
    {
        CreateMessageRequestBuilder { model: Some(model), ..self }
    }

    pub fn messages(self, messages: Vec<Message>) -> (r: Self)
        ensures
            r@ == (BuilderView { messages: Some(messages_view(messages@)), ..self@ }),
    {
        CreateMessageRequestBuilder { messages: Some(messages), ..self }
    }

    pub fn max_tokens(self, max_tokens: u32) -> (r: Self)
        ensures
            r@ == (BuilderView { max_tokens: Some(max_tokens), ..self@ }),
    {
        CreateMessageRequestBuilder { max_tokens: Some(max_tokens), ..self }
    }

    pub fn metadata(self, metadata: Metadata) -> (r: Self)
        ensures
            r@ == (BuilderView { metadata: Some(opt_text(metadata.user_id)), ..self@ }),
    {
        CreateMessageRequestBuilder { metadata: Some(metadata), ..self }
    }

    pub fn stop_sequences(self, stop_sequences: Vec<String>) -> (r: Self)
        ensures
            r@ == (BuilderView { stop_sequences: Some(texts_view(stop_sequences@)), ..self@ }),
    {
        CreateMessageRequestBuilder { stop_sequences: Some(stop_sequences), ..self }
    }

    pub fn system(self, system: String) -> (r: Self)
        ensures
            r@ == (BuilderView { system: Some(system@), ..self@ }),
    {
        CreateMessageRequestBuilder { system: Some(system), ..self }
    }

    /// Sets the sampling temperature, given as decimal text.
    pub fn temperature(self, temperature: String) -> (r: Self)
        ensures
            r@ == (BuilderView { temperature: Some(temperature@), ..self@ }),
    {
        CreateMessageRequestBuilder { temperature: Some(temperature), ..self }
    }

    pub fn tool_choice(self, tool_choice: ToolChoice) -> (r: Self)
        ensures
            r@ == (BuilderView { tool_choice: Some(tool_choice@), ..self@ }),
    {
        CreateMessageRequestBuilder { tool_choice: Some(tool_choice), ..self }
    }

    pub fn tools(self, tools: Vec<Tool>) -> (r: Self)
        ensures
            r@ == (BuilderView { tools: Some(tools_view(tools@)), ..self@ }),
    {
        CreateMessageRequestBuilder { tools: Some(tools), ..self }
    }

    pub fn top_k(self, top_k: u32) -> (r: Self)
        ensures
            r@ == (BuilderView { top_k: Some(top_k), ..self@ }),
    {
        CreateMessageRequestBuilder { top_k: Some(top_k), ..self }
    }

    /// Sets nucleus sampling, given as decimal text.
    pub fn top_p(self, top_p: String) -> (r: Self)
        ensures
            r@ == (BuilderView { top_p: Some(top_p@), ..self@ }),
    {
        CreateMessageRequestBuilder { top_p: Some(top_p), ..self }
    }

    /// The request, or a validation error naming the first mandatory field
    /// (`model`, `messages`, `max_tokens`) that was never set or is invalid
    /// (no messages, or zero tokens). Nothing else happens: no request is
    /// sent.
    pub fn build(self) -> (r: Result<CreateMessageRequest, ClientError>)
        ensures
            match first_invalid(self@) {
                Some(name) => r matches Err(e) && e@ == ClientErrorView::Validation(name),
                None => r matches Ok(req) && req@ == built(self@),
            },
    {
        let ghost b = self@;
        let model = match self.model {
            Some(m) => m,
            None => return Err(ClientError::Validation(String::from_str("model"))),
        };
        let messages = match self.messages {
            Some(m) => m,
            None => return Err(ClientError::Validation(String::from_str("messages"))),
        };
        if messages.len() == 0 {
            return Err(ClientError::Validation(String::from_str("messages")));
        }
        let max_tokens = match self.max_tokens {
            Some(m) => m,
            None => return Err(ClientError::Validation(String::from_str("max_tokens"))),
        };
        if max_tokens == 0 {
            return Err(ClientError::Validation(String::from_str("max_tokens")));
        }
        let system = match self.system {
            Some(s) => Some(Content::Single(s)),
            None => None,
        };
        Ok(
            CreateMessageRequest {
                model,
                messages,
                max_tokens,
                metadata: self.metadata,
                stop_sequences: self.stop_sequences,
                system,
                temperature: self.temperature,
                tool_choice: self.tool_choice,
                tools: self.tools,
                top_k: self.top_k,
                top_p: self.top_p,
            },
        )
    }
}


// ----- header lists -----

/// A header list: names and values, in order.
pub open spec fn headers_view(h: Seq<(String, String)>) -> Seq<(Seq<char>, Seq<char>)> {
    Seq::new(h.len(), |i: int| (h[i].0@, h[i].1@))
}

/// Adds a header at the end of `h`.
pub fn push_header(h: &mut Vec<(String, String)>, name: &str, value: &str)
    ensures
        headers_view(final(h)@) == headers_view(old(h)@).push((name@, value@)),
{
    h.push((String::from_str(name), String::from_str(value)));
    assert(headers_view(h@) =~= headers_view(old(h)@).push((name@, value@)));
}

/// The header that marks a streaming request, when it is one.
pub open spec fn stream_marker(stream: bool) -> Seq<(Seq<char>, Seq<char>)> {
    if stream {
        seq![("X-Stainless-Helper-Method"@, "stream"@)]
    } else {
        Seq::empty()
    }
}

/// Starts a header list with the streaming marker, when the request streams.
pub fn stream_headers(stream: bool) -> (r: Vec<(String, String)>)
    ensures
        headers_view(r@) == stream_marker(stream),
{
    let mut h: Vec<(String, String)> = Vec::new();
    assert(headers_view(h@) =~= Seq::empty());
    if stream {
        push_header(&mut h, "X-Stainless-Helper-Method", "stream");
        assert(headers_view(h@) =~= stream_marker(stream));
    }
    h
}


// ----- reading a submitted request -----

pub open spec fn all_texts(items: Seq<JsonView>) -> bool {
    forall|i: int| 0 <= i < items.len() ==> (#[trigger] items[i]) is Str
}

pub open spec fn all_tools(items: Seq<JsonView>) -> bool {
    forall|i: int| 0 <= i < items.len() ==> (#[trigger] tool_of_json(items[i])) is Some
}

pub open spec fn all_messages(items: Seq<JsonView>) -> bool {
    forall|i: int| 0 <= i < items.len() ==> (#[trigger] message_of_json(items[i])) is Some
}

pub open spec fn texts_of_json(j: JsonView) -> Option<Seq<Seq<char>>> {
    match j {
        JsonView::Array(items) => if all_texts(items) {
            Some(items.map_values(|x: JsonView| x->Str_0))
        } else {
            None
        },
        _ => None,
    }
}

pub open spec fn number_text_of_json(j: JsonView) -> Option<Seq<char>> {
    match j {
        JsonView::Number(t) => Some(t),
        _ => None,
    }
}

pub open spec fn metadata_of_json(j: JsonView) -> Option<Option<Seq<char>>> {
    match j {
        JsonView::Object(_) => optional_member(j, "user_id"@, |x: JsonView| str_of_json(x)),
        _ => None,
    }
}

pub open spec fn tool_choice_of_json(j: JsonView) -> Option<ToolChoiceView> {
    match str_field(j, "type"@) {
        Some(t) => if t == "auto"@ {
            Some(ToolChoiceView::Auto)
        } else if t == "any"@ {
            Some(ToolChoiceView::Any)
        } else if t == "tool"@ {
            match str_field(j, "name"@) {
                Some(name) => Some(ToolChoiceView::Tool { name }),
                None => None,
            }
        } else {
            None
        },
        None => None,
    }
}

pub open spec fn tool_of_json(j: JsonView) -> Option<ToolView> {
    match (
        optional_member(j, "description"@, |x: JsonView| str_of_json(x)),
        str_field(j, "name"@),
        field(j, "input_schema"@),
    ) {
        (Some(description), Some(name), Some(schema)) => match (
            str_field(schema, "type"@),
            field(schema, "properties"@),
            field(schema, "required"@),
        ) {
            (Some(schema_kind), Some(properties), Some(req)) => match texts_of_json(req) {
                Some(required) => Some(ToolView { description, name, schema_kind, properties, required }),
                None => None,
            },
            _ => None,
        },
        _ => None,
    }
}

pub open spec fn tools_of_json(j: JsonView) -> Option<Seq<ToolView>> {
    match j {
        JsonView::Array(items) => if all_tools(items) {
            Some(items.map_values(|x: JsonView| tool_of_json(x)->Some_0))
        } else {
            None
        },
        _ => None,
    }
}

pub open spec fn messages_of_json(j: JsonView) -> Option<Seq<MessageView>> {
    match j {
        JsonView::Array(items) => if all_messages(items) {
            Some(items.map_values(|x: JsonView| message_of_json(x)->Some_0))
        } else {
            None
        },
        _ => None,
    }
}

/// The system prompt of a submitted request: absent, null or an empty
/// string all mean no system prompt.
pub open spec fn system_of_json(j: JsonView) -> Option<Option<ContentView>> {
    match field(j, "system"@) {
        None => Some(None),
        Some(x) => optional_content_of_json(x),
    }
}

/// The turns of a submitted request: there must be at least one.
pub open spec fn turns_of_json(j: JsonView) -> Option<Seq<MessageView>> {
    match messages_of_json(j) {
        Some(v) => if v.len() > 0 {
            Some(v)
        } else {
            None
        },
        None => None,
    }
}

/// The token limit of a submitted request: a whole number above zero.
pub open spec fn token_limit_of_json(j: JsonView) -> Option<u32> {
    match u32_of_json(j) {
        Some(n) => if n > 0 {
            Some(n)
        } else {
            None
        },
        None => None,
    }
}

/// A submitted request, as the wire carries it; members not named here are
/// ignored. It must have a model, at least one turn, and a token limit
/// above zero.
pub open spec fn request_of_json(j: JsonView) -> Option<RequestView> {
    match (str_field(j, "model"@), field(j, "messages"@), field(j, "max_tokens"@)) {
        (Some(model), Some(ms), Some(mt)) => match (turns_of_json(ms), token_limit_of_json(mt)) {
            (Some(messages), Some(max_tokens)) => match (
                optional_member(j, "metadata"@, |x: JsonView| metadata_of_json(x)),
                optional_member(j, "stop_sequences"@, |x: JsonView| texts_of_json(x)),
                system_of_json(j),
                optional_member(j, "temperature"@, |x: JsonView| number_text_of_json(x)),
                optional_member(j, "tool_choice"@, |x: JsonView| tool_choice_of_json(x)),
                optional_member(j, "tools"@, |x: JsonView| tools_of_json(x)),
                optional_member(j, "top_k"@, |x: JsonView| u32_of_json(x)),
                optional_member(j, "top_p"@, |x: JsonView| number_text_of_json(x)),
            ) {
                (
                    Some(metadata),
                    Some(stop_sequences),
                    Some(system),
                    Some(temperature),
                    Some(tool_choice),
                    Some(tools),
                    Some(top_k),
                    Some(top_p),
                ) => Some(
                    RequestView {
                        model,
                        messages,
                        max_tokens,
                        metadata,
                        stop_sequences,
                        system,
                        temperature,
                        tool_choice,
                        tools,
                        top_k,
                        top_p,
                    },
                ),
                _ => None,
            },
            _ => None,
        },
        _ => None,
    }
}

pub open spec fn bool_of_json(j: JsonView) -> Option<bool> {
    match j {
        JsonView::Bool(b) => Some(b),
        _ => None,
    }
}

fn texts_from_json(j: &JsonValue) -> (r: Option<Vec<String>>)
    ensures
        match r {
            Some(v) => texts_of_json(j@) == Some(texts_view(v@)),
            None => texts_of_json(j@) is None,
        },
{
    match j {
        JsonValue::Array(items) => {
            let ghost iv = j@->Array_0;
            let mut out: Vec<String> = Vec::new();
            let mut i: usize = 0;
            while i < items.len()
                invariant
                    i <= items@.len(),
                    j@ == JsonView::Array(iv),
                    iv.len() == items@.len(),
                    forall|k: int| 0 <= k < items@.len() ==> #[trigger] iv[k] == items@[k]@,
                    out@.len() == i,
                    forall|k: int| 0 <= k < i ==> (#[trigger] iv[k]) is Str && iv[k]->Str_0 == out@[k]@,
                decreases items@.len() - i,
            {
                match &items[i] {
                    JsonValue::Str(s) => out.push(s.clone()),
                    _ => {
                        assert(!(iv[i as int] is Str));
                        assert(!all_texts(iv));
                        return None;
                    },
                }
                i = i + 1;
            }
            assert(j@ == JsonView::Array(iv));
            assert(all_texts(iv));
            assert(texts_view(out@) =~= iv.map_values(|x: JsonView| x->Str_0));
            assert(texts_of_json(JsonView::Array(iv)) is Some);
            Some(out)
        },
        _ => None,
    }
}

impl ToolChoice {
    /// The choice a wire object denotes, if any.
    pub fn from_json(j: &JsonValue) -> (r: Option<ToolChoice>)
        ensures
            match r {
                Some(c) => tool_choice_of_json(j@) == Some(c@),
                None => tool_choice_of_json(j@) is None,
            },
    {
        let t = match get_str(j, "type") {
            Some(t) => t,
            None => return None,
        };
        if crate::json::text_is(t, "auto") {
            Some(ToolChoice { kind: ToolChoiceKind::Auto })
        } else if crate::json::text_is(t, "any") {
            Some(ToolChoice { kind: ToolChoiceKind::Any })
        } else if crate::json::text_is(t, "tool") {
            match get_str(j, "name") {
                Some(name) => Some(ToolChoice { kind: ToolChoiceKind::Tool { name: name.clone() } }),
                None => None,
            }
        } else {
            None
        }
    }
}

impl Tool {
    /// The tool a wire object denotes, if any.
    pub fn from_json(j: &JsonValue) -> (r: Option<Tool>)
        ensures
            match r {
                Some(t) => tool_of_json(j@) == Some(t@),
                None => tool_of_json(j@) is None,
            },
    {
        let description = match get(j, "description") {
            None => None,
            Some(JsonValue::Null) => None,
            Some(JsonValue::Str(d)) => Some(d.clone()),
            Some(_) => return None,
        };
        let (name, schema) = match (get_str(j, "name"), get(j, "input_schema")) {
            (Some(n), Some(s)) => (n, s),
            _ => return None,
        };
        match (get_str(schema, "type"), get(schema, "properties"), get(schema, "required")) {
            (Some(kind), Some(properties), Some(req)) => match texts_from_json(req) {
                Some(required) => Some(
                    Tool {
                        description,
                        name: name.clone(),
                        input_schema: ToolInputSchema {
                            kind: kind.clone(),
                            properties: copy_json(properties),
                            required,
                        },
                    },
                ),
                None => None,
            },
            _ => None,
        }
    }
}

impl CreateMessageRequest {
    /// The request a submitted wire object denotes, if any: `content` may be
    /// a bare string or an array of parts, and a system prompt that is
    /// absent, null or an empty string is no system prompt. A request with
    /// no turns or a zero token limit denotes none.
    pub fn from_json(j: &JsonValue) -> (r: Option<CreateMessageRequest>)
        ensures
            match r {
                Some(req) => request_of_json(j@) == Some(req@),
                None => request_of_json(j@) is None,
            },
    {
        let (model, ms, mt) = match (get_str(j, "model"), get(j, "messages"), get(j, "max_tokens")) {
            (Some(m), Some(ms), Some(mt)) => (m, ms, mt),
            _ => return None,
        };
        let messages = match messages_from_json(ms) {
            Some(v) => v,
            None => return None,
        };
        if messages.len() == 0 {
            return None;
        }
        let max_tokens = match u32_from_json(mt) {
            Some(n) => n,
            None => return None,
        };
        if max_tokens == 0 {
            return None;
        }
        let metadata = match metadata_member(j) {
            Ok(m) => m,
            Err(_) => return None,
        };
        let stop_sequences = match stop_sequences_member(j) {
            Ok(v) => v,
            Err(_) => return None,
        };
        let system = match system_member(j) {
            Ok(c) => c,
            Err(_) => return None,
        };
        let temperature = match number_member(j, "temperature") {
            Ok(t) => t,
            Err(_) => return None,
        };
        let tool_choice = match tool_choice_member(j) {
            Ok(c) => c,
            Err(_) => return None,
        };
        let tools = match tools_member(j) {
            Ok(t) => t,
            Err(_) => return None,
        };
        let top_k = match top_k_member(j) {
            Ok(k) => k,
            Err(_) => return None,
        };
        let top_p = match number_member(j, "top_p") {
            Ok(t) => t,
            Err(_) => return None,
        };
        Some(
            CreateMessageRequest {
                model: model.clone(),
                messages,
                max_tokens,
                metadata,
                stop_sequences,
                system,
                temperature,
                tool_choice,
                tools,
                top_k,
                top_p,
            },
        )
    }
}

fn messages_from_json(ms: &JsonValue) -> (r: Option<Vec<Message>>)
    ensures
        match r {
            Some(v) => messages_of_json(ms@) == Some(messages_view(v@)),
            None => messages_of_json(ms@) is None,
        },
{
    match ms {
        JsonValue::Array(items) => {
            let ghost iv = ms@->Array_0;
            let mut out: Vec<Message> = Vec::new();
            let mut i: usize = 0;
            while i < items.len()
                invariant
                    i <= items@.len(),
                    ms@ == JsonView::Array(iv),
                    iv.len() == items@.len(),
                    forall|k: int| 0 <= k < items@.len() ==> #[trigger] iv[k] == items@[k]@,
                    out@.len() == i,
                    forall|k: int| 0 <= k < i ==> (#[trigger] message_of_json(iv[k])) == Some(out@[k]@),
                decreases items@.len() - i,
            {
                match Message::from_json(&items[i]) {
                    Some(m) => out.push(m),
                    None => {
                        assert(message_of_json(iv[i as int]) is None);
                        assert(!all_messages(iv));
                        return None;
                    },
                }
                i = i + 1;
            }
            assert(ms@ == JsonView::Array(iv));
            assert(all_messages(iv));
            assert(messages_view(out@) =~= iv.map_values(|x: JsonView| message_of_json(x)->Some_0));
            Some(out)
        },
        _ => None,
    }
}

fn tools_from_json(x: &JsonValue) -> (r: Option<Vec<Tool>>)
    ensures
        match r {
            Some(v) => tools_of_json(x@) == Some(tools_view(v@)),
            None => tools_of_json(x@) is None,
        },
{
    match x {
        JsonValue::Array(items) => {
            let ghost iv = x@->Array_0;
            let mut out: Vec<Tool> = Vec::new();
            let mut i: usize = 0;
            while i < items.len()
                invariant
                    i <= items@.len(),
                    x@ == JsonView::Array(iv),
                    iv.len() == items@.len(),
                    forall|k: int| 0 <= k < items@.len() ==> #[trigger] iv[k] == items@[k]@,
                    out@.len() == i,
                    forall|k: int| 0 <= k < i ==> (#[trigger] tool_of_json(iv[k])) == Some(out@[k]@),
                decreases items@.len() - i,
            {
                match Tool::from_json(&items[i]) {
                    Some(t) => out.push(t),
                    None => {
                        assert(tool_of_json(iv[i as int]) is None);
                        assert(!all_tools(iv));
                        return None;
                    },
                }
                i = i + 1;
            }
            assert(x@ == JsonView::Array(iv));
            assert(all_tools(iv));
            assert(tools_view(out@) =~= iv.map_values(|x: JsonView| tool_of_json(x)->Some_0));
            Some(out)
        },
        _ => None,
    }
}

fn metadata_member(j: &JsonValue) -> (r: Result<Option<Metadata>, ()>)
    ensures
        match r {
            Ok(Some(m)) => optional_member(j@, "metadata"@, |x: JsonView| metadata_of_json(x)) == Some(Some(opt_text(m.user_id))),
            Ok(None) => optional_member(j@, "metadata"@, |x: JsonView| metadata_of_json(x)) == Some(None::<Option<Seq<char>>>),
            Err(_) => optional_member(j@, "metadata"@, |x: JsonView| metadata_of_json(x)) is None,
        },
{
    match get(j, "metadata") {
        None => Ok(None),
        Some(JsonValue::Null) => Ok(None),
        Some(x) => match x {
            JsonValue::Object(_) => {
                let user_id = match get(x, "user_id") {
                    None => None,
                    Some(JsonValue::Null) => None,
                    Some(JsonValue::Str(u)) => Some(u.clone()),
                    Some(_) => return Err(()),
                };
                Ok(Some(Metadata { user_id }))
            },
            _ => Err(()),
        },
    }
}

fn stop_sequences_member(j: &JsonValue) -> (r: Result<Option<Vec<String>>, ()>)
    ensures
        match r {
            Ok(Some(v)) => optional_member(j@, "stop_sequences"@, |x: JsonView| texts_of_json(x)) == Some(Some(texts_view(v@))),
            Ok(None) => optional_member(j@, "stop_sequences"@, |x: JsonView| texts_of_json(x)) == Some(None::<Seq<Seq<char>>>),
            Err(_) => optional_member(j@, "stop_sequences"@, |x: JsonView| texts_of_json(x)) is None,
        },
{
    match get(j, "stop_sequences") {
        None => Ok(None),
        Some(JsonValue::Null) => Ok(None),
        Some(x) => match texts_from_json(x) {
            Some(v) => Ok(Some(v)),
            None => Err(()),
        },
    }
}

fn system_member(j: &JsonValue) -> (r: Result<Option<Content>, ()>)
    ensures
        match r {
            Ok(Some(c)) => system_of_json(j@) == Some(Some(c@)),
            Ok(None) => system_of_json(j@) == Some(None::<ContentView>),
            Err(_) => system_of_json(j@) is None,
        },
{
    match get(j, "system") {
        None => Ok(None),
        Some(x) => Content::optional_from_json(x),
    }
}

fn number_member(j: &JsonValue, key: &str) -> (r: Result<Option<String>, ()>)
    ensures
        match r {
            Ok(t) => optional_member(j@, key@, |x: JsonView| number_text_of_json(x)) == Some(opt_text(t)),
            Err(_) => optional_member(j@, key@, |x: JsonView| number_text_of_json(x)) is None,
        },
{
    match get(j, key) {
        None => Ok(None),
        Some(JsonValue::Null) => Ok(None),
        Some(JsonValue::Number(t)) => Ok(Some(t.clone())),
        Some(_) => Err(()),
    }
}

fn tool_choice_member(j: &JsonValue) -> (r: Result<Option<ToolChoice>, ()>)
    ensures
        match r {
            Ok(Some(c)) => optional_member(j@, "tool_choice"@, |x: JsonView| tool_choice_of_json(x)) == Some(Some(c@)),
            Ok(None) => optional_member(j@, "tool_choice"@, |x: JsonView| tool_choice_of_json(x)) == Some(None::<ToolChoiceView>),
            Err(_) => optional_member(j@, "tool_choice"@, |x: JsonView| tool_choice_of_json(x)) is None,
        },
{
    match get(j, "tool_choice") {
        None => Ok(None),
        Some(JsonValue::Null) => Ok(None),
        Some(x) => match ToolChoice::from_json(x) {
            Some(c) => Ok(Some(c)),
            None => Err(()),
        },
    }
}

fn tools_member(j: &JsonValue) -> (r: Result<Option<Vec<Tool>>, ()>)
    ensures
        match r {
            Ok(Some(v)) => optional_member(j@, "tools"@, |x: JsonView| tools_of_json(x)) == Some(Some(tools_view(v@))),
            Ok(None) => optional_member(j@, "tools"@, |x: JsonView| tools_of_json(x)) == Some(None::<Seq<ToolView>>),
            Err(_) => optional_member(j@, "tools"@, |x: JsonView| tools_of_json(x)) is None,
        },
{
    match get(j, "tools") {
        None => Ok(None),
        Some(JsonValue::Null) => Ok(None),
        Some(x) => match tools_from_json(x) {
            Some(v) => Ok(Some(v)),
            None => Err(()),
        },
    }
}

fn top_k_member(j: &JsonValue) -> (r: Result<Option<u32>, ()>)
    ensures
        match r {
            Ok(k) => optional_member(j@, "top_k"@, |x: JsonView| u32_of_json(x)) == Some(k),
            Err(_) => optional_member(j@, "top_k"@, |x: JsonView| u32_of_json(x)) is None,
        },
{
    match get(j, "top_k") {
        None => Ok(None),
        Some(JsonValue::Null) => Ok(None),
        Some(x) => match u32_from_json(x) {
            Some(k) => Ok(Some(k)),
            None => Err(()),
        },
    }
}

impl IncomingCreateMessageRequest {
    /// A submitted request and its stream flag, which may be left out or
    /// null.
    pub fn from_json(j: &JsonValue) -> (r: Option<IncomingCreateMessageRequest>)
        ensures
            match r {
                Some(x) => request_of_json(j@) == Some(x.create_message_request@) && optional_member(
                    j@,
                    "stream"@,
                    |v: JsonView| bool_of_json(v),
                ) == Some(x.stream),
                None => request_of_json(j@) is None || optional_member(
                    j@,
                    "stream"@,
                    |v: JsonView| bool_of_json(v),
                ) is None,
            },
    {
        let stream = match get(j, "stream") {
            None => None,
            Some(JsonValue::Null) => None,
            Some(JsonValue::Bool(b)) => Some(*b),
            Some(_) => return None,
        };
        match CreateMessageRequest::from_json(j) {
            Some(create_message_request) => Some(IncomingCreateMessageRequest { create_message_request, stream }),
            None => None,
        }
    }
}


// ----- a request read back -----

/// The lengths of the member names a request uses on the wire, and which of
/// those of equal length differ.
proof fn lemma_request_names()
    ensures
        "model"@.len() == 5,
        "messages"@.len() == 8,
        "max_tokens"@.len() == 10,
        "metadata"@.len() == 8,
        "stop_sequences"@.len() == 14,
        "system"@.len() == 6,
        "temperature"@.len() == 11,
        "tool_choice"@.len() == 11,
        "tools"@.len() == 5,
        "top_k"@.len() == 5,
        "top_p"@.len() == 5,
        "stream"@.len() == 6,
        "user_id"@.len() == 7,
        "type"@.len() == 4,
        "name"@.len() == 4,
        "auto"@.len() == 4,
        "any"@.len() == 3,
        "tool"@.len() == 4,
        "description"@.len() == 11,
        "input_schema"@.len() == 12,
        "properties"@.len() == 10,
        "required"@.len() == 8,
        "model"@ != "tools"@,
        "model"@ != "top_k"@,
        "model"@ != "top_p"@,
        "tools"@ != "top_k"@,
        "tools"@ != "top_p"@,
        "top_k"@ != "top_p"@,
        "messages"@ != "metadata"@,
        "system"@ != "stream"@,
        "temperature"@ != "tool_choice"@,
        "type"@ != "name"@,
        "auto"@ != "tool"@,
        "max_tokens"@ != "properties"@,
{
    reveal_strlit("model");
    reveal_strlit("messages");
    reveal_strlit("max_tokens");
    reveal_strlit("metadata");
    reveal_strlit("stop_sequences");
    reveal_strlit("system");
    reveal_strlit("temperature");
    reveal_strlit("tool_choice");
    reveal_strlit("tools");
    reveal_strlit("top_k");
    reveal_strlit("top_p");
    reveal_strlit("stream");
    reveal_strlit("user_id");
    reveal_strlit("type");
    reveal_strlit("name");
    reveal_strlit("auto");
    reveal_strlit("any");
    reveal_strlit("tool");
    reveal_strlit("description");
    reveal_strlit("input_schema");
    reveal_strlit("properties");
    reveal_strlit("required");
    assert("model"@[0] != "tools"@[0]);
    assert("model"@[0] != "top_k"@[0]);
    assert("model"@[0] != "top_p"@[0]);
    assert("tools"@[2] != "top_k"@[2]);
    assert("tools"@[2] != "top_p"@[2]);
    assert("top_k"@[4] != "top_p"@[4]);
    assert("messages"@[2] != "metadata"@[2]);
    assert("system"@[1] != "stream"@[1]);
    assert("temperature"@[1] != "tool_choice"@[1]);
    assert("type"@[0] != "name"@[0]);
    assert("auto"@[0] != "tool"@[0]);
    assert("max_tokens"@[0] != "properties"@[0]);
}

proof fn lemma_texts_round_trip(v: Seq<Seq<char>>)
    ensures
        texts_of_json(texts_json(v)) == Some(v),
{
    let items = v.map_values(|s: Seq<char>| JsonView::Str(s));
    assert(all_texts(items));
    assert(items.map_values(|x: JsonView| x->Str_0) =~= v);
}

proof fn lemma_u32_round_trip(k: u32)
    ensures
        u32_of_json(JsonView::Number(decimal(k as nat))) == Some(k),
{
    lemma_decimal_digits(k as nat);
}

proof fn lemma_metadata_round_trip(u: Option<Seq<char>>)
    ensures
        metadata_of_json(metadata_json(u)) == Some(u),
{
    lemma_request_names();
    lemma_lookup_with_opt(Seq::empty(), "user_id"@, match u {
        Some(x) => Some(JsonView::Str(x)),
        None => None,
    });
}

proof fn lemma_tool_choice_round_trip(c: ToolChoiceView)
    ensures
        tool_choice_of_json(tool_choice_json(c)) == Some(c),
{
    lemma_request_names();
    reveal_with_fuel(lookup, 3);
}

proof fn lemma_tool_round_trip(t: ToolView)
    ensures
        tool_of_json(tool_json(t)) == Some(t),
{
    lemma_request_names();
    let d = match t.description {
        Some(x) => Some(JsonView::Str(x)),
        None => None,
    };
    let first = with_opt(Seq::empty(), "description"@, d);
    lemma_lookup_with_opt(Seq::empty(), "description"@, d);
    lemma_lookup_push(first, ("name"@, JsonView::Str(t.name)));
    lemma_lookup_push(first.push(("name"@, JsonView::Str(t.name))), ("input_schema"@, schema_json(t)));
    assert(first + seq![("name"@, JsonView::Str(t.name)), ("input_schema"@, schema_json(t))] =~= first.push(
        ("name"@, JsonView::Str(t.name)),
    ).push(("input_schema"@, schema_json(t))));
    reveal_with_fuel(lookup, 4);
    lemma_texts_round_trip(t.required);
}

proof fn lemma_tools_round_trip(v: Seq<ToolView>)
    ensures
        tools_of_json(JsonView::Array(v.map_values(|t: ToolView| tool_json(t)))) == Some(v),
{
    let items = v.map_values(|t: ToolView| tool_json(t));
    assert forall|i: int| 0 <= i < items.len() implies (#[trigger] tool_of_json(items[i])) is Some by {
        lemma_tool_round_trip(v[i]);
    }
    assert forall|i: int| 0 <= i < v.len() implies tool_of_json(#[trigger] items[i])->Some_0 == v[i] by {
        lemma_tool_round_trip(v[i]);
    }
    assert(all_tools(items));
    assert(items.map_values(|x: JsonView| tool_of_json(x)->Some_0) =~= v);
}

proof fn lemma_messages_round_trip(v: Seq<MessageView>)
    requires
        forall|i: int| 0 <= i < v.len() ==> ((#[trigger] v[i]).content matches ContentView::Single(s) ==> s.len() > 0),
    ensures
        messages_of_json(JsonView::Array(v.map_values(|m: MessageView| message_json(m)))) == Some(v),
{
    let items = v.map_values(|m: MessageView| message_json(m));
    assert forall|i: int| 0 <= i < items.len() implies (#[trigger] message_of_json(items[i])) is Some by {
        lemma_message_round_trip(v[i]);
    }
    assert forall|i: int| 0 <= i < v.len() implies message_of_json(#[trigger] items[i])->Some_0 == v[i] by {
        lemma_message_round_trip(v[i]);
    }
    assert(all_messages(items));
    assert(items.map_values(|x: JsonView| message_of_json(x)->Some_0) =~= v);
}

/// The members of the direct backend's body, one by one.
#[verifier::rlimit(40)]
proof fn lemma_body_fields(r: RequestView, stream: bool)
    ensures
        field(direct_body(r, stream), "model"@) == Some(JsonView::Str(r.model)),
        field(direct_body(r, stream), "messages"@) == Some(
            JsonView::Array(r.messages.map_values(|x: MessageView| message_json(x))),
        ),
        field(direct_body(r, stream), "max_tokens"@) == Some(JsonView::Number(decimal(r.max_tokens as nat))),
        field(direct_body(r, stream), "metadata"@) == metadata_value(r),
        field(direct_body(r, stream), "stop_sequences"@) == stop_sequences_value(r),
        field(direct_body(r, stream), "system"@) == system_value(r),
        field(direct_body(r, stream), "temperature"@) == temperature_value(r),
        field(direct_body(r, stream), "tool_choice"@) == tool_choice_value(r),
        field(direct_body(r, stream), "tools"@) == tools_value(r),
        field(direct_body(r, stream), "top_k"@) == top_k_value(r),
        field(direct_body(r, stream), "top_p"@) == top_p_value(r),
        field(direct_body(r, stream), "stream"@) == Some(JsonView::Bool(stream)),
{
    lemma_request_names();
    let m = seq![("model"@, JsonView::Str(r.model))];
    let msgs = ("messages"@, JsonView::Array(r.messages.map_values(|x: MessageView| message_json(x))));
    let mt = ("max_tokens"@, JsonView::Number(decimal(r.max_tokens as nat)));
    let base = m + seq![msgs, mt];
    assert(base =~= m.push(msgs).push(mt));
    assert(m =~= Seq::<(Seq<char>, JsonView)>::empty().push(("model"@, JsonView::Str(r.model))));
    lemma_lookup_push(Seq::empty(), ("model"@, JsonView::Str(r.model)));
    lemma_lookup_push(m, msgs);
    lemma_lookup_push(m.push(msgs), mt);
    let a = with_opt(base, "metadata"@, metadata_value(r));
    let b = with_opt(a, "stop_sequences"@, stop_sequences_value(r));
    let c = with_opt(b, "system"@, system_value(r));
    let d = with_opt(c, "temperature"@, temperature_value(r));
    let e = with_opt(d, "tool_choice"@, tool_choice_value(r));
    let f = with_opt(e, "tools"@, tools_value(r));
    let g = with_opt(f, "top_k"@, top_k_value(r));
    let h = with_opt(g, "top_p"@, top_p_value(r));
    lemma_lookup_with_opt(base, "metadata"@, metadata_value(r));
    lemma_lookup_with_opt(a, "stop_sequences"@, stop_sequences_value(r));
    lemma_lookup_with_opt(b, "system"@, system_value(r));
    lemma_lookup_with_opt(c, "temperature"@, temperature_value(r));
    lemma_lookup_with_opt(d, "tool_choice"@, tool_choice_value(r));
    lemma_lookup_with_opt(e, "tools"@, tools_value(r));
    lemma_lookup_with_opt(f, "top_k"@, top_k_value(r));
    lemma_lookup_with_opt(g, "top_p"@, top_p_value(r));
    assert(h == add_shared(m, r));
    let all = h.push(("stream"@, JsonView::Bool(stream)));
    lemma_lookup_push(h, ("stream"@, JsonView::Bool(stream)));
    assert(lookup(base, "model"@) == Some(JsonView::Str(r.model)));
    assert(lookup(base, "messages"@) == Some(msgs.1));
    assert(lookup(base, "max_tokens"@) == Some(mt.1));
    assert(lookup(base, "metadata"@) is None);
    assert(lookup(a, "metadata"@) == metadata_value(r));
    assert(lookup(a, "stop_sequences"@) is None);
    assert(lookup(b, "stop_sequences"@) == stop_sequences_value(r));
    assert(lookup(b, "system"@) is None);
    assert(lookup(c, "system"@) == system_value(r));
    assert(lookup(c, "temperature"@) is None);
    assert(lookup(d, "temperature"@) == temperature_value(r));
    assert(lookup(d, "tool_choice"@) is None);
    assert(lookup(e, "tool_choice"@) == tool_choice_value(r));
    assert(lookup(e, "tools"@) is None);
    assert(lookup(f, "tools"@) == tools_value(r));
    assert(lookup(f, "top_k"@) is None);
    assert(lookup(g, "top_k"@) == top_k_value(r));
    assert(lookup(g, "top_p"@) is None);
    assert(lookup(h, "top_p"@) == top_p_value(r));
    assert(lookup(h, "stream"@) is None);
}

/// A valid request (at least one turn, a token limit above zero) written in
/// the direct backend's body and read back is the same request, with its
/// stream flag, provided no turn and no system prompt is an empty bare text
/// (which reads back as absent).
pub proof fn lemma_request_round_trip(r: RequestView, stream: bool)
    requires
        r.messages.len() > 0,
        r.max_tokens > 0,
        forall|i: int| 0 <= i < r.messages.len() ==> ((#[trigger] r.messages[i]).content matches ContentView::Single(s) ==> s.len() > 0),
        r.system matches Some(ContentView::Single(s)) ==> s.len() > 0,
    ensures
        request_of_json(direct_body(r, stream)) == Some(r),
        optional_member(direct_body(r, stream), "stream"@, |v: JsonView| bool_of_json(v)) == Some(Some(stream)),
{
    lemma_body_fields(r, stream);
    lemma_request_names();
    lemma_messages_round_trip(r.messages);
    lemma_u32_round_trip(r.max_tokens);
    if let Some(u) = r.metadata {
        lemma_metadata_round_trip(u);
    }
    if let Some(v) = r.stop_sequences {
        lemma_texts_round_trip(v);
    }
    if let Some(x) = r.system {
        lemma_content_reads_back(x);
    }
    if let Some(t) = r.tool_choice {
        lemma_tool_choice_round_trip(t);
    }
    if let Some(v) = r.tools {
        lemma_tools_round_trip(v);
    }
    if let Some(k) = r.top_k {
        lemma_u32_round_trip(k);
    }
}

} // verus!
