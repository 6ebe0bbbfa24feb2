use vstd::prelude::*;

use crate::json::{
    array, copy_json, digits_value, field, get, get_str, is_digits, object, parse_u64, str_field,
    text, text_is, JsonValue, JsonView,
};

verus! {

/// Who speaks in a turn of the conversation.
#[derive(Clone, Copy, Debug, PartialEq, Eq, Structural)]
pub enum Role {
    User,
    Assistant,
}

/// The kind of picture an image part carries.
#[derive(Clone, Copy, Debug, PartialEq, Eq, Structural)]
pub enum MediaType {
    ImageJpeg,
    ImagePng,
    ImageGif,
    ImageWebp,
}

/// Where an image comes from: its encoding kind, its media type and its
/// base64 payload.
#[derive(Debug)]
pub struct ImageSource {
    pub kind: String,
    pub media_type: MediaType,
    pub data: String,
}

/// One piece of content within a turn, or a streamed fragment of one.
#[derive(Debug)]
pub enum ContentPart {
    Text { text: String },
    TextDelta { text: String },
    Image { source: ImageSource },
    ToolResult { tool_use_id: String, content: String },
    ToolUse { id: String, name: String, input: JsonValue },
    InputJsonDelta { partial_json: String },
}

/// The content of a turn: one bare text, or a list of parts.
#[derive(Debug)]
pub enum Content {
    Single(String),
    Multi(Vec<ContentPart>),
}

/// One turn of the conversation.
#[derive(Debug)]
pub struct Message {
    pub role: Role,
    pub content: Content,
}

pub struct ImageSourceView {
    pub kind: Seq<char>,
    pub media_type: MediaType,
    pub data: Seq<char>,
}

pub enum PartView {
    Text { text: Seq<char> },
    TextDelta { text: Seq<char> },
    Image { source: ImageSourceView },
    ToolResult { tool_use_id: Seq<char>, content: Seq<char> },
    ToolUse { id: Seq<char>, name: Seq<char>, input: JsonView },
    InputJsonDelta { partial_json: Seq<char> },
}

pub enum ContentView {
    Single(Seq<char>),
    Multi(Seq<PartView>),
}

pub struct MessageView {
    pub role: Role,
    pub content: ContentView,
}

impl View for ImageSource {
    type V = ImageSourceView;

    open spec fn view(&self) -> ImageSourceView {
        ImageSourceView { kind: self.kind@, media_type: self.media_type, data: self.data@ }
    }
}

impl View for ContentPart {
    type V = PartView;

    open spec fn view(&self) -> PartView {
        match self {
            ContentPart::Text { text } => PartView::Text { text: text@ },
            ContentPart::TextDelta { text } => PartView::TextDelta { text: text@ },
            ContentPart::Image { source } => PartView::Image { source: source@ },
            ContentPart::ToolResult { tool_use_id, content } => PartView::ToolResult {
                tool_use_id: tool_use_id@,
                content: content@,
            },
            ContentPart::ToolUse { id, name, input } => PartView::ToolUse {
                id: id@,
                name: name@,
                input: input@,
            },
            ContentPart::InputJsonDelta { partial_json } => PartView::InputJsonDelta {
                partial_json: partial_json@,
            },
        }
    }
}

pub open spec fn parts_view(parts: Seq<ContentPart>) -> Seq<PartView> {
    Seq::new(parts.len(), |i: int| parts[i]@)
}

impl View for Content {
    type V = ContentView;

    open spec fn view(&self) -> ContentView {
        match self {
            Content::Single(s) => ContentView::Single(s@),
            Content::Multi(parts) => ContentView::Multi(parts_view(parts@)),
        }
    }
}

impl View for Message {
    type V = MessageView;

    open spec fn view(&self) -> MessageView {
        MessageView { role: self.role, content: self.content@ }
    }
}

// ----- wire names -----

pub open spec fn role_name(r: Role) -> Seq<char> {
    match r {
        Role::User => "user"@,
        Role::Assistant => "assistant"@,
    }
}

pub open spec fn role_of_name(t: Seq<char>) -> Option<Role> {
    if t == "user"@ {
        Some(Role::User)
    } else if t == "assistant"@ {
        Some(Role::Assistant)
    } else {
        None
    }
}

pub open spec fn media_type_name(m: MediaType) -> Seq<char> {
    match m {
        MediaType::ImageJpeg => "image/jpeg"@,
        MediaType::ImagePng => "image/png"@,
        MediaType::ImageGif => "image/gif"@,
        MediaType::ImageWebp => "image/webp"@,
    }
}

pub open spec fn media_type_of_name(t: Seq<char>) -> Option<MediaType> {
    if t == "image/jpeg"@ {
        Some(MediaType::ImageJpeg)
    } else if t == "image/png"@ {
        Some(MediaType::ImagePng)
    } else if t == "image/gif"@ {
        Some(MediaType::ImageGif)
    } else if t == "image/webp"@ {
        Some(MediaType::ImageWebp)
    } else {
        None
    }
}

impl Role {
    /// The name of the role on the wire.
    pub fn wire_name(&self) -> (r: &'static str)
        ensures
            r@ == role_name(*self),
    {
        match self {
            Role::User => "user",
            Role::Assistant => "assistant",
        }
    }

    /// The role a wire name stands for.
    pub fn from_wire_name(t: &String) -> (r: Option<Role>)
        ensures
            r == role_of_name(t@),
    {
        if text_is(t, "user") {
            Some(Role::User)
        } else if text_is(t, "assistant") {
            Some(Role::Assistant)
        } else {
            None
        }
    }

    /// The role's name as it is shown to people.
    pub fn display_name(&self) -> (r: String)
        ensures
            r@ == (match *self {
                Role::User => "User"@,
                Role::Assistant => "Assistant"@,
            }),
    {
        match self {
            Role::User => String::from_str("User"),
            Role::Assistant => String::from_str("Assistant"),
        }
    }
}

impl MediaType {
    /// The media type's name on the wire.
    pub fn wire_name(&self) -> (r: &'static str)
        ensures
            r@ == media_type_name(*self),
    {
        match self {
            MediaType::ImageJpeg => "image/jpeg",
            MediaType::ImagePng => "image/png",
            MediaType::ImageGif => "image/gif",
            MediaType::ImageWebp => "image/webp",
        }
    }

    /// The media type a wire name stands for.
    pub fn from_wire_name(t: &String) -> (r: Option<MediaType>)
        ensures
            r == media_type_of_name(t@),
    {
        if text_is(t, "image/jpeg") {
            Some(MediaType::ImageJpeg)
        } else if text_is(t, "image/png") {
            Some(MediaType::ImagePng)
        } else if text_is(t, "image/gif") {
            Some(MediaType::ImageGif)
        } else if text_is(t, "image/webp") {
            Some(MediaType::ImageWebp)
        } else {
            None
        }
    }
}

// ----- content parts on the wire -----

pub open spec fn str_entry(key: Seq<char>, value: Seq<char>) -> (Seq<char>, JsonView) {
    (key, JsonView::Str(value))
}

pub open spec fn image_source_json(s: ImageSourceView) -> JsonView {
    JsonView::Object(
        seq![
            str_entry("type"@, s.kind),
            str_entry("media_type"@, media_type_name(s.media_type)),
            str_entry("data"@, s.data),
        ],
    )
}

pub open spec fn image_source_of_json(j: JsonView) -> Option<ImageSourceView> {
    match (str_field(j, "type"@), str_field(j, "media_type"@), str_field(j, "data"@)) {
        (Some(kind), Some(m), Some(data)) => match media_type_of_name(m) {
            Some(media_type) => Some(ImageSourceView { kind, media_type, data }),
            None => None,
        },
        _ => None,
    }
}

/// A content part as the wire carries it: an object tagged by `type`.
pub open spec fn part_json(p: PartView) -> JsonView {
    match p {
        PartView::Text { text } => JsonView::Object(
            seq![str_entry("type"@, "text"@), str_entry("text"@, text)],
        ),
        PartView::TextDelta { text } => JsonView::Object(
            seq![str_entry("type"@, "text_delta"@), str_entry("text"@, text)],
        ),
        PartView::Image { source } => JsonView::Object(
            seq![str_entry("type"@, "image"@), ("source"@, image_source_json(source))],
        ),
        PartView::ToolResult { tool_use_id, content } => JsonView::Object(
            seq![
                str_entry("type"@, "tool_result"@),
                str_entry("tool_use_id"@, tool_use_id),
                str_entry("content"@, content),
            ],
        ),
        PartView::ToolUse { id, name, input } => JsonView::Object(
            seq![
                str_entry("type"@, "tool_use"@),
                str_entry("id"@, id),
                str_entry("name"@, name),
                ("input"@, input),
            ],
        ),
        PartView::InputJsonDelta { partial_json } => JsonView::Object(
            seq![str_entry("type"@, "input_json_delta"@), str_entry("partial_json"@, partial_json)],
        ),
    }
}

/// The content part that a wire object denotes, if any: its `type` picks the
/// variant, whose members must all be there; other members are ignored.
pub open spec fn part_of_json(j: JsonView) -> Option<PartView> {
    match str_field(j, "type"@) {
        Some(tag) => if tag == "text"@ {
            match str_field(j, "text"@) {
                Some(text) => Some(PartView::Text { text }),
                None => None,
            }
        } else if tag == "text_delta"@ {
            match str_field(j, "text"@) {
                Some(text) => Some(PartView::TextDelta { text }),
                None => None,
            }
        } else if tag == "image"@ {
            match field(j, "source"@) {
                Some(s) => match image_source_of_json(s) {
                    Some(source) => Some(PartView::Image { source }),
                    None => None,
                },
                None => None,
            }
        } else if tag == "tool_result"@ {
            match (str_field(j, "tool_use_id"@), str_field(j, "content"@)) {
                (Some(tool_use_id), Some(content)) => Some(
                    PartView::ToolResult { tool_use_id, content },
                ),
                _ => None,
            }
        } else if tag == "tool_use"@ {
            match (str_field(j, "id"@), str_field(j, "name"@), field(j, "input"@)) {
                (Some(id), Some(name), Some(input)) => Some(PartView::ToolUse { id, name, input }),
                _ => None,
            }
        } else if tag == "input_json_delta"@ {
            match str_field(j, "partial_json"@) {
                Some(partial_json) => Some(PartView::InputJsonDelta { partial_json }),
                None => None,
            }
        } else {
            None
        },
        None => None,
    }
}

fn str_pair(key: &str, value: &String) -> (r: (String, JsonValue))
    ensures
        r.0@ == key@,
        r.1@ == JsonView::Str(value@),
{
    (String::from_str(key), JsonValue::Str(value.clone()))
}

fn lit_pair(key: &str, value: &str) -> (r: (String, JsonValue))
    ensures
        r.0@ == key@,
        r.1@ == JsonView::Str(value@),
{
    (String::from_str(key), text(value))
}

impl ImageSource {
    /// This source as the wire carries it.
    pub fn to_json(&self) -> (r: JsonValue)
        ensures
            r@ == image_source_json(self@),
    {
        let es = vec![
            str_pair("type", &self.kind),
            lit_pair("media_type", self.media_type.wire_name()),
            str_pair("data", &self.data),
        ];
        let r = object(es);
        assert(r@->Object_0 =~= image_source_json(self@)->Object_0);
        r
    }

    /// The source that a wire object denotes, if any.
    pub fn from_json(j: &JsonValue) -> (r: Option<ImageSource>)
        ensures
            match r {
                Some(s) => image_source_of_json(j@) == Some(s@),
                None => image_source_of_json(j@) is None,
            },
    {
        match (get_str(j, "type"), get_str(j, "media_type"), get_str(j, "data")) {
            (Some(kind), Some(m), Some(data)) => match MediaType::from_wire_name(m) {
                Some(media_type) => Some(
                    ImageSource { kind: kind.clone(), media_type, data: data.clone() },
                ),
                None => None,
            },
            _ => None,
        }
    }
}

impl ContentPart {
    /// A text part.
    pub fn text(s: &str) -> (r: ContentPart)
        ensures
            r@ == (PartView::Text { text: s@ }),
    {
        ContentPart::Text { text: String::from_str(s) }
    }

    /// This part as the wire carries it.
    pub fn to_json(&self) -> (r: JsonValue)
        ensures
            r@ == part_json(self@),
    {
        let es = match self {
            ContentPart::Text { text } => vec![lit_pair("type", "text"), str_pair("text", text)],
            ContentPart::TextDelta { text } => vec![
                lit_pair("type", "text_delta"),
                str_pair("text", text),
            ],
            ContentPart::Image { source } => vec![
                lit_pair("type", "image"),
                (String::from_str("source"), source.to_json()),
            ],
            ContentPart::ToolResult { tool_use_id, content } => vec![
                lit_pair("type", "tool_result"),
                str_pair("tool_use_id", tool_use_id),
                str_pair("content", content),
            ],
            ContentPart::ToolUse { id, name, input } => vec![
                lit_pair("type", "tool_use"),
                str_pair("id", id),
                str_pair("name", name),
                (String::from_str("input"), copy_json(input)),
            ],
            ContentPart::InputJsonDelta { partial_json } => vec![
                lit_pair("type", "input_json_delta"),
                str_pair("partial_json", partial_json),
            ],
        };
        let r = object(es);
        assert(r@->Object_0 =~= part_json(self@)->Object_0);
        r
    }

    /// The part that a wire object denotes, if any.
    pub fn from_json(j: &JsonValue) -> (r: Option<ContentPart>)
        ensures
            match r {
                Some(p) => part_of_json(j@) == Some(p@),
                None => part_of_json(j@) is None,
            },
    {
        let tag = match get_str(j, "type") {
            Some(t) => t,
            None => return None,
        };
        if text_is(tag, "text") {
            match get_str(j, "text") {
                Some(text) => Some(ContentPart::Text { text: text.clone() }),
                None => None,
            }
        } else if text_is(tag, "text_delta") {
            match get_str(j, "text") {
                Some(text) => Some(ContentPart::TextDelta { text: text.clone() }),
                None => None,
            }
        } else if text_is(tag, "image") {
            match get(j, "source") {
                Some(s) => match ImageSource::from_json(s) {
                    Some(source) => Some(ContentPart::Image { source }),
                    None => None,
                },
                None => None,
            }
        } else if text_is(tag, "tool_result") {
            match (get_str(j, "tool_use_id"), get_str(j, "content")) {
                (Some(tool_use_id), Some(content)) => Some(
                    ContentPart::ToolResult {
                        tool_use_id: tool_use_id.clone(),
                        content: content.clone(),
                    },
                ),
                _ => None,
            }
        } else if text_is(tag, "tool_use") {
            match (get_str(j, "id"), get_str(j, "name"), get(j, "input")) {
                (Some(id), Some(name), Some(input)) => Some(
                    ContentPart::ToolUse { id: id.clone(), name: name.clone(), input: copy_json(input) },
                ),
                _ => None,
            }
        } else if text_is(tag, "input_json_delta") {
            match get_str(j, "partial_json") {
                Some(partial_json) => Some(
                    ContentPart::InputJsonDelta { partial_json: partial_json.clone() },
                ),
                None => None,
            }
        } else {
            None
        }
    }
}


// ----- content and messages on the wire -----

/// Content as the wire carries it: a bare string, or an array of parts.
pub open spec fn content_json(c: ContentView) -> JsonView {
    match c {
        ContentView::Single(s) => JsonView::Str(s),
        ContentView::Multi(parts) => JsonView::Array(parts.map_values(|p: PartView| part_json(p))),
    }
}

/// What a wire value says of content that may be absent: `None` when it is
/// not content at all, `Some(None)` for null or an empty string (absent),
/// and otherwise the content.
pub open spec fn optional_content_of_json(j: JsonView) -> Option<Option<ContentView>> {
    match j {
        JsonView::Null => Some(None),
        JsonView::Str(s) => if s.len() == 0 {
            Some(None)
        } else {
            Some(Some(ContentView::Single(s)))
        },
        JsonView::Array(items) => if forall|i: int|
            0 <= i < items.len() ==> (#[trigger] part_of_json(items[i])) is Some {
            Some(Some(ContentView::Multi(items.map_values(|x: JsonView| part_of_json(x)->Some_0))))
        } else {
            None
        },
        _ => None,
    }
}

/// Content that must be there: absent content is refused.
pub open spec fn content_of_json(j: JsonView) -> Option<ContentView> {
    match optional_content_of_json(j) {
        Some(Some(c)) => Some(c),
        _ => None,
    }
}

pub open spec fn message_json(m: MessageView) -> JsonView {
    JsonView::Object(
        seq![str_entry("role"@, role_name(m.role)), ("content"@, content_json(m.content))],
    )
}

pub open spec fn message_of_json(j: JsonView) -> Option<MessageView> {
    match (str_field(j, "role"@), field(j, "content"@)) {
        (Some(r), Some(c)) => match (role_of_name(r), content_of_json(c)) {
            (Some(role), Some(content)) => Some(MessageView { role, content }),
            _ => None,
        },
        _ => None,
    }
}

/// The parts a wire array denotes, when every item is a part.
pub fn parts_from_json(items: &Vec<JsonValue>) -> (r: Option<Vec<ContentPart>>)
    ensures
        match r {
            Some(ps) => (forall|i: int|
                0 <= i < items@.len() ==> (#[trigger] part_of_json(items@[i]@)) is Some)
                && parts_view(ps@) == items@.map_values(|x: JsonValue| part_of_json(x@)->Some_0),
            None => exists|i: int| 0 <= i < items@.len() && (#[trigger] part_of_json(items@[i]@)) is None,
        },
{
    let mut out: Vec<ContentPart> = Vec::new();
    let mut i: usize = 0;
    while i < items.len()
        invariant
            i <= items@.len(),
            out@.len() == i,
            forall|k: int| 0 <= k < i ==> (#[trigger] part_of_json(items@[k]@)) is Some,
            forall|k: int| 0 <= k < i ==> (#[trigger] out@[k])@ == part_of_json(items@[k]@)->Some_0,
        decreases items@.len() - i,
    {
        match ContentPart::from_json(&items[i]) {
            Some(p) => out.push(p),
            None => return None,
        }
        i = i + 1;
    }
    assert(parts_view(out@) =~= items@.map_values(|x: JsonValue| part_of_json(x@)->Some_0));
    Some(out)
}

/// The wire form of a list of parts.
pub fn parts_to_json(parts: &Vec<ContentPart>) -> (r: Vec<JsonValue>)
    ensures
        r@.len() == parts@.len(),
        forall|i: int| 0 <= i < parts@.len() ==> (#[trigger] r@[i])@ == part_json(parts@[i]@),
{
    let mut out: Vec<JsonValue> = Vec::new();
    let mut i: usize = 0;
    while i < parts.len()
        invariant
            i <= parts@.len(),
            out@.len() == i,
            forall|k: int| 0 <= k < i ==> (#[trigger] out@[k])@ == part_json(parts@[k]@),
        decreases parts@.len() - i,
    {
        out.push(parts[i].to_json());
        i = i + 1;
    }
    out
}

impl Content {
    /// Content that is one bare text.
    pub fn text(s: &str) -> (r: Content)
        ensures
            r@ == ContentView::Single(s@),
    {
        Content::Single(String::from_str(s))
    }

    /// This content as the wire carries it.
    pub fn to_json(&self) -> (r: JsonValue)
        ensures
            r@ == content_json(self@),
    {
        match self {
            Content::Single(s) => JsonValue::Str(s.clone()),
            Content::Multi(parts) => {
                let items = parts_to_json(parts);
                let r = array(items);
                assert(r@->Array_0 =~= content_json(self@)->Array_0);
                r
            },
        }
    }

    /// What a wire value says of content that may be absent (see
    /// `optional_content_of_json`).
    pub fn optional_from_json(j: &JsonValue) -> (r: Result<Option<Content>, ()>)
        ensures
            match r {
                Ok(Some(c)) => optional_content_of_json(j@) == Some(Some(c@)),
                Ok(None) => optional_content_of_json(j@) == Some(None::<ContentView>),
                Err(_) => optional_content_of_json(j@) is None,
            },
    {
        match j {
            JsonValue::Null => Ok(None),
            JsonValue::Str(s) => {
                if s.as_str().unicode_len() == 0 {
                    Ok(None)
                } else {
                    Ok(Some(Content::Single(s.clone())))
                }
            },
            JsonValue::Array(items) => {
                let ghost iv = j@->Array_0;
                assert(iv.len() == items@.len());
                assert(forall|i: int| 0 <= i < items@.len() ==> #[trigger] iv[i] == items@[i]@);
                match parts_from_json(items) {
                    Some(ps) => {
                        let c = Content::Multi(ps);
                        assert(forall|i: int| 0 <= i < iv.len() ==> (#[trigger] part_of_json(iv[i])) is Some) by {
                            assert forall|i: int| 0 <= i < iv.len() implies (#[trigger] part_of_json(iv[i])) is Some by {
                                assert(part_of_json(items@[i]@) is Some);
                            }
                        }
                        assert(c@->Multi_0 =~= iv.map_values(|x: JsonView| part_of_json(x)->Some_0)) by {
                            assert(parts_view(ps@) == items@.map_values(|x: JsonValue| part_of_json(x@)->Some_0));
                        }
                        Ok(Some(c))
                    },
                    None => {
                        let ghost i = choose|i: int| 0 <= i < items@.len() && (#[trigger] part_of_json(items@[i]@)) is None;
                        assert(part_of_json(iv[i]) is None);
                        Err(())
                    },
                }
            },
            _ => Err(()),
        }
    }
}

impl Message {
    /// A turn spoken by the user.
    pub fn user(content: Content) -> (r: Message)
        ensures
            r.role == Role::User,
            r.content == content,
    {
        Message { role: Role::User, content }
    }

    /// This turn as the wire carries it.
    pub fn to_json(&self) -> (r: JsonValue)
        ensures
            r@ == message_json(self@),
    {
        let es = vec![
            lit_pair("role", self.role.wire_name()),
            (String::from_str("content"), self.content.to_json()),
        ];
        let r = object(es);
        assert(r@->Object_0 =~= message_json(self@)->Object_0);
        r
    }

    /// The turn that a wire object denotes, if any.
    pub fn from_json(j: &JsonValue) -> (r: Option<Message>)
        ensures
            match r {
                Some(m) => message_of_json(j@) == Some(m@),
                None => message_of_json(j@) is None,
            },
    {
        match (get_str(j, "role"), get(j, "content")) {
            (Some(r), Some(c)) => match (Role::from_wire_name(r), Content::optional_from_json(c)) {
                (Some(role), Ok(Some(content))) => Some(Message { role, content }),
                _ => None,
            },
            _ => None,
        }
    }
}


// ----- round trips -----


/// The lengths of the names that content parts and turns use on the wire,
/// and which of those of equal length differ.
pub proof fn lemma_part_names()
    ensures
        "type"@.len() == 4,
        "text"@.len() == 4,
        "text_delta"@.len() == 10,
        "image"@.len() == 5,
        "source"@.len() == 6,
        "tool_result"@.len() == 11,
        "tool_use_id"@.len() == 11,
        "content"@.len() == 7,
        "tool_use"@.len() == 8,
        "id"@.len() == 2,
        "name"@.len() == 4,
        "input"@.len() == 5,
        "input_json_delta"@.len() == 16,
        "partial_json"@.len() == 12,
        "media_type"@.len() == 10,
        "data"@.len() == 4,
        "image/jpeg"@.len() == 10,
        "image/png"@.len() == 9,
        "image/gif"@.len() == 9,
        "image/webp"@.len() == 10,
        "role"@.len() == 4,
        "user"@.len() == 4,
        "assistant"@.len() == 9,
        "type"@ != "text"@,
        "type"@ != "name"@,
        "type"@ != "data"@,
        "type"@ != "role"@,
        "text"@ != "name"@,
        "text"@ != "data"@,
        "name"@ != "data"@,
        "image/png"@ != "image/gif"@,
        "image/jpeg"@ != "image/webp"@,
        "text_delta"@ != "media_type"@,
        "tool_result"@ != "tool_use_id"@,
        "image"@ != "input"@,
{
    reveal_strlit("type");
    reveal_strlit("text");
    reveal_strlit("text_delta");
    reveal_strlit("image");
    reveal_strlit("source");
    reveal_strlit("tool_result");
    reveal_strlit("tool_use_id");
    reveal_strlit("content");
    reveal_strlit("tool_use");
    reveal_strlit("id");
    reveal_strlit("name");
    reveal_strlit("input");
    reveal_strlit("input_json_delta");
    reveal_strlit("partial_json");
    reveal_strlit("media_type");
    reveal_strlit("data");
    reveal_strlit("image/jpeg");
    reveal_strlit("image/png");
    reveal_strlit("image/gif");
    reveal_strlit("image/webp");
    reveal_strlit("role");
    reveal_strlit("user");
    reveal_strlit("assistant");
    assert("type"@[1] != "text"@[1]);
    assert("type"@[0] != "name"@[0]);
    assert("type"@[0] != "data"@[0]);
    assert("type"@[0] != "role"@[0]);
    assert("text"@[0] != "name"@[0]);
    assert("text"@[0] != "data"@[0]);
    assert("name"@[0] != "data"@[0]);
    assert("image/png"@[6] != "image/gif"@[6]);
    assert("image/jpeg"@[6] != "image/webp"@[6]);
    assert("text_delta"@[0] != "media_type"@[0]);
    assert("tool_result"@[7] != "tool_use_id"@[7]);
    assert("image"@[1] != "input"@[1]);
}

/// A media type read back from its wire name is the same media type.
pub proof fn lemma_media_type_round_trip(m: MediaType)
    ensures
        media_type_of_name(media_type_name(m)) == Some(m),
{
    lemma_part_names();
}

/// A role read back from its wire name is the same role.
pub proof fn lemma_role_round_trip(r: Role)
    ensures
        role_of_name(role_name(r)) == Some(r),
{
    lemma_part_names();
}

/// Any content part, written to the wire and read back, is the same part.
pub proof fn lemma_part_round_trip(p: PartView)
    ensures
        part_of_json(part_json(p)) == Some(p),
{
    reveal_with_fuel(crate::json::lookup, 5);
    lemma_part_names();

    if let PartView::Image { source } = p {
        lemma_media_type_round_trip(source.media_type);
        assert(image_source_of_json(image_source_json(source)) == Some(source));
    }
}

/// Content written to the wire and read back is the same content, unless it
/// is an empty bare text (which reads back as absent).
pub proof fn lemma_content_reads_back(c: ContentView)
    requires
        c matches ContentView::Single(s) ==> s.len() > 0,
    ensures
        optional_content_of_json(content_json(c)) == Some(Some(c)),
        content_of_json(content_json(c)) == Some(c),
{
    if let ContentView::Multi(parts) = c {
        let items = parts.map_values(|p: PartView| part_json(p));
        assert forall|i: int| 0 <= i < items.len() implies (#[trigger] part_of_json(items[i])) is Some by {
            lemma_part_round_trip(parts[i]);
        }
        assert forall|i: int| 0 <= i < parts.len() implies part_of_json(#[trigger] items[i])->Some_0 == parts[i] by {
            lemma_part_round_trip(parts[i]);
        }
        assert(items.map_values(|x: JsonView| part_of_json(x)->Some_0) =~= parts);
    }
}

/// Content written to the wire and read back is the same content, for a
/// non-empty text and for a non-empty list of parts.
pub proof fn lemma_content_round_trip(c: ContentView)
    requires
        match c {
            ContentView::Single(s) => s.len() > 0,
            ContentView::Multi(parts) => parts.len() > 0,
        },
    ensures
        optional_content_of_json(content_json(c)) == Some(Some(c)),
        content_of_json(content_json(c)) == Some(c),
{
    lemma_content_reads_back(c);
}

/// A turn whose content is no empty bare text, written to the wire and read
/// back, is the same turn.
pub proof fn lemma_message_round_trip(m: MessageView)
    requires
        m.content matches ContentView::Single(s) ==> s.len() > 0,
    ensures
        message_of_json(message_json(m)) == Some(m),
{
    reveal_with_fuel(crate::json::lookup, 5);
    lemma_part_names();
    lemma_role_round_trip(m.role);
    lemma_content_reads_back(m.content);
}


// ----- responses -----

/// Why the model stopped generating.
#[derive(Clone, Copy, Debug, PartialEq, Eq, Structural)]
pub enum StopReason {
    EndTurn,
    MaxTokens,
    StopSequence,
    ToolUse,
}

/// The one kind of object a successful response is.
#[derive(Clone, Copy, Debug, PartialEq, Eq, Structural)]
pub enum MessageResponseKind {
    Message,
}

/// Token accounting; the input count may be unknown mid-stream.
#[derive(Clone, Copy, Debug, PartialEq, Eq, Structural)]
pub struct Usage {
    pub input_tokens: Option<u32>,
    pub output_tokens: u32,
}

/// An error the backend reports: its kind and its message.
#[derive(Debug)]
pub struct ErrorDetails {
    pub kind: String,
    pub message: String,
}

/// A completed response.
#[derive(Debug)]
pub struct MessageResponse {
    pub id: String,
    pub model: String,
    pub role: String,
    pub content: Vec<ContentPart>,
    pub stop_reason: Option<StopReason>,
    pub stop_sequence: Option<String>,
    pub usage: Usage,
}

/// A response as a stream announces it, with its `type` tag.
#[derive(Debug)]
pub struct MessageResponseStream {
    pub kind: String,
    pub message_response: MessageResponse,
}

/// What a backend answers to a request: a message, or an error.
#[derive(Debug)]
pub enum CreateMessageResponse {
    Message(MessageResponse),
    Error { error: ErrorDetails },
}

pub struct ErrorView {
    pub kind: Seq<char>,
    pub message: Seq<char>,
}

pub struct ResponseView {
    pub id: Seq<char>,
    pub model: Seq<char>,
    pub role: Seq<char>,
    pub content: Seq<PartView>,
    pub stop_reason: Option<StopReason>,
    pub stop_sequence: Option<Seq<char>>,
    pub usage: Usage,
}

pub struct StreamResponseView {
    pub kind: Seq<char>,
    pub response: ResponseView,
}

pub enum CreateResponseView {
    Message(ResponseView),
    Error { error: ErrorView },
}

pub open spec fn opt_view(o: Option<String>) -> Option<Seq<char>> {
    match o {
        Some(s) => Some(s@),
        None => None,
    }
}

impl View for ErrorDetails {
    type V = ErrorView;

    open spec fn view(&self) -> ErrorView {
        ErrorView { kind: self.kind@, message: self.message@ }
    }
}

impl View for MessageResponse {
    type V = ResponseView;

    open spec fn view(&self) -> ResponseView {
        ResponseView {
            id: self.id@,
            model: self.model@,
            role: self.role@,
            content: parts_view(self.content@),
            stop_reason: self.stop_reason,
            stop_sequence: opt_view(self.stop_sequence),
            usage: self.usage,
        }
    }
}

impl View for MessageResponseStream {
    type V = StreamResponseView;

    open spec fn view(&self) -> StreamResponseView {
        StreamResponseView { kind: self.kind@, response: self.message_response@ }
    }
}

impl View for CreateMessageResponse {
    type V = CreateResponseView;

    open spec fn view(&self) -> CreateResponseView {
        match self {
            CreateMessageResponse::Message(m) => CreateResponseView::Message(m@),
            CreateMessageResponse::Error { error } => CreateResponseView::Error { error: error@ },
        }
    }
}

pub open spec fn stop_reason_name(r: StopReason) -> Seq<char> {
    match r {
        StopReason::EndTurn => "end_turn"@,
        StopReason::MaxTokens => "max_tokens"@,
        StopReason::StopSequence => "stop_sequence"@,
        StopReason::ToolUse => "tool_use"@,
    }
}

pub open spec fn stop_reason_of_name(t: Seq<char>) -> Option<StopReason> {
    if t == "end_turn"@ {
        Some(StopReason::EndTurn)
    } else if t == "max_tokens"@ {
        Some(StopReason::MaxTokens)
    } else if t == "stop_sequence"@ {
        Some(StopReason::StopSequence)
    } else if t == "tool_use"@ {
        Some(StopReason::ToolUse)
    } else {
        None
    }
}

/// A wire number that is a whole number fitting in 32 bits.
pub open spec fn u32_of_json(j: JsonView) -> Option<u32> {
    match j {
        JsonView::Number(t) => if is_digits(t) && digits_value(t) <= u32::MAX {
            Some(digits_value(t) as u32)
        } else {
            None
        },
        _ => None,
    }
}

/// A wire number that is a whole number fitting in 64 bits.
pub open spec fn u64_of_json(j: JsonView) -> Option<u64> {
    match j {
        JsonView::Number(t) => if is_digits(t) && digits_value(t) <= u64::MAX {
            Some(digits_value(t) as u64)
        } else {
            None
        },
        _ => None,
    }
}

/// An optional member: `Some(None)` when it is missing or null, `None` when
/// it is there but not of the kind `read` accepts.
pub open spec fn optional_member<T>(j: JsonView, key: Seq<char>, read: spec_fn(JsonView) -> Option<T>) -> Option<Option<T>> {
    match field(j, key) {
        None => Some(None),
        Some(JsonView::Null) => Some(None),
        Some(x) => match read(x) {
            Some(v) => Some(Some(v)),
            None => None,
        },
    }
}

pub open spec fn str_of_json(j: JsonView) -> Option<Seq<char>> {
    match j {
        JsonView::Str(s) => Some(s),
        _ => None,
    }
}

pub open spec fn stop_reason_of_json(j: JsonView) -> Option<StopReason> {
    match j {
        JsonView::Str(s) => stop_reason_of_name(s),
        _ => None,
    }
}

pub open spec fn usage_of_json(j: JsonView) -> Option<Usage> {
    match (optional_member(j, "input_tokens"@, |x: JsonView| u32_of_json(x)), field(j, "output_tokens"@)) {
        (Some(input_tokens), Some(o)) => match u32_of_json(o) {
            Some(output_tokens) => Some(Usage { input_tokens, output_tokens }),
            None => None,
        },
        _ => None,
    }
}

pub open spec fn error_of_json(j: JsonView) -> Option<ErrorView> {
    match (str_field(j, "type"@), str_field(j, "message"@)) {
        (Some(kind), Some(message)) => Some(ErrorView { kind, message }),
        _ => None,
    }
}

/// The parts a wire array denotes, when every item is a part.
pub open spec fn parts_of_json(j: JsonView) -> Option<Seq<PartView>> {
    match j {
        JsonView::Array(items) => if forall|i: int|
            0 <= i < items.len() ==> (#[trigger] part_of_json(items[i])) is Some {
            Some(items.map_values(|x: JsonView| part_of_json(x)->Some_0))
        } else {
            None
        },
        _ => None,
    }
}

/// A completed response as the wire carries it; members not named here are
/// ignored.
pub open spec fn response_of_json(j: JsonView) -> Option<ResponseView> {
    match (str_field(j, "id"@), str_field(j, "model"@), str_field(j, "role"@), field(j, "content"@), field(j, "usage"@)) {
        (Some(id), Some(model), Some(role), Some(c), Some(u)) => match (
            parts_of_json(c),
            optional_member(j, "stop_reason"@, |x: JsonView| stop_reason_of_json(x)),
            optional_member(j, "stop_sequence"@, |x: JsonView| str_of_json(x)),
            usage_of_json(u),
        ) {
            (Some(content), Some(stop_reason), Some(stop_sequence), Some(usage)) => Some(
                ResponseView { id, model, role, content, stop_reason, stop_sequence, usage },
            ),
            _ => None,
        },
        _ => None,
    }
}

/// A backend's answer: an object tagged `message`, or one tagged `error`
/// whose member `error` holds the details.
pub open spec fn create_response_of_json(j: JsonView) -> Option<CreateResponseView> {
    match str_field(j, "type"@) {
        Some(tag) => if tag == "message"@ {
            match response_of_json(j) {
                Some(m) => Some(CreateResponseView::Message(m)),
                None => None,
            }
        } else if tag == "error"@ {
            match field(j, "error"@) {
                Some(e) => match error_of_json(e) {
                    Some(error) => Some(CreateResponseView::Error { error }),
                    None => None,
                },
                None => None,
            }
        } else {
            None
        },
        None => None,
    }
}

impl StopReason {
    /// The stop reason's name on the wire.
    pub fn wire_name(&self) -> (r: &'static str)
        ensures
            r@ == stop_reason_name(*self),
    {
        match self {
            StopReason::EndTurn => "end_turn",
            StopReason::MaxTokens => "max_tokens",
            StopReason::StopSequence => "stop_sequence",
            StopReason::ToolUse => "tool_use",
        }
    }

    /// The stop reason a wire name stands for.
    pub fn from_wire_name(t: &String) -> (r: Option<StopReason>)
        ensures
            r == stop_reason_of_name(t@),
    {
        if text_is(t, "end_turn") {
            Some(StopReason::EndTurn)
        } else if text_is(t, "max_tokens") {
            Some(StopReason::MaxTokens)
        } else if text_is(t, "stop_sequence") {
            Some(StopReason::StopSequence)
        } else if text_is(t, "tool_use") {
            Some(StopReason::ToolUse)
        } else {
            None
        }
    }
}

/// A wire number as a `u32`, when it is a whole number that fits.
pub fn u32_from_json(j: &JsonValue) -> (r: Option<u32>)
    ensures
        r == u32_of_json(j@),
{
    match j {
        JsonValue::Number(t) => match parse_u64(t) {
            Some(n) => if n <= u32::MAX as u64 {
                Some(n as u32)
            } else {
                None
            },
            None => None,
        },
        _ => None,
    }
}

/// A wire number as a `u64`, when it is a whole number that fits.
pub fn u64_from_json(j: &JsonValue) -> (r: Option<u64>)
    ensures
        r == u64_of_json(j@),
{
    match j {
        JsonValue::Number(t) => parse_u64(t),
        _ => None,
    }
}

impl Usage {
    /// The usage that a wire object denotes, if any.
    pub fn from_json(j: &JsonValue) -> (r: Option<Usage>)
        ensures
            r == usage_of_json(j@),
    {
        let input_tokens = match get(j, "input_tokens") {
            None => None,
            Some(JsonValue::Null) => None,
            Some(x) => match u32_from_json(x) {
                Some(n) => Some(n),
                None => return None,
            },
        };
        match get(j, "output_tokens") {
            Some(o) => match u32_from_json(o) {
                Some(output_tokens) => Some(Usage { input_tokens, output_tokens }),
                None => None,
            },
            None => None,
        }
    }
}

impl ErrorDetails {
    /// The details that a wire object denotes, if any.
    pub fn from_json(j: &JsonValue) -> (r: Option<ErrorDetails>)
        ensures
            match r {
                Some(e) => error_of_json(j@) == Some(e@),
                None => error_of_json(j@) is None,
            },
    {
        match (get_str(j, "type"), get_str(j, "message")) {
            (Some(kind), Some(message)) => Some(
                ErrorDetails { kind: kind.clone(), message: message.clone() },
            ),
            _ => None,
        }
    }
}

/// The parts a wire array denotes, when every item is a part.
pub fn part_list_from_json(j: &JsonValue) -> (r: Option<Vec<ContentPart>>)
    ensures
        match r {
            Some(ps) => parts_of_json(j@) == Some(parts_view(ps@)),
            None => parts_of_json(j@) is None,
        },
{
    match j {
        JsonValue::Array(items) => {
            let ghost iv = j@->Array_0;
            assert(iv.len() == items@.len());
            assert(forall|i: int| 0 <= i < items@.len() ==> #[trigger] iv[i] == items@[i]@);
            match parts_from_json(items) {
                Some(ps) => {
                    assert(forall|i: int| 0 <= i < iv.len() ==> (#[trigger] part_of_json(iv[i])) is Some) by {
                        assert forall|i: int| 0 <= i < iv.len() implies (#[trigger] part_of_json(iv[i])) is Some by {
                            assert(part_of_json(items@[i]@) is Some);
                        }
                    }
                    assert(parts_view(ps@) =~= iv.map_values(|x: JsonView| part_of_json(x)->Some_0));
                    Some(ps)
                },
                None => {
                    let ghost i = choose|i: int| 0 <= i < items@.len() && (#[trigger] part_of_json(items@[i]@)) is None;
                    assert(part_of_json(iv[i]) is None);
                    None
                },
            }
        },
        _ => None,
    }
}

impl MessageResponse {
    /// The response that a wire object denotes, if any.
    pub fn from_json(j: &JsonValue) -> (r: Option<MessageResponse>)
        ensures
            match r {
                Some(m) => response_of_json(j@) == Some(m@),
                None => response_of_json(j@) is None,
            },
    {
        let (id, model, role, c, u) = match (get_str(j, "id"), get_str(j, "model"), get_str(j, "role"), get(j, "content"), get(j, "usage")) {
            (Some(id), Some(model), Some(role), Some(c), Some(u)) => (id, model, role, c, u),
            _ => return None,
        };
        let content = match part_list_from_json(c) {
            Some(ps) => ps,
            None => return None,
        };
        let stop_reason = match get(j, "stop_reason") {
            None => None,
            Some(JsonValue::Null) => None,
            Some(JsonValue::Str(t)) => match StopReason::from_wire_name(t) {
                Some(r) => Some(r),
                None => return None,
            },
            Some(_) => return None,
        };
        let stop_sequence = match get(j, "stop_sequence") {
            None => None,
            Some(JsonValue::Null) => None,
            Some(JsonValue::Str(t)) => Some(t.clone()),
            Some(_) => return None,
        };
        let usage = match Usage::from_json(u) {
            Some(u) => u,
            None => return None,
        };
        Some(
            MessageResponse {
                id: id.clone(),
                model: model.clone(),
                role: role.clone(),
                content,
                stop_reason,
                stop_sequence,
                usage,
            },
        )
    }
}

impl MessageResponseStream {
    /// The announced response that a wire object denotes, if any: its `type`
    /// tag and the response itself.
    pub fn from_json(j: &JsonValue) -> (r: Option<MessageResponseStream>)
        ensures
            match r {
                Some(m) => str_field(j@, "type"@) == Some(m.kind@) && response_of_json(j@) == Some(m.message_response@),
                None => str_field(j@, "type"@) is None || response_of_json(j@) is None,
            },
    {
        match (get_str(j, "type"), MessageResponse::from_json(j)) {
            (Some(kind), Some(message_response)) => Some(
                MessageResponseStream { kind: kind.clone(), message_response },
            ),
            _ => None,
        }
    }
}

impl CreateMessageResponse {
    /// The answer that a wire object denotes, if any.
    pub fn from_json(j: &JsonValue) -> (r: Option<CreateMessageResponse>)
        ensures
            match r {
                Some(m) => create_response_of_json(j@) == Some(m@),
                None => create_response_of_json(j@) is None,
            },
    {
        let tag = match get_str(j, "type") {
            Some(t) => t,
            None => return None,
        };
        if text_is(tag, "message") {
            match MessageResponse::from_json(j) {
                Some(m) => Some(CreateMessageResponse::Message(m)),
                None => None,
            }
        } else if text_is(tag, "error") {
            match get(j, "error") {
                Some(e) => match ErrorDetails::from_json(e) {
                    Some(error) => Some(CreateMessageResponse::Error { error }),
                    None => None,
                },
                None => None,
            }
        } else {
            None
        }
    }
}


// ----- streaming events -----

/// The terminal information of a streamed message.
#[derive(Debug)]
pub struct EventMessageDelta {
    pub stop_reason: StopReason,
    pub stop_sequence: Option<String>,
}

/// One event of a canonical stream.
#[derive(Debug)]
#[allow(inconsistent_fields)]
pub enum Event {
    Ping,
    MessageStart { message: MessageResponseStream },
    ContentBlockStart { index: u64, content_block: ContentPart },
    ContentBlockDelta { index: u64, delta: ContentPart },
    ContentBlockStop { index: u64 },
    MessageDelta { delta: EventMessageDelta, usage: Usage },
    MessageStop,
    Error(ErrorDetails),
}

pub struct DeltaView {
    pub stop_reason: StopReason,
    pub stop_sequence: Option<Seq<char>>,
}

#[allow(inconsistent_fields)]
pub enum EventView {
    Ping,
    MessageStart { message: StreamResponseView },
    ContentBlockStart { index: u64, content_block: PartView },
    ContentBlockDelta { index: u64, delta: PartView },
    ContentBlockStop { index: u64 },
    MessageDelta { delta: DeltaView, usage: Usage },
    MessageStop,
    Error(ErrorView),
}

impl View for EventMessageDelta {
    type V = DeltaView;

    open spec fn view(&self) -> DeltaView {
        DeltaView { stop_reason: self.stop_reason, stop_sequence: opt_view(self.stop_sequence) }
    }
}

impl View for Event {
    type V = EventView;

    open spec fn view(&self) -> EventView {
        match self {
            Event::Ping => EventView::Ping,
            Event::MessageStart { message } => EventView::MessageStart { message: message@ },
            Event::ContentBlockStart { index, content_block } => EventView::ContentBlockStart {
                index: *index,
                content_block: content_block@,
            },
            Event::ContentBlockDelta { index, delta } => EventView::ContentBlockDelta {
                index: *index,
                delta: delta@,
            },
            Event::ContentBlockStop { index } => EventView::ContentBlockStop { index: *index },
            Event::MessageDelta { delta, usage } => EventView::MessageDelta {
                delta: delta@,
                usage: *usage,
            },
            Event::MessageStop => EventView::MessageStop,
            Event::Error(e) => EventView::Error(e@),
        }
    }
}

pub open spec fn events_view(events: Seq<Event>) -> Seq<EventView> {
    Seq::new(events.len(), |i: int| events[i]@)
}

pub open spec fn stream_response_of_json(j: JsonView) -> Option<StreamResponseView> {
    match (str_field(j, "type"@), response_of_json(j)) {
        (Some(kind), Some(response)) => Some(StreamResponseView { kind, response }),
        _ => None,
    }
}

pub open spec fn delta_of_json(j: JsonView) -> Option<DeltaView> {
    match (
        field(j, "stop_reason"@),
        optional_member(j, "stop_sequence"@, |x: JsonView| str_of_json(x)),
    ) {
        (Some(r), Some(stop_sequence)) => match stop_reason_of_json(r) {
            Some(stop_reason) => Some(DeltaView { stop_reason, stop_sequence }),
            None => None,
        },
        _ => None,
    }
}

pub open spec fn index_of_json(j: JsonView) -> Option<u64> {
    match field(j, "index"@) {
        Some(x) => u64_of_json(x),
        None => None,
    }
}

/// A canonical event as the wire carries it: an object tagged by `type`.
pub open spec fn event_of_json(j: JsonView) -> Option<EventView> {
    match str_field(j, "type"@) {
        Some(tag) => if tag == "ping"@ {
            Some(EventView::Ping)
        } else if tag == "message_start"@ {
            match field(j, "message"@) {
                Some(m) => match stream_response_of_json(m) {
                    Some(message) => Some(EventView::MessageStart { message }),
                    None => None,
                },
                None => None,
            }
        } else if tag == "content_block_start"@ {
            match (index_of_json(j), field(j, "content_block"@)) {
                (Some(index), Some(b)) => match part_of_json(b) {
                    Some(content_block) => Some(EventView::ContentBlockStart { index, content_block }),
                    None => None,
                },
                _ => None,
            }
        } else if tag == "content_block_delta"@ {
            match (index_of_json(j), field(j, "delta"@)) {
                (Some(index), Some(d)) => match part_of_json(d) {
                    Some(delta) => Some(EventView::ContentBlockDelta { index, delta }),
                    None => None,
                },
                _ => None,
            }
        } else if tag == "content_block_stop"@ {
            match index_of_json(j) {
                Some(index) => Some(EventView::ContentBlockStop { index }),
                None => None,
            }
        } else if tag == "message_delta"@ {
            match (field(j, "delta"@), field(j, "usage"@)) {
                (Some(d), Some(u)) => match (delta_of_json(d), usage_of_json(u)) {
                    (Some(delta), Some(usage)) => Some(EventView::MessageDelta { delta, usage }),
                    _ => None,
                },
                _ => None,
            }
        } else if tag == "message_stop"@ {
            Some(EventView::MessageStop)
        } else if tag == "error"@ {
            match field(j, "error"@) {
                Some(e) => match error_of_json(e) {
                    Some(details) => Some(EventView::Error(details)),
                    None => None,
                },
                None => None,
            }
        } else {
            None
        },
        None => None,
    }
}

fn index_from_json(j: &JsonValue) -> (r: Option<u64>)
    ensures
        r == index_of_json(j@),
{
    match get(j, "index") {
        Some(x) => u64_from_json(x),
        None => None,
    }
}

impl EventMessageDelta {
    /// The terminal information that a wire object denotes, if any.
    pub fn from_json(j: &JsonValue) -> (r: Option<EventMessageDelta>)
        ensures
            match r {
                Some(d) => delta_of_json(j@) == Some(d@),
                None => delta_of_json(j@) is None,
            },
    {
        let stop_sequence = match get(j, "stop_sequence") {
            None => None,
            Some(JsonValue::Null) => None,
            Some(JsonValue::Str(t)) => Some(t.clone()),
            Some(_) => return None,
        };
        match get(j, "stop_reason") {
            Some(JsonValue::Str(t)) => match StopReason::from_wire_name(t) {
                Some(stop_reason) => Some(EventMessageDelta { stop_reason, stop_sequence }),
                None => None,
            },
            _ => None,
        }
    }
}

impl Event {
    /// The canonical event that a wire object denotes, if any.
    pub fn from_json(j: &JsonValue) -> (r: Option<Event>)
        ensures
            match r {
                Some(e) => event_of_json(j@) == Some(e@),
                None => event_of_json(j@) is None,
            },
    {
        let tag = match get_str(j, "type") {
            Some(t) => t,
            None => return None,
        };
        if text_is(tag, "ping") {
            Some(Event::Ping)
        } else if text_is(tag, "message_start") {
            match get(j, "message") {
                Some(m) => match MessageResponseStream::from_json(m) {
                    Some(message) => Some(Event::MessageStart { message }),
                    None => None,
                },
                None => None,
            }
        } else if text_is(tag, "content_block_start") {
            match (index_from_json(j), get(j, "content_block")) {
                (Some(index), Some(b)) => match ContentPart::from_json(b) {
                    Some(content_block) => Some(Event::ContentBlockStart { index, content_block }),
                    None => None,
                },
                _ => None,
            }
        } else if text_is(tag, "content_block_delta") {
            match (index_from_json(j), get(j, "delta")) {
                (Some(index), Some(d)) => match ContentPart::from_json(d) {
                    Some(delta) => Some(Event::ContentBlockDelta { index, delta }),
                    None => None,
                },
                _ => None,
            }
        } else if text_is(tag, "content_block_stop") {
            match index_from_json(j) {
                Some(index) => Some(Event::ContentBlockStop { index }),
                None => None,
            }
        } else if text_is(tag, "message_delta") {
            match (get(j, "delta"), get(j, "usage")) {
                (Some(d), Some(u)) => match (EventMessageDelta::from_json(d), Usage::from_json(u)) {
                    (Some(delta), Some(usage)) => Some(Event::MessageDelta { delta, usage }),
                    _ => None,
                },
                _ => None,
            }
        } else if text_is(tag, "message_stop") {
            Some(Event::MessageStop)
        } else if text_is(tag, "error") {
            match get(j, "error") {
                Some(e) => match ErrorDetails::from_json(e) {
                    Some(details) => Some(Event::Error(details)),
                    None => None,
                },
                None => None,
            }
        } else {
            None
        }
    }
}

} // verus!
