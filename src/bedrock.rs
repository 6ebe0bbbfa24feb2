use vstd::prelude::*;

use crate::error::{ClientError, ClientErrorView};
use crate::json::{copy_json, entries_view, object, push_entry, text, JsonValue, JsonView};
use crate::messages::{
    parts_view, Content, ContentPart, ContentView, ImageSource, ImageSourceView, MediaType,
    Message, MessageResponse, PartView, ResponseView, Role, StopReason, Usage,
};
use crate::reconstruct::NativeUsage;
use crate::request::{add_shared, submittable, texts_view, CreateMessageRequestWithStream, RequestView};

verus! {

/// The protocol version the gateway is asked for in a JSON body.
pub const DEFAULT_API_VERSION: &'static str = "bedrock-2023-05-31";

/// The gateway's JSON body: the shared members with neither model nor
/// stream flag, then the protocol version.
pub open spec fn body_spec(r: RequestView) -> JsonView {
    JsonView::Object(
        add_shared(Seq::empty(), r).push(("anthropic_version"@, JsonView::Str(DEFAULT_API_VERSION@))),
    )
}

/// The gateway's JSON body for a request, or a validation error naming
/// `messages` when the request holds a streamed fragment.
pub fn request_body(body: &CreateMessageRequestWithStream) -> (r: Result<JsonValue, ClientError>)
    ensures
        match r {
            Ok(j) => submittable(body.create_message_request@) && j@ == body_spec(body.create_message_request@),
            Err(e) => !submittable(body.create_message_request@) && e@ == ClientErrorView::Validation("messages"@),
        },
{
    let req = &body.create_message_request;
    if !req.is_submittable() {
        return Err(ClientError::Validation(String::from_str("messages")));
    }
    let mut es: Vec<(String, JsonValue)> = Vec::new();
    assert(entries_view(es@) =~= Seq::empty());
    req.push_shared_entries(&mut es);
    push_entry(&mut es, "anthropic_version", text(DEFAULT_API_VERSION));
    Ok(object(es))
}

// ----- base64, as the gateway's SDK does it -----

/// The bytes that standard base64 text decodes to, if it is base64.
pub uninterp spec fn base64_decoded(text: Seq<char>) -> Option<Seq<u8>>;

/// The standard base64 text of some bytes.
pub uninterp spec fn base64_encoded(bytes: Seq<u8>) -> Seq<char>;

/// Relies on aws_smithy_types::base64::decode: decodes standard base64,
/// failing on text that is not base64.
#[verifier::external_body]
fn decode_base64(text: &str) -> (r: Option<Vec<u8>>)
    ensures
        match r {
            Some(b) => base64_decoded(text@) == Some(b@),
            None => base64_decoded(text@) is None,
        },
{
    aws_smithy_types::base64::decode(text).ok()
}

/// Relies on aws_smithy_types::base64::encode: encodes bytes as standard
/// base64.
#[verifier::external_body]
fn encode_base64(bytes: &Vec<u8>) -> (r: String)
    ensures
        r@ == base64_encoded(bytes@),
{
    aws_smithy_types::base64::encode(bytes)
}

// ----- the gateway's own content blocks -----

/// A content block of the gateway's typed API.
#[derive(Debug)]
pub enum ConverseBlock {
    Text(String),
    Image { format: MediaType, bytes: Vec<u8> },
    ToolResult { tool_use_id: String, text: String },
    ToolUse { tool_use_id: String, name: String, input: JsonValue },
}

/// A turn of the gateway's typed API.
#[derive(Debug)]
pub struct ConverseMessage {
    pub role: Role,
    pub content: Vec<ConverseBlock>,
}

pub enum BlockView {
    Text(Seq<char>),
    Image { format: MediaType, bytes: Seq<u8> },
    ToolResult { tool_use_id: Seq<char>, text: Seq<char> },
    ToolUse { tool_use_id: Seq<char>, name: Seq<char>, input: JsonView },
}

impl View for ConverseBlock {
    type V = BlockView;

    open spec fn view(&self) -> BlockView {
        match self {
            ConverseBlock::Text(t) => BlockView::Text(t@),
            ConverseBlock::Image { format, bytes } => BlockView::Image { format: *format, bytes: bytes@ },
            ConverseBlock::ToolResult { tool_use_id, text } => BlockView::ToolResult {
                tool_use_id: tool_use_id@,
                text: text@,
            },
            ConverseBlock::ToolUse { tool_use_id, name, input } => BlockView::ToolUse {
                tool_use_id: tool_use_id@,
                name: name@,
                input: input@,
            },
        }
    }
}

pub open spec fn blocks_view(bs: Seq<ConverseBlock>) -> Seq<BlockView> {
    Seq::new(bs.len(), |i: int| bs[i]@)
}

/// Whether some part is a tool result.
pub open spec fn has_tool_result(parts: Seq<PartView>) -> bool {
    exists|i: int| 0 <= i < parts.len() && (#[trigger] parts[i]) is ToolResult
}

/// The parts the gateway is sent: only the tool results when there are
/// any, else all of them.
pub open spec fn kept(only_results: bool, p: PartView) -> bool {
    !only_results || p is ToolResult
}

/// The gateway block for a part: images carry their decoded bytes; streamed
/// fragments, and images whose data is not base64, have none.
pub open spec fn block_of_part(p: PartView) -> Option<BlockView> {
    match p {
        PartView::Text { text } => Some(BlockView::Text(text)),
        PartView::Image { source } => match base64_decoded(source.data) {
            Some(bytes) => Some(BlockView::Image { format: source.media_type, bytes }),
            None => None,
        },
        PartView::ToolResult { tool_use_id, content } => Some(
            BlockView::ToolResult { tool_use_id, text: content },
        ),
        PartView::ToolUse { id, name, input } => Some(
            BlockView::ToolUse { tool_use_id: id, name, input },
        ),
        PartView::TextDelta { .. } => None,
        PartView::InputJsonDelta { .. } => None,
    }
}

/// The gateway blocks for the kept parts, in order, when each has one.
pub open spec fn blocks_of(parts: Seq<PartView>, only_results: bool) -> Option<Seq<BlockView>>
    decreases parts.len(),
{
    if parts.len() == 0 {
        Some(Seq::empty())
    } else {
        match blocks_of(parts.drop_last(), only_results) {
            None => None,
            Some(bs) => if !kept(only_results, parts.last()) {
                Some(bs)
            } else {
                match block_of_part(parts.last()) {
                    Some(b) => Some(bs.push(b)),
                    None => None,
                }
            },
        }
    }
}

/// The gateway's form of a turn, if it has one.
pub open spec fn converse_blocks_of(c: ContentView) -> Option<Seq<BlockView>> {
    match c {
        ContentView::Single(t) => Some(seq![BlockView::Text(t)]),
        ContentView::Multi(parts) => blocks_of(parts, has_tool_result(parts)),
    }
}

fn any_tool_result(parts: &Vec<ContentPart>) -> (r: bool)
    ensures
        r == has_tool_result(parts_view(parts@)),
{
    let mut i: usize = 0;
    while i < parts.len()
        invariant
            i <= parts@.len(),
            forall|k: int| 0 <= k < i ==> !((#[trigger] parts@[k])@ is ToolResult),
        decreases parts@.len() - i,
    {
        if let ContentPart::ToolResult { .. } = &parts[i] {
            assert(parts_view(parts@)[i as int] is ToolResult);
            return true;
        }
        i = i + 1;
    }
    assert forall|k: int| 0 <= k < parts@.len() implies !(#[trigger] parts_view(parts@)[k] is ToolResult) by {
        assert(!(parts@[k]@ is ToolResult));
    }
    false
}

fn block_from_part(p: &ContentPart) -> (r: Option<ConverseBlock>)
    ensures
        match r {
            Some(b) => block_of_part(p@) == Some(b@),
            None => block_of_part(p@) is None,
        },
{
    match p {
        ContentPart::Text { text } => Some(ConverseBlock::Text(text.clone())),
        ContentPart::Image { source } => match decode_base64(source.data.as_str()) {
            Some(bytes) => Some(ConverseBlock::Image { format: source.media_type, bytes }),
            None => None,
        },
        ContentPart::ToolResult { tool_use_id, content } => Some(
            ConverseBlock::ToolResult { tool_use_id: tool_use_id.clone(), text: content.clone() },
        ),
        ContentPart::ToolUse { id, name, input } => Some(
            ConverseBlock::ToolUse { tool_use_id: id.clone(), name: name.clone(), input: copy_json(input) },
        ),
        ContentPart::TextDelta { .. } => None,
        ContentPart::InputJsonDelta { .. } => None,
    }
}

/// The gateway's form of a turn: a bare text is one text block; of a list
/// of parts only the tool results are sent when there are any. A validation
/// error names `messages` when a part has no gateway form (a streamed
/// fragment, or an image whose data is not base64).
pub fn converse_message(m: &Message) -> (r: Result<ConverseMessage, ClientError>)
    ensures
        match converse_blocks_of(m.content@) {
            Some(bs) => r matches Ok(c) && c.role == m.role && blocks_view(c.content@) == bs,
            None => r matches Err(e) && e@ == ClientErrorView::Validation("messages"@),
        },
{
    match &m.content {
        Content::Single(t) => {
            let content = vec![ConverseBlock::Text(t.clone())];
            assert(blocks_view(content@) =~= seq![BlockView::Text(t@)]);
            Ok(ConverseMessage { role: m.role, content })
        },
        Content::Multi(parts) => {
            let only = any_tool_result(parts);
            let ghost pv = parts_view(parts@);
            let mut out: Vec<ConverseBlock> = Vec::new();
            let mut i: usize = 0;
            assert(pv.subrange(0, 0) =~= Seq::<PartView>::empty());
            while i < parts.len()
                invariant
                    i <= parts@.len(),
                    pv == parts_view(parts@),
                    m.content@ == ContentView::Multi(pv),
                    only == has_tool_result(pv),
                    blocks_of(pv.subrange(0, i as int), only) == Some(blocks_view(out@)),
                decreases parts@.len() - i,
            {
                let ghost pre = pv.subrange(0, i as int);
                let ghost next = pv.subrange(0, i + 1);
                assert(next.drop_last() =~= pre);
                assert(next.last() == parts@[i as int]@);
                let keep = match &parts[i] {
                    ContentPart::ToolResult { .. } => true,
                    _ => !only,
                };
                if keep {
                    match block_from_part(&parts[i]) {
                        Some(b) => {
                            let ghost before = out@;
                            let ghost bv = b@;
                            out.push(b);
                            assert(blocks_view(out@) =~= blocks_view(before).push(bv));
                            assert(blocks_of(next, only) == Some(blocks_view(out@)));
                        },
                        None => {
                            assert(blocks_of(next, only) is None);
                            proof {
                                lemma_blocks_of_fails(pv, only, i as int + 1);
                            }
                            assert(pv.subrange(0, pv.len() as int) =~= pv);
                            assert(m.content@ == ContentView::Multi(pv));
                            return Err(ClientError::Validation(String::from_str("messages")));
                        },
                    }
                } else {
                    assert(blocks_of(next, only) == Some(blocks_view(out@)));
                }
                i = i + 1;
            }
            assert(pv.subrange(0, pv.len() as int) =~= pv);
            assert(m.content@ == ContentView::Multi(pv));
            Ok(ConverseMessage { role: m.role, content: out })
        },
    }
}

/// Once the blocks of a prefix fail, those of any longer prefix fail too.
proof fn lemma_blocks_of_fails(parts: Seq<PartView>, only: bool, k: int)
    requires
        0 <= k <= parts.len(),
        blocks_of(parts.subrange(0, k), only) is None,
    ensures
        blocks_of(parts.subrange(0, parts.len() as int), only) is None,
    decreases parts.len() - k,
{
    if k < parts.len() {
        let next = parts.subrange(0, k + 1);
        assert(next.drop_last() =~= parts.subrange(0, k));
        lemma_blocks_of_fails(parts, only, k + 1);
    }
}

/// The text parts of a system prompt, in order; images and tool parts are
/// dropped, and a streamed fragment leaves the prompt with no gateway form.
pub open spec fn system_texts_of(parts: Seq<PartView>) -> Option<Seq<Seq<char>>>
    decreases parts.len(),
{
    if parts.len() == 0 {
        Some(Seq::empty())
    } else {
        match system_texts_of(parts.drop_last()) {
            None => None,
            Some(rest) => match parts.last() {
                PartView::Text { text } => Some(rest.push(text)),
                PartView::TextDelta { .. } => None,
                PartView::InputJsonDelta { .. } => None,
                _ => Some(rest),
            },
        }
    }
}

pub open spec fn system_blocks_of(c: ContentView) -> Option<Seq<Seq<char>>> {
    match c {
        ContentView::Single(t) => Some(seq![t]),
        ContentView::Multi(parts) => system_texts_of(parts),
    }
}

/// Once the texts of a prefix fail, those of any longer prefix fail too.
proof fn lemma_system_texts_fail(parts: Seq<PartView>, k: int)
    requires
        0 <= k <= parts.len(),
        system_texts_of(parts.subrange(0, k)) is None,
    ensures
        system_texts_of(parts) is None,
    decreases parts.len() - k,
{
    if k < parts.len() {
        let next = parts.subrange(0, k + 1);
        assert(next.drop_last() =~= parts.subrange(0, k));
        lemma_system_texts_fail(parts, k + 1);
    } else {
        assert(parts.subrange(0, k) =~= parts);
    }
}

/// The gateway's system prompt: a bare text, or the text parts of a list.
/// A validation error names `system` when the prompt holds a streamed
/// fragment, which may never be sent.
pub fn system_blocks(system: &Content) -> (r: Result<Vec<String>, ClientError>)
    ensures
        match system_blocks_of(system@) {
            Some(ts) => r matches Ok(v) && texts_view(v@) == ts,
            None => r matches Err(e) && e@ == ClientErrorView::Validation("system"@),
        },
{
    match system {
        Content::Single(t) => {
            let r = vec![t.clone()];
            assert(texts_view(r@) =~= seq![t@]);
            Ok(r)
        },
        Content::Multi(parts) => {
            let ghost pv = parts_view(parts@);
            let mut out: Vec<String> = Vec::new();
            let mut i: usize = 0;
            assert(pv.subrange(0, 0) =~= Seq::<PartView>::empty());
            assert(texts_view(out@) =~= Seq::<Seq<char>>::empty());
            while i < parts.len()
                invariant
                    i <= parts@.len(),
                    pv == parts_view(parts@),
                    system@ == ContentView::Multi(pv),
                    system_texts_of(pv.subrange(0, i as int)) == Some(texts_view(out@)),
                decreases parts@.len() - i,
            {
                let ghost pre = pv.subrange(0, i as int);
                let ghost next = pv.subrange(0, i + 1);
                assert(next.drop_last() =~= pre);
                assert(next.last() == parts@[i as int]@);
                match &parts[i] {
                    ContentPart::Text { text } => {
                        let ghost before = out@;
                        out.push(text.clone());
                        assert(texts_view(out@) =~= texts_view(before).push(text@));
                    },
                    ContentPart::TextDelta { .. } | ContentPart::InputJsonDelta { .. } => {
                        assert(system_texts_of(next) is None);
                        proof {
                            lemma_system_texts_fail(pv, i as int + 1);
                        }
                        return Err(ClientError::Validation(String::from_str("system")));
                    },
                    _ => {},
                }
                i = i + 1;
            }
            assert(pv.subrange(0, pv.len() as int) =~= pv);
            Ok(out)
        },
    }
}

// ----- the gateway's answer -----

/// The canonical part for a gateway block: an image's bytes are written
/// back as base64.
pub open spec fn part_of_block(b: BlockView) -> PartView {
    match b {
        BlockView::Text(t) => PartView::Text { text: t },
        BlockView::Image { format, bytes } => PartView::Image {
            source: ImageSourceView {
                kind: "image"@,
                media_type: format,
                data: base64_encoded(bytes),
            },
        },
        BlockView::ToolResult { tool_use_id, text } => PartView::ToolResult {
            tool_use_id,
            content: text,
        },
        BlockView::ToolUse { tool_use_id, name, input } => PartView::ToolUse {
            id: tool_use_id,
            name,
            input,
        },
    }
}

/// The canonical response to a gateway answer.
pub open spec fn response_of_converse(
    request_id: Seq<char>,
    model: Seq<char>,
    blocks: Seq<BlockView>,
    stop_reason: StopReason,
    usage: NativeUsage,
) -> ResponseView {
    ResponseView {
        id: request_id,
        model,
        role: "assistant"@,
        content: blocks.map_values(|b: BlockView| part_of_block(b)),
        stop_reason: Some(stop_reason),
        stop_sequence: None,
        usage: Usage { input_tokens: Some(usage.input_tokens), output_tokens: usage.output_tokens },
    }
}

/// The canonical response to a gateway answer: its blocks as parts, its
/// stop reason and its usage, under the request's identifier and model.
pub fn response_from_converse(
    request_id: String,
    model: String,
    blocks: Vec<ConverseBlock>,
    stop_reason: StopReason,
    usage: NativeUsage,
) -> (r: MessageResponse)
    ensures
        r@ == response_of_converse(request_id@, model@, blocks_view(blocks@), stop_reason, usage),
{
    let mut content: Vec<ContentPart> = Vec::new();
    let mut i: usize = 0;
    while i < blocks.len()
        invariant
            i <= blocks@.len(),
            content@.len() == i,
            forall|k: int| 0 <= k < i ==> (#[trigger] content@[k])@ == part_of_block(blocks@[k]@),
        decreases blocks@.len() - i,
    {
        let part = match &blocks[i] {
            ConverseBlock::Text(t) => ContentPart::Text { text: t.clone() },
            ConverseBlock::Image { format, bytes } => ContentPart::Image {
                source: ImageSource {
                    kind: String::from_str("image"),
                    media_type: *format,
                    data: encode_base64(bytes),
                },
            },
            ConverseBlock::ToolResult { tool_use_id, text } => ContentPart::ToolResult {
                tool_use_id: tool_use_id.clone(),
                content: text.clone(),
            },
            ConverseBlock::ToolUse { tool_use_id, name, input } => ContentPart::ToolUse {
                id: tool_use_id.clone(),
                name: name.clone(),
                input: copy_json(input),
            },
        };
        content.push(part);
        i = i + 1;
    }
    let r = MessageResponse {
        id: request_id,
        model,
        role: String::from_str("assistant"),
        content,
        stop_reason: Some(stop_reason),
        stop_sequence: None,
        usage: Usage { input_tokens: Some(usage.input_tokens), output_tokens: usage.output_tokens },
    };
    assert(parts_view(r.content@) =~= blocks_view(blocks@).map_values(|b: BlockView| part_of_block(b)));
    r
}

} // verus!
