//! The Anthropic Messages API: request conversion, response conversion and
//! the reading of its named-event stream.
//!
//! System messages move into the top-level `system` field, tool results
//! become `tool_result` blocks of a user turn, assistant tool calls become
//! `tool_use` blocks, and `max_tokens` (required by Anthropic) defaults to
//! 4096.
use vstd::prelude::*;

use crate::providers::convert::{join, lemma_join_push, non_system, system_texts, text_or_empty};
use crate::providers::helpers::{data_url_parts, parse_data_url};
use crate::text::{concat2, copy_opt, str_eq};
use crate::types::message::{
    content_text, ChatMessage, ContentPart, DocumentInput, MessageContent, Role,
};
use crate::types::request::ChatRequest;
use crate::types::response::{
    simple_chunk, AnthropicStreamDelta, AnthropicStreamEvent, ChatChoice, ChatResponse, StreamChunk,
    Usage,
};
use crate::types::tools::{FunctionCall, Tool, ToolCall, ToolChoice, ToolChoicePreset};
use crate::vecs::reversed;

verus! {

/// The default API root.
pub const ANTHROPIC_BASE_URL: &'static str = "https://api.anthropic.com/v1";

/// The API version sent in the `anthropic-version` header.
pub const ANTHROPIC_VERSION: &'static str = "2023-06-01";

/// `max_tokens` when the request does not set it.
pub const DEFAULT_MAX_TOKENS: u32 = 4096;

/// A Messages API request body.
#[derive(Debug, Clone)]
pub struct AnthropicRequest {
    pub model: String,
    pub max_tokens: u32,
    pub messages: Vec<AnthropicMessage>,
    /// Omitted when absent.
    pub system: Option<String>,
    /// Omitted when false.
    pub stream: bool,
    /// Sampling temperature, as the bit pattern of an `f32`; omitted when absent.
    pub temperature: Option<u32>,
    pub tools: Option<Vec<AnthropicTool>>,
    pub tool_choice: Option<AnthropicToolChoice>,
}

/// A tool declaration in Anthropic's format.
#[derive(Debug, Clone)]
pub struct AnthropicTool {
    pub name: String,
    pub description: Option<String>,
    pub input_schema: serde_json::Value,
}

/// Anthropic's tool choice: `auto`, `any`, `none`, or `tool` with a name.
#[derive(Debug, Clone)]
pub struct AnthropicToolChoice {
    pub choice_type: String,
    pub name: Option<String>,
}

/// One turn of the conversation.
#[derive(Debug, Clone)]
pub struct AnthropicMessage {
    pub role: String,
    pub content: AnthropicMessageContent,
}

/// Plain text or a list of typed content blocks.
#[derive(Debug, Clone)]
pub enum AnthropicMessageContent {
    Text(String),
    Parts(Vec<AnthropicContentBlock>),
}

/// A typed content block.
#[derive(Debug, Clone)]
pub enum AnthropicContentBlock {
    Text { text: String },
    Image { source: AnthropicImageSource },
    Document { source: AnthropicDocumentSource },
    /// A tool call made by the assistant. `input` is the JSON value that the
    /// call's arguments denote; none (sent as `null`) when they are not JSON.
    ToolUse { id: String, name: String, input: Option<serde_json::Value> },
    ToolResult { tool_use_id: String, content: String },
}

/// Where an image comes from: inline base64 data or a URL.
#[derive(Debug, Clone)]
pub enum AnthropicImageSource {
    Base64 { media_type: String, data: String },
    Url { url: String },
}

/// An inline base64 document.
#[derive(Debug, Clone)]
pub struct AnthropicDocumentSource {
    pub media_type: String,
    pub data: String,
}

/// A Messages API response.
#[derive(Debug, Clone)]
pub struct AnthropicResponse {
    pub id: String,
    pub model: String,
    pub content: Vec<AnthropicContent>,
    pub stop_reason: Option<String>,
    pub usage: AnthropicUsage,
}

/// A content block of a response.
#[derive(Debug, Clone)]
pub struct AnthropicContent {
    /// The block's `type`: `text`, `tool_use`, ...
    pub content_type: String,
    pub text: Option<String>,
    /// Present on `tool_use` blocks.
    pub id: Option<String>,
    pub name: Option<String>,
    /// The `input` of a `tool_use` block, as compact JSON text.
    pub input: Option<String>,
}

/// Token counts of a response.
#[derive(Debug, Clone, Copy)]
pub struct AnthropicUsage {
    pub input_tokens: u32,
    pub output_tokens: u32,
}

/// A model listing entry.
#[derive(Debug, Clone)]
pub struct AnthropicModelEntry {
    pub id: String,
    pub display_name: Option<String>,
}

// ── Specification of the conversions ─────────────────────────────────────────

pub open spec fn is_audio(p: ContentPart) -> bool {
    p is InputAudio
}

/// The parts that Anthropic keeps: everything but audio, in order.
pub open spec fn kept_parts(parts: Seq<ContentPart>) -> Seq<ContentPart>
    decreases parts.len(),
{
    if parts.len() == 0 {
        Seq::empty()
    } else if is_audio(parts.last()) {
        kept_parts(parts.drop_last())
    } else {
        kept_parts(parts.drop_last()).push(parts.last())
    }
}

/// `b` is the block that a (non-audio) content part becomes.
pub open spec fn part_block(p: ContentPart, b: AnthropicContentBlock) -> bool {
    match p {
        ContentPart::Text { text } => b matches AnthropicContentBlock::Text { text: t } && t@
            == text@,
        ContentPart::ImageUrl { image_url } => match data_url_parts(image_url.url@) {
            Some((m, d)) => b matches AnthropicContentBlock::Image {
                source: AnthropicImageSource::Base64 { media_type, data },
            } && media_type@ == m && data@ == d,
            None => b matches AnthropicContentBlock::Image {
                source: AnthropicImageSource::Url { url },
            } && url@ == image_url.url@,
        },
        ContentPart::Document { document } => b matches AnthropicContentBlock::Document {
            source,
        } && source.media_type == document.media_type && source.data == document.data,
        ContentPart::InputAudio { .. } => false,
    }
}

/// `blocks` are the blocks of `parts`: one per kept part, in order.
pub open spec fn part_blocks(parts: Seq<ContentPart>, blocks: Seq<AnthropicContentBlock>) -> bool {
    let kept = kept_parts(parts);
    &&& blocks.len() == kept.len()
    &&& forall|i: int| 0 <= i < blocks.len() ==> part_block(kept[i], #[trigger] blocks[i])
}

/// `b` is the `tool_use` block of a tool call.
pub open spec fn tool_use_block(tc: ToolCall, b: AnthropicContentBlock) -> bool {
    b matches AnthropicContentBlock::ToolUse { id, name, input } && id == tc.id && name
        == tc.function.name && input == crate::types::tools::json_parsed(tc.function.arguments@)
}

/// The number of blocks that the content of an assistant turn with tool
/// calls contributes: a non-empty text, or the kept parts.
pub open spec fn lead_len(c: MessageContent) -> int {
    match c {
        MessageContent::Text(s) => if s@.len() > 0 {
            1
        } else {
            0
        },
        MessageContent::Parts(ps) => kept_parts(ps@).len() as int,
    }
}

/// `blocks` are the content blocks followed by one `tool_use` block per call.
pub open spec fn assistant_blocks(
    c: MessageContent,
    calls: Seq<ToolCall>,
    blocks: Seq<AnthropicContentBlock>,
) -> bool {
    let lead = lead_len(c);
    &&& blocks.len() == lead + calls.len()
    &&& match c {
        MessageContent::Text(s) => s@.len() > 0 ==> (blocks[0] matches AnthropicContentBlock::Text {
            text,
        } && text@ == s@),
        MessageContent::Parts(ps) => part_blocks(ps@, blocks.subrange(0, lead)),
    }
    &&& forall|j: int| 0 <= j < calls.len() ==> tool_use_block(calls[j], #[trigger] blocks[lead + j])
}

/// `am` is the Anthropic turn of the (non-system) message `m`.
pub open spec fn anthropic_message(m: ChatMessage, am: AnthropicMessage) -> bool {
    if m.role == Role::Tool {
        &&& am.role@ == "user"@
        &&& am.content matches AnthropicMessageContent::Parts(bs)
        &&& bs@.len() == 1
        &&& bs@[0] matches AnthropicContentBlock::ToolResult { tool_use_id, content }
        &&& tool_use_id@ == text_or_empty(m.tool_call_id)
        &&& content@ == content_text(m.content)
    } else if m.tool_calls is Some {
        &&& am.role@ == "assistant"@
        &&& am.content matches AnthropicMessageContent::Parts(bs)
        &&& assistant_blocks(m.content, m.tool_calls.unwrap()@, bs@)
    } else {
        &&& am.role@ == (if m.role == Role::Assistant {
            "assistant"@
        } else {
            "user"@
        })
        &&& match m.content {
            MessageContent::Text(s) => am.content matches AnthropicMessageContent::Text(t) && t == s,
            MessageContent::Parts(ps) => am.content matches AnthropicMessageContent::Parts(bs)
                && part_blocks(ps@, bs@),
        }
    }
}

/// Anthropic's name for a tool choice.
pub open spec fn anthropic_choice(tc: ToolChoice, ac: AnthropicToolChoice) -> bool {
    match tc {
        ToolChoice::Preset(ToolChoicePreset::Auto) => ac.choice_type@ == "auto"@ && ac.name is None,
        ToolChoice::Preset(ToolChoicePreset::Required) => ac.choice_type@ == "any"@ && ac.name is None,
        ToolChoice::Preset(ToolChoicePreset::NoTools) => ac.choice_type@ == "none"@ && ac.name
            is None,
        ToolChoice::Function(f) => ac.choice_type@ == "tool"@ && ac.name == Some(f.function.name),
    }
}

/// `at` is the Anthropic declaration of tool `t`.
pub open spec fn anthropic_tool(t: Tool, at: AnthropicTool) -> bool {
    &&& at.name == t.function.name
    &&& at.description == t.function.description
    &&& at.input_schema == t.function.parameters
}

// ── Conversions ──────────────────────────────────────────────────────────────

fn part_to_block(p: &ContentPart) -> (r: Option<AnthropicContentBlock>)
    ensures
        is_audio(*p) <==> r is None,
        r matches Some(b) ==> part_block(*p, b),
{
    match p {
        ContentPart::Text { text } => Some(AnthropicContentBlock::Text { text: text.clone() }),
        ContentPart::ImageUrl { image_url } => {
            match parse_data_url(image_url.url.as_str()) {
                Some((media_type, data)) => Some(
                    AnthropicContentBlock::Image {
                        source: AnthropicImageSource::Base64 { media_type, data },
                    },
                ),
                None => Some(
                    AnthropicContentBlock::Image {
                        source: AnthropicImageSource::Url { url: image_url.url.clone() },
                    },
                ),
            }
        },
        ContentPart::Document { document } => Some(
            AnthropicContentBlock::Document {
                source: AnthropicDocumentSource {
                    media_type: document.media_type.clone(),
                    data: document.data.clone(),
                },
            },
        ),
        ContentPart::InputAudio { .. } => None,
    }
}

/// The blocks of a list of content parts; audio parts are dropped, since
/// Anthropic does not take audio input.
pub fn content_parts_to_anthropic(parts: &Vec<ContentPart>) -> (r: Vec<AnthropicContentBlock>)
    ensures
        part_blocks(parts@, r@),
{
    let mut out: Vec<AnthropicContentBlock> = Vec::new();
    let mut i: usize = 0;
    while i < parts.len()
        invariant
            0 <= i <= parts.len(),
            part_blocks(parts@.subrange(0, i as int), out@),
        decreases parts.len() - i,
    {
        let ghost pre = parts@.subrange(0, i as int);
        assert(parts@.subrange(0, i + 1).drop_last() =~= pre);
        assert(parts@.subrange(0, i + 1).last() == parts@[i as int]);
        match part_to_block(&parts[i]) {
            Some(b) => {
                out.push(b);
                assert(part_blocks(parts@.subrange(0, i + 1), out@)) by {
                    let kept = kept_parts(parts@.subrange(0, i + 1));
                    assert(kept == kept_parts(pre).push(parts@[i as int]));
                    assert forall|j: int| 0 <= j < out@.len() implies part_block(
                        kept[j],
                        #[trigger] out@[j],
                    ) by {
                        if j < out@.len() - 1 {
                            assert(kept[j] == kept_parts(pre)[j]);
                        }
                    }
                }
            },
            None => {
                assert(kept_parts(parts@.subrange(0, i + 1)) == kept_parts(pre));
            },
        }
        i = i + 1;
    }
    assert(parts@.subrange(0, parts@.len() as int) =~= parts@);
    out
}

fn tool_use_blocks(calls: &Vec<ToolCall>, blocks: &mut Vec<AnthropicContentBlock>)
    ensures
        final(blocks)@.len() == old(blocks)@.len() + calls@.len(),
        final(blocks)@.subrange(0, old(blocks)@.len() as int) == old(blocks)@,
        forall|j: int|
            0 <= j < calls@.len() ==> tool_use_block(
                calls@[j],
                #[trigger] final(blocks)@[old(blocks)@.len() + j],
            ),
{
    let ghost start = blocks@;
    let mut i: usize = 0;
    while i < calls.len()
        invariant
            0 <= i <= calls.len(),
            blocks@.len() == start.len() + i,
            blocks@.subrange(0, start.len() as int) == start,
            forall|j: int| 0 <= j < i ==> tool_use_block(calls@[j], #[trigger] blocks@[start.len() + j]),
        decreases calls.len() - i,
    {
        let tc = &calls[i];
        blocks.push(
            AnthropicContentBlock::ToolUse {
                id: tc.id.clone(),
                name: tc.function.name.clone(),
                input: crate::types::tools::json_parse(tc.function.arguments.as_str()),
            },
        );
        assert(blocks@.subrange(0, start.len() as int) =~= start);
        i = i + 1;
    }
}

/// The Anthropic turn of a (non-system) message.
pub fn to_anthropic_message(m: &ChatMessage) -> (r: AnthropicMessage)
    ensures
        anthropic_message(*m, r),
{
    if m.role == Role::Tool {
        let tool_use_id = match &m.tool_call_id {
            Some(id) => id.clone(),
            None => String::new(),
        };
        let mut blocks: Vec<AnthropicContentBlock> = Vec::new();
        blocks.push(
            AnthropicContentBlock::ToolResult { tool_use_id, content: m.content.to_text_lossy() },
        );
        return AnthropicMessage {
            role: String::from_str("user"),
            content: AnthropicMessageContent::Parts(blocks),
        };
    }
    if let Some(tool_calls) = &m.tool_calls {
        let mut blocks: Vec<AnthropicContentBlock> = match &m.content {
            MessageContent::Text(s) => {
                let mut v: Vec<AnthropicContentBlock> = Vec::new();
                if !s.as_str().is_empty() {
                    v.push(AnthropicContentBlock::Text { text: s.clone() });
                }
                v
            },
            MessageContent::Parts(parts) => content_parts_to_anthropic(parts),
        };
        let ghost lead = blocks@;
        tool_use_blocks(tool_calls, &mut blocks);
        proof {
            assert(lead.len() == lead_len(m.content));
            assert(blocks@.subrange(0, lead_len(m.content)) == lead);
            if m.content is Text && lead.len() > 0 {
                assert(blocks@[0] == blocks@.subrange(0, lead_len(m.content))[0]);
            }
        }
        return AnthropicMessage {
            role: String::from_str("assistant"),
            content: AnthropicMessageContent::Parts(blocks),
        };
    }
    let content = match &m.content {
        MessageContent::Text(s) => AnthropicMessageContent::Text(s.clone()),
        MessageContent::Parts(parts) => AnthropicMessageContent::Parts(
            content_parts_to_anthropic(parts),
        ),
    };
    let role = match m.role {
        Role::Assistant => String::from_str("assistant"),
        _ => String::from_str("user"),
    };
    AnthropicMessage { role, content }
}

/// Anthropic's form of a tool choice (`required` becomes `any`).
pub fn to_anthropic_tool_choice(tc: &ToolChoice) -> (r: AnthropicToolChoice)
    ensures
        anthropic_choice(*tc, r),
{
    match tc {
        ToolChoice::Preset(ToolChoicePreset::Auto) => AnthropicToolChoice {
            choice_type: String::from_str("auto"),
            name: None,
        },
        ToolChoice::Preset(ToolChoicePreset::Required) => AnthropicToolChoice {
            choice_type: String::from_str("any"),
            name: None,
        },
        ToolChoice::Preset(ToolChoicePreset::NoTools) => AnthropicToolChoice {
            choice_type: String::from_str("none"),
            name: None,
        },
        ToolChoice::Function(f) => AnthropicToolChoice {
            choice_type: String::from_str("tool"),
            name: Some(f.function.name.clone()),
        },
    }
}

/// The Messages API body of a chat request.
pub fn to_anthropic_request(request: &ChatRequest, stream: bool) -> (r: AnthropicRequest)
    ensures
        r.model == request.model,
        r.max_tokens == (match request.max_tokens {
            Some(n) => n,
            None => DEFAULT_MAX_TOKENS,
        }),
        system_texts(request.messages@).len() == 0 ==> r.system is None,
        system_texts(request.messages@).len() > 0 ==> (r.system matches Some(s) && s@ == join(
            system_texts(request.messages@),
            "\n"@,
        )),
        r.messages@.len() == non_system(request.messages@).len(),
        forall|i: int|
            0 <= i < r.messages@.len() ==> anthropic_message(
                non_system(request.messages@)[i],
                #[trigger] r.messages@[i],
            ),
        r.stream == stream,
        r.temperature == request.temperature,
        request.tools is None ==> r.tools is None,
        request.tools matches Some(ts) ==> (r.tools matches Some(ats) && ats@.len() == ts@.len()
            && forall|i: int| 0 <= i < ts@.len() ==> anthropic_tool(ts@[i], #[trigger] ats@[i])),
        request.tool_choice is None ==> r.tool_choice is None,
        request.tool_choice matches Some(tc) ==> (r.tool_choice matches Some(ac)
            && anthropic_choice(tc, ac)),
{
    let msgs = &request.messages;
    let mut system = String::new();
    let mut n_system: usize = 0;
    let mut messages: Vec<AnthropicMessage> = Vec::new();
    let mut i: usize = 0;
    while i < msgs.len()
        invariant
            0 <= i <= msgs.len(),
            n_system == system_texts(msgs@.subrange(0, i as int)).len(),
            n_system <= i,
            n_system > 0 ==> system@ == join(system_texts(msgs@.subrange(0, i as int)), "\n"@),
            n_system == 0 ==> system@.len() == 0,
            messages@.len() == non_system(msgs@.subrange(0, i as int)).len(),
            forall|j: int|
                0 <= j < messages@.len() ==> anthropic_message(
                    non_system(msgs@.subrange(0, i as int))[j],
                    #[trigger] messages@[j],
                ),
        decreases msgs.len() - i,
    {
        let ghost pre = msgs@.subrange(0, i as int);
        assert(msgs@.subrange(0, i + 1).drop_last() =~= pre);
        assert(msgs@.subrange(0, i + 1).last() == msgs@[i as int]);
        let m = &msgs[i];
        if m.role == Role::System {
            let text = m.content.to_text_lossy();
            proof {
                lemma_join_push(system_texts(pre), "\n"@, text@);
                reveal_strlit("\n");
            }
            if n_system > 0 {
                system.append("\n");
                system.append(text.as_str());
            } else {
                system.append(text.as_str());
                assert(system@ =~= text@);
            }
            n_system = n_system + 1;
            assert(system_texts(msgs@.subrange(0, i + 1)) == system_texts(pre).push(text@));
        } else {
            let am = to_anthropic_message(m);
            messages.push(am);
            assert(system_texts(msgs@.subrange(0, i + 1)) == system_texts(pre));
            proof {
                let ns = non_system(msgs@.subrange(0, i + 1));
                assert(ns == non_system(pre).push(*m));
                assert forall|j: int| 0 <= j < messages@.len() implies anthropic_message(
                    ns[j],
                    #[trigger] messages@[j],
                ) by {
                    if j < messages@.len() - 1 {
                        assert(ns[j] == non_system(pre)[j]);
                    }
                }
            }
        }
        i = i + 1;
    }
    assert(msgs@.subrange(0, msgs@.len() as int) =~= msgs@);
    let tools = match &request.tools {
        Some(ts) => {
            let mut out: Vec<AnthropicTool> = Vec::new();
            let mut k: usize = 0;
            while k < ts.len()
                invariant
                    0 <= k <= ts.len(),
                    out@.len() == k,
                    forall|j: int| 0 <= j < k ==> anthropic_tool(ts@[j], #[trigger] out@[j]),
                decreases ts.len() - k,
            {
                let t = &ts[k];
                out.push(
                    AnthropicTool {
                        name: t.function.name.clone(),
                        description: copy_opt(&t.function.description),
                        input_schema: t.function.parameters.clone(),
                    },
                );
                k = k + 1;
            }
            Some(out)
        },
        None => None,
    };
    let tool_choice = match &request.tool_choice {
        Some(tc) => Some(to_anthropic_tool_choice(tc)),
        None => None,
    };
    AnthropicRequest {
        model: request.model.clone(),
        max_tokens: match request.max_tokens {
            Some(n) => n,
            None => DEFAULT_MAX_TOKENS,
        },
        messages,
        system: if n_system > 0 {
            Some(system)
        } else {
            None
        },
        stream,
        temperature: request.temperature,
        tools,
        tool_choice,
    }
}

/// The text of a response block: its text when it is a `text` block.
pub open spec fn block_text(b: AnthropicContent) -> Seq<char> {
    if b.content_type@ == "text"@ && b.text is Some {
        b.text.unwrap()@
    } else {
        Seq::empty()
    }
}

/// The text blocks of a response, concatenated.
pub open spec fn blocks_text(bs: Seq<AnthropicContent>) -> Seq<char>
    decreases bs.len(),
{
    if bs.len() == 0 {
        Seq::empty()
    } else {
        blocks_text(bs.drop_last()) + block_text(bs.last())
    }
}

/// The text of a response is every text block's text, in order: the text
/// of two runs of blocks one after the other is the first's text followed
/// by the second's; one text block gives its text, and any other block
/// gives nothing.
pub proof fn law_response_text_concatenates_text_blocks(
    a: Seq<AnthropicContent>,
    b: Seq<AnthropicContent>,
    x: AnthropicContent,
)
    ensures
        blocks_text(a + b) == blocks_text(a) + blocks_text(b),
        x.content_type@ == "text"@ && x.text is Some ==> blocks_text(seq![x]) == x.text.unwrap()@,
        !(x.content_type@ == "text"@ && x.text is Some) ==> blocks_text(seq![x]).len() == 0,
        blocks_text(a.push(x)) == blocks_text(a) + blocks_text(seq![x]),
    decreases b.len(),
{
    assert(seq![x].drop_last() =~= Seq::<AnthropicContent>::empty());
    assert(seq![x].last() == x);
    assert(blocks_text(Seq::<AnthropicContent>::empty()) =~= Seq::<char>::empty());
    assert(blocks_text(seq![x]) =~= block_text(x));
    assert(a.push(x).drop_last() =~= a);
    if b.len() == 0 {
        assert(a + b =~= a);
        assert(blocks_text(b) =~= Seq::<char>::empty());
        assert(blocks_text(a) + blocks_text(b) =~= blocks_text(a));
    } else {
        law_response_text_concatenates_text_blocks(a, b.drop_last(), x);
        assert((a + b).drop_last() =~= a + b.drop_last());
        assert((a + b).last() == b.last());
        assert(blocks_text(a + b) =~= blocks_text(a) + blocks_text(b));
    }
}

/// A `tool_use` block that names its call: it becomes a tool call.
pub open spec fn is_call_block(b: AnthropicContent) -> bool {
    b.content_type@ == "tool_use"@ && b.id is Some && b.name is Some
}

/// The blocks of a response that become tool calls, in order.
pub open spec fn call_blocks(bs: Seq<AnthropicContent>) -> Seq<AnthropicContent>
    decreases bs.len(),
{
    if bs.len() == 0 {
        Seq::empty()
    } else if is_call_block(bs.last()) {
        call_blocks(bs.drop_last()).push(bs.last())
    } else {
        call_blocks(bs.drop_last())
    }
}

/// `tc` is the tool call of block `b`; arguments default to `{}`.
pub open spec fn block_call(b: AnthropicContent, tc: ToolCall) -> bool {
    &&& Some(tc.id) == b.id
    &&& tc.call_type@ == "function"@
    &&& Some(tc.function.name) == b.name
    &&& tc.function.arguments@ == (match b.input {
        Some(j) => j@,
        None => "{}"@,
    })
}

/// The calls of a response: one per call block, in order.
pub open spec fn response_calls(bs: Seq<AnthropicContent>, calls: Seq<ToolCall>) -> bool {
    let cb = call_blocks(bs);
    &&& calls.len() == cb.len()
    &&& forall|i: int| 0 <= i < calls.len() ==> block_call(cb[i], #[trigger] calls[i])
}

/// The unified response of a Messages API response: one assistant choice
/// holding the concatenated text blocks and the tool calls, with usage
/// summed.
pub fn from_anthropic_response(resp: AnthropicResponse) -> (r: ChatResponse)
    requires
        resp.usage.input_tokens + resp.usage.output_tokens <= u32::MAX,
    ensures
        r.id == resp.id,
        r.model == resp.model,
        r.choices@.len() == 1,
        r.choices@[0].index == 0,
        r.choices@[0].finish_reason == resp.stop_reason,
        r.choices@[0].message.role == Role::Assistant,
        r.choices@[0].message.content matches MessageContent::Text(t) && t@ == blocks_text(
            resp.content@,
        ),
        r.choices@[0].message.audio is None,
        r.choices@[0].message.tool_call_id is None,
        call_blocks(resp.content@).len() == 0 ==> r.choices@[0].message.tool_calls is None,
        call_blocks(resp.content@).len() > 0 ==> (r.choices@[0].message.tool_calls matches Some(
            calls,
        ) && response_calls(resp.content@, calls@)),
        r.usage == Some(
            Usage {
                prompt_tokens: resp.usage.input_tokens,
                completion_tokens: resp.usage.output_tokens,
                total_tokens: (resp.usage.input_tokens + resp.usage.output_tokens) as u32,
            },
        ),
        r.citations is None,
{
    let bs = &resp.content;
    let mut text = String::new();
    let mut tool_calls: Vec<ToolCall> = Vec::new();
    let mut i: usize = 0;
    while i < bs.len()
        invariant
            0 <= i <= bs.len(),
            text@ == blocks_text(bs@.subrange(0, i as int)),
            response_calls(bs@.subrange(0, i as int), tool_calls@),
        decreases bs.len() - i,
    {
        let ghost pre = bs@.subrange(0, i as int);
        assert(bs@.subrange(0, i + 1).drop_last() =~= pre);
        assert(bs@.subrange(0, i + 1).last() == bs@[i as int]);
        let b = &bs[i];
        let is_text = str_eq(b.content_type.as_str(), "text");
        let is_tool = str_eq(b.content_type.as_str(), "tool_use");
        if is_text {
            if let Some(t) = &b.text {
                text.append(t.as_str());
            }
        }
        if is_tool {
            match (&b.id, &b.name) {
                (Some(id), Some(name)) => {
                    let arguments = match &b.input {
                        Some(j) => j.clone(),
                        None => String::from_str("{}"),
                    };
                    tool_calls.push(
                        ToolCall {
                            id: id.clone(),
                            call_type: String::from_str("function"),
                            function: FunctionCall { name: name.clone(), arguments },
                        },
                    );
                    proof {
                        let cb = call_blocks(bs@.subrange(0, i + 1));
                        assert(cb == call_blocks(pre).push(*b));
                        assert forall|j: int| 0 <= j < tool_calls@.len() implies block_call(
                            cb[j],
                            #[trigger] tool_calls@[j],
                        ) by {
                            if j < tool_calls@.len() - 1 {
                                assert(cb[j] == call_blocks(pre)[j]);
                            }
                        }
                    }
                },
                _ => {},
            }
        }
        proof {
            reveal_strlit("text");
            reveal_strlit("tool_use");
        }
        assert(text@ =~= blocks_text(bs@.subrange(0, i + 1)));
        i = i + 1;
    }
    assert(bs@.subrange(0, bs@.len() as int) =~= bs@);
    let mut message = ChatMessage::assistant(text);
    if tool_calls.len() != 0 {
        message.tool_calls = Some(tool_calls);
    }
    let mut choices: Vec<ChatChoice> = Vec::new();
    choices.push(ChatChoice { index: 0, message, finish_reason: resp.stop_reason });
    ChatResponse {
        id: resp.id,
        model: resp.model,
        choices,
        usage: Some(
            Usage {
                prompt_tokens: resp.usage.input_tokens,
                completion_tokens: resp.usage.output_tokens,
                total_tokens: resp.usage.input_tokens + resp.usage.output_tokens,
            },
        ),
        citations: None,
    }
}

/// The models of an Anthropic listing, owned by `anthropic`.
pub fn models_from_anthropic(entries: Vec<AnthropicModelEntry>) -> (r: Vec<crate::types::model::ModelInfo>)
    ensures
        r@.len() == entries@.len(),
        forall|i: int|
            0 <= i < r@.len() ==> {
                &&& (#[trigger] r@[i]).id == entries@[i].id
                &&& r@[i].owned_by matches Some(o) && o@ == "anthropic"@
                &&& r@[i].context_length is None
                &&& r@[i].display_name == entries@[i].display_name
            },
{
    let rev = reversed(entries);
    let mut rest = rev;
    let mut out: Vec<crate::types::model::ModelInfo> = Vec::new();
    while rest.len() > 0
        invariant
            rest@.len() + out@.len() == entries@.len(),
            forall|j: int| 0 <= j < rest@.len() ==> #[trigger] rest@[j] == entries@[entries@.len() - 1 - j],
            forall|i: int|
                0 <= i < out@.len() ==> {
                    &&& (#[trigger] out@[i]).id == entries@[i].id
                    &&& out@[i].owned_by matches Some(o) && o@ == "anthropic"@
                    &&& out@[i].context_length is None
                    &&& out@[i].display_name == entries@[i].display_name
                },
        decreases rest.len(),
    {
        let e = rest.pop().unwrap();
        out.push(
            crate::types::model::ModelInfo {
                id: e.id,
                owned_by: Some(String::from_str("anthropic")),
                context_length: None,
                display_name: e.display_name,
            },
        );
    }
    out
}

/// The reading state of an Anthropic event stream: the message id and model
/// announced by `message_start`, stamped on every chunk.
#[derive(Debug, Clone)]
pub struct AnthropicStreamState {
    pub message_id: String,
    pub model: String,
}

/// Whether an optional event name is the given name.
pub open spec fn event_is(event: Option<String>, name: Seq<char>) -> bool {
    event matches Some(e) && e@ == name
}

/// The text of a `text_delta` delta, if the event carries one.
pub open spec fn delta_text(parsed: Option<AnthropicStreamEvent>) -> Option<String> {
    match parsed {
        Some(ev) => match ev.delta {
            Some(d) => match (d.delta_type, d.text) {
                (Some(t), Some(x)) => if t@ == "text_delta"@ {
                    Some(x)
                } else {
                    None
                },
                _ => None,
            },
            None => None,
        },
        None => None,
    }
}

fn event_named(event: &Option<String>, name: &str) -> (r: bool)
    ensures
        r == event_is(*event, name@),
{
    match event {
        Some(e) => str_eq(e.as_str(), name),
        None => false,
    }
}

impl AnthropicStreamState {
    /// The state before any event: empty id and model.
    pub fn new() -> (r: Self)
        ensures
            r.message_id@.len() == 0,
            r.model@.len() == 0,
    {
        AnthropicStreamState { message_id: String::new(), model: String::new() }
    }

    /// Handle one payload of the stream, given the event it belongs to and
    /// its parse (`None` when the payload is not a valid event).
    ///
    /// - `message_start`: remember the message's id and model (empty when
    ///   absent); no chunk.
    /// - `content_block_delta` with a `text_delta` delta: a chunk carrying
    ///   the text.
    /// - `message_stop`: a chunk with finish reason `stop`.
    /// - anything else: nothing.
    pub fn on_frame(&mut self, event: &Option<String>, parsed: Option<AnthropicStreamEvent>) -> (r:
        Option<StreamChunk>)
        ensures
            event_is(*event, "message_start"@) ==> r is None && match parsed {
                Some(ev) => match ev.message {
                    Some(msg) => final(self).message_id@ == text_or_empty(msg.id)
                        && final(self).model@ == text_or_empty(msg.model),
                    None => *final(self) == *old(self),
                },
                None => *final(self) == *old(self),
            },
            !event_is(*event, "message_start"@) ==> *final(self) == *old(self),
            event_is(*event, "content_block_delta"@) ==> (match delta_text(parsed) {
                Some(x) => r matches Some(c) && crate::types::response::is_simple_chunk(
                    c,
                    old(self).message_id@,
                    old(self).model@,
                    Some(x@),
                    None,
                ),
                None => r is None,
            }),
            event_is(*event, "message_stop"@) ==> (r matches Some(c)
                && crate::types::response::is_simple_chunk(
                c,
                old(self).message_id@,
                old(self).model@,
                None,
                Some("stop"@),
            )),
            !event_is(*event, "message_start"@) && !event_is(*event, "content_block_delta"@)
                && !event_is(*event, "message_stop"@) ==> r is None,
    {
        proof {
            reveal_strlit("message_start");
            reveal_strlit("content_block_delta");
            reveal_strlit("message_stop");
            assert("message_start"@.len() == 13);
            assert("message_stop"@.len() == 12);
            assert("content_block_delta"@.len() == 19);
        }
        if event_named(event, "message_start") {
            if let Some(ev) = parsed {
                if let Some(msg) = ev.message {
                    self.message_id = match msg.id {
                        Some(id) => id,
                        None => String::new(),
                    };
                    self.model = match msg.model {
                        Some(m) => m,
                        None => String::new(),
                    };
                }
            }
            None
        } else if event_named(event, "content_block_delta") {
            match parsed {
                Some(ev) => match ev.delta {
                    Some(d) => match (d.delta_type, d.text) {
                        (Some(t), Some(text)) => {
                            if str_eq(t.as_str(), "text_delta") {
                                Some(
                                    simple_chunk(
                                        self.message_id.clone(),
                                        self.model.clone(),
                                        Some(text),
                                        None,
                                    ),
                                )
                            } else {
                                None
                            }
                        },
                        _ => None,
                    },
                    None => None,
                },
                None => None,
            }
        } else if event_named(event, "message_stop") {
            let c = simple_chunk(
                self.message_id.clone(),
                self.model.clone(),
                None,
                Some(String::from_str("stop")),
            );
            Some(c)
        } else {
            None
        }
    }
}

/// The API key and root URL of a connection to the Anthropic Messages API.
#[derive(Debug, Clone)]
pub struct AnthropicProvider {
    pub api_key: String,
    pub base_url: String,
}

impl AnthropicProvider {
    /// A connection with the given API key to the default API root.
    pub fn new<K: crate::text::IntoText>(api_key: K) -> (r: Self)
        ensures
            r.api_key@ == api_key.text_view(),
            r.base_url@ == ANTHROPIC_BASE_URL@,
    {
        AnthropicProvider { api_key: api_key.into_text(), base_url: String::from_str(ANTHROPIC_BASE_URL) }
    }

    /// Override the API root; it is used as given.
    pub fn with_base_url<U: crate::text::IntoText>(self, base_url: U) -> (r: Self)
        ensures
            r.api_key == self.api_key,
            r.base_url@ == base_url.text_view(),
    {
        AnthropicProvider { base_url: base_url.into_text(), ..self }
    }

    /// The provider's name.
    pub fn name(&self) -> (r: &'static str)
        ensures
            r@ == "anthropic"@,
    {
        "anthropic"
    }

    /// `{base}/messages`.
    pub fn messages_url(&self) -> (r: String)
        ensures
            r@ == self.base_url@ + "/messages"@,
    {
        concat2(self.base_url.as_str(), "/messages")
    }

    /// `{base}/models`.
    pub fn models_url(&self) -> (r: String)
        ensures
            r@ == self.base_url@ + "/models"@,
    {
        concat2(self.base_url.as_str(), "/models")
    }

    /// The authentication headers of every request: `x-api-key` with the
    /// key, then `anthropic-version` with the API version.
    pub fn auth_headers(&self) -> (r: Vec<(String, String)>)
        ensures
            crate::providers::openai_compat::headers_view(r@) == seq![
                ("x-api-key"@, self.api_key@),
                ("anthropic-version"@, ANTHROPIC_VERSION@),
            ],
    {
        let mut out: Vec<(String, String)> = Vec::new();
        out.push((String::from_str("x-api-key"), self.api_key.clone()));
        out.push((String::from_str("anthropic-version"), String::from_str(ANTHROPIC_VERSION)));
        assert(crate::providers::openai_compat::headers_view(out@) =~= seq![
            ("x-api-key"@, self.api_key@),
            ("anthropic-version"@, ANTHROPIC_VERSION@),
        ]);
        out
    }
}

/// The input text of a call block as its tool call carries it: `{}` when
/// the block has none.
pub open spec fn call_input(b: AnthropicContent) -> Seq<char> {
    match b.input {
        Some(j) => j@,
        None => "{}"@,
    }
}

/// Tool calls survive the round trip through a conversation: when the
/// assistant message that carries the calls of a response is sent back, its
/// turn holds, after the content blocks, one `tool_use` block per call block
/// of the response, with the same id and name and the JSON value of the same
/// input; and a tool message answering one of those calls becomes a
/// `tool_result` for the same id.
pub proof fn law_anthropic_tool_calls_round_trip(
    bs: Seq<AnthropicContent>,
    m: ChatMessage,
    am: AnthropicMessage,
    answer: ChatMessage,
    answer_turn: AnthropicMessage,
    k: int,
)
    requires
        m.role == Role::Assistant,
        m.tool_calls is Some,
        response_calls(bs, m.tool_calls->Some_0@),
        anthropic_message(m, am),
        0 <= k < call_blocks(bs).len(),
        answer.role == Role::Tool,
        answer.tool_call_id == Some(m.tool_calls->Some_0@[k].id),
        anthropic_message(answer, answer_turn),
    ensures
        am.role@ == "assistant"@,
        am.content matches AnthropicMessageContent::Parts(blocks) && forall|j: int|
            0 <= j < call_blocks(bs).len() ==> (#[trigger] blocks@[lead_len(m.content) + j] matches
                AnthropicContentBlock::ToolUse { id, name, input } && Some(id) == call_blocks(bs)[j].id
                && Some(name) == call_blocks(bs)[j].name && input
                == crate::types::tools::json_parsed(call_input(call_blocks(bs)[j]))),
        answer_turn.content matches AnthropicMessageContent::Parts(rb) && rb@[0] matches
            AnthropicContentBlock::ToolResult { tool_use_id, .. } && tool_use_id@ == call_blocks(
            bs,
        )[k].id->Some_0@,
{
    let calls = m.tool_calls->Some_0@;
    assert(block_call(call_blocks(bs)[k], calls[k]));
    if let AnthropicMessageContent::Parts(blocks) = am.content {
        assert forall|j: int| 0 <= j < call_blocks(bs).len() implies (#[trigger] blocks@[lead_len(
            m.content,
        ) + j] matches AnthropicContentBlock::ToolUse { id, name, input } && Some(id)
            == call_blocks(bs)[j].id && Some(name) == call_blocks(bs)[j].name && input
            == crate::types::tools::json_parsed(call_input(call_blocks(bs)[j]))) by {
            assert(block_call(call_blocks(bs)[j], calls[j]));
            assert(tool_use_block(calls[j], blocks@[lead_len(m.content) + j]));
        }
    }
}

} // verus!
