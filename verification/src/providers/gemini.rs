//! The Google Gemini `generateContent` API: request conversion, response
//! conversion, stream chunks, model listing and URLs.
//!
//! System messages become the `systemInstruction`, assistant turns take the
//! role `model`, tool calls become `functionCall` parts and tool results
//! `functionResponse` parts. The API key travels as a query parameter.
use vstd::prelude::*;

use crate::error::BaochuanError;
use crate::providers::convert::{non_system, system_texts, text_or_empty};
use crate::providers::helpers::{
    data_url_parts, guess_image_mime_type, guessed_image_mime, parse_data_url,
};
use crate::text::{concat2, concat3, copy_opt, lowercase_text, str_eq, u64_to_decimal};
use crate::types::message::{audio_mime, content_text, ChatMessage, ContentPart, MessageContent, Role};
use crate::types::model::ModelInfo;
use crate::types::request::ChatRequest;
use crate::types::response::{simple_chunk, ChatChoice, ChatResponse, StreamChunk, Usage};
use crate::types::tools::{FunctionCall, Tool, ToolCall, ToolChoice, ToolChoicePreset};
use crate::vecs::reversed;

verus! {

/// The default API root.
pub const GEMINI_BASE_URL: &'static str = "https://generativelanguage.googleapis.com/v1beta";

/// A `generateContent` request body.
#[derive(Debug, Clone)]
pub struct GeminiRequest {
    pub contents: Vec<GeminiContent>,
    pub system_instruction: Option<GeminiSystemInstruction>,
    pub generation_config: Option<GeminiGenerationConfig>,
    pub tools: Option<Vec<GeminiTools>>,
    pub tool_config: Option<GeminiToolConfig>,
}

/// A group of function declarations.
#[derive(Debug, Clone)]
pub struct GeminiTools {
    pub function_declarations: Vec<GeminiFunctionDeclaration>,
}

/// A function the model may call.
#[derive(Debug, Clone)]
pub struct GeminiFunctionDeclaration {
    pub name: String,
    pub description: Option<String>,
    pub parameters: serde_json::Value,
}

/// The function-calling configuration.
#[derive(Debug, Clone)]
pub struct GeminiToolConfig {
    /// `AUTO`, `ANY` or `NONE`.
    pub mode: String,
    pub allowed_function_names: Option<Vec<String>>,
}

/// One turn of the conversation.
#[derive(Debug, Clone)]
pub struct GeminiContent {
    pub role: String,
    pub parts: Vec<GeminiPart>,
}

/// A content part: text, inline base64 data, a file URI, or a function call
/// or response.
#[derive(Debug, Clone)]
pub enum GeminiPart {
    Text { text: String },
    InlineData { mime_type: String, data: String },
    FileData { mime_type: String, file_uri: String },
    /// `args` is the JSON value that the call's arguments denote; none (sent
    /// as `null`) when they are not JSON.
    FunctionCall { name: String, args: Option<serde_json::Value> },
    /// Sent as `{"name": name, "response": {"result": result}}`.
    FunctionResponse { name: String, result: String },
}

/// The system instruction.
#[derive(Debug, Clone)]
pub struct GeminiSystemInstruction {
    pub parts: Vec<GeminiPart>,
}

/// Generation parameters; fields are omitted when absent.
#[derive(Debug, Clone)]
pub struct GeminiGenerationConfig {
    pub max_output_tokens: Option<u32>,
    /// As the bit pattern of an `f32`.
    pub temperature: Option<u32>,
}

/// A `generateContent` response (also each event of the stream).
#[derive(Debug, Clone)]
pub struct GeminiResponse {
    pub candidates: Vec<GeminiCandidate>,
    pub usage_metadata: Option<GeminiUsageMetadata>,
}

/// One candidate answer.
#[derive(Debug, Clone)]
pub struct GeminiCandidate {
    pub content: GeminiResponseContent,
    pub finish_reason: Option<String>,
    pub index: Option<u32>,
}

/// The parts of a candidate.
#[derive(Debug, Clone)]
pub struct GeminiResponseContent {
    pub parts: Vec<GeminiResponsePart>,
}

/// A part of a candidate: text and/or a function call.
#[derive(Debug, Clone)]
pub struct GeminiResponsePart {
    pub text: Option<String>,
    pub function_call: Option<GeminiFunctionCallPart>,
}

/// A function call of a candidate; `args` as compact JSON text.
#[derive(Debug, Clone)]
pub struct GeminiFunctionCallPart {
    pub name: String,
    pub args: String,
}

/// Token counts.
#[derive(Debug, Clone, Copy)]
pub struct GeminiUsageMetadata {
    pub prompt_token_count: Option<u32>,
    pub candidates_token_count: Option<u32>,
    pub total_token_count: Option<u32>,
}

/// A model listing entry, named `models/<id>`.
#[derive(Debug, Clone)]
pub struct GeminiModelEntry {
    pub name: String,
    pub display_name: Option<String>,
    pub input_token_limit: Option<u32>,
}

// ── Specification ────────────────────────────────────────────────────────────

/// `gp` is the Gemini part of content part `p`.
pub open spec fn gemini_part(p: ContentPart, gp: GeminiPart) -> bool {
    match p {
        ContentPart::Text { text } => gp matches GeminiPart::Text { text: t } && t == text,
        ContentPart::ImageUrl { image_url } => match data_url_parts(image_url.url@) {
            Some((m, d)) => gp matches GeminiPart::InlineData { mime_type, data } && mime_type@
                == m && data@ == d,
            None => gp matches GeminiPart::FileData { mime_type, file_uri } && mime_type@
                == guessed_image_mime(lowercase_text(image_url.url@)) && file_uri
                == image_url.url,
        },
        ContentPart::InputAudio { input_audio } => gp matches GeminiPart::InlineData {
            mime_type,
            data,
        } && mime_type@ == audio_mime(input_audio.format@) && data == input_audio.data,
        ContentPart::Document { document } => gp matches GeminiPart::InlineData {
            mime_type,
            data,
        } && mime_type == document.media_type && data == document.data,
    }
}

/// `gps` are the Gemini parts of `c`: one text part for plain text, one
/// part per content part otherwise.
pub open spec fn gemini_parts(c: MessageContent, gps: Seq<GeminiPart>) -> bool {
    match c {
        MessageContent::Text(s) => gps.len() == 1 && gps[0] == (GeminiPart::Text { text: s }),
        MessageContent::Parts(ps) => gps.len() == ps@.len() && forall|i: int|
            0 <= i < gps.len() ==> gemini_part(ps@[i], #[trigger] gps[i]),
    }
}

/// The number of parts that the content of a model turn with tool calls
/// contributes.
pub open spec fn gemini_lead_len(c: MessageContent) -> int {
    match c {
        MessageContent::Text(s) => if s@.len() > 0 {
            1
        } else {
            0
        },
        MessageContent::Parts(ps) => ps@.len() as int,
    }
}

/// `gc` is the Gemini turn of the (non-system) message `m`.
pub open spec fn gemini_content(m: ChatMessage, gc: GeminiContent) -> bool {
    if m.role == Role::Tool {
        &&& gc.role@ == "user"@
        &&& gc.parts@.len() == 1
        &&& gc.parts@[0] matches GeminiPart::FunctionResponse { name, result }
        &&& name@ == text_or_empty(m.tool_call_id)
        &&& result@ == content_text(m.content)
    } else if m.tool_calls is Some {
        let calls = m.tool_calls.unwrap()@;
        let lead = gemini_lead_len(m.content);
        &&& gc.role@ == "model"@
        &&& gc.parts@.len() == lead + calls.len()
        &&& lead > 0 ==> gemini_parts(m.content, gc.parts@.subrange(0, lead))
        &&& forall|j: int|
            0 <= j < calls.len() ==> (#[trigger] gc.parts@[lead + j]) == (GeminiPart::FunctionCall {
                name: calls[j].function.name,
                args: crate::types::tools::json_parsed(calls[j].function.arguments@),
            })
    } else {
        &&& gc.role@ == (if m.role == Role::Assistant {
            "model"@
        } else {
            "user"@
        })
        &&& gemini_parts(m.content, gc.parts@)
    }
}

/// Gemini's function-calling configuration for a tool choice.
pub open spec fn gemini_tool_config(tc: ToolChoice, g: GeminiToolConfig) -> bool {
    match tc {
        ToolChoice::Preset(ToolChoicePreset::Auto) => g.mode@ == "AUTO"@
            && g.allowed_function_names is None,
        ToolChoice::Preset(ToolChoicePreset::Required) => g.mode@ == "ANY"@
            && g.allowed_function_names is None,
        ToolChoice::Preset(ToolChoicePreset::NoTools) => g.mode@ == "NONE"@
            && g.allowed_function_names is None,
        ToolChoice::Function(f) => g.mode@ == "ANY"@ && (g.allowed_function_names matches Some(
            names,
        ) && names@ == seq![f.function.name]),
    }
}

/// How a tool choice reaches Gemini: `auto` lets the model answer without
/// a call (`AUTO`), `required` forces a call to some function (`ANY`, no
/// restriction), `none` forbids calls (`NONE`), and a named function forces
/// a call to that function alone (`ANY`, allowed: just its name). So
/// `required` and `auto` differ, and `required` forces a call as a named
/// function does.
pub proof fn law_gemini_tool_choice_modes(tc: ToolChoice, g: GeminiToolConfig, other: ToolChoice, h: GeminiToolConfig)
    requires
        gemini_tool_config(tc, g),
        gemini_tool_config(other, h),
    ensures
        tc == ToolChoice::Preset(ToolChoicePreset::Auto) ==> g.mode@ == "AUTO"@
            && g.allowed_function_names is None,
        tc == ToolChoice::Preset(ToolChoicePreset::Required) ==> g.mode@ == "ANY"@
            && g.allowed_function_names is None,
        tc == ToolChoice::Preset(ToolChoicePreset::NoTools) ==> g.mode@ == "NONE"@
            && g.allowed_function_names is None,
        tc matches ToolChoice::Function(f) ==> g.mode@ == "ANY"@ && (g.allowed_function_names matches Some(
            names,
        ) && names@.len() == 1 && names@[0] == f.function.name),
        tc == ToolChoice::Preset(ToolChoicePreset::Required) && other == ToolChoice::Preset(
            ToolChoicePreset::Auto,
        ) ==> g.mode@ != h.mode@,
        tc == ToolChoice::Preset(ToolChoicePreset::Required) && other is Function ==> g.mode@
            == h.mode@,
        tc == ToolChoice::Preset(ToolChoicePreset::NoTools) && other != ToolChoice::Preset(
            ToolChoicePreset::NoTools,
        ) ==> g.mode@ != h.mode@,
{
    reveal_strlit("AUTO");
    reveal_strlit("ANY");
    reveal_strlit("NONE");
    if g.mode@ == "ANY"@ && h.mode@ == "AUTO"@ {
        assert(g.mode@.len() != h.mode@.len());
    }
    if g.mode@ == "NONE"@ && h.mode@ == "AUTO"@ {
        assert(g.mode@[1] != h.mode@[1]);
    }
    if g.mode@ == "NONE"@ && h.mode@ == "ANY"@ {
        assert(g.mode@.len() != h.mode@.len());
    }
}

// ── Conversions ──────────────────────────────────────────────────────────────

fn part_to_gemini(p: &ContentPart) -> (r: GeminiPart)
    ensures
        gemini_part(*p, r),
{
    match p {
        ContentPart::Text { text } => GeminiPart::Text { text: text.clone() },
        ContentPart::ImageUrl { image_url } => {
            match parse_data_url(image_url.url.as_str()) {
                Some((mime_type, data)) => GeminiPart::InlineData { mime_type, data },
                None => GeminiPart::FileData {
                    mime_type: String::from_str(guess_image_mime_type(image_url.url.as_str())),
                    file_uri: image_url.url.clone(),
                },
            }
        },
        ContentPart::InputAudio { input_audio } => GeminiPart::InlineData {
            mime_type: input_audio.mime_type(),
            data: input_audio.data.clone(),
        },
        ContentPart::Document { document } => GeminiPart::InlineData {
            mime_type: document.media_type.clone(),
            data: document.data.clone(),
        },
    }
}

/// The Gemini parts of a message's content.
pub fn content_to_gemini_parts(content: &MessageContent) -> (r: Vec<GeminiPart>)
    ensures
        gemini_parts(*content, r@),
{
    match content {
        MessageContent::Text(s) => {
            let mut v: Vec<GeminiPart> = Vec::new();
            v.push(GeminiPart::Text { text: s.clone() });
            v
        },
        MessageContent::Parts(parts) => {
            let mut v: Vec<GeminiPart> = Vec::new();
            let mut i: usize = 0;
            while i < parts.len()
                invariant
                    0 <= i <= parts.len(),
                    v@.len() == i,
                    forall|j: int| 0 <= j < i ==> gemini_part(parts@[j], #[trigger] v@[j]),
                decreases parts.len() - i,
            {
                v.push(part_to_gemini(&parts[i]));
                i = i + 1;
            }
            v
        },
    }
}

/// The Gemini turn of a (non-system) message.
pub fn to_gemini_content(m: &ChatMessage) -> (r: GeminiContent)
    ensures
        gemini_content(*m, r),
{
    if m.role == Role::Tool {
        let name = match &m.tool_call_id {
            Some(id) => id.clone(),
            None => String::new(),
        };
        let mut parts: Vec<GeminiPart> = Vec::new();
        parts.push(GeminiPart::FunctionResponse { name, result: m.content.to_text_lossy() });
        return GeminiContent { role: String::from_str("user"), parts };
    }
    if let Some(tool_calls) = &m.tool_calls {
        let mut parts: Vec<GeminiPart> = match &m.content {
            MessageContent::Text(s) => {
                let mut v: Vec<GeminiPart> = Vec::new();
                if !s.as_str().is_empty() {
                    v.push(GeminiPart::Text { text: s.clone() });
                }
                v
            },
            MessageContent::Parts(_) => content_to_gemini_parts(&m.content),
        };
        let ghost lead = parts@;
        assert(lead.len() == gemini_lead_len(m.content));
        let mut i: usize = 0;
        while i < tool_calls.len()
            invariant
                0 <= i <= tool_calls.len(),
                parts@.len() == lead.len() + i,
                parts@.subrange(0, lead.len() as int) == lead,
                forall|j: int|
                    0 <= j < i ==> (#[trigger] parts@[lead.len() + j]) == (GeminiPart::FunctionCall {
                        name: tool_calls@[j].function.name,
                        args: crate::types::tools::json_parsed(tool_calls@[j].function.arguments@),
                    }),
            decreases tool_calls.len() - i,
        {
            let tc = &tool_calls[i];
            parts.push(
                GeminiPart::FunctionCall {
                    name: tc.function.name.clone(),
                    args: crate::types::tools::json_parse(tc.function.arguments.as_str()),
                },
            );
            assert(parts@.subrange(0, lead.len() as int) =~= lead);
            i = i + 1;
        }
        return GeminiContent { role: String::from_str("model"), parts };
    }
    let role = match m.role {
        Role::Assistant => String::from_str("model"),
        _ => String::from_str("user"),
    };
    GeminiContent { role, parts: content_to_gemini_parts(&m.content) }
}

/// Gemini's function-calling configuration for a tool choice: `required`
/// and a named function both become `ANY`, the latter restricted to that
/// function.
pub fn to_gemini_tool_config(tc: &ToolChoice) -> (r: GeminiToolConfig)
    ensures
        gemini_tool_config(*tc, r),
{
    match tc {
        ToolChoice::Preset(ToolChoicePreset::Auto) => GeminiToolConfig {
            mode: String::from_str("AUTO"),
            allowed_function_names: None,
        },
        ToolChoice::Preset(ToolChoicePreset::Required) => GeminiToolConfig {
            mode: String::from_str("ANY"),
            allowed_function_names: None,
        },
        ToolChoice::Preset(ToolChoicePreset::NoTools) => GeminiToolConfig {
            mode: String::from_str("NONE"),
            allowed_function_names: None,
        },
        ToolChoice::Function(f) => {
            let mut names: Vec<String> = Vec::new();
            names.push(f.function.name.clone());
            assert(names@ =~= seq![f.function.name]);
            GeminiToolConfig { mode: String::from_str("ANY"), allowed_function_names: Some(names) }
        },
    }
}

/// `d` is the Gemini declaration of tool `t`.
pub open spec fn gemini_declaration(t: Tool, d: GeminiFunctionDeclaration) -> bool {
    &&& d.name == t.function.name
    &&& d.description == t.function.description
    &&& d.parameters == t.function.parameters
}

/// The `generateContent` body of a chat request.
pub fn to_gemini_request(request: &ChatRequest) -> (r: GeminiRequest)
    ensures
        system_texts(request.messages@).len() == 0 ==> r.system_instruction is None,
        system_texts(request.messages@).len() > 0 ==> (r.system_instruction matches Some(si)
            && si.parts@.len() == system_texts(request.messages@).len() && forall|i: int|
            0 <= i < si.parts@.len() ==> (#[trigger] si.parts@[i] matches GeminiPart::Text { text }
                && text@ == system_texts(request.messages@)[i])),
        r.contents@.len() == non_system(request.messages@).len(),
        forall|i: int|
            0 <= i < r.contents@.len() ==> gemini_content(
                non_system(request.messages@)[i],
                #[trigger] r.contents@[i],
            ),
        request.max_tokens is None && request.temperature is None ==> r.generation_config is None,
        request.max_tokens is Some || request.temperature is Some ==> r.generation_config == Some(
            GeminiGenerationConfig {
                max_output_tokens: request.max_tokens,
                temperature: request.temperature,
            },
        ),
        request.tools is None ==> r.tools is None,
        request.tools matches Some(ts) ==> (r.tools matches Some(gts) && gts@.len() == 1
            && gts@[0].function_declarations@.len() == ts@.len() && forall|i: int|
            0 <= i < ts@.len() ==> gemini_declaration(
                ts@[i],
                #[trigger] gts@[0].function_declarations@[i],
            )),
        request.tool_choice is None ==> r.tool_config is None,
        request.tool_choice matches Some(tc) ==> (r.tool_config matches Some(g)
            && gemini_tool_config(tc, g)),
{
    let msgs = &request.messages;
    let mut system_parts: Vec<GeminiPart> = Vec::new();
    let mut contents: Vec<GeminiContent> = Vec::new();
    let mut i: usize = 0;
    while i < msgs.len()
        invariant
            0 <= i <= msgs.len(),
            system_parts@.len() == system_texts(msgs@.subrange(0, i as int)).len(),
            forall|j: int|
                0 <= j < system_parts@.len() ==> (#[trigger] system_parts@[j] matches GeminiPart::Text {
                    text,
                } && text@ == system_texts(msgs@.subrange(0, i as int))[j]),
            contents@.len() == non_system(msgs@.subrange(0, i as int)).len(),
            forall|j: int|
                0 <= j < contents@.len() ==> gemini_content(
                    non_system(msgs@.subrange(0, i as int))[j],
                    #[trigger] contents@[j],
                ),
        decreases msgs.len() - i,
    {
        let ghost pre = msgs@.subrange(0, i as int);
        assert(msgs@.subrange(0, i + 1).drop_last() =~= pre);
        assert(msgs@.subrange(0, i + 1).last() == msgs@[i as int]);
        let m = &msgs[i];
        if m.role == Role::System {
            system_parts.push(GeminiPart::Text { text: m.content.to_text_lossy() });
            proof {
                let st = system_texts(msgs@.subrange(0, i + 1));
                assert(st == system_texts(pre).push(content_text(m.content)));
                assert(non_system(msgs@.subrange(0, i + 1)) == non_system(pre));
                assert forall|j: int| 0 <= j < system_parts@.len() implies (
                #[trigger] system_parts@[j] matches GeminiPart::Text { text } && text@ == st[j]) by {
                    if j < system_parts@.len() - 1 {
                        assert(st[j] == system_texts(pre)[j]);
                    }
                }
            }
        } else {
            contents.push(to_gemini_content(m));
            proof {
                let ns = non_system(msgs@.subrange(0, i + 1));
                assert(ns == non_system(pre).push(*m));
                assert(system_texts(msgs@.subrange(0, i + 1)) == system_texts(pre));
                assert forall|j: int| 0 <= j < contents@.len() implies gemini_content(
                    ns[j],
                    #[trigger] contents@[j],
                ) by {
                    if j < contents@.len() - 1 {
                        assert(ns[j] == non_system(pre)[j]);
                    }
                }
            }
        }
        i = i + 1;
    }
    assert(msgs@.subrange(0, msgs@.len() as int) =~= msgs@);
    let system_instruction = if system_parts.len() == 0 {
        None
    } else {
        Some(GeminiSystemInstruction { parts: system_parts })
    };
    let generation_config = if request.max_tokens.is_some() || request.temperature.is_some() {
        Some(
            GeminiGenerationConfig {
                max_output_tokens: request.max_tokens,
                temperature: request.temperature,
            },
        )
    } else {
        None
    };
    let tools = match &request.tools {
        Some(ts) => {
            let mut decls: Vec<GeminiFunctionDeclaration> = Vec::new();
            let mut k: usize = 0;
            while k < ts.len()
                invariant
                    0 <= k <= ts.len(),
                    decls@.len() == k,
                    forall|j: int| 0 <= j < k ==> gemini_declaration(ts@[j], #[trigger] decls@[j]),
                decreases ts.len() - k,
            {
                let t = &ts[k];
                decls.push(
                    GeminiFunctionDeclaration {
                        name: t.function.name.clone(),
                        description: copy_opt(&t.function.description),
                        parameters: t.function.parameters.clone(),
                    },
                );
                k = k + 1;
            }
            let mut groups: Vec<GeminiTools> = Vec::new();
            groups.push(GeminiTools { function_declarations: decls });
            Some(groups)
        },
        None => None,
    };
    let tool_config = match &request.tool_choice {
        Some(tc) => Some(to_gemini_tool_config(tc)),
        None => None,
    };
    GeminiRequest { contents, system_instruction, generation_config, tools, tool_config }
}

/// The text parts of a candidate, concatenated.
pub open spec fn candidate_text(ps: Seq<GeminiResponsePart>) -> Seq<char>
    decreases ps.len(),
{
    if ps.len() == 0 {
        Seq::empty()
    } else {
        candidate_text(ps.drop_last()) + match ps.last().text {
            Some(t) => t@,
            None => Seq::empty(),
        }
    }
}

/// The function calls of a candidate, in order.
pub open spec fn candidate_calls(ps: Seq<GeminiResponsePart>) -> Seq<GeminiFunctionCallPart>
    decreases ps.len(),
{
    if ps.len() == 0 {
        Seq::empty()
    } else {
        match ps.last().function_call {
            Some(fc) => candidate_calls(ps.drop_last()).push(fc),
            None => candidate_calls(ps.drop_last()),
        }
    }
}

/// `tc` is the tool call of a Gemini function call: Gemini has no call id,
/// so the function name serves as the id.
pub open spec fn gemini_call(fc: GeminiFunctionCallPart, tc: ToolCall) -> bool {
    &&& tc.id == fc.name
    &&& tc.call_type@ == "function"@
    &&& tc.function.name == fc.name
    &&& tc.function.arguments == fc.args
}

/// `ch` is the choice of candidate `c`.
pub open spec fn gemini_choice(c: GeminiCandidate, ch: ChatChoice) -> bool {
    let calls = candidate_calls(c.content.parts@);
    &&& ch.index == (match c.index {
        Some(i) => i,
        None => 0,
    })
    &&& ch.finish_reason == c.finish_reason
    &&& ch.message.role == Role::Assistant
    &&& ch.message.content matches MessageContent::Text(t) && t@ == candidate_text(
        c.content.parts@,
    )
    &&& ch.message.audio is None
    &&& ch.message.tool_call_id is None
    &&& calls.len() == 0 ==> ch.message.tool_calls is None
    &&& calls.len() > 0 ==> (ch.message.tool_calls matches Some(tcs) && tcs@.len() == calls.len()
        && forall|k: int| 0 <= k < calls.len() ==> gemini_call(calls[k], #[trigger] tcs@[k]))
}

fn candidate_to_choice(c: GeminiCandidate) -> (r: ChatChoice)
    ensures
        gemini_choice(c, r),
{
    let ps = &c.content.parts;
    let mut text = String::new();
    let mut tool_calls: Vec<ToolCall> = Vec::new();
    let mut i: usize = 0;
    while i < ps.len()
        invariant
            0 <= i <= ps.len(),
            text@ == candidate_text(ps@.subrange(0, i as int)),
            tool_calls@.len() == candidate_calls(ps@.subrange(0, i as int)).len(),
            forall|k: int|
                0 <= k < tool_calls@.len() ==> gemini_call(
                    candidate_calls(ps@.subrange(0, i as int))[k],
                    #[trigger] tool_calls@[k],
                ),
        decreases ps.len() - i,
    {
        let ghost pre = ps@.subrange(0, i as int);
        assert(ps@.subrange(0, i + 1).drop_last() =~= pre);
        assert(ps@.subrange(0, i + 1).last() == ps@[i as int]);
        let p = &ps[i];
        if let Some(t) = &p.text {
            text.append(t.as_str());
        }
        assert(text@ =~= candidate_text(ps@.subrange(0, i + 1)));
        if let Some(fc) = &p.function_call {
            tool_calls.push(
                ToolCall {
                    id: fc.name.clone(),
                    call_type: String::from_str("function"),
                    function: FunctionCall { name: fc.name.clone(), arguments: fc.args.clone() },
                },
            );
            proof {
                let cc = candidate_calls(ps@.subrange(0, i + 1));
                assert(cc == candidate_calls(pre).push(*fc));
                assert forall|k: int| 0 <= k < tool_calls@.len() implies gemini_call(
                    cc[k],
                    #[trigger] tool_calls@[k],
                ) by {
                    if k < tool_calls@.len() - 1 {
                        assert(cc[k] == candidate_calls(pre)[k]);
                    }
                }
            }
        }
        i = i + 1;
    }
    assert(ps@.subrange(0, ps@.len() as int) =~= ps@);
    let mut message = ChatMessage::assistant(text);
    if tool_calls.len() != 0 {
        message.tool_calls = Some(tool_calls);
    }
    ChatChoice {
        index: match c.index {
            Some(i) => i,
            None => 0,
        },
        message,
        finish_reason: c.finish_reason,
    }
}

/// A count that may be absent, as zero.
pub open spec fn count_or_zero(o: Option<u32>) -> u32 {
    match o {
        Some(n) => n,
        None => 0,
    }
}

/// The unified response of a `generateContent` response: one choice per
/// candidate, the given model, an empty id (Gemini returns none), and the
/// usage counts with absent ones as zero.
pub fn from_gemini_response(resp: GeminiResponse, model: &str) -> (r: ChatResponse)
    ensures
        r.id@.len() == 0,
        r.model@ == model@,
        r.choices@.len() == resp.candidates@.len(),
        forall|i: int|
            0 <= i < r.choices@.len() ==> gemini_choice(resp.candidates@[i], #[trigger] r.choices@[i]),
        r.usage == (match resp.usage_metadata {
            Some(u) => Some(
                Usage {
                    prompt_tokens: count_or_zero(u.prompt_token_count),
                    completion_tokens: count_or_zero(u.candidates_token_count),
                    total_tokens: count_or_zero(u.total_token_count),
                },
            ),
            None => None,
        }),
        r.citations is None,
{
    let ghost cands = resp.candidates@;
    let mut rest = reversed(resp.candidates);
    let mut choices: Vec<ChatChoice> = Vec::new();
    while rest.len() > 0
        invariant
            rest@.len() + choices@.len() == cands.len(),
            forall|j: int| 0 <= j < rest@.len() ==> #[trigger] rest@[j] == cands[cands.len() - 1 - j],
            forall|i: int| 0 <= i < choices@.len() ==> gemini_choice(cands[i], #[trigger] choices@[i]),
        decreases rest.len(),
    {
        let c = rest.pop().unwrap();
        choices.push(candidate_to_choice(c));
    }
    let usage = match resp.usage_metadata {
        Some(u) => Some(
            Usage {
                prompt_tokens: match u.prompt_token_count {
                    Some(n) => n,
                    None => 0,
                },
                completion_tokens: match u.candidates_token_count {
                    Some(n) => n,
                    None => 0,
                },
                total_tokens: match u.total_token_count {
                    Some(n) => n,
                    None => 0,
                },
            },
        ),
        None => None,
    };
    ChatResponse { id: String::new(), model: String::from_str(model), choices, usage, citations: None }
}

/// The text of the first part of the first candidate, empty when absent.
pub open spec fn first_part_text(resp: GeminiResponse) -> Seq<char> {
    if resp.candidates@.len() > 0 && resp.candidates@[0].content.parts@.len() > 0
        && resp.candidates@[0].content.parts@[0].text is Some {
        resp.candidates@[0].content.parts@[0].text.unwrap()@
    } else {
        Seq::empty()
    }
}

/// The finish reason of the first candidate, unless it is empty or
/// `UNSPECIFIED`.
pub open spec fn stream_finish(resp: GeminiResponse) -> Option<Seq<char>> {
    if resp.candidates@.len() > 0 && resp.candidates@[0].finish_reason is Some {
        let f = resp.candidates@[0].finish_reason.unwrap()@;
        if f == "UNSPECIFIED"@ || f.len() == 0 {
            None
        } else {
            Some(f)
        }
    } else {
        None
    }
}

/// A stream chunk reports the first candidate's finish reason as it came,
/// unless it is empty or `UNSPECIFIED`; with no candidate, or no finish
/// reason, the chunk reports none.
pub proof fn law_gemini_stream_reports_finish(resp: GeminiResponse)
    ensures
        resp.candidates@.len() > 0 ==> (resp.candidates@[0].finish_reason matches Some(f) ==> (f@
            != "UNSPECIFIED"@ && f@.len() > 0 ==> stream_finish(resp) == Some(f@))),
        resp.candidates@.len() > 0 ==> (resp.candidates@[0].finish_reason matches Some(f) ==> (f@
            == "UNSPECIFIED"@ || f@.len() == 0 ==> stream_finish(resp) is None)),
        resp.candidates@.len() == 0 ==> stream_finish(resp) is None,
        resp.candidates@.len() > 0 && resp.candidates@[0].finish_reason is None ==> stream_finish(
            resp,
        ) is None,
        stream_finish(resp) matches Some(f) ==> f.len() > 0 && f != "UNSPECIFIED"@,
{
}

/// The reading state of a Gemini stream: the number of chunks made so far.
#[derive(Debug, Clone, Copy)]
pub struct GeminiStreamState {
    pub chunk_index: u64,
}

impl GeminiStreamState {
    pub fn new() -> (r: Self)
        ensures
            r.chunk_index == 0,
    {
        GeminiStreamState { chunk_index: 0 }
    }

    /// Handle one event of the stream, given its parse (or the parser's
    /// error message). A parsed event becomes chunk `gemini-chunk-<n>`
    /// (counting from 1) with the text of the first part of the first
    /// candidate (none when empty) and its finish reason; a parse failure
    /// becomes a stream error.
    pub fn on_parsed(&mut self, parsed: Result<GeminiResponse, String>, model: &str) -> (r: Result<
        StreamChunk,
        BaochuanError,
    >)
        requires
            old(self).chunk_index < u64::MAX,
        ensures
            match parsed {
                Ok(resp) => {
                    &&& final(self).chunk_index == old(self).chunk_index + 1
                    &&& r matches Ok(c) && crate::types::response::is_simple_chunk(
                        c,
                        "gemini-chunk-"@ + crate::text::decimal(final(self).chunk_index as nat),
                        model@,
                        if first_part_text(resp).len() == 0 {
                            None
                        } else {
                            Some(first_part_text(resp))
                        },
                        stream_finish(resp),
                    )
                },
                Err(e) => {
                    &&& final(self).chunk_index == old(self).chunk_index
                    &&& r matches Err(BaochuanError::Stream(m)) && m@ == "failed to parse Gemini chunk: "@
                        + e@
                },
            },
            parsed matches Ok(resp) ==> (resp.candidates@.len() > 0 ==> (
            resp.candidates@[0].finish_reason matches Some(f) ==> (f@ != "UNSPECIFIED"@ && f@.len() > 0
                ==> (r matches Ok(c) && c.choices@.len() == 1 && (c.choices@[0].finish_reason matches Some(
                g,
            ) && g@ == f@))))),
            parsed matches Ok(resp) ==> (resp.candidates@.len() > 0 ==> (
            resp.candidates@[0].finish_reason matches Some(f) ==> (f@ == "UNSPECIFIED"@ || f@.len() == 0
                ==> (r matches Ok(c) && c.choices@.len() == 1 && c.choices@[0].finish_reason is None)))),
            parsed matches Ok(resp) ==> (resp.candidates@.len() == 0 || resp.candidates@[0].finish_reason
                is None ==> (r matches Ok(c) && c.choices@.len() == 1 && c.choices@[0].finish_reason is None)),
            parsed matches Ok(resp) ==> (resp.candidates@.len() > 0
                && resp.candidates@[0].content.parts@.len() > 0 ==> (
            resp.candidates@[0].content.parts@[0].text matches Some(t) ==> (t@.len() > 0 ==> (
            r matches Ok(c) && c.choices@.len() == 1 && (c.choices@[0].delta.content matches Some(d)
                && d@ == t@))))),
            parsed matches Ok(resp) ==> (resp.candidates@.len() == 0
                || resp.candidates@[0].content.parts@.len() == 0
                || resp.candidates@[0].content.parts@[0].text is None ==> (r matches Ok(c)
                && c.choices@.len() == 1 && c.choices@[0].delta.content is None)),
    {
        match parsed {
            Ok(resp) => {
                let text = if resp.candidates.len() > 0 && resp.candidates[0].content.parts.len() > 0 {
                    match &resp.candidates[0].content.parts[0].text {
                        Some(t) => t.clone(),
                        None => String::new(),
                    }
                } else {
                    String::new()
                };
                let finish = if resp.candidates.len() > 0 {
                    match &resp.candidates[0].finish_reason {
                        Some(f) => {
                            if str_eq(f.as_str(), "UNSPECIFIED") || f.as_str().is_empty() {
                                None
                            } else {
                                Some(f.clone())
                            }
                        },
                        None => None,
                    }
                } else {
                    None
                };
                self.chunk_index = self.chunk_index + 1;
                let n = u64_to_decimal(self.chunk_index);
                let id = concat2("gemini-chunk-", n.as_str());
                let content = if text.as_str().is_empty() {
                    None
                } else {
                    Some(text)
                };
                Ok(simple_chunk(id, String::from_str(model), content, finish))
            },
            Err(e) => Err(BaochuanError::Stream(concat2("failed to parse Gemini chunk: ", e.as_str()))),
        }
    }
}

/// The part of a name after a leading `models/`, or the whole name.
pub open spec fn strip_models_prefix(name: Seq<char>) -> Seq<char> {
    if "models/"@.is_prefix_of(name) {
        name.subrange(7, name.len() as int)
    } else {
        name
    }
}

fn model_id(name: &String) -> (r: String)
    ensures
        r@ == strip_models_prefix(name@),
{
    let v = crate::text::chars_of(name.as_str());
    let prefix = vec!['m', 'o', 'd', 'e', 'l', 's', '/'];
    proof {
        reveal_strlit("models/");
        assert(prefix@ =~= "models/"@);
    }
    if crate::text::has_prefix(&v, &prefix) {
        crate::text::string_of_range(&v, 7, v.len())
    } else {
        name.clone()
    }
}

/// The models of a Gemini listing: the `models/` prefix stripped from the
/// name, owned by `google`, with the input token limit as context length.
pub fn models_from_gemini(entries: Vec<GeminiModelEntry>) -> (r: Vec<ModelInfo>)
    ensures
        r@.len() == entries@.len(),
        forall|i: int|
            0 <= i < r@.len() ==> {
                &&& (#[trigger] r@[i]).id@ == strip_models_prefix(entries@[i].name@)
                &&& r@[i].owned_by matches Some(o) && o@ == "google"@
                &&& r@[i].context_length == entries@[i].input_token_limit
                &&& r@[i].display_name == entries@[i].display_name
            },
{
    let mut rest = reversed(entries);
    let mut out: Vec<ModelInfo> = Vec::new();
    while rest.len() > 0
        invariant
            rest@.len() + out@.len() == entries@.len(),
            forall|j: int| 0 <= j < rest@.len() ==> #[trigger] rest@[j] == entries@[entries@.len() - 1 - j],
            forall|i: int|
                0 <= i < out@.len() ==> {
                    &&& (#[trigger] out@[i]).id@ == strip_models_prefix(entries@[i].name@)
                    &&& out@[i].owned_by matches Some(o) && o@ == "google"@
                    &&& out@[i].context_length == entries@[i].input_token_limit
                    &&& out@[i].display_name == entries@[i].display_name
                },
        decreases rest.len(),
    {
        let e = rest.pop().unwrap();
        let id = model_id(&e.name);
        out.push(
            ModelInfo {
                id,
                owned_by: Some(String::from_str("google")),
                context_length: e.input_token_limit,
                display_name: e.display_name,
            },
        );
    }
    out
}

/// The API key and root URL of a connection to the Gemini API.
#[derive(Debug, Clone)]
pub struct GeminiProvider {
    pub api_key: String,
    pub base_url: String,
}

impl GeminiProvider {
    /// A connection with the given API key to the default API root.
    pub fn new<K: crate::text::IntoText>(api_key: K) -> (r: Self)
        ensures
            r.api_key@ == api_key.text_view(),
            r.base_url@ == GEMINI_BASE_URL@,
    {
        GeminiProvider { api_key: api_key.into_text(), base_url: String::from_str(GEMINI_BASE_URL) }
    }

    /// Override the API root; it is used as given.
    pub fn with_base_url<U: crate::text::IntoText>(self, base_url: U) -> (r: Self)
        ensures
            r.api_key == self.api_key,
            r.base_url@ == base_url.text_view(),
    {
        GeminiProvider { base_url: base_url.into_text(), ..self }
    }

    /// The provider's name.
    pub fn name(&self) -> (r: &'static str)
        ensures
            r@ == "gemini"@,
    {
        "gemini"
    }

    /// `{base}/models/{model}:generateContent?key={key}`.
    pub fn generate_url(&self, model: &str) -> (r: String)
        ensures
            r@ == self.base_url@ + "/models/"@ + model@ + ":generateContent?key="@ + self.api_key@,
    {
        let mut s = concat3(self.base_url.as_str(), "/models/", model);
        s.append(":generateContent?key=");
        s.append(self.api_key.as_str());
        s
    }

    /// `{base}/models/{model}:streamGenerateContent?alt=sse&key={key}`.
    pub fn stream_url(&self, model: &str) -> (r: String)
        ensures
            r@ == self.base_url@ + "/models/"@ + model@ + ":streamGenerateContent?alt=sse&key="@
                + self.api_key@,
    {
        let mut s = concat3(self.base_url.as_str(), "/models/", model);
        s.append(":streamGenerateContent?alt=sse&key=");
        s.append(self.api_key.as_str());
        s
    }

    /// `{base}/models?key={key}`.
    pub fn models_url(&self) -> (r: String)
        ensures
            r@ == self.base_url@ + "/models?key="@ + self.api_key@,
    {
        concat3(self.base_url.as_str(), "/models?key=", self.api_key.as_str())
    }
}

/// Function calls survive the round trip through a conversation even though
/// Gemini gives them no id: the call's name serves as its id, so sending the
/// assistant message back yields the same function calls (the name, and the
/// JSON value of the arguments), and a tool message answering the call
/// becomes a function response under the function's name.
pub proof fn law_gemini_function_calls_round_trip(
    ps: Seq<GeminiResponsePart>,
    m: ChatMessage,
    gc: GeminiContent,
    answer: ChatMessage,
    answer_turn: GeminiContent,
    k: int,
)
    requires
        m.role == Role::Assistant,
        m.tool_calls is Some,
        m.tool_calls->Some_0@.len() == candidate_calls(ps).len(),
        forall|i: int|
            0 <= i < candidate_calls(ps).len() ==> gemini_call(
                candidate_calls(ps)[i],
                #[trigger] m.tool_calls->Some_0@[i],
            ),
        gemini_content(m, gc),
        0 <= k < candidate_calls(ps).len(),
        answer.role == Role::Tool,
        answer.tool_call_id == Some(m.tool_calls->Some_0@[k].id),
        gemini_content(answer, answer_turn),
    ensures
        gc.role@ == "model"@,
        forall|j: int|
            0 <= j < candidate_calls(ps).len() ==> #[trigger] gc.parts@[gemini_lead_len(m.content) + j]
                == (GeminiPart::FunctionCall {
                name: candidate_calls(ps)[j].name,
                args: crate::types::tools::json_parsed(candidate_calls(ps)[j].args@),
            }),
        answer_turn.parts@[0] matches GeminiPart::FunctionResponse { name, .. } && name@
            == candidate_calls(ps)[k].name@,
{
    let calls = m.tool_calls->Some_0@;
    assert(gemini_call(candidate_calls(ps)[k], calls[k]));
    assert forall|j: int| 0 <= j < candidate_calls(ps).len() implies #[trigger] gc.parts@[
        gemini_lead_len(m.content) + j] == (GeminiPart::FunctionCall {
        name: candidate_calls(ps)[j].name,
        args: crate::types::tools::json_parsed(candidate_calls(ps)[j].args@),
    }) by {
        assert(gemini_call(candidate_calls(ps)[j], calls[j]));
    }
    if let GeminiPart::FunctionResponse { name, .. } = answer_turn.parts@[0] {
        assert(name@ == calls[k].id@);
    }
}

} // verus!
