//! Perplexity through its Agent API (`POST {base}/agent`, Responses
//! compatible): the mapping of legacy Sonar model names onto Agent presets,
//! the request body, the reading of the output items (text and cited
//! sources), the named-event stream, and the model listing.
use vstd::prelude::*;

use crate::error::BaochuanError;
use crate::providers::convert::{join, lemma_join_push, non_system, text_or_empty};
use crate::providers::openai_compat::OpenAICompatClient;
use crate::providers::sse::StreamFrame;
use crate::text::{concat2, str_eq, trim_end_char, trim_end_matches_char, u64_to_decimal, IntoText};
use crate::types::message::{
    content_text, is_plain_message, opt_str_view, role_name, ChatMessage, MessageContent, Role,
};
use crate::types::model::ModelInfo;
use crate::types::request::ChatRequest;
use crate::types::response::{simple_chunk, ChatChoice, ChatResponse, StreamChunk, Usage};
use crate::vecs::reversed;

verus! {

/// The default API root (the `/v1` root; chat goes to `{base}/agent`).
pub const PERPLEXITY_BASE_URL: &'static str = "https://api.perplexity.ai/v1";

/// The Agent preset that a model name selects: the legacy Sonar names map
/// onto presets, preset names select themselves, anything else is a model.
pub open spec fn sonar_preset(model: Seq<char>) -> Option<Seq<char>> {
    if model == "sonar"@ {
        Some("fast"@)
    } else if model == "sonar-pro"@ {
        Some("low"@)
    } else if model == "sonar-reasoning"@ || model == "sonar-reasoning-pro"@ {
        Some("medium"@)
    } else if model == "sonar-deep-research"@ {
        Some("high"@)
    } else if model == "fast"@ || model == "low"@ || model == "medium"@ || model == "high"@ || model
        == "xhigh"@ || model == "wide-research"@ {
        Some(model)
    } else {
        None
    }
}

/// The Sonar names select the Agent presets by tier: `sonar` the fast one,
/// `sonar-pro` low, both reasoning names medium, deep research high; each
/// preset name selects itself; other names select no preset.
#[verifier::spinoff_prover]
pub proof fn law_sonar_names_map_to_presets()
    ensures
        sonar_preset("sonar"@) == Some("fast"@),
        sonar_preset("sonar-pro"@) == Some("low"@),
        sonar_preset("sonar-reasoning"@) == Some("medium"@),
        sonar_preset("sonar-reasoning-pro"@) == Some("medium"@),
        sonar_preset("sonar-deep-research"@) == Some("high"@),
        sonar_preset("fast"@) == Some("fast"@),
        sonar_preset("low"@) == Some("low"@),
        sonar_preset("medium"@) == Some("medium"@),
        sonar_preset("high"@) == Some("high"@),
        sonar_preset("xhigh"@) == Some("xhigh"@),
        sonar_preset("wide-research"@) == Some("wide-research"@),
        sonar_preset("gpt-4o"@) is None,
        sonar_preset(""@) is None,
{
    reveal_strlit("sonar");
    reveal_strlit("sonar-pro");
    reveal_strlit("sonar-reasoning");
    reveal_strlit("sonar-reasoning-pro");
    reveal_strlit("sonar-deep-research");
    reveal_strlit("fast");
    reveal_strlit("low");
    reveal_strlit("medium");
    reveal_strlit("high");
    reveal_strlit("xhigh");
    reveal_strlit("wide-research");
    reveal_strlit("gpt-4o");
    reveal_strlit("");
    assert("fast"@[0] != "sonar"@[0]);
    assert("low"@[0] != "sonar"@[0]);
    assert("high"@[0] != "sonar"@[0]);
    assert("medium"@[0] != "sonar"@[0]);
    assert("xhigh"@[0] != "sonar"@[0]);
    assert("wide-research"@[0] != "sonar"@[0]);
    assert("gpt-4o"@[0] != "sonar"@[0]);
    assert("high"@[0] != "fast"@[0]);
    assert("gpt-4o"@[0] != "medium"@[0]);
    assert("gpt-4o"@[0] != "xhigh"@[0]);
    assert(""@.len() == 0);
    assert("sonar-pro"@.len() != "sonar"@.len());
    assert("sonar-reasoning"@.len() != "sonar"@.len());
    assert("sonar-reasoning"@.len() != "sonar-pro"@.len());
    assert("sonar-reasoning-pro"@[6] != "sonar-deep-research"@[6]);
    assert("sonar-reasoning"@[6] != "sonar-deep-research"@[6]);
}

/// How a model name is sent: `("preset", Some(preset))` for the Sonar names
/// and the preset names, `("model", None)` for anything else.
pub fn map_sonar_model<'a>(model: &'a str) -> (r: (&'static str, Option<&'a str>))
    ensures
        opt_str_view(r.1) == sonar_preset(model@),
        r.0@ == (if sonar_preset(model@) is Some {
            "preset"@
        } else {
            "model"@
        }),
{
    if str_eq(model, "sonar") {
        ("preset", Some("fast"))
    } else if str_eq(model, "sonar-pro") {
        ("preset", Some("low"))
    } else if str_eq(model, "sonar-reasoning") || str_eq(model, "sonar-reasoning-pro") {
        ("preset", Some("medium"))
    } else if str_eq(model, "sonar-deep-research") {
        ("preset", Some("high"))
    } else if str_eq(model, "fast") || str_eq(model, "low") || str_eq(model, "medium") || str_eq(
        model,
        "high",
    ) || str_eq(model, "xhigh") || str_eq(model, "wide-research") {
        ("preset", Some(model))
    } else {
        ("model", None)
    }
}

/// A `POST /agent` request body.
#[derive(Debug, Clone)]
pub struct PerplexityAgentBody {
    /// The conversation turns.
    pub input: Vec<PerplexityAgentInput>,
    /// The tools to enable; each is sent as `{"type": <name>}`.
    pub tools: Vec<String>,
    /// Sent when the model name selects a preset.
    pub preset: Option<String>,
    /// Sent when the model name selects no preset.
    pub model: Option<String>,
    /// The system messages' texts, joined by newlines.
    pub instructions: Option<String>,
    pub max_output_tokens: Option<u32>,
    /// As the bit pattern of an `f32`.
    pub temperature: Option<u32>,
    /// Sent only when set.
    pub stream: bool,
}

/// One input item of an agent body.
#[derive(Debug, Clone)]
pub struct PerplexityAgentInput {
    /// Always `message`.
    pub item_type: String,
    pub role: String,
    pub content: String,
}

/// The texts of the non-empty system messages of a conversation, in order.
pub open spec fn instruction_texts(ms: Seq<ChatMessage>) -> Seq<Seq<char>>
    decreases ms.len(),
{
    if ms.len() == 0 {
        Seq::empty()
    } else if ms.last().role == Role::System && content_text(ms.last().content).len() > 0 {
        instruction_texts(ms.drop_last()).push(content_text(ms.last().content))
    } else {
        instruction_texts(ms.drop_last())
    }
}

/// `it` is the input item of a (non-system) message.
pub open spec fn agent_input(m: ChatMessage, it: PerplexityAgentInput) -> bool {
    &&& it.item_type@ == "message"@
    &&& it.role@ == role_name(m.role)
    &&& it.content@ == content_text(m.content)
}

/// The body of a chat request: system messages become the instructions
/// (empty ones are dropped), the other turns become input items, web search
/// is enabled, the model name selects a preset or is sent as the model, and
/// the completion-token limit (or else the token limit) becomes
/// `max_output_tokens`.
pub fn to_agent_body(request: &ChatRequest, stream: bool) -> (r: PerplexityAgentBody)
    ensures
        r.input@.len() == non_system(request.messages@).len(),
        forall|i: int|
            0 <= i < r.input@.len() ==> agent_input(non_system(request.messages@)[i], #[trigger] r.input@[i]),
        r.tools@.len() == 1,
        r.tools@[0]@ == "web_search"@,
        sonar_preset(request.model@) matches Some(p) ==> (r.preset matches Some(q) && q@ == p),
        sonar_preset(request.model@) is Some ==> r.model is None,
        sonar_preset(request.model@) is None ==> r.preset is None && r.model == Some(request.model),
        instruction_texts(request.messages@).len() == 0 ==> r.instructions is None,
        instruction_texts(request.messages@).len() > 0 ==> (r.instructions matches Some(s) && s@
            == join(instruction_texts(request.messages@), "\n"@)),
        r.max_output_tokens == (match request.max_completion_tokens {
            Some(n) => Some(n),
            None => request.max_tokens,
        }),
        r.temperature == request.temperature,
        r.stream == stream,
{
    let msgs = &request.messages;
    let mut instructions = String::new();
    let mut n_instr: usize = 0;
    let mut input: Vec<PerplexityAgentInput> = Vec::new();
    let mut i: usize = 0;
    while i < msgs.len()
        invariant
            0 <= i <= msgs.len(),
            n_instr == instruction_texts(msgs@.subrange(0, i as int)).len(),
            n_instr <= i,
            n_instr > 0 ==> instructions@ == join(instruction_texts(msgs@.subrange(0, i as int)), "\n"@),
            n_instr == 0 ==> instructions@.len() == 0,
            input@.len() == non_system(msgs@.subrange(0, i as int)).len(),
            forall|j: int|
                0 <= j < input@.len() ==> agent_input(
                    non_system(msgs@.subrange(0, i as int))[j],
                    #[trigger] input@[j],
                ),
        decreases msgs.len() - i,
    {
        let ghost pre = msgs@.subrange(0, i as int);
        assert(msgs@.subrange(0, i + 1).drop_last() =~= pre);
        assert(msgs@.subrange(0, i + 1).last() == msgs@[i as int]);
        let m = &msgs[i];
        let text = m.content.to_text_lossy();
        if m.role == Role::System {
            if !text.as_str().is_empty() {
                proof {
                    lemma_join_push(instruction_texts(pre), "\n"@, text@);
                    reveal_strlit("\n");
                }
                if n_instr > 0 {
                    instructions.append("\n");
                    instructions.append(text.as_str());
                } else {
                    instructions.append(text.as_str());
                    assert(instructions@ =~= text@);
                }
                n_instr = n_instr + 1;
                assert(instruction_texts(msgs@.subrange(0, i + 1)) == instruction_texts(pre).push(
                    text@,
                ));
            } else {
                assert(instruction_texts(msgs@.subrange(0, i + 1)) == instruction_texts(pre));
            }
            assert(non_system(msgs@.subrange(0, i + 1)) == non_system(pre));
        } else {
            let item = PerplexityAgentInput {
                item_type: String::from_str("message"),
                role: m.role.to_string(),
                content: text,
            };
            input.push(item);
            assert(instruction_texts(msgs@.subrange(0, i + 1)) == instruction_texts(pre));
            proof {
                let ns = non_system(msgs@.subrange(0, i + 1));
                assert(ns == non_system(pre).push(*m));
                assert forall|j: int| 0 <= j < input@.len() implies agent_input(
                    ns[j],
                    #[trigger] input@[j],
                ) by {
                    if j < input@.len() - 1 {
                        assert(ns[j] == non_system(pre)[j]);
                    }
                }
            }
        }
        i = i + 1;
    }
    assert(msgs@.subrange(0, msgs@.len() as int) =~= msgs@);
    let mut tools: Vec<String> = Vec::new();
    tools.push(String::from_str("web_search"));
    let (kind, preset) = map_sonar_model(request.model.as_str());
    let mut preset_out: Option<String> = None;
    let mut model_out: Option<String> = None;
    match preset {
        Some(p) => {
            preset_out = Some(String::from_str(p));
        },
        None => {
            if str_eq(kind, "model") {
                model_out = Some(request.model.clone());
            }
        },
    }
    PerplexityAgentBody {
        input,
        tools,
        preset: preset_out,
        model: model_out,
        instructions: if n_instr > 0 {
            Some(instructions)
        } else {
            None
        },
        max_output_tokens: match request.max_completion_tokens {
            Some(n) => Some(n),
            None => request.max_tokens,
        },
        temperature: request.temperature,
        stream,
    }
}

/// An Agent API response, with the fields of its output items that the
/// library reads.
#[derive(Debug, Clone)]
pub struct PerplexityAgentResponse {
    pub id: String,
    pub model: Option<String>,
    pub output: Vec<PerplexityOutputItem>,
    pub usage: Option<PerplexityUsage>,
}

/// Token counts of an Agent API response.
#[derive(Debug, Clone, Copy)]
pub struct PerplexityUsage {
    pub input_tokens: Option<u32>,
    pub output_tokens: Option<u32>,
    pub total_tokens: Option<u32>,
}

/// One output item: its `type` (when a string), its `content` parts (when
/// an array) and its search `results` (when an array).
#[derive(Debug, Clone)]
pub struct PerplexityOutputItem {
    pub item_type: Option<String>,
    pub content: Option<Vec<PerplexityOutputPart>>,
    pub results: Option<Vec<PerplexitySearchResult>>,
}

/// One content part of a message item: its `type` and `text` (when strings).
#[derive(Debug, Clone)]
pub struct PerplexityOutputPart {
    pub part_type: Option<String>,
    pub text: Option<String>,
}

/// One search result: its `url` (when a string).
#[derive(Debug, Clone)]
pub struct PerplexitySearchResult {
    pub url: Option<String>,
}

/// An optional string that holds exactly `t`.
pub open spec fn holds_text(o: Option<String>, t: Seq<char>) -> bool {
    match o {
        Some(s) => s@ == t,
        None => false,
    }
}

/// The text of an `output_text` part.
pub open spec fn part_output_text(p: PerplexityOutputPart) -> Seq<char> {
    if holds_text(p.part_type, "output_text"@) {
        text_or_empty(p.text)
    } else {
        Seq::empty()
    }
}

/// The texts of the `output_text` parts, concatenated.
pub open spec fn parts_output_text(ps: Seq<PerplexityOutputPart>) -> Seq<char>
    decreases ps.len(),
{
    if ps.len() == 0 {
        Seq::empty()
    } else {
        parts_output_text(ps.drop_last()) + part_output_text(ps.last())
    }
}

/// The output text of an item: that of its parts when it is a `message`.
pub open spec fn item_output_text(it: PerplexityOutputItem) -> Seq<char> {
    if holds_text(it.item_type, "message"@) {
        match it.content {
            Some(ps) => parts_output_text(ps@),
            None => Seq::empty(),
        }
    } else {
        Seq::empty()
    }
}

/// The output text of a response: that of its items, concatenated.
pub open spec fn output_text_of(items: Seq<PerplexityOutputItem>) -> Seq<char>
    decreases items.len(),
{
    if items.len() == 0 {
        Seq::empty()
    } else {
        output_text_of(items.drop_last()) + item_output_text(items.last())
    }
}

/// The text of every `output_text` part of every `message` item, in order.
pub fn extract_output_text(output: &Vec<PerplexityOutputItem>) -> (r: String)
    ensures
        r@ == output_text_of(output@),
{
    let mut text = String::new();
    let mut i: usize = 0;
    while i < output.len()
        invariant
            0 <= i <= output.len(),
            text@ == output_text_of(output@.subrange(0, i as int)),
        decreases output.len() - i,
    {
        let ghost pre = output@.subrange(0, i as int);
        assert(output@.subrange(0, i + 1).drop_last() =~= pre);
        assert(output@.subrange(0, i + 1).last() == output@[i as int]);
        let item = &output[i];
        let is_message = match &item.item_type {
            Some(t) => str_eq(t.as_str(), "message"),
            None => false,
        };
        if is_message {
            match &item.content {
                Some(parts) => {
                    let mut j: usize = 0;
                    while j < parts.len()
                        invariant
                            0 <= j <= parts.len(),
                            text@ == output_text_of(pre) + parts_output_text(parts@.subrange(0, j as int)),
                        decreases parts.len() - j,
                    {
                        let ghost before = text@;
                        assert(parts@.subrange(0, j + 1).drop_last() =~= parts@.subrange(0, j as int));
                        assert(parts@.subrange(0, j + 1).last() == parts@[j as int]);
                        let p = &parts[j];
                        let is_out = match &p.part_type {
                            Some(t) => str_eq(t.as_str(), "output_text"),
                            None => false,
                        };
                        if is_out {
                            match &p.text {
                                Some(chunk) => {
                                    text.append(chunk.as_str());
                                },
                                None => {},
                            }
                        }
                        assert(text@ =~= before + part_output_text(parts@[j as int]));
                        assert(text@ =~= output_text_of(pre) + parts_output_text(
                            parts@.subrange(0, j + 1),
                        ));
                        j = j + 1;
                    }
                    assert(parts@.subrange(0, parts@.len() as int) =~= parts@);
                },
                None => {
                    assert(text@ =~= output_text_of(pre) + item_output_text(output@[i as int]));
                },
            }
        } else {
            assert(text@ =~= output_text_of(pre) + item_output_text(output@[i as int]));
        }
        i = i + 1;
    }
    assert(output@.subrange(0, output@.len() as int) =~= output@);
    text
}

/// The non-empty URLs of search results, in order.
pub open spec fn result_urls(rs: Seq<PerplexitySearchResult>) -> Seq<Seq<char>>
    decreases rs.len(),
{
    if rs.len() == 0 {
        Seq::empty()
    } else {
        let init = result_urls(rs.drop_last());
        match rs.last().url {
            Some(u) => if u@.len() > 0 {
                init.push(u@)
            } else {
                init
            },
            None => init,
        }
    }
}

/// The URLs of an item: those of its results when it is `search_results`.
pub open spec fn item_urls(it: PerplexityOutputItem) -> Seq<Seq<char>> {
    if holds_text(it.item_type, "search_results"@) {
        match it.results {
            Some(rs) => result_urls(rs@),
            None => Seq::empty(),
        }
    } else {
        Seq::empty()
    }
}

/// The URLs of a response's items, in order, repeats included.
pub open spec fn output_urls(items: Seq<PerplexityOutputItem>) -> Seq<Seq<char>>
    decreases items.len(),
{
    if items.len() == 0 {
        Seq::empty()
    } else {
        output_urls(items.drop_last()) + item_urls(items.last())
    }
}

/// `s` with every repeat of an earlier element removed: the first
/// occurrences, in order.
pub open spec fn dedup(s: Seq<Seq<char>>) -> Seq<Seq<char>>
    decreases s.len(),
{
    if s.len() == 0 {
        Seq::empty()
    } else {
        let d = dedup(s.drop_last());
        if d.contains(s.last()) {
            d
        } else {
            d.push(s.last())
        }
    }
}

/// The cited sources of a response: its distinct URLs in order of first
/// appearance, or none when there are none.
pub open spec fn citations_of(items: Seq<PerplexityOutputItem>) -> Option<Seq<Seq<char>>> {
    let d = dedup(output_urls(items));
    if d.len() == 0 {
        None
    } else {
        Some(d)
    }
}

/// The texts of a sequence of strings.
pub open spec fn strings_view(v: Seq<String>) -> Seq<Seq<char>> {
    v.map_values(|s: String| s@)
}

/// The texts of an optional vector of strings.
pub open spec fn opt_strings_view(o: Option<Vec<String>>) -> Option<Seq<Seq<char>>> {
    match o {
        Some(v) => Some(strings_view(v@)),
        None => None,
    }
}

fn contains_string(v: &Vec<String>, s: &str) -> (r: bool)
    ensures
        r == strings_view(v@).contains(s@),
{
    let mut i: usize = 0;
    while i < v.len()
        invariant
            0 <= i <= v.len(),
            forall|k: int| 0 <= k < i ==> (#[trigger] v@[k])@ != s@,
        decreases v.len() - i,
    {
        if str_eq(v[i].as_str(), s) {
            assert(strings_view(v@)[i as int] == s@);
            return true;
        }
        i = i + 1;
    }
    assert forall|k: int| 0 <= k < strings_view(v@).len() implies strings_view(v@)[k] != s@ by {
        assert(strings_view(v@)[k] == v@[k]@);
    }
    false
}

/// The sources cited by the `search_results` items: every non-empty URL,
/// once, in order of first appearance; none when there is none.
pub fn extract_citations(output: &Vec<PerplexityOutputItem>) -> (r: Option<Vec<String>>)
    ensures
        opt_strings_view(r) == citations_of(output@),
{
    let mut citations: Vec<String> = Vec::new();
    let mut i: usize = 0;
    while i < output.len()
        invariant
            0 <= i <= output.len(),
            strings_view(citations@) == dedup(output_urls(output@.subrange(0, i as int))),
        decreases output.len() - i,
    {
        let ghost pre = output@.subrange(0, i as int);
        assert(output@.subrange(0, i + 1).drop_last() =~= pre);
        assert(output@.subrange(0, i + 1).last() == output@[i as int]);
        let item = &output[i];
        let is_search = match &item.item_type {
            Some(t) => str_eq(t.as_str(), "search_results"),
            None => false,
        };
        let mut searched = false;
        if is_search {
            match &item.results {
                Some(results) => {
                    searched = true;
                    let mut j: usize = 0;
                    while j < results.len()
                        invariant
                            0 <= j <= results.len(),
                            strings_view(citations@) == dedup(
                                output_urls(pre) + result_urls(results@.subrange(0, j as int)),
                            ),
                        decreases results.len() - j,
                    {
                        let ghost seen = output_urls(pre) + result_urls(results@.subrange(0, j as int));
                        assert(results@.subrange(0, j + 1).drop_last() =~= results@.subrange(0, j as int));
                        assert(results@.subrange(0, j + 1).last() == results@[j as int]);
                        match &results[j].url {
                            Some(url) => {
                                if !url.as_str().is_empty() {
                                    let ghost next = seen.push(url@);
                                    assert(output_urls(pre) + result_urls(results@.subrange(0, j + 1))
                                        =~= next);
                                    assert(next.drop_last() =~= seen);
                                    if !contains_string(&citations, url.as_str()) {
                                        citations.push(url.clone());
                                        assert(strings_view(citations@) =~= dedup(seen).push(url@));
                                    }
                                } else {
                                    assert(output_urls(pre) + result_urls(results@.subrange(0, j + 1))
                                        =~= seen);
                                }
                            },
                            None => {
                                assert(output_urls(pre) + result_urls(results@.subrange(0, j + 1))
                                    =~= seen);
                            },
                        }
                        j = j + 1;
                    }
                    assert(results@.subrange(0, results@.len() as int) =~= results@);
                    assert(output_urls(output@.subrange(0, i + 1)) =~= output_urls(pre) + result_urls(
                        results@,
                    ));
                },
                None => {},
            }
        }
        if !searched {
            assert(output_urls(output@.subrange(0, i + 1)) =~= output_urls(pre));
        }
        i = i + 1;
    }
    assert(output@.subrange(0, output@.len() as int) =~= output@);
    if citations.len() == 0 {
        None
    } else {
        Some(citations)
    }
}

proof fn lemma_dedup(s: Seq<Seq<char>>)
    ensures
        forall|i: int, j: int|
            0 <= i < j < dedup(s).len() ==> #[trigger] dedup(s)[i] != #[trigger] dedup(s)[j],
        forall|u: Seq<char>| #[trigger] dedup(s).contains(u) <==> s.contains(u),
    decreases s.len(),
{
    if s.len() > 0 {
        let init = s.drop_last();
        lemma_dedup(init);
        let d = dedup(init);
        assert forall|u: Seq<char>| #[trigger] dedup(s).contains(u) <==> s.contains(u) by {
            if s.contains(u) {
                let k = choose|k: int| 0 <= k < s.len() && s[k] == u;
                if k < s.len() - 1 {
                    assert(init[k] == u);
                }
            }
            if init.contains(u) {
                let k = choose|k: int| 0 <= k < init.len() && init[k] == u;
                assert(s[k] == u);
            }
            if !d.contains(s.last()) {
                if dedup(s).contains(u) {
                    let k = choose|k: int| 0 <= k < dedup(s).len() && dedup(s)[k] == u;
                    if k < d.len() {
                        assert(d[k] == u);
                    }
                }
                if d.contains(u) {
                    let k = choose|k: int| 0 <= k < d.len() && d[k] == u;
                    assert(dedup(s)[k] == u);
                }
                assert(dedup(s)[d.len() as int] == s.last());
            }
        }
    }
}

proof fn lemma_urls_non_empty_results(rs: Seq<PerplexitySearchResult>)
    ensures
        forall|k: int| 0 <= k < result_urls(rs).len() ==> #[trigger] result_urls(rs)[k].len() > 0,
    decreases rs.len(),
{
    if rs.len() > 0 {
        let init = result_urls(rs.drop_last());
        lemma_urls_non_empty_results(rs.drop_last());
        assert forall|k: int| 0 <= k < result_urls(rs).len() implies #[trigger] result_urls(rs)[k].len()
            > 0 by {
            if k < init.len() {
                assert(result_urls(rs)[k] == init[k]);
            }
        }
    }
}

proof fn lemma_urls_non_empty(items: Seq<PerplexityOutputItem>)
    ensures
        forall|k: int| 0 <= k < output_urls(items).len() ==> #[trigger] output_urls(items)[k].len() > 0,
    decreases items.len(),
{
    if items.len() > 0 {
        lemma_urls_non_empty(items.drop_last());
        let a = output_urls(items.drop_last());
        let b = item_urls(items.last());
        if holds_text(items.last().item_type, "search_results"@) {
            if let Some(rs) = items.last().results {
                lemma_urls_non_empty_results(rs@);
            }
        }
        assert forall|k: int| 0 <= k < output_urls(items).len() implies #[trigger] output_urls(
            items,
        )[k].len() > 0 by {
            if k >= a.len() {
                assert(output_urls(items)[k] == b[k - a.len()]);
            } else {
                assert(output_urls(items)[k] == a[k]);
            }
        }
    }
}

/// A response never cites a source twice.
pub proof fn law_citations_are_distinct(items: Seq<PerplexityOutputItem>)
    ensures
        citations_of(items) matches Some(c) ==> forall|i: int, j: int|
            0 <= i < j < c.len() ==> #[trigger] c[i] != #[trigger] c[j],
{
    lemma_dedup(output_urls(items));
}

/// The cited sources are exactly the non-empty URLs of the response's
/// search results: each such URL is cited, each citation is one of them,
/// and none is empty. A response with no such URL cites nothing.
pub proof fn law_citations_are_the_result_urls(items: Seq<PerplexityOutputItem>)
    ensures
        forall|u: Seq<char>|
            #[trigger] output_urls(items).contains(u) <==> (citations_of(items) matches Some(c)
                && c.contains(u)),
        citations_of(items) matches Some(c) ==> forall|k: int| 0 <= k < c.len() ==> #[trigger] c[k].len() > 0,
        output_urls(items).len() == 0 ==> citations_of(items) is None,
{
    let s = output_urls(items);
    lemma_dedup(s);
    lemma_urls_non_empty(items);
    let d = dedup(s);
    assert forall|k: int| 0 <= k < d.len() implies #[trigger] d[k].len() > 0 by {
        assert(d.contains(d[k]));
        assert(s.contains(d[k]));
        let m = choose|m: int| 0 <= m < s.len() && s[m] == d[k];
        assert(s[m].len() > 0);
    }
    if d.len() == 0 {
        assert forall|u: Seq<char>| !(#[trigger] s.contains(u)) by {
            assert(!d.contains(u));
        }
    }
    if s.len() == 0 {
        if d.len() > 0 {
            assert(d.contains(d[0]));
        }
    }
}

/// A count, zero when absent.
pub open spec fn count_or_zero(o: Option<u32>) -> u32 {
    match o {
        Some(n) => n,
        None => 0u32,
    }
}

/// The usage of a response: absent counts are zero, and the total, when
/// absent, is the sum of the two counts.
pub open spec fn agent_usage(u: Option<PerplexityUsage>) -> Option<Usage> {
    match u {
        Some(u) => {
            let p = count_or_zero(u.input_tokens);
            let c = count_or_zero(u.output_tokens);
            Some(
                Usage {
                    prompt_tokens: p,
                    completion_tokens: c,
                    total_tokens: match u.total_tokens {
                        Some(t) => t,
                        None => (p + c) as u32,
                    },
                },
            )
        },
        None => None,
    }
}

/// The unified response of an Agent API response: one assistant choice
/// holding the output text, finished (`stop`), the usage, and the cited
/// sources.
pub fn from_agent_response(resp: PerplexityAgentResponse) -> (r: ChatResponse)
    requires
        resp.usage matches Some(u) ==> count_or_zero(u.input_tokens) + count_or_zero(u.output_tokens)
            <= u32::MAX,
    ensures
        r.id == resp.id,
        r.model@ == text_or_empty(resp.model),
        r.choices@.len() == 1,
        r.choices@[0].index == 0,
        is_plain_message(r.choices@[0].message, Role::Assistant, output_text_of(resp.output@)),
        r.choices@[0].finish_reason matches Some(f) && f@ == "stop"@,
        r.usage == agent_usage(resp.usage),
        opt_strings_view(r.citations) == citations_of(resp.output@),
{
    let text = extract_output_text(&resp.output);
    let citations = extract_citations(&resp.output);
    let usage = match resp.usage {
        Some(u) => {
            let prompt = match u.input_tokens {
                Some(n) => n,
                None => 0,
            };
            let completion = match u.output_tokens {
                Some(n) => n,
                None => 0,
            };
            let sum = prompt + completion;
            Some(
                Usage {
                    prompt_tokens: prompt,
                    completion_tokens: completion,
                    total_tokens: match u.total_tokens {
                        Some(t) => t,
                        None => sum,
                    },
                },
            )
        },
        None => None,
    };
    let model = match resp.model {
        Some(m) => m,
        None => String::new(),
    };
    let mut choices: Vec<ChatChoice> = Vec::new();
    choices.push(
        ChatChoice {
            index: 0,
            message: ChatMessage {
                role: Role::Assistant,
                content: MessageContent::Text(text),
                audio: None,
                tool_calls: None,
                tool_call_id: None,
            },
            finish_reason: Some(String::from_str("stop")),
        },
    );
    ChatResponse { id: resp.id, model, choices, usage, citations }
}

/// The fields of a Responses stream payload that the library reads (each
/// present when it is a string): `id`, `response.id`, `type` and `delta`.
#[derive(Debug, Clone)]
pub struct ResponsesEvent {
    pub id: Option<String>,
    pub response_id: Option<String>,
    pub event_type: Option<String>,
    pub delta: Option<String>,
}

/// What a payload's fields hold, as texts.
pub struct ResponsesEventView {
    pub id: Option<Seq<char>>,
    pub response_id: Option<Seq<char>>,
    pub event_type: Option<Seq<char>>,
    pub delta: Option<Seq<char>>,
}

/// The texts an event's fields hold.
pub open spec fn event_view(e: ResponsesEvent) -> ResponsesEventView {
    ResponsesEventView {
        id: opt_text_view(e.id),
        response_id: opt_text_view(e.response_id),
        event_type: opt_text_view(e.event_type),
        delta: opt_text_view(e.delta),
    }
}

/// The text of an optional string.
pub open spec fn opt_text_view(o: Option<String>) -> Option<Seq<char>> {
    match o {
        Some(s) => Some(s@),
        None => None,
    }
}

/// The text of `response.id` in a payload, when `response` is an object
/// whose `id` is a string.
pub open spec fn nested_response_id(v: serde_json::Value) -> Option<Seq<char>> {
    match crate::agent::json_member_of(v, "response"@) {
        Some(r) => crate::agent::member_text(r, "id"@),
        None => None,
    }
}

/// What the stream reads of a JSON payload: its `id`, `response.id`, `type`
/// and `delta`, each when it is a string.
pub open spec fn payload_event(v: serde_json::Value) -> ResponsesEventView {
    ResponsesEventView {
        id: crate::agent::member_text(v, "id"@),
        response_id: nested_response_id(v),
        event_type: crate::agent::member_text(v, "type"@),
        delta: crate::agent::member_text(v, "delta"@),
    }
}

/// What the stream reads of a payload's text: nothing when it is not JSON.
pub open spec fn parsed_payload(text: Seq<char>) -> Option<ResponsesEventView> {
    match crate::types::tools::json_parsed(text) {
        Some(v) => Some(payload_event(v)),
        None => None,
    }
}

/// The view of an optional event.
pub open spec fn opt_event_view(p: Option<ResponsesEvent>) -> Option<ResponsesEventView> {
    match p {
        Some(e) => Some(event_view(e)),
        None => None,
    }
}

fn owned_text(o: Option<&str>) -> (r: Option<String>)
    ensures
        opt_text_view(r) == opt_str_view(o),
{
    match o {
        Some(t) => Some(String::from_str(t)),
        None => None,
    }
}

/// The fields of a parsed Responses stream payload that the stream reads:
/// its `id`, `response.id`, `type` and `delta`, each when it is a string.
pub fn responses_event_of(v: &serde_json::Value) -> (r: ResponsesEvent)
    ensures
        event_view(r) == payload_event(*v),
{
    let id = owned_text(crate::agent::json_member_text(v, "id"));
    let response_id = match crate::agent::json_member(v, "response") {
        Some(inner) => owned_text(crate::agent::json_member_text(inner, "id")),
        None => None,
    };
    let event_type = owned_text(crate::agent::json_member_text(v, "type"));
    let delta = owned_text(crate::agent::json_member_text(v, "delta"));
    ResponsesEvent { id, response_id, event_type, delta }
}

/// The text of an optional text, or the empty text.
pub open spec fn seq_or_empty(o: Option<Seq<char>>) -> Seq<char> {
    match o {
        Some(t) => t,
        None => Seq::empty(),
    }
}

/// The response id after a payload: its `id`, else its `response.id`, else
/// the one seen before.
pub open spec fn next_response_id(cur: Seq<char>, v: ResponsesEventView) -> Seq<char> {
    match v.id {
        Some(i) => i,
        None => match v.response_id {
            Some(i) => i,
            None => cur,
        },
    }
}

/// The name a payload is handled under: the current event's, or, when
/// there is none or it is empty, the payload's `type`.
pub open spec fn event_name(event: Option<String>, v: ResponsesEventView) -> Seq<char> {
    match event {
        Some(e) => if e@.len() > 0 {
            e@
        } else {
            seq_or_empty(v.event_type)
        },
        None => seq_or_empty(v.event_type),
    }
}

/// Whether a payload carries a non-empty text delta.
pub open spec fn has_delta(v: ResponsesEventView) -> bool {
    v.delta is Some && seq_or_empty(v.delta).len() > 0
}

/// One step of a Responses stream: from state `s`, a payload under the
/// current event (`None` when it is not JSON, and then it is skipped) gives
/// state `t` and the chunk `r`. The payload updates the response id; a
/// non-empty `response.output_text.delta` becomes a text chunk (id: the
/// response id, or `agent-chunk-<n>` while there is none);
/// `response.completed` and `response.done` become the final chunk
/// (`stop`); anything else yields nothing.
pub open spec fn responses_step(
    s: ResponsesStreamState,
    event: Option<String>,
    parsed: Option<ResponsesEventView>,
    model: Seq<char>,
    t: ResponsesStreamState,
    r: Option<StreamChunk>,
) -> bool {
    match parsed {
        None => r is None && t == s,
        Some(v) => {
            let name = event_name(event, v);
            &&& t.response_id@ == next_response_id(s.response_id@, v)
            &&& if name == "response.output_text.delta"@ {
                if has_delta(v) {
                    let rid = t.response_id@;
                    &&& t.chunk_index == s.chunk_index + 1
                    &&& r matches Some(c) && crate::types::response::is_simple_chunk(
                        c,
                        if rid.len() == 0 {
                            "agent-chunk-"@ + crate::text::decimal(t.chunk_index as nat)
                        } else {
                            rid
                        },
                        model,
                        v.delta,
                        None,
                    )
                } else {
                    r is None && t.chunk_index == s.chunk_index
                }
            } else if name == "response.completed"@ || name == "response.done"@ {
                &&& t.chunk_index == s.chunk_index
                &&& r matches Some(c) && crate::types::response::is_simple_chunk(
                    c,
                    t.response_id@,
                    model,
                    None,
                    Some("stop"@),
                )
            } else {
                r is None && t.chunk_index == s.chunk_index
            }
        },
    }
}

/// The reading state of a Responses stream: the number of text chunks made
/// so far and the response id seen last.
#[derive(Debug, Clone)]
pub struct ResponsesStreamState {
    pub chunk_index: u64,
    pub response_id: String,
}

impl ResponsesStreamState {
    pub fn new() -> (r: Self)
        ensures
            r.chunk_index == 0,
            r.response_id@.len() == 0,
    {
        ResponsesStreamState { chunk_index: 0, response_id: String::new() }
    }

    /// Handle one payload of the stream under the current event, given its
    /// parse (none when it is not JSON): one `responses_step`.
    pub fn on_frame(&mut self, event: &Option<String>, parsed: Option<ResponsesEvent>, model: &str) -> (r:
        Option<StreamChunk>)
        requires
            old(self).chunk_index < u64::MAX,
        ensures
            responses_step(*old(self), *event, opt_event_view(parsed), model@, *final(self), r),
    {
        let v = match parsed {
            Some(v) => v,
            None => {
                return None;
            },
        };
        match &v.id {
            Some(i) => {
                self.response_id = i.clone();
            },
            None => match &v.response_id {
                Some(i) => {
                    self.response_id = i.clone();
                },
                None => {},
            },
        }
        let fallback = match &v.event_type {
            Some(t) => t.clone(),
            None => String::new(),
        };
        let name = match event {
            Some(e) => if e.as_str().is_empty() {
                fallback
            } else {
                e.clone()
            },
            None => fallback,
        };
        if str_eq(name.as_str(), "response.output_text.delta") {
            match v.delta {
                Some(t) => {
                    if t.as_str().is_empty() {
                        None
                    } else {
                        self.chunk_index = self.chunk_index + 1;
                        let id = if self.response_id.as_str().is_empty() {
                            let n = u64_to_decimal(self.chunk_index);
                            concat2("agent-chunk-", n.as_str())
                        } else {
                            self.response_id.clone()
                        };
                        Some(simple_chunk(id, String::from_str(model), Some(t), None))
                    }
                },
                None => None,
            }
        } else if str_eq(name.as_str(), "response.completed") || str_eq(name.as_str(), "response.done") {
            Some(
                simple_chunk(
                    self.response_id.clone(),
                    String::from_str(model),
                    None,
                    Some(String::from_str("stop")),
                ),
            )
        } else {
            None
        }
    }

    /// Handle one frame of the stream: its payload is read as JSON (and
    /// skipped when it is not), then handled as `on_frame` does.
    pub fn on_data_frame(&mut self, frame: &StreamFrame, model: &str) -> (r: Option<StreamChunk>)
        requires
            old(self).chunk_index < u64::MAX,
        ensures
            responses_step(
                *old(self),
                frame.event,
                parsed_payload(frame.data@),
                model@,
                *final(self),
                r,
            ),
    {
        let parsed = match crate::types::tools::json_parse(frame.data.as_str()) {
            Some(v) => Some(responses_event_of(&v)),
            None => None,
        };
        self.on_frame(&frame.event, parsed, model)
    }
}

/// An entry of the model listing.
#[derive(Debug, Clone)]
pub struct PerplexityModel {
    pub id: String,
    pub owned_by: Option<String>,
    pub context_length: Option<u32>,
}

/// `mi` is the model of a listing entry.
pub open spec fn perplexity_model(e: PerplexityModel, mi: ModelInfo) -> bool {
    &&& mi.id == e.id
    &&& mi.owned_by == e.owned_by
    &&& mi.context_length == e.context_length
    &&& mi.display_name is None
}

/// The models of a listing, in order.
pub fn models_from_perplexity(entries: Vec<PerplexityModel>) -> (r: Vec<ModelInfo>)
    ensures
        r@.len() == entries@.len(),
        forall|i: int| 0 <= i < r@.len() ==> perplexity_model(entries@[i], #[trigger] r@[i]),
{
    let mut rest = reversed(entries);
    let mut out: Vec<ModelInfo> = Vec::new();
    while rest.len() > 0
        invariant
            rest@.len() + out@.len() == entries@.len(),
            forall|j: int| 0 <= j < rest@.len() ==> #[trigger] rest@[j] == entries@[entries@.len() - 1 - j],
            forall|i: int| 0 <= i < out@.len() ==> perplexity_model(entries@[i], #[trigger] out@[i]),
        decreases rest.len(),
    {
        let e = rest.pop().unwrap();
        out.push(
            ModelInfo {
                id: e.id,
                owned_by: e.owned_by,
                context_length: e.context_length,
                display_name: None,
            },
        );
    }
    out
}

/// A connection to the Perplexity Agent API.
#[derive(Debug, Clone)]
pub struct PerplexityProvider {
    pub inner: OpenAICompatClient,
}

impl PerplexityProvider {
    /// A connection with the given API key to the default API root.
    pub fn new<K: IntoText>(api_key: K) -> (r: Self)
        ensures
            r.inner.api_key matches Some(k) && k@ == api_key.text_view(),
            r.inner.base_url@ == PERPLEXITY_BASE_URL@,
    {
        PerplexityProvider { inner: OpenAICompatClient::with_key(api_key, PERPLEXITY_BASE_URL) }
    }

    /// Override the API root: pass the `/v1` root; chat is sent to
    /// `{base}/agent`.
    pub fn with_base_url<U: IntoText>(self, base_url: U) -> (r: Self)
        ensures
            r.inner.api_key == self.inner.api_key,
            r.inner.base_url@ == base_url.text_view(),
    {
        PerplexityProvider { inner: OpenAICompatClient { base_url: base_url.into_text(), ..self.inner } }
    }

    /// The provider's name.
    pub fn name(&self) -> (r: &'static str)
        ensures
            r@ == "perplexity"@,
    {
        "perplexity"
    }

    /// `{base}/agent`, the root's trailing slashes removed.
    pub fn agent_url(&self) -> (r: String)
        ensures
            r@ == trim_end_char(self.inner.base_url@, '/') + "/agent"@,
    {
        let b = trim_end_matches_char(self.inner.base_url.as_str(), '/');
        concat2(b.as_str(), "/agent")
    }
}

} // verus!
