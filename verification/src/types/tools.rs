//! Tool (function) definitions, tool-choice presets and the tool calls that
//! models return.
use vstd::prelude::*;

use crate::text::IntoText;

verus! {

/// A JSON document, held as serde_json holds it. Verus sees nothing inside
/// it: the library reads it only through serde_json's member lookup and
/// string reading (see `agent`), and otherwise carries it unchanged.
#[verifier::external_type_specification]
#[verifier::external_body]
pub struct ExJsonValue(serde_json::Value);

/// `Value::clone` is derived on serde_json's enum, so the copy is the same
/// value.
pub assume_specification[ <serde_json::Value as Clone>::clone ](v: &serde_json::Value) -> (r:
    serde_json::Value)
    ensures
        r == *v,
;

/// What `serde_json::from_str` makes of a text as a JSON value: the value,
/// or the parser's description of why the text is not JSON.
pub uninterp spec fn json_parse_result(text: Seq<char>) -> Result<serde_json::Value, Seq<char>>;

/// `serde_json::from_str` into a JSON value, the error as its description.
/// What the parse returns is named, not stated.
#[verifier::external_body]
pub(crate) fn json_parse_or_error(text: &str) -> (r: Result<serde_json::Value, String>)
    ensures
        r matches Ok(v) ==> (json_parse_result(text@) matches Ok(w) && w == v),
        r matches Err(m) ==> (json_parse_result(text@) matches Err(e) && e == m@),
{
    serde_json::from_str(text).map_err(|e| e.to_string())
}

/// The JSON value a text denotes, none when it is not JSON.
pub open spec fn json_parsed(text: Seq<char>) -> Option<serde_json::Value> {
    match json_parse_result(text) {
        Ok(v) => Some(v),
        Err(_) => None,
    }
}

/// The JSON value a text denotes, none when it is not JSON.
pub fn json_parse(text: &str) -> (r: Option<serde_json::Value>)
    ensures
        r == json_parsed(text@),
{
    match json_parse_or_error(text) {
        Ok(v) => Some(v),
        Err(_) => None,
    }
}

/// A tool (function) that the model may call during a conversation.
#[derive(Debug, Clone)]
pub struct Tool {
    pub tool_type: ToolType,
    pub function: FunctionDefinition,
}

impl Tool {
    /// Create a function tool with name, description, and a JSON Schema for
    /// its parameters.
    pub fn function<N: IntoText, D: IntoText>(
        name: N,
        description: D,
        parameters: serde_json::Value,
    ) -> (r: Self)
        ensures
            r.tool_type == ToolType::Function,
            r.function.name@ == name.text_view(),
            r.function.description matches Some(d) && d@ == description.text_view(),
            r.function.parameters == parameters,
    {
        Tool {
            tool_type: ToolType::Function,
            function: FunctionDefinition {
                name: name.into_text(),
                description: Some(description.into_text()),
                parameters,
            },
        }
    }
}

/// The type discriminant of a [`Tool`]. Currently only `Function` is defined.
#[derive(Debug, Clone, Copy, PartialEq, Eq, Structural)]
pub enum ToolType {
    Function,
}

impl Default for ToolType {
    fn default() -> (r: Self)
        ensures
            r == ToolType::Function,
    {
        ToolType::Function
    }
}

/// The definition of a callable function inside a [`Tool`].
#[derive(Debug, Clone)]
pub struct FunctionDefinition {
    /// The function name that will appear in model responses.
    pub name: String,
    /// Human-readable description that helps the model decide when to call this function.
    pub description: Option<String>,
    /// JSON Schema object describing the function's parameters.
    pub parameters: serde_json::Value,
}

/// Controls whether and how the model invokes tools.
#[derive(Debug, Clone)]
pub enum ToolChoice {
    /// A preset: auto, required, or none.
    Preset(ToolChoicePreset),
    /// Force the model to call a specific function.
    Function(ToolChoiceFunction),
}

impl ToolChoice {
    /// Let the model decide whether to call a tool.
    pub fn auto() -> (r: Self)
        ensures
            r == ToolChoice::Preset(ToolChoicePreset::Auto),
    {
        ToolChoice::Preset(ToolChoicePreset::Auto)
    }

    /// The model must call at least one tool.
    pub fn required() -> (r: Self)
        ensures
            r == ToolChoice::Preset(ToolChoicePreset::Required),
    {
        ToolChoice::Preset(ToolChoicePreset::Required)
    }

    /// The model must not call any tool.
    pub fn none() -> (r: Self)
        ensures
            r == ToolChoice::Preset(ToolChoicePreset::NoTools),
    {
        ToolChoice::Preset(ToolChoicePreset::NoTools)
    }

    /// Force the model to call a specific function by name.
    pub fn function<N: IntoText>(name: N) -> (r: Self)
        ensures
            r matches ToolChoice::Function(f) && f.choice_type@ == "function"@ && f.function.name@
                == name.text_view(),
    {
        ToolChoice::Function(
            ToolChoiceFunction {
                choice_type: String::from_str("function"),
                function: ToolChoiceFunctionName { name: name.into_text() },
            },
        )
    }
}

/// A preset value for [`ToolChoice`].
#[derive(Debug, Clone, Copy, PartialEq, Eq, Structural)]
pub enum ToolChoicePreset {
    Auto,
    Required,
    NoTools,
}

/// Explicit function selection inside [`ToolChoice`].
#[derive(Debug, Clone)]
pub struct ToolChoiceFunction {
    pub choice_type: String,
    pub function: ToolChoiceFunctionName,
}

/// Name reference inside [`ToolChoiceFunction`].
#[derive(Debug, Clone)]
pub struct ToolChoiceFunctionName {
    pub name: String,
}

/// A tool invocation returned by the model in an assistant message.
#[derive(Debug, Clone)]
pub struct ToolCall {
    /// Provider-assigned call identifier (matches `tool_call_id` in the tool-result reply).
    pub id: String,
    /// Always `"function"` currently.
    pub call_type: String,
    /// The function name and JSON-encoded arguments.
    pub function: FunctionCall,
}

/// The function name and arguments within a [`ToolCall`].
#[derive(Debug, Clone)]
pub struct FunctionCall {
    /// Name of the function being called.
    pub name: String,
    /// JSON-encoded argument object, e.g. `{"location":"Paris"}`.
    pub arguments: String,
}

/// Partial tool call in a streaming response delta.
#[derive(Debug, Clone)]
pub struct ToolCallDelta {
    /// Identifies which tool call this fragment belongs to when there are multiple.
    pub index: u32,
    /// Set only on the first chunk for this call.
    pub id: Option<String>,
    /// Always `"function"` when present.
    pub call_type: Option<String>,
    /// Partial function name/arguments.
    pub function: Option<FunctionCallDelta>,
}

impl Default for ToolCallDelta {
    /// The empty fragment: index 0 and nothing else.
    fn default() -> (r: Self)
        ensures
            r.index == 0,
            r.id is None,
            r.call_type is None,
            r.function is None,
    {
        ToolCallDelta { index: 0, id: None, call_type: None, function: None }
    }
}

/// Partial function call within a [`ToolCallDelta`].
#[derive(Debug, Clone)]
pub struct FunctionCallDelta {
    /// Function name (first chunk only).
    pub name: Option<String>,
    /// Fragment of the JSON arguments string.
    pub arguments: Option<String>,
}

} // verus!
