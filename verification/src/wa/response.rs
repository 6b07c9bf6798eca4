//! What the assistant answers: an ordered list of output items, each tagged
//! with the kind of response it is, and what came with them.

use vstd::prelude::*;
use crate::dict::Dict;
use crate::wa::context::Context;
use crate::wa::entity::{Entity, Intent};
use crate::wa::input::{InputOptions, InputType};

verus! {

/// The kind of an output item. It decides which of the item's optional
/// fields carry meaning.
#[derive(Debug)]
pub enum ResponseType {
    Text,
    Pause,
    Image,
    Option,
    ConnectToAgent,
    Suggestion,
    Search,
}

#[derive(Debug)]
pub enum OptionPreference {
    Dropdown,
    Button,
}

#[derive(Debug)]
pub struct OptionInput {
    pub message_type: Option<InputType>,
    pub text: Option<String>,
    pub options: Option<InputOptions>,
    pub intents: Option<Vec<Intent>>,
    pub entities: Option<Vec<Entity>>,
    pub suggestion_id: Option<String>,
}

#[derive(Debug)]
pub struct OptionElm {
    pub input: OptionInput,
}

#[derive(Debug)]
pub struct OutputOption {
    pub label: String,
    pub value: OptionElm,
}

#[derive(Debug)]
pub enum SuggestionInputType {
    Text,
    Option,
    Image,
}

#[derive(Debug)]
pub struct SuggestionInput {
    pub response_type: Option<SuggestionInputType>,
    pub text: Option<String>,
    pub options: Option<Vec<OutputOption>>,
    pub source: Option<String>,
    pub title: Option<String>,
    pub intents: Option<Vec<Intent>>,
    pub entities: Option<Vec<Entity>>,
    pub suggestion_id: Option<String>,
}

#[derive(Debug)]
pub struct GenericSuggestion {
    pub generic: Option<Vec<SuggestionInput>>,
}

#[derive(Debug)]
pub struct Suggestion {
    pub label: String,
    pub value: OptionElm,
    pub output: Option<GenericSuggestion>,
}

#[derive(Debug)]
pub struct ResultMetadata {
    /// Double-precision bit pattern.
    pub confidence: u64,
    /// Double-precision bit pattern.
    pub score: u64,
}

#[derive(Debug)]
pub struct SearchResult {
    pub id: String,
    pub result_metadata: ResultMetadata,
    pub body: Option<String>,
    pub title: Option<String>,
    pub url: Option<String>,
    pub highlight: Option<Dict<Vec<String>>>,
}

/// One output item of a response.
#[derive(Debug)]
pub struct ResponseGeneric {
    pub response_type: ResponseType,
    pub text: Option<String>,
    pub time: Option<usize>,
    pub typing: Option<bool>,
    pub source: Option<String>,
    pub title: Option<String>,
    pub description: Option<String>,
    pub preference: Option<OptionPreference>,
    pub options: Option<Vec<OutputOption>>,
    pub message_to_human_agent: Option<String>,
    pub topic: Option<String>,
    pub suggestions: Option<Vec<Suggestion>>,
    pub header: Option<String>,
    pub results: Option<Vec<SearchResult>>,
}

#[derive(Debug)]
pub enum ActionType {
    Client,
    Server,
    WebAction,
    CloudFunction,
}

#[derive(Debug)]
pub struct Action {
    pub name: String,
    pub result_variable: String,
    pub action_type: ActionType,
    pub parameters: Box<serde_json::value::RawValue>,
    pub credentials: String,
}

#[derive(Debug)]
pub struct NodeInfo {
    pub dialog_node: String,
    pub title: String,
    pub conditions: String,
}

#[derive(Debug)]
pub struct LogInfo {
    pub level: String,
    pub message: String,
}

#[derive(Debug)]
pub enum BranchExitReason {
    Completed,
    Fallback,
}

#[derive(Debug)]
pub struct DebugInfo {
    pub node_visisted: Option<Vec<NodeInfo>>,
    pub log_messages: Option<Vec<String>>,
    pub branch_exited: Option<bool>,
    pub branch_exited_reason: Option<BranchExitReason>,
}

#[derive(Debug)]
pub struct GenericMessageOutput {
    pub generic: Vec<ResponseGeneric>,
    pub intents: Option<Vec<Intent>>,
    pub entities: Option<Vec<Entity>>,
    pub actions: Option<Vec<Action>>,
    pub debug: Option<DebugInfo>,
}

/// A response of the assistant to one message.
#[derive(Debug)]
pub struct WAResponse {
    pub output: GenericMessageOutput,
    pub context: Option<Context>,
}

} // verus!
