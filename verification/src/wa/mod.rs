//! The conversational assistant: its session, the messages sent to it and
//! the responses it gives.

pub mod context;
pub mod entity;
pub mod input;
pub mod json;
pub mod response;
pub mod session;
pub mod view;

pub use context::{Context, ContextBuilder, ContextGlobal, ContextGlobalSystem, ContextSkill};
pub use entity::{AlternativeEntity, CapturedGrouup, Entity, EntityBuilder, EntityRole, Intent, Interpretation};
pub use input::{InputMessage, InputOptions, InputType, UserInput, UserInputBuilder};
pub use json::UnknownType;
pub use session::{Delete, Post, WASession};
pub use response::{
    Action, ActionType, BranchExitReason, DebugInfo, GenericMessageOutput, GenericSuggestion,
    LogInfo, NodeInfo, OptionElm, OptionInput, OptionPreference, OutputOption, ResponseGeneric,
    ResponseType, ResultMetadata, SearchResult, Suggestion, SuggestionInput, SuggestionInputType,
    WAResponse,
};
