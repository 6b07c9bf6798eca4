//! The mathematical view of a response: sequences in place of vectors, and
//! character sequences in place of the strings that a user gets to read.
//! Everything that carries no such text is kept as it is.

use vstd::prelude::*;
use crate::wa::context::Context;
use crate::wa::entity::{Entity, Intent};
use crate::wa::response::{
    Action, DebugInfo, GenericMessageOutput, GenericSuggestion, OptionElm, OptionPreference,
    OutputOption, ResponseGeneric, ResponseType, SearchResult, Suggestion, WAResponse,
};

verus! {

/// View of an [`OutputOption`].
pub ghost struct OptionView {
    pub label: Seq<char>,
    pub value: OptionElm,
}

/// View of a [`Suggestion`].
pub ghost struct SuggestionView {
    pub label: Seq<char>,
    pub value: OptionElm,
    pub output: Option<GenericSuggestion>,
}

/// View of a [`ResponseGeneric`], one output item.
pub ghost struct ItemView {
    pub response_type: ResponseType,
    pub text: Option<Seq<char>>,
    pub time: Option<usize>,
    pub typing: Option<bool>,
    pub source: Option<String>,
    pub title: Option<Seq<char>>,
    pub description: Option<String>,
    pub preference: Option<OptionPreference>,
    pub options: Option<Seq<OptionView>>,
    pub message_to_human_agent: Option<String>,
    pub topic: Option<String>,
    pub suggestions: Option<Seq<SuggestionView>>,
    pub header: Option<String>,
    pub results: Option<Vec<SearchResult>>,
}

/// View of a [`GenericMessageOutput`].
pub ghost struct OutputView {
    pub generic: Seq<ItemView>,
    pub intents: Option<Vec<Intent>>,
    pub entities: Option<Vec<Entity>>,
    pub actions: Option<Vec<Action>>,
    pub debug: Option<DebugInfo>,
}

/// View of a [`WAResponse`].
pub ghost struct ResponseView {
    pub output: OutputView,
    pub context: Option<Context>,
}

impl View for OutputOption {
    type V = OptionView;

    open spec fn view(&self) -> OptionView {
        OptionView { label: self.label@, value: self.value }
    }
}

impl View for Suggestion {
    type V = SuggestionView;

    open spec fn view(&self) -> SuggestionView {
        SuggestionView { label: self.label@, value: self.value, output: self.output }
    }
}

/// The views of a list of options, in order.
pub open spec fn options_view(options: Seq<OutputOption>) -> Seq<OptionView> {
    Seq::new(options.len(), |i: int| options[i]@)
}

/// The views of a list of suggestions, in order.
pub open spec fn suggestions_view(suggestions: Seq<Suggestion>) -> Seq<SuggestionView> {
    Seq::new(suggestions.len(), |i: int| suggestions[i]@)
}

/// The view of a string that may be absent.
pub open spec fn text_view(text: Option<String>) -> Option<Seq<char>> {
    match text {
        Some(s) => Some(s@),
        None => None,
    }
}

impl View for ResponseGeneric {
    type V = ItemView;

    open spec fn view(&self) -> ItemView {
        ItemView {
            response_type: self.response_type,
            text: text_view(self.text),
            time: self.time,
            typing: self.typing,
            source: self.source,
            title: text_view(self.title),
            description: self.description,
            preference: self.preference,
            options: match self.options {
                Some(options) => Some(options_view(options@)),
                None => None,
            },
            message_to_human_agent: self.message_to_human_agent,
            topic: self.topic,
            suggestions: match self.suggestions {
                Some(suggestions) => Some(suggestions_view(suggestions@)),
                None => None,
            },
            header: self.header,
            results: self.results,
        }
    }
}

/// The views of a list of output items, in order.
pub open spec fn items_view(items: Seq<ResponseGeneric>) -> Seq<ItemView> {
    Seq::new(items.len(), |i: int| items[i]@)
}

impl View for GenericMessageOutput {
    type V = OutputView;

    open spec fn view(&self) -> OutputView {
        OutputView {
            generic: items_view(self.generic@),
            intents: self.intents,
            entities: self.entities,
            actions: self.actions,
            debug: self.debug,
        }
    }
}

impl View for WAResponse {
    type V = ResponseView;

    open spec fn view(&self) -> ResponseView {
        ResponseView { output: self.output@, context: self.context }
    }
}

} // verus!
