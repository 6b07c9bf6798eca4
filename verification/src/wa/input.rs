//! What is sent to the assistant for one turn, and a builder for it.

use vstd::prelude::*;
use crate::wa::context::Context;
use crate::wa::entity::{Entity, Intent};

verus! {

/// How the assistant is asked to treat a message.
#[derive(Debug)]
pub struct InputOptions {
    pub debug: bool,
    pub restart: bool,
    pub alternate_intents: bool,
    pub return_context: bool,
    pub export: bool,
}

impl Default for InputOptions {
    /// Alternate intents and the context are asked for; debugging, a restart
    /// and an export are not.
    fn default() -> (options: InputOptions)
        ensures
            options == (InputOptions {
                debug: false,
                restart: false,
                alternate_intents: true,
                return_context: true,
                export: false,
            }),
    {
        InputOptions {
            debug: false,
            restart: false,
            alternate_intents: true,
            return_context: true,
            export: false,
        }
    }
}

#[derive(Debug)]
pub enum InputType {
    Text,
}

#[derive(Debug)]
pub struct InputMessage<'a> {
    pub message_type: Option<InputType>,
    pub text: Option<&'a str>,
    pub options: Option<InputOptions>,
    pub intents: Option<&'a [&'a Intent]>,
    pub entities: Option<Vec<Entity>>,
    pub suggestion_id: Option<&'a str>,
}

#[derive(Debug)]
pub struct UserInput<'a> {
    pub input: InputMessage<'a>,
    pub context: Option<Context>,
}

impl<'a> UserInput<'a> {
    /// The same input with `context` attached in place of any it had.
    pub fn attach(self, context: Context) -> (r: UserInput<'a>)
        ensures
            r == (UserInput { input: self.input, context: Some(context) }),
    {
        UserInput { input: self.input, context: Some(context) }
    }
}

/// Builds a [`UserInput`] part by part.
#[derive(Debug)]
pub struct UserInputBuilder<'a> {
    user_input: UserInput<'a>,
}

impl<'a> View for UserInputBuilder<'a> {
    type V = UserInput<'a>;

    /// The input as built so far.
    closed spec fn view(&self) -> UserInput<'a> {
        self.user_input
    }
}

impl<'a> UserInputBuilder<'a> {
    /// Starts an input with no part set.
    pub fn builder() -> (b: UserInputBuilder<'a>)
        ensures
            b@ == (UserInput {
                input: InputMessage {
                    message_type: None,
                    text: None,
                    options: None,
                    intents: None,
                    entities: None,
                    suggestion_id: None,
                },
                context: None,
            }),
    {
        UserInputBuilder {
            user_input: UserInput {
                input: InputMessage {
                    message_type: None,
                    text: None,
                    options: None,
                    intents: None,
                    entities: None,
                    suggestion_id: None,
                },
                context: None,
            },
        }
    }

    /// Sets the kind of message.
    pub fn message_type(self, msg_type: InputType) -> (b: UserInputBuilder<'a>)
        ensures
            b@ == (UserInput {
                input: InputMessage { message_type: Some(msg_type), ..self@.input },
                ..self@
            }),
    {
        let mut b = self;
        b.user_input.input.message_type = Some(msg_type);
        b
    }

    /// Sets the text of the message.
    pub fn text<'b: 'a>(self, text: &'b str) -> (b: UserInputBuilder<'a>)
        ensures
            b@ == (UserInput { input: InputMessage { text: Some(text), ..self@.input }, ..self@ }),
    {
        let mut b = self;
        b.user_input.input.text = Some(text);
        b
    }

    /// Sets how the assistant is asked to treat the message.
    pub fn options(self, options: InputOptions) -> (b: UserInputBuilder<'a>)
        ensures
            b@ == (UserInput {
                input: InputMessage { options: Some(options), ..self@.input },
                ..self@
            }),
    {
        let mut b = self;
        b.user_input.input.options = Some(options);
        b
    }

    /// Sets the intents to use in place of those the assistant would find.
    pub fn intents(self, intents: &'a [&'a Intent]) -> (b: UserInputBuilder<'a>)
        ensures
            b@ == (UserInput {
                input: InputMessage { intents: Some(intents), ..self@.input },
                ..self@
            }),
    {
        let mut b = self;
        b.user_input.input.intents = Some(intents);
        b
    }

    /// Sets the suggestion that the message takes up.
    pub fn suggestion_id(self, suggestion_id: &'a str) -> (b: UserInputBuilder<'a>)
        ensures
            b@ == (UserInput {
                input: InputMessage { suggestion_id: Some(suggestion_id), ..self@.input },
                ..self@
            }),
    {
        let mut b = self;
        b.user_input.input.suggestion_id = Some(suggestion_id);
        b
    }

    /// Sets the entities to use in place of those the assistant would find.
    pub fn entities(self, entities: Vec<Entity>) -> (b: UserInputBuilder<'a>)
        ensures
            b@ == (UserInput {
                input: InputMessage { entities: Some(entities), ..self@.input },
                ..self@
            }),
    {
        UserInputBuilder {
            user_input: UserInput {
                input: InputMessage {
                    message_type: self.user_input.input.message_type,
                    text: self.user_input.input.text,
                    options: self.user_input.input.options,
                    intents: self.user_input.input.intents,
                    entities: Some(entities),
                    suggestion_id: self.user_input.input.suggestion_id,
                },
                context: self.user_input.context,
            },
        }
    }

    /// Sets the context that travels with the message.
    pub fn context(self, context: Context) -> (b: UserInputBuilder<'a>)
        ensures
            b@ == (UserInput { context: Some(context), ..self@ }),
    {
        UserInputBuilder {
            user_input: UserInput { input: self.user_input.input, context: Some(context) },
        }
    }

    /// The input that was built.
    pub fn build(self) -> (r: UserInput<'a>)
        ensures
            r == self@,
    {
        self.user_input
    }
}

} // verus!
