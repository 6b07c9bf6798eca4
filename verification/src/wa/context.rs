//! The context that travels with a conversation, and a builder for it.

use vstd::prelude::*;
use vstd::string::*;
use crate::dict::Dict;
use crate::wa::json::UnknownType;

verus! {

#[derive(Debug)]
pub struct ContextGlobalSystem {
    pub timezone: Option<String>,
    pub user_id: Option<String>,
    pub turn_count: Option<usize>,
    pub locale: Option<String>,
    pub reference_time: Option<String>,
}

#[derive(Debug)]
pub struct ContextGlobal {
    pub system: Option<ContextGlobalSystem>,
}

#[derive(Debug)]
pub struct ContextSkill {
    pub user_defined: Option<UnknownType>,
    pub system: Option<Dict<String>>,
}

#[derive(Debug)]
pub struct Context {
    pub global: Option<ContextGlobal>,
    pub skills: Option<Dict<ContextSkill>>,
}

/// The name of the skill under which a built context files what the user
/// defined.
pub open spec fn main_skill() -> Seq<char> {
    "main skill"@
}

/// Collects the parts of a [`Context`].
#[derive(Debug)]
pub struct ContextBuilder {
    timezone: Option<String>,
    user_id: Option<String>,
    turn_count: Option<usize>,
    locale: Option<String>,
    reference_time: Option<String>,
    user_defined: Option<UnknownType>,
}

/// What a [`ContextBuilder`] has collected.
pub ghost struct ContextParts {
    pub timezone: Option<String>,
    pub user_id: Option<String>,
    pub turn_count: Option<usize>,
    pub locale: Option<String>,
    pub reference_time: Option<String>,
    pub user_defined: Option<UnknownType>,
}

impl ContextParts {
    /// The system part of the global context that these parts make.
    pub open spec fn system(self) -> ContextGlobalSystem {
        ContextGlobalSystem {
            timezone: self.timezone,
            user_id: self.user_id,
            turn_count: self.turn_count,
            locale: self.locale,
            reference_time: self.reference_time,
        }
    }

    /// The one skill of the context that these parts make.
    pub open spec fn skill(self) -> ContextSkill {
        ContextSkill { user_defined: self.user_defined, system: None }
    }

    /// Whether `context` is the context that these parts make: the global
    /// system part filled from them, and a single skill, the main one, that
    /// holds what the user defined.
    pub open spec fn makes(self, context: Context) -> bool {
        &&& context.global == Some(ContextGlobal { system: Some(self.system()) })
        &&& context.skills is Some
        &&& context.skills->0@ == Map::<Seq<char>, ContextSkill>::empty().insert(
            main_skill(),
            self.skill(),
        )
    }
}

impl View for ContextBuilder {
    type V = ContextParts;

    closed spec fn view(&self) -> ContextParts {
        ContextParts {
            timezone: self.timezone,
            user_id: self.user_id,
            turn_count: self.turn_count,
            locale: self.locale,
            reference_time: self.reference_time,
            user_defined: self.user_defined,
        }
    }
}

impl ContextBuilder {
    /// Starts with nothing collected.
    pub fn builder() -> (b: ContextBuilder)
        ensures
            b@ == (ContextParts {
                timezone: None,
                user_id: None,
                turn_count: None,
                locale: None,
                reference_time: None,
                user_defined: None,
            }),
    {
        ContextBuilder {
            timezone: None,
            user_id: None,
            turn_count: None,
            locale: None,
            reference_time: None,
            user_defined: None,
        }
    }

    /// Sets the user's time zone.
    pub fn timezone(self, timezone_name: String) -> (b: ContextBuilder)
        ensures
            b@ == (ContextParts { timezone: Some(timezone_name), ..self@ }),
    {
        let mut b = self;
        b.timezone = Some(timezone_name);
        b
    }

    /// Sets the user's identifier.
    pub fn user_id(self, user_id: String) -> (b: ContextBuilder)
        ensures
            b@ == (ContextParts { user_id: Some(user_id), ..self@ }),
    {
        let mut b = self;
        b.user_id = Some(user_id);
        b
    }

    /// Sets the number of turns the conversation has had.
    pub fn turn_count(self, count: usize) -> (b: ContextBuilder)
        ensures
            b@ == (ContextParts { turn_count: Some(count), ..self@ }),
    {
        let mut b = self;
        b.turn_count = Some(count);
        b
    }

    /// Sets the user's locale.
    pub fn locale(self, locale: String) -> (b: ContextBuilder)
        ensures
            b@ == (ContextParts { locale: Some(locale), ..self@ }),
    {
        let mut b = self;
        b.locale = Some(locale);
        b
    }

    /// Sets the time that the assistant takes for now.
    pub fn reference_time(self, reference_time: String) -> (b: ContextBuilder)
        ensures
            b@ == (ContextParts { reference_time: Some(reference_time), ..self@ }),
    {
        let mut b = self;
        b.reference_time = Some(reference_time);
        b
    }

    /// Sets the free-form part that the caller defines.
    pub fn user_defined(self, context: UnknownType) -> (b: ContextBuilder)
        ensures
            b@ == (ContextParts { user_defined: Some(context), ..self@ }),
    {
        ContextBuilder {
            timezone: self.timezone,
            user_id: self.user_id,
            turn_count: self.turn_count,
            locale: self.locale,
            reference_time: self.reference_time,
            user_defined: Some(context),
        }
    }

    /// The context made of what was collected.
    pub fn build(self) -> (context: Context)
        ensures
            self@.makes(context),
    {
        let mut skills: Dict<ContextSkill> = Dict::new();
        let name = String::from_str("main skill");
        skills.insert(name, ContextSkill { user_defined: self.user_defined, system: None });
        Context {
            global: Some(
                ContextGlobal {
                    system: Some(
                        ContextGlobalSystem {
                            timezone: self.timezone,
                            user_id: self.user_id,
                            turn_count: self.turn_count,
                            locale: self.locale,
                            reference_time: self.reference_time,
                        },
                    ),
                },
            ),
            skills: Some(skills),
        }
    }
}

} // verus!
