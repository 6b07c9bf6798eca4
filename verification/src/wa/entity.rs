//! Intents and entities recognised in a user's message, and a builder for
//! entities.
//!
//! Scores that the wire format writes as JSON numbers with a fraction are
//! held here as IEEE 754 bit patterns: a 32-bit pattern for single precision,
//! a 64-bit pattern for double precision. The gateway never computes with
//! them; it carries them from one side to the other unchanged.

use vstd::prelude::*;
use crate::wa::json::UnknownType;

verus! {

#[derive(Debug)]
pub struct Intent {
    pub intent: String,
    /// Single-precision bit pattern.
    pub confidence: u32,
}

#[derive(Debug)]
pub struct CapturedGrouup {
    pub group: String,
    pub location: Option<(usize, usize)>,
}

#[derive(Debug)]
pub struct Interpretation {
    pub calendar_type: Option<String>,
    pub datetime_link: Option<String>,
    pub festival: Option<String>,
    pub granularity: Option<String>,
    pub range_link: Option<String>,
    pub range_modifier: Option<String>,
    pub relative_day: Option<i64>,
    pub relative_month: Option<i64>,
    pub relative_week: Option<i64>,
    pub relative_weekend: Option<i64>,
    pub relative_year: Option<i64>,
    pub specific_day: Option<u8>,
    pub specific_day_of_week: Option<String>,
    pub specific_month: Option<u8>,
    pub specific_quarter: Option<u8>,
    pub specific_year: Option<i32>,
    /// Double-precision bit pattern.
    pub numeric_value: Option<u64>,
    pub subtype: Option<String>,
    pub part_of_day: Option<String>,
    pub relative_hour: Option<i64>,
    pub relative_minute: Option<i64>,
    pub relative_second: Option<i64>,
    pub specific_hour: Option<u8>,
    pub specific_minute: Option<u8>,
    pub specific_second: Option<u8>,
    pub timezone: Option<String>,
}

#[derive(Debug)]
pub struct AlternativeEntity {
    pub value: Option<String>,
    /// Single-precision bit pattern.
    pub confidence: Option<u32>,
}

#[derive(Debug)]
pub struct EntityRole {
    pub entity_type: Option<String>,
}

#[derive(Debug)]
pub struct Entity {
    pub entity: String,
    pub location: [usize; 2],
    pub value: String,
    /// Single-precision bit pattern.
    pub confidence: Option<u32>,
    pub metadata: Option<UnknownType>,
    pub groups: Option<Vec<CapturedGrouup>>,
    pub interpretation: Option<Interpretation>,
    pub alternatives: Option<Vec<AlternativeEntity>>,
    pub role: Option<EntityRole>,
}

/// Builds an [`Entity`] from its three required parts and any of the
/// optional ones.
#[derive(Debug)]
pub struct EntityBuilder {
    entity: Entity,
}

impl View for EntityBuilder {
    type V = Entity;

    /// The entity as built so far.
    closed spec fn view(&self) -> Entity {
        self.entity
    }
}

impl EntityBuilder {
    /// Starts an entity that has its name, its location in the text and its
    /// value, and none of the optional parts.
    pub fn builder(entity: String, location: [usize; 2], value: String) -> (b: EntityBuilder)
        ensures
            b@ == (Entity {
                entity,
                location,
                value,
                confidence: None,
                metadata: None,
                groups: None,
                interpretation: None,
                alternatives: None,
                role: None,
            }),
    {
        EntityBuilder {
            entity: Entity {
                entity,
                location,
                value,
                confidence: None,
                metadata: None,
                groups: None,
                interpretation: None,
                alternatives: None,
                role: None,
            },
        }
    }

    /// Sets the confidence, given as a single-precision bit pattern.
    pub fn confidence(self, c: u32) -> (b: EntityBuilder)
        ensures
            b@ == (Entity { confidence: Some(c), ..self@ }),
    {
        let mut b = self;
        b.entity.confidence = Some(c);
        b
    }

    /// Attaches free-form metadata.
    pub fn metadata(self, meta: UnknownType) -> (b: EntityBuilder)
        ensures
            b@ == (Entity { metadata: Some(meta), ..self@ }),
    {
        EntityBuilder {
            entity: Entity {
                entity: self.entity.entity,
                location: self.entity.location,
                value: self.entity.value,
                confidence: self.entity.confidence,
                metadata: Some(meta),
                groups: self.entity.groups,
                interpretation: self.entity.interpretation,
                alternatives: self.entity.alternatives,
                role: self.entity.role,
            },
        }
    }

    /// Sets the groups captured by the entity's pattern.
    pub fn groups(self, groups: Vec<CapturedGrouup>) -> (b: EntityBuilder)
        ensures
            b@ == (Entity { groups: Some(groups), ..self@ }),
    {
        let mut b = self;
        b.entity.groups = Some(groups);
        b
    }

    /// Sets how a system entity was read.
    pub fn interpretation(self, interpretation: Interpretation) -> (b: EntityBuilder)
        ensures
            b@ == (Entity { interpretation: Some(interpretation), ..self@ }),
    {
        let mut b = self;
        b.entity.interpretation = Some(interpretation);
        b
    }

    /// Sets the other values the entity might have had.
    pub fn alternatives(self, alternatives: Vec<AlternativeEntity>) -> (b: EntityBuilder)
        ensures
            b@ == (Entity { alternatives: Some(alternatives), ..self@ }),
    {
        let mut b = self;
        b.entity.alternatives = Some(alternatives);
        b
    }

    /// Sets the role the entity plays.
    pub fn role(self, role: EntityRole) -> (b: EntityBuilder)
        ensures
            b@ == (Entity { role: Some(role), ..self@ }),
    {
        let mut b = self;
        b.entity.role = Some(role);
        b
    }

    /// The entity that was built.
    pub fn build(self) -> (e: Entity)
        ensures
            e == self@,
    {
        self.entity
    }
}

} // verus!
