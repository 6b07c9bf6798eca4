//! Free-form JSON carried through the gateway without being looked into.

use vstd::prelude::*;

verus! {

/// `serde_json::Value`, a parsed JSON document. Opaque to the verifier.
#[verifier::external_type_specification]
#[verifier::external_body]
pub struct ExValue(serde_json::Value);

/// `serde_json::value::RawValue`, a JSON document kept as its source text.
/// Opaque to the verifier.
#[verifier::external_type_specification]
#[verifier::external_body]
pub struct ExRawValue(serde_json::value::RawValue);

/// `Clone` of `serde_json::Value`, which is derived there.
///
/// Trusted: the copy is the same JSON document as the value copied.
pub assume_specification[ <serde_json::Value as Clone>::clone ](v: &serde_json::Value) -> (r:
    serde_json::Value)
    ensures
        r == *v,
;

/// `Clone` of a boxed `serde_json::value::RawValue`, which copies the JSON
/// text into a new box.
///
/// Trusted: the copy is the same raw document as the value copied.
pub assume_specification[ <Box<serde_json::value::RawValue> as Clone>::clone ](
    v: &Box<serde_json::value::RawValue>,
) -> (r: Box<serde_json::value::RawValue>)
    ensures
        r == *v,
;

/// Whether a JSON document is an object.
pub uninterp spec fn is_object(v: serde_json::Value) -> bool;

/// The names of the members of a JSON document that is an object.
pub uninterp spec fn member_names(v: serde_json::Value) -> Set<Seq<char>>;

/// Builds `serde_json::Value::Object` over `serde_json::Map::new()`.
///
/// Trusted: the value is an object, and it has no members, since a new map
/// is empty.
#[verifier::external_body]
pub(crate) fn empty_object() -> (v: serde_json::Value)
    ensures
        is_object(v),
        member_names(v) == Set::<Seq<char>>::empty(),
{
    serde_json::Value::Object(serde_json::Map::new())
}

/// A JSON value whose shape this crate does not model: either the raw text
/// of a document or a parsed one.
#[derive(Clone, Debug)]
pub enum UnknownType {
    Raw(Box<serde_json::value::RawValue>),
    Value(serde_json::Value),
}

impl UnknownType {
    /// A copy of the value, variant and document alike.
    pub fn duplicate(&self) -> (r: UnknownType)
        ensures
            r == *self,
    {
        match self {
            UnknownType::Raw(raw) => UnknownType::Raw(raw.clone()),
            UnknownType::Value(value) => UnknownType::Value(value.clone()),
        }
    }

    /// Whether this is the context sent when the caller supplies none: a
    /// parsed JSON object without members.
    pub open spec fn is_empty_object(self) -> bool {
        &&& self is Value
        &&& is_object(self->Value_0)
        &&& member_names(self->Value_0) == Set::<Seq<char>>::empty()
    }

    /// The context sent when the caller supplies none: a parsed JSON object
    /// without members.
    pub fn empty() -> (r: UnknownType)
        ensures
            r.is_empty_object(),
    {
        UnknownType::Value(empty_object())
    }

    /// `context` if there is one, else the JSON object without members.
    pub fn or_empty(context: Option<UnknownType>) -> (r: UnknownType)
        ensures
            context is Some ==> r == context->0,
            context is None ==> r.is_empty_object(),
    {
        match context {
            Some(given) => given,
            None => UnknownType::empty(),
        }
    }
}

} // verus!
