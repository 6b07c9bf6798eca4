//! Slots: the places in a response that hold text a user reads, each named
//! by the path that leads to it.

use vstd::prelude::*;
use crate::wa::response::ResponseType;
use crate::wa::view::{ItemView, OptionView, SuggestionView};

verus! {

/// The field of an output item that a slot names.
#[derive(Debug, Clone, Copy, PartialEq, Eq, Structural)]
pub enum Field {
    /// The text of a `text` item.
    Text,
    /// The title of a `suggestion` or `option` item.
    Title,
    /// The label of the suggestion at this index of a `suggestion` item.
    SuggestionLabel(usize),
    /// The label of the option at this index of an `option` item.
    OptionLabel(usize),
}

/// One place of translatable text: the index of an output item and the
/// field in it.
#[derive(Debug, Clone, Copy, PartialEq, Eq, Structural)]
pub struct Slot {
    pub item: usize,
    pub field: Field,
}

/// The labels that an item offers for translation, in list order: those of
/// its suggestions for a `suggestion` item, of its options for an `option`
/// item, none for any other.
pub open spec fn item_labels(item: ItemView) -> Seq<Seq<char>> {
    match item.response_type {
        ResponseType::Suggestion => match item.suggestions {
            Some(suggestions) => Seq::new(suggestions.len(), |j: int| suggestions[j].label),
            None => Seq::empty(),
        },
        ResponseType::Option => match item.options {
            Some(options) => Seq::new(options.len(), |j: int| options[j].label),
            None => Seq::empty(),
        },
        _ => Seq::empty(),
    }
}

/// Whether an item has the field that its kind requires: a `text` item its
/// text, a `suggestion` or `option` item its title.
pub open spec fn item_complete(item: ItemView) -> bool {
    match item.response_type {
        ResponseType::Text => item.text is Some,
        ResponseType::Suggestion | ResponseType::Option => item.title is Some,
        _ => true,
    }
}

/// Whether every item has the field that its kind requires.
pub open spec fn complete(items: Seq<ItemView>) -> bool {
    forall|i: int| 0 <= i < items.len() ==> item_complete(#[trigger] items[i])
}

/// The texts of one item, in the order in which they are read: the text of
/// a `text` item; the title of a `suggestion` or `option` item, then its
/// labels; nothing for any other kind.
pub open spec fn item_texts(item: ItemView) -> Seq<Seq<char>> {
    match item.response_type {
        ResponseType::Text => seq![item.text->0],
        ResponseType::Suggestion | ResponseType::Option => seq![item.title->0] + item_labels(
            item,
        ),
        _ => Seq::empty(),
    }
}

/// The slot of the `j`-th label of the item at `at`, given the item's kind.
pub open spec fn label_slot(kind: ResponseType, at: usize, j: int) -> Slot {
    match kind {
        ResponseType::Suggestion => Slot { item: at, field: Field::SuggestionLabel(j as usize) },
        _ => Slot { item: at, field: Field::OptionLabel(j as usize) },
    }
}

/// The slots of one item standing at index `at`, in the order of
/// [`item_texts`].
pub open spec fn item_slots(item: ItemView, at: usize) -> Seq<Slot> {
    match item.response_type {
        ResponseType::Text => seq![Slot { item: at, field: Field::Text }],
        ResponseType::Suggestion | ResponseType::Option => seq![
            Slot { item: at, field: Field::Title },
        ] + Seq::new(
            item_labels(item).len(),
            |j: int| label_slot(item.response_type, at, j),
        ),
        _ => Seq::empty(),
    }
}

/// The texts of a list of items in document order: item after item, and
/// within an item in the order of [`item_texts`].
pub open spec fn texts_of(items: Seq<ItemView>) -> Seq<Seq<char>>
    decreases items.len(),
{
    if items.len() == 0 {
        Seq::empty()
    } else {
        texts_of(items.drop_last()) + item_texts(items.last())
    }
}

/// The slots of a list of items in document order.
pub open spec fn slots_of(items: Seq<ItemView>) -> Seq<Slot>
    decreases items.len(),
{
    if items.len() == 0 {
        Seq::empty()
    } else {
        slots_of(items.drop_last()) + item_slots(items.last(), (items.len() - 1) as usize)
    }
}

/// Whether `field` names a text that `item` has.
pub open spec fn valid_field(item: ItemView, field: Field) -> bool {
    match field {
        Field::Text => item.response_type is Text && item.text is Some,
        Field::Title => (item.response_type is Suggestion || item.response_type is Option)
            && item.title is Some,
        Field::SuggestionLabel(j) => item.response_type is Suggestion && item.suggestions is Some
            && j < item.suggestions->0.len(),
        Field::OptionLabel(j) => item.response_type is Option && item.options is Some && j
            < item.options->0.len(),
    }
}

/// Whether `slot` names a text that `items` has.
pub open spec fn valid_slot(items: Seq<ItemView>, slot: Slot) -> bool {
    slot.item < items.len() && valid_field(items[slot.item as int], slot.field)
}

/// The text that `item` holds in `field`.
pub open spec fn field_text(item: ItemView, field: Field) -> Seq<char> {
    match field {
        Field::Text => item.text->0,
        Field::Title => item.title->0,
        Field::SuggestionLabel(j) => item.suggestions->0[j as int].label,
        Field::OptionLabel(j) => item.options->0[j as int].label,
    }
}

/// The text that `items` holds in `slot`.
pub open spec fn read(items: Seq<ItemView>, slot: Slot) -> Seq<char> {
    field_text(items[slot.item as int], slot.field)
}

/// `item` with `text` in `field`, and nothing else changed.
pub open spec fn with_field(item: ItemView, field: Field, text: Seq<char>) -> ItemView {
    match field {
        Field::Text => ItemView { text: Some(text), ..item },
        Field::Title => ItemView { title: Some(text), ..item },
        Field::SuggestionLabel(j) => ItemView {
            suggestions: Some(
                item.suggestions->0.update(
                    j as int,
                    SuggestionView { label: text, ..item.suggestions->0[j as int] },
                ),
            ),
            ..item
        },
        Field::OptionLabel(j) => ItemView {
            options: Some(
                item.options->0.update(
                    j as int,
                    OptionView { label: text, ..item.options->0[j as int] },
                ),
            ),
            ..item
        },
    }
}

/// `items` with `text` in `slot`, and nothing else changed.
pub open spec fn with_slot(items: Seq<ItemView>, slot: Slot, text: Seq<char>) -> Seq<ItemView> {
    items.update(slot.item as int, with_field(items[slot.item as int], slot.field, text))
}

/// Whether every slot of `slots` names a text that `items` has.
pub open spec fn valid_slots(items: Seq<ItemView>, slots: Seq<Slot>) -> bool {
    forall|k: int| 0 <= k < slots.len() ==> valid_slot(items, #[trigger] slots[k])
}

/// `items` after `texts[0]` was written to `slots[0]`, then `texts[1]` to
/// `slots[1]`, and so on to the last slot: translation `k` goes to slot `k`,
/// by position.
pub open spec fn written(items: Seq<ItemView>, slots: Seq<Slot>, texts: Seq<Seq<char>>) -> Seq<
    ItemView,
>
    decreases slots.len(),
{
    if slots.len() == 0 {
        items
    } else {
        with_slot(
            written(items, slots.drop_last(), texts.drop_last()),
            slots.last(),
            texts.last(),
        )
    }
}

/// Whether the lists of an item are short enough to be indexed by a machine
/// word.
pub open spec fn item_fits(item: ItemView) -> bool {
    &&& item.suggestions is Some ==> item.suggestions->0.len() <= usize::MAX
    &&& item.options is Some ==> item.options->0.len() <= usize::MAX
}

/// Whether a list of items, and every list in it, is short enough to be
/// indexed by a machine word. This holds of the view of every response.
pub open spec fn fits(items: Seq<ItemView>) -> bool {
    &&& items.len() <= usize::MAX
    &&& forall|i: int| 0 <= i < items.len() ==> item_fits(#[trigger] items[i])
}

/// The position of a field among the texts of its item: the text or title
/// first, then the labels.
pub open spec fn field_rank(field: Field) -> int {
    match field {
        Field::Text => 0,
        Field::Title => 0,
        Field::SuggestionLabel(j) => j + 1,
        Field::OptionLabel(j) => j + 1,
    }
}

/// Whether `a` comes before `b` in document order.
pub open spec fn precedes(a: Slot, b: Slot) -> bool {
    a.item < b.item || (a.item == b.item && field_rank(a.field) < field_rank(b.field))
}

/// The views of a list of strings, in order.
pub open spec fn strings_view(strings: Seq<String>) -> Seq<Seq<char>> {
    Seq::new(strings.len(), |i: int| strings[i]@)
}

} // verus!
