//! The frame of a response: all of it but the wording of its translatable
//! texts. Two responses with the same frame differ in those wordings only.

use vstd::prelude::*;
use crate::engine::slot::{
    complete, fits, item_complete, item_fits, item_labels, item_slots, slots_of, valid_field,
    valid_slot, with_field, with_slot, Field, Slot,
};
use crate::wa::response::ResponseType;
use crate::wa::view::{ItemView, OptionView, SuggestionView};

verus! {

/// A text that may be absent, with its wording taken out.
pub open spec fn blanked(text: Option<Seq<char>>) -> Option<Seq<char>> {
    match text {
        Some(_) => Some(Seq::empty()),
        None => None,
    }
}

/// A list of suggestions with the wording of every label taken out.
pub open spec fn blanked_suggestions(suggestions: Option<Seq<SuggestionView>>) -> Option<
    Seq<SuggestionView>,
> {
    match suggestions {
        Some(list) => Some(
            Seq::new(list.len(), |j: int| SuggestionView { label: Seq::empty(), ..list[j] }),
        ),
        None => None,
    }
}

/// A list of options with the wording of every label taken out.
pub open spec fn blanked_options(options: Option<Seq<OptionView>>) -> Option<Seq<OptionView>> {
    match options {
        Some(list) => Some(
            Seq::new(list.len(), |j: int| OptionView { label: Seq::empty(), ..list[j] }),
        ),
        None => None,
    }
}

/// An item with the wording of its translatable texts taken out: of the text
/// of a `text` item, of the title and the labels of a `suggestion` or
/// `option` item. Any other item is its own frame.
pub open spec fn item_frame(item: ItemView) -> ItemView {
    match item.response_type {
        ResponseType::Text => ItemView { text: blanked(item.text), ..item },
        ResponseType::Suggestion => ItemView {
            title: blanked(item.title),
            suggestions: blanked_suggestions(item.suggestions),
            ..item
        },
        ResponseType::Option => ItemView {
            title: blanked(item.title),
            options: blanked_options(item.options),
            ..item
        },
        _ => item,
    }
}

/// The frames of a list of items, in order.
pub open spec fn frame(items: Seq<ItemView>) -> Seq<ItemView> {
    Seq::new(items.len(), |i: int| item_frame(items[i]))
}

/// Writing a text into a field that the item has leaves the item's frame as
/// it was.
pub proof fn lemma_with_field_keeps_frame(item: ItemView, field: Field, text: Seq<char>)
    requires
        valid_field(item, field),
    ensures
        item_frame(with_field(item, field, text)) == item_frame(item),
{
    let changed = with_field(item, field, text);
    match field {
        Field::SuggestionLabel(j) => {
            assert(blanked_suggestions(changed.suggestions)->0 =~= blanked_suggestions(
                item.suggestions,
            )->0);
        },
        Field::OptionLabel(j) => {
            assert(blanked_options(changed.options)->0 =~= blanked_options(item.options)->0);
        },
        _ => {},
    }
}

/// Writing a text into a slot that the response has leaves the frame as it
/// was.
pub proof fn lemma_with_slot_keeps_frame(items: Seq<ItemView>, slot: Slot, text: Seq<char>)
    requires
        valid_slot(items, slot),
    ensures
        frame(with_slot(items, slot, text)) == frame(items),
{
    lemma_with_field_keeps_frame(items[slot.item as int], slot.field, text);
    assert(frame(with_slot(items, slot, text)) =~= frame(items));
}

/// What the frame of an item decides: whether the item is complete, whether
/// it fits, which fields it has, and which slots.
pub proof fn lemma_item_frame_decides(a: ItemView, b: ItemView)
    requires
        item_frame(a) == item_frame(b),
    ensures
        item_complete(a) == item_complete(b),
        item_fits(a) == item_fits(b),
        item_labels(a).len() == item_labels(b).len(),
        forall|field: Field| valid_field(a, field) == valid_field(b, field),
        forall|at: usize| item_slots(a, at) == item_slots(b, at),
{
    let fa = item_frame(a);
    let fb = item_frame(b);
    assert(a.response_type == b.response_type);
    assert(blanked(a.text) == blanked(b.text) || !(a.response_type is Text));
    match a.response_type {
        ResponseType::Text => {
            assert(fa.text == fb.text);
            assert(a.suggestions == b.suggestions);
            assert(a.options == b.options);
        },
        ResponseType::Suggestion => {
            assert(fa.title == fb.title);
            assert(fa.suggestions == fb.suggestions);
            assert(a.options == b.options);
            if a.suggestions is Some {
                assert(fa.suggestions->0.len() == a.suggestions->0.len());
                assert(fb.suggestions->0.len() == b.suggestions->0.len());
            }
        },
        ResponseType::Option => {
            assert(fa.title == fb.title);
            assert(fa.options == fb.options);
            assert(a.suggestions == b.suggestions);
            if a.options is Some {
                assert(fa.options->0.len() == a.options->0.len());
                assert(fb.options->0.len() == b.options->0.len());
            }
        },
        _ => {},
    }
    assert forall|at: usize| item_slots(a, at) == item_slots(b, at) by {
        assert(item_slots(a, at) =~= item_slots(b, at));
    }
}

/// What the frame of a response decides: whether its items are complete,
/// whether it fits, which slots name a text in it, and the slots that
/// extraction gives.
pub proof fn lemma_frame_decides(a: Seq<ItemView>, b: Seq<ItemView>)
    requires
        frame(a) == frame(b),
    ensures
        a.len() == b.len(),
        complete(a) == complete(b),
        fits(a) == fits(b),
        forall|slot: Slot| valid_slot(a, slot) == valid_slot(b, slot),
        slots_of(a) == slots_of(b),
    decreases a.len(),
{
    assert(frame(a).len() == a.len());
    assert(frame(b).len() == b.len());
    assert forall|i: int| 0 <= i < a.len() implies item_frame(a[i]) == item_frame(b[i]) by {
        assert(frame(a)[i] == item_frame(a[i]));
        assert(frame(b)[i] == item_frame(b[i]));
    }
    assert forall|i: int| 0 <= i < a.len() implies item_complete(a[i]) == item_complete(b[i])
        && item_fits(a[i]) == item_fits(b[i]) by {
        lemma_item_frame_decides(a[i], b[i]);
    }
    assert forall|slot: Slot| valid_slot(a, slot) == valid_slot(b, slot) by {
        if slot.item < a.len() {
            lemma_item_frame_decides(a[slot.item as int], b[slot.item as int]);
        }
    }
    if a.len() > 0 {
        assert(frame(a.drop_last()) =~= frame(b.drop_last()));
        lemma_frame_decides(a.drop_last(), b.drop_last());
        lemma_item_frame_decides(a.last(), b.last());
    }
}

} // verus!
