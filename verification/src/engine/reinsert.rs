//! The second pass over a response: put each translated text into the slot
//! that the untranslated text was read from.

use vstd::prelude::*;
use crate::engine::slot::{strings_view, valid_slot, valid_slots, with_slot, written, Field, Slot};
use crate::wa::response::{ResponseType, WAResponse};
use crate::wa::view::{ItemView, OutputView, ResponseView};

verus! {

/// `response` with `items` as its output items, and nothing else changed.
pub open spec fn with_items(response: ResponseView, items: Seq<ItemView>) -> ResponseView {
    ResponseView { output: OutputView { generic: items, ..response.output }, ..response }
}

/// What reinsertion makes of `items`: each text written to the slot at its
/// position, if there are as many texts as slots and every slot names a
/// text that `items` has; otherwise `items` as they are.
pub open spec fn reinserted(items: Seq<ItemView>, slots: Seq<Slot>, texts: Seq<Seq<char>>) -> Seq<
    ItemView,
> {
    if texts.len() == slots.len() && valid_slots(items, slots) {
        written(items, slots, texts)
    } else {
        items
    }
}

/// The guard against a mismatched count: when the number of translations
/// differs from the number of slots, reinsertion keeps every text as it was.
pub proof fn lemma_mismatched_count_changes_nothing(
    items: Seq<ItemView>,
    slots: Seq<Slot>,
    texts: Seq<Seq<char>>,
)
    requires
        texts.len() != slots.len(),
    ensures
        reinserted(items, slots, texts) == items,
{
}

/// Writing to a slot that names an existing text changes no answer to the
/// question whether a slot names an existing text.
pub proof fn lemma_write_keeps_slots_valid(
    items: Seq<ItemView>,
    slot: Slot,
    text: Seq<char>,
    other: Slot,
)
    requires
        valid_slot(items, slot),
    ensures
        valid_slot(with_slot(items, slot, text), other) == valid_slot(items, other),
{
}

/// Decides whether `slot` names a text that `response` has.
pub fn slot_is_valid(response: &WAResponse, slot: &Slot) -> (b: bool)
    ensures
        b == valid_slot(response@.output.generic, *slot),
{
    if slot.item >= response.output.generic.len() {
        return false;
    }
    let item = &response.output.generic[slot.item];
    match slot.field {
        Field::Text => match item.response_type {
            ResponseType::Text => item.text.is_some(),
            _ => false,
        },
        Field::Title => match item.response_type {
            ResponseType::Suggestion => item.title.is_some(),
            ResponseType::Option => item.title.is_some(),
            _ => false,
        },
        Field::SuggestionLabel(j) => match item.response_type {
            ResponseType::Suggestion => match &item.suggestions {
                Some(suggestions) => j < suggestions.len(),
                None => false,
            },
            _ => false,
        },
        Field::OptionLabel(j) => match item.response_type {
            ResponseType::Option => match &item.options {
                Some(options) => j < options.len(),
                None => false,
            },
            _ => false,
        },
    }
}

/// Decides whether every slot of `slots` names a text that `response` has.
pub fn slots_are_valid(response: &WAResponse, slots: &Vec<Slot>) -> (b: bool)
    ensures
        b == valid_slots(response@.output.generic, slots@),
{
    let mut k: usize = 0;
    while k < slots.len()
        invariant
            k <= slots@.len(),
            forall|m: int| 0 <= m < k ==> valid_slot(response@.output.generic, #[trigger] slots@[m]),
        decreases slots@.len() - k,
    {
        if !slot_is_valid(response, &slots[k]) {
            return false;
        }
        k += 1;
    }
    true
}

/// Puts `text` into `slot` and changes nothing else.
fn write_slot(response: &mut WAResponse, slot: &Slot, text: String)
    requires
        valid_slot(old(response)@.output.generic, *slot),
    ensures
        final(response)@ == with_items(
            old(response)@,
            with_slot(old(response)@.output.generic, *slot, text@),
        ),
{
    let ghost before = response@.output.generic;
    let at = slot.item;
    match slot.field {
        Field::Text => {
            response.output.generic[at].text = Some(text);
        },
        Field::Title => {
            response.output.generic[at].title = Some(text);
        },
        Field::SuggestionLabel(j) => {
            match &mut response.output.generic[at].suggestions {
                Some(suggestions) => {
                    suggestions[j].label = text;
                },
                None => {},
            }
        },
        Field::OptionLabel(j) => {
            match &mut response.output.generic[at].options {
                Some(options) => {
                    options[j].label = text;
                },
                None => {},
            }
        },
    }
    proof {
        let after = response@.output.generic;
        let target = with_slot(before, *slot, text@);
        assert(after.len() == target.len());
        assert forall|i: int| 0 <= i < after.len() implies after[i] == target[i] by {
            if i == at as int {
                let a = after[i];
                let t = target[i];
                match slot.field {
                    Field::SuggestionLabel(j) => {
                        assert(a.suggestions->0 =~= t.suggestions->0);
                    },
                    Field::OptionLabel(j) => {
                        assert(a.options->0 =~= t.options->0);
                    },
                    _ => {},
                }
            }
        }
        assert(after =~= target);
    }
}

/// Writes translation `k` into slot `k`, for every `k`, by position; or, if
/// that cannot be done for all of them, changes nothing.
///
/// The translations are written exactly when there are as many of them as
/// slots and every slot names a text that the response has. Then the
/// response is the old one with each translation in its slot, and the
/// result is `true`. Otherwise the response is left as it was, with the
/// text it had, and the result is `false`: no slot is ever written unless
/// all are.
pub fn reinsert(response: &mut WAResponse, slots: &Vec<Slot>, translated: Vec<String>) -> (applied:
    bool)
    ensures
        applied == (translated@.len() == slots@.len() && valid_slots(
            old(response)@.output.generic,
            slots@,
        )),
        final(response)@ == with_items(
            old(response)@,
            reinserted(old(response)@.output.generic, slots@, strings_view(translated@)),
        ),
        !applied ==> *final(response) == *old(response),
{
    if translated.len() != slots.len() {
        return false;
    }
    if !slots_are_valid(response, slots) {
        return false;
    }
    let ghost texts = strings_view(translated@);
    let ghost start = response@;
    let mut translated = translated;
    let mut k: usize = 0;
    assert(slots@.take(0) =~= Seq::<Slot>::empty());
    while k < slots.len()
        invariant
            k <= slots@.len(),
            translated@.len() == slots@.len(),
            texts.len() == slots@.len(),
            forall|m: int| k <= m < slots@.len() ==> (#[trigger] translated@[m])@ == texts[m],
            valid_slots(start.output.generic, slots@),
            valid_slots(response@.output.generic, slots@),
            response@ == with_items(
                start,
                written(start.output.generic, slots@.take(k as int), texts.take(k as int)),
            ),
        decreases slots@.len() - k,
    {
        let mut text = String::new();
        std::mem::swap(&mut translated[k], &mut text);
        let ghost items = response@.output.generic;
        proof {
            assert(slots@.take(k + 1).drop_last() =~= slots@.take(k as int));
            assert(texts.take(k + 1).drop_last() =~= texts.take(k as int));
            assert(slots@.take(k + 1).last() == slots@[k as int]);
            assert(texts.take(k + 1).last() == text@);
            assert(valid_slot(items, slots@[k as int]));
            assert forall|m: int| 0 <= m < slots@.len() implies valid_slot(
                with_slot(items, slots@[k as int], text@),
                #[trigger] slots@[m],
            ) by {
                lemma_write_keeps_slots_valid(items, slots@[k as int], text@, slots@[m]);
            }
        }
        write_slot(response, &slots[k], text);
        k += 1;
    }
    proof {
        assert(slots@.take(k as int) =~= slots@);
        assert(texts.take(k as int) =~= texts);
    }
    true
}

} // verus!
