//! What holds of extraction and reinsertion, for every response.

use vstd::prelude::*;
use crate::engine::frame::{frame, lemma_frame_decides, lemma_with_slot_keeps_frame};
use crate::engine::slot::{
    complete, field_rank, field_text, fits, item_complete, item_fits, item_labels, item_slots,
    item_texts, label_slot, precedes, read, slots_of, texts_of, valid_field, valid_slot,
    valid_slots, with_field, with_slot, written, Field, Slot,
};
use crate::wa::response::{ResponseType, WAResponse};
use crate::wa::view::ItemView;

verus! {

/// The view of a response fits.
pub proof fn lemma_response_fits(response: WAResponse)
    ensures
        fits(response@.output.generic),
{
    let items = response.output.generic;
    assert(items.len() == items@.len());
    assert forall|i: int| 0 <= i < response@.output.generic.len() implies item_fits(
        #[trigger] response@.output.generic[i],
    ) by {
        let item = items@[i];
        match item.suggestions {
            Some(suggestions) => {
                assert(suggestions.len() == suggestions@.len());
            },
            None => {},
        }
        match item.options {
            Some(options) => {
                assert(options.len() == options@.len());
            },
            None => {},
        }
    }
}

/// Extraction gives as many slots as texts, whatever the response.
pub proof fn lemma_slots_count(items: Seq<ItemView>)
    ensures
        slots_of(items).len() == texts_of(items).len(),
    decreases items.len(),
{
    if items.len() > 0 {
        lemma_slots_count(items.drop_last());
    }
}

/// The slots of one item: as many as its texts; slot `r` names a text that
/// the item has, namely text `r`, and stands at rank `r` within the item.
pub proof fn lemma_item_slots(item: ItemView, at: usize)
    requires
        item_complete(item),
        item_fits(item),
    ensures
        item_slots(item, at).len() == item_texts(item).len(),
        forall|r: int|
            0 <= r < item_slots(item, at).len() ==> {
                let slot = #[trigger] item_slots(item, at)[r];
                &&& slot.item == at
                &&& valid_field(item, slot.field)
                &&& field_text(item, slot.field) == item_texts(item)[r]
                &&& field_rank(slot.field) == r
            },
{
    assert forall|r: int| 0 <= r < item_slots(item, at).len() implies {
        let slot = #[trigger] item_slots(item, at)[r];
        &&& slot.item == at
        &&& valid_field(item, slot.field)
        &&& field_text(item, slot.field) == item_texts(item)[r]
        &&& field_rank(slot.field) == r
    } by {
        match item.response_type {
            ResponseType::Suggestion => {
                if r > 0 {
                    assert(item_slots(item, at)[r] == label_slot(item.response_type, at, r - 1));
                    assert(item_texts(item)[r] == item_labels(item)[r - 1]);
                }
            },
            ResponseType::Option => {
                if r > 0 {
                    assert(item_slots(item, at)[r] == label_slot(item.response_type, at, r - 1));
                    assert(item_texts(item)[r] == item_labels(item)[r - 1]);
                }
            },
            _ => {},
        }
    }
}

/// Extraction keeps document order and misses nothing.
///
/// For a response whose items are complete, the slots are as many as the
/// texts; slot `k` names a text that the response has, and that text is
/// text `k`; and a slot that comes earlier in the batch comes earlier in the
/// document.
pub proof fn lemma_extraction_in_document_order(items: Seq<ItemView>)
    requires
        complete(items),
        fits(items),
    ensures
        slots_of(items).len() == texts_of(items).len(),
        forall|k: int|
            0 <= k < slots_of(items).len() ==> {
                &&& valid_slot(items, #[trigger] slots_of(items)[k])
                &&& read(items, slots_of(items)[k]) == texts_of(items)[k]
            },
        forall|i: int, j: int|
            0 <= i < j < slots_of(items).len() ==> precedes(
                #[trigger] slots_of(items)[i],
                #[trigger] slots_of(items)[j],
            ),
    decreases items.len(),
{
    if items.len() > 0 {
        let front = items.drop_last();
        let last = items.last();
        let at = (items.len() - 1) as usize;
        lemma_extraction_in_document_order(front);
        lemma_item_slots(last, at);
        let head = slots_of(front);
        let tail = item_slots(last, at);
        assert forall|k: int| 0 <= k < slots_of(items).len() implies {
            &&& valid_slot(items, #[trigger] slots_of(items)[k])
            &&& read(items, slots_of(items)[k]) == texts_of(items)[k]
        } by {
            if k < head.len() {
                let slot = head[k];
                assert(valid_slot(front, slot));
                assert(front[slot.item as int] == items[slot.item as int]);
            } else {
                let slot = tail[k - head.len()];
                assert(slots_of(items)[k] == slot);
                assert(texts_of(items)[k] == item_texts(last)[k - head.len()]);
            }
        }
        assert forall|i: int, j: int| 0 <= i < j < slots_of(items).len() implies precedes(
            #[trigger] slots_of(items)[i],
            #[trigger] slots_of(items)[j],
        ) by {
            if j < head.len() {
                assert(precedes(head[i], head[j]));
            } else if i < head.len() {
                assert(valid_slot(front, head[i]));
                assert(tail[j - head.len()].item == at);
            } else {
                assert(field_rank(tail[i - head.len()].field) == i - head.len());
                assert(field_rank(tail[j - head.len()].field) == j - head.len());
            }
        }
    }
}

/// Every text that a complete response has is extracted: a slot that names
/// one of its texts is among its slots.
pub proof fn lemma_extraction_is_exhaustive(items: Seq<ItemView>, slot: Slot)
    requires
        complete(items),
        fits(items),
        valid_slot(items, slot),
    ensures
        slots_of(items).contains(slot),
    decreases items.len(),
{
    let front = items.drop_last();
    let last = items.last();
    let at = (items.len() - 1) as usize;
    let head = slots_of(front);
    let tail = item_slots(last, at);
    if slot.item < items.len() - 1 {
        assert(front[slot.item as int] == items[slot.item as int]);
        lemma_extraction_is_exhaustive(front, slot);
        let k = choose|k: int| 0 <= k < head.len() && head[k] == slot;
        assert(slots_of(items)[k] == slot);
    } else {
        let r = field_rank(slot.field);
        match slot.field {
            Field::SuggestionLabel(j) => {
                assert(tail[r] == label_slot(last.response_type, at, j as int));
            },
            Field::OptionLabel(j) => {
                assert(tail[r] == label_slot(last.response_type, at, j as int));
            },
            _ => {},
        }
        assert(tail[r] == slot);
        assert(slots_of(items)[head.len() + r] == slot);
    }
}

/// Whether no slot occurs twice in `slots`.
pub open spec fn distinct(slots: Seq<Slot>) -> bool {
    forall|i: int, j: int|
        0 <= i < j < slots.len() ==> (#[trigger] slots[i]) != (#[trigger] slots[j])
}

/// After a text was written to a slot, that slot reads as the text, and
/// every other slot reads as before.
pub proof fn lemma_read_after_write(items: Seq<ItemView>, slot: Slot, text: Seq<char>, other: Slot)
    requires
        valid_slot(items, slot),
        valid_slot(items, other),
    ensures
        read(with_slot(items, slot, text), other) == if other == slot {
            text
        } else {
            read(items, other)
        },
{
}

/// Writing to a slot the text it already holds changes nothing.
pub proof fn lemma_write_of_same_text(items: Seq<ItemView>, slot: Slot)
    requires
        valid_slot(items, slot),
    ensures
        with_slot(items, slot, read(items, slot)) == items,
{
    let item = items[slot.item as int];
    let same = with_field(item, slot.field, read(items, slot));
    match slot.field {
        Field::SuggestionLabel(j) => {
            assert(same.suggestions->0 =~= item.suggestions->0);
        },
        Field::OptionLabel(j) => {
            assert(same.options->0 =~= item.options->0);
        },
        _ => {},
    }
    assert(same == item);
    assert(with_slot(items, slot, read(items, slot)) =~= items);
}

/// Writing to slots that the response has, whatever the texts, leaves the
/// frame as it was: only the wording of translatable texts can differ.
pub proof fn lemma_written_keeps_frame(
    items: Seq<ItemView>,
    slots: Seq<Slot>,
    texts: Seq<Seq<char>>,
)
    requires
        valid_slots(items, slots),
    ensures
        frame(written(items, slots, texts)) == frame(items),
    decreases slots.len(),
{
    if slots.len() > 0 {
        let before = written(items, slots.drop_last(), texts.drop_last());
        assert forall|k: int| 0 <= k < slots.drop_last().len() implies valid_slot(
            items,
            #[trigger] slots.drop_last()[k],
        ) by {
            assert(slots.drop_last()[k] == slots[k]);
        }
        lemma_written_keeps_frame(items, slots.drop_last(), texts.drop_last());
        lemma_frame_decides(before, items);
        assert(valid_slot(items, slots.last()));
        lemma_with_slot_keeps_frame(before, slots.last(), texts.last());
    }
}

/// After translation `k` was written to slot `k` for every `k`, slot `k`
/// reads as translation `k`, provided that no slot occurs twice.
pub proof fn lemma_written_reads_back(
    items: Seq<ItemView>,
    slots: Seq<Slot>,
    texts: Seq<Seq<char>>,
)
    requires
        valid_slots(items, slots),
        distinct(slots),
        texts.len() == slots.len(),
    ensures
        forall|k: int|
            0 <= k < slots.len() ==> read(written(items, slots, texts), #[trigger] slots[k])
                == texts[k],
    decreases slots.len(),
{
    if slots.len() > 0 {
        let front = slots.drop_last();
        let before = written(items, front, texts.drop_last());
        assert forall|k: int| 0 <= k < front.len() implies valid_slot(
            items,
            #[trigger] front[k],
        ) by {
            assert(front[k] == slots[k]);
        }
        assert(distinct(front)) by {
            assert forall|i: int, j: int| 0 <= i < j < front.len() implies (#[trigger] front[i])
                != (#[trigger] front[j]) by {
                assert(front[i] == slots[i] && front[j] == slots[j]);
            }
        }
        lemma_written_reads_back(items, front, texts.drop_last());
        lemma_written_keeps_frame(items, front, texts.drop_last());
        lemma_frame_decides(before, items);
        assert forall|k: int| 0 <= k < slots.len() implies read(
            written(items, slots, texts),
            #[trigger] slots[k],
        ) == texts[k] by {
            assert(valid_slot(items, slots[k]));
            assert(valid_slot(items, slots.last()));
            lemma_read_after_write(before, slots.last(), texts.last(), slots[k]);
            if k < slots.len() - 1 {
                assert(front[k] == slots[k]);
                assert(texts.drop_last()[k] == texts[k]);
                assert(slots[k] != slots[slots.len() - 1]);
            }
        }
    }
}

/// Reinsertion goes by position and changes the wording of the extracted
/// texts only.
///
/// Take a response whose items are complete, and as many translations as it
/// has translatable texts. After translation `k` was written to slot `k` of
/// the extracted batch, for every `k`, extraction from the result gives
/// exactly the translations, in their order; the result has the slots and
/// the frame of the response it was made of, so it differs from that
/// response in nothing but the wording of those texts; and its items are
/// complete.
pub proof fn lemma_reinsertion_by_position(items: Seq<ItemView>, texts: Seq<Seq<char>>)
    requires
        complete(items),
        fits(items),
        texts.len() == slots_of(items).len(),
    ensures
        texts_of(written(items, slots_of(items), texts)) == texts,
        slots_of(written(items, slots_of(items), texts)) == slots_of(items),
        frame(written(items, slots_of(items), texts)) == frame(items),
        complete(written(items, slots_of(items), texts)),
        written(items, slots_of(items), texts).len() == items.len(),
{
    let slots = slots_of(items);
    let result = written(items, slots, texts);
    lemma_extraction_in_document_order(items);
    assert(distinct(slots)) by {
        assert forall|i: int, j: int| 0 <= i < j < slots.len() implies (#[trigger] slots[i]) != (
        #[trigger] slots[j]) by {
            assert(precedes(slots[i], slots[j]));
        }
    }
    lemma_written_keeps_frame(items, slots, texts);
    lemma_written_reads_back(items, slots, texts);
    lemma_frame_decides(result, items);
    lemma_extraction_in_document_order(result);
    assert(slots_of(result) == slots);
    assert forall|k: int| 0 <= k < texts.len() implies texts_of(result)[k] == texts[k] by {
        assert(read(result, slots_of(result)[k]) == texts_of(result)[k]);
        assert(read(result, slots[k]) == texts[k]);
    }
    assert(texts_of(result) =~= texts);
}

/// Reinsertion of the extracted texts themselves gives the response back.
pub proof fn lemma_reinsertion_of_extracted(items: Seq<ItemView>)
    requires
        complete(items),
        fits(items),
    ensures
        written(items, slots_of(items), texts_of(items)) == items,
{
    lemma_extraction_in_document_order(items);
    lemma_written_of_same_texts(items, slots_of(items), texts_of(items));
}

/// Writing to every slot the text it already holds changes nothing.
pub proof fn lemma_written_of_same_texts(
    items: Seq<ItemView>,
    slots: Seq<Slot>,
    texts: Seq<Seq<char>>,
)
    requires
        valid_slots(items, slots),
        texts.len() == slots.len(),
        forall|k: int| 0 <= k < slots.len() ==> texts[k] == read(items, #[trigger] slots[k]),
    ensures
        written(items, slots, texts) == items,
    decreases slots.len(),
{
    if slots.len() > 0 {
        let front = slots.drop_last();
        assert forall|k: int| 0 <= k < front.len() implies valid_slot(items, #[trigger] front[k])
            && texts.drop_last()[k] == read(items, front[k]) by {
            assert(front[k] == slots[k]);
        }
        lemma_written_of_same_texts(items, front, texts.drop_last());
        assert(valid_slot(items, slots.last()));
        assert(texts.last() == read(items, slots[slots.len() - 1]));
        lemma_write_of_same_text(items, slots.last());
    }
}

/// Order preservation, for every response of the assistant.
///
/// If the items of `response` are complete, extraction gives one entry for
/// each of its translatable texts, in document order; and for any batch of
/// translations of that length, reinsertion gives a response from which
/// extraction reads the translations back in their order, and which differs
/// from `response` in nothing but the wording of those texts.
pub proof fn lemma_order_preservation(response: WAResponse, texts: Seq<Seq<char>>)
    requires
        complete(response@.output.generic),
        texts.len() == slots_of(response@.output.generic).len(),
    ensures
        slots_of(response@.output.generic).len() == texts_of(response@.output.generic).len(),
        forall|k: int|
            0 <= k < texts.len() ==> {
                &&& valid_slot(
                    response@.output.generic,
                    #[trigger] slots_of(response@.output.generic)[k],
                )
                &&& read(response@.output.generic, slots_of(response@.output.generic)[k])
                    == texts_of(response@.output.generic)[k]
            },
        forall|i: int, j: int|
            0 <= i < j < texts.len() ==> precedes(
                #[trigger] slots_of(response@.output.generic)[i],
                #[trigger] slots_of(response@.output.generic)[j],
            ),
        texts_of(
            written(response@.output.generic, slots_of(response@.output.generic), texts),
        ) == texts,
        frame(written(response@.output.generic, slots_of(response@.output.generic), texts))
            == frame(response@.output.generic),
{
    lemma_response_fits(response);
    lemma_extraction_in_document_order(response@.output.generic);
    lemma_reinsertion_by_position(response@.output.generic, texts);
}

} // verus!
