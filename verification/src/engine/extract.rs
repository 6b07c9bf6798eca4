//! The first pass over a response: collect, in document order, every text
//! that is to be translated and the slot it came from.

use vstd::prelude::*;
use crate::engine::slot::{
    complete, item_complete, item_slots, item_texts, label_slot, slots_of, strings_view, texts_of,
    Field, Slot,
};
use crate::wa::response::{OutputOption, ResponseGeneric, ResponseType, Suggestion, WAResponse};
use crate::wa::view::{items_view, options_view, suggestions_view, ItemView};

verus! {

/// An output item lacks the field that its kind requires.
#[derive(Debug, Clone, Copy, PartialEq, Eq, Structural)]
pub enum StructuralErr {
    /// The `text` item at this index has no text.
    MissingText { item: usize },
    /// The `suggestion` or `option` item at this index has no title.
    MissingTitle { item: usize },
}

impl StructuralErr {
    /// The index of the item at fault.
    pub open spec fn at(self) -> usize {
        match self {
            StructuralErr::MissingText { item } => item,
            StructuralErr::MissingTitle { item } => item,
        }
    }

    /// The index of the item at fault.
    pub fn item(&self) -> (i: usize)
        ensures
            i == self.at(),
    {
        match self {
            StructuralErr::MissingText { item } => *item,
            StructuralErr::MissingTitle { item } => *item,
        }
    }
}

/// The error that an incomplete item at index `at` gives rise to.
pub open spec fn missing(item: ItemView, at: usize) -> StructuralErr {
    if item.response_type is Text {
        StructuralErr::MissingText { item: at }
    } else {
        StructuralErr::MissingTitle { item: at }
    }
}

/// Whether the item at `i` is the first of `items` that is not complete.
pub open spec fn first_incomplete(items: Seq<ItemView>, i: int) -> bool {
    &&& 0 <= i < items.len()
    &&& !item_complete(items[i])
    &&& forall|j: int| 0 <= j < i ==> item_complete(#[trigger] items[j])
}

/// The translatable texts of one response, with the slot of each. Text `k`
/// was read from slot `k`.
#[derive(Debug)]
pub struct TextBatch {
    pub slots: Vec<Slot>,
    pub texts: Vec<String>,
}

impl TextBatch {
    /// Whether this batch is what extraction gives for `items`: all their
    /// slots and all their texts, in document order.
    pub open spec fn drawn_from(self, items: Seq<ItemView>) -> bool {
        &&& self.slots@ == slots_of(items)
        &&& strings_view(self.texts@) == texts_of(items)
    }

    /// The number of texts in the batch.
    pub fn len(&self) -> (n: usize)
        ensures
            n == self.texts@.len(),
    {
        self.texts.len()
    }
}

proof fn lemma_strings_push(strings: Seq<String>, s: String)
    ensures
        strings_view(strings.push(s)) == strings_view(strings).push(s@),
{
    assert(strings_view(strings.push(s)) =~= strings_view(strings).push(s@));
}

/// Appends the label of every suggestion, with its slot, in list order.
fn push_suggestions(
    suggestions: &Vec<Suggestion>,
    at: usize,
    slots: &mut Vec<Slot>,
    texts: &mut Vec<String>,
)
    ensures
        final(slots)@ == old(slots)@ + Seq::new(
            suggestions@.len(),
            |j: int| label_slot(ResponseType::Suggestion, at, j),
        ),
        strings_view(final(texts)@) == strings_view(old(texts)@) + Seq::new(
            suggestions@.len(),
            |j: int| suggestions_view(suggestions@)[j].label,
        ),
{
    let mut j: usize = 0;
    while j < suggestions.len()
        invariant
            j <= suggestions@.len(),
            slots@ == old(slots)@ + Seq::new(
                j as nat,
                |k: int| label_slot(ResponseType::Suggestion, at, k),
            ),
            strings_view(texts@) == strings_view(old(texts)@) + Seq::new(
                j as nat,
                |k: int| suggestions_view(suggestions@)[k].label,
            ),
        decreases suggestions@.len() - j,
    {
        let ghost slots_before = slots@;
        let ghost texts_before = texts@;
        slots.push(Slot { item: at, field: Field::SuggestionLabel(j) });
        let label = suggestions[j].label.clone();
        texts.push(label);
        proof {
            lemma_strings_push(texts_before, label);
            assert(slots@ =~= old(slots)@ + Seq::new(
                (j + 1) as nat,
                |k: int| label_slot(ResponseType::Suggestion, at, k),
            ));
            assert(strings_view(texts@) =~= strings_view(old(texts)@) + Seq::new(
                (j + 1) as nat,
                |k: int| suggestions_view(suggestions@)[k].label,
            ));
        }
        j += 1;
    }
}

/// Appends the label of every option, with its slot, in list order.
fn push_options(
    options: &Vec<OutputOption>,
    at: usize,
    slots: &mut Vec<Slot>,
    texts: &mut Vec<String>,
)
    ensures
        final(slots)@ == old(slots)@ + Seq::new(
            options@.len(),
            |j: int| label_slot(ResponseType::Option, at, j),
        ),
        strings_view(final(texts)@) == strings_view(old(texts)@) + Seq::new(
            options@.len(),
            |j: int| options_view(options@)[j].label,
        ),
{
    let mut j: usize = 0;
    while j < options.len()
        invariant
            j <= options@.len(),
            slots@ == old(slots)@ + Seq::new(
                j as nat,
                |k: int| label_slot(ResponseType::Option, at, k),
            ),
            strings_view(texts@) == strings_view(old(texts)@) + Seq::new(
                j as nat,
                |k: int| options_view(options@)[k].label,
            ),
        decreases options@.len() - j,
    {
        let ghost texts_before = texts@;
        slots.push(Slot { item: at, field: Field::OptionLabel(j) });
        let label = options[j].label.clone();
        texts.push(label);
        proof {
            lemma_strings_push(texts_before, label);
            assert(slots@ =~= old(slots)@ + Seq::new(
                (j + 1) as nat,
                |k: int| label_slot(ResponseType::Option, at, k),
            ));
            assert(strings_view(texts@) =~= strings_view(old(texts)@) + Seq::new(
                (j + 1) as nat,
                |k: int| options_view(options@)[k].label,
            ));
        }
        j += 1;
    }
}

/// Appends the slots and texts of the item `item`, which stands at index
/// `at`, or says which required field it lacks.
fn push_item(
    item: &ResponseGeneric,
    at: usize,
    slots: &mut Vec<Slot>,
    texts: &mut Vec<String>,
) -> (r: Result<(), StructuralErr>)
    ensures
        match r {
            Ok(()) => {
                &&& item_complete(item@)
                &&& final(slots)@ == old(slots)@ + item_slots(item@, at)
                &&& strings_view(final(texts)@) == strings_view(old(texts)@) + item_texts(item@)
            },
            Err(e) => !item_complete(item@) && e == missing(item@, at),
        },
{
    match item.response_type {
        ResponseType::Text => match &item.text {
            Some(text) => {
                let ghost texts_before = texts@;
                slots.push(Slot { item: at, field: Field::Text });
                let copy = text.clone();
                texts.push(copy);
                proof {
                    lemma_strings_push(texts_before, copy);
                    assert(slots@ =~= old(slots)@ + item_slots(item@, at));
                    assert(strings_view(texts@) =~= strings_view(old(texts)@) + item_texts(
                        item@,
                    ));
                }
                Ok(())
            },
            None => Err(StructuralErr::MissingText { item: at }),
        },
        ResponseType::Suggestion => match &item.title {
            Some(title) => {
                let ghost texts_before = texts@;
                slots.push(Slot { item: at, field: Field::Title });
                let copy = title.clone();
                texts.push(copy);
                proof {
                    lemma_strings_push(texts_before, copy);
                }
                match &item.suggestions {
                    Some(suggestions) => {
                        push_suggestions(suggestions, at, slots, texts);
                    },
                    None => {},
                }
                proof {
                    assert(slots@ =~= old(slots)@ + item_slots(item@, at));
                    assert(strings_view(texts@) =~= strings_view(old(texts)@) + item_texts(
                        item@,
                    ));
                }
                Ok(())
            },
            None => Err(StructuralErr::MissingTitle { item: at }),
        },
        ResponseType::Option => match &item.title {
            Some(title) => {
                let ghost texts_before = texts@;
                slots.push(Slot { item: at, field: Field::Title });
                let copy = title.clone();
                texts.push(copy);
                proof {
                    lemma_strings_push(texts_before, copy);
                }
                match &item.options {
                    Some(options) => {
                        push_options(options, at, slots, texts);
                    },
                    None => {},
                }
                proof {
                    assert(slots@ =~= old(slots)@ + item_slots(item@, at));
                    assert(strings_view(texts@) =~= strings_view(old(texts)@) + item_texts(
                        item@,
                    ));
                }
                Ok(())
            },
            None => Err(StructuralErr::MissingTitle { item: at }),
        },
        _ => {
            proof {
                assert(slots@ =~= old(slots)@ + item_slots(item@, at));
                assert(strings_view(texts@) =~= strings_view(old(texts)@) + item_texts(item@));
            }
            Ok(())
        },
    }
}

/// Collects the translatable texts of `response` in document order.
///
/// Every output item is visited in list order. A `text` item gives its
/// text; a `suggestion` item its title and then the label of each of its
/// suggestions; an `option` item its title and then the label of each of its
/// options; any other item nothing. The response is not changed.
///
/// The result is an error exactly when some item lacks the field that its
/// kind requires, and the error names the first such item.
pub fn extract(response: &WAResponse) -> (r: Result<TextBatch, StructuralErr>)
    ensures
        match r {
            Ok(batch) => complete(response@.output.generic) && batch.drawn_from(
                response@.output.generic,
            ),
            Err(e) => first_incomplete(response@.output.generic, e.at() as int) && e == missing(
                response@.output.generic[e.at() as int],
                e.at(),
            ),
        },
{
    let items = &response.output.generic;
    let ghost views = items_view(items@);
    let mut slots: Vec<Slot> = Vec::with_capacity(items.len());
    let mut texts: Vec<String> = Vec::with_capacity(items.len());
    let mut i: usize = 0;
    assert(views.take(0) =~= Seq::<ItemView>::empty());
    while i < items.len()
        invariant
            views == items_view(items@),
            views == response@.output.generic,
            i <= items@.len(),
            slots@ == slots_of(views.take(i as int)),
            strings_view(texts@) == texts_of(views.take(i as int)),
            forall|j: int| 0 <= j < i ==> item_complete(#[trigger] views[j]),
        decreases items@.len() - i,
    {
        proof {
            assert(views.take(i + 1).drop_last() =~= views.take(i as int));
            assert(views.take(i + 1).last() == items@[i as int]@);
        }
        match push_item(&items[i], i, &mut slots, &mut texts) {
            Ok(()) => {},
            Err(e) => {
                proof {
                    assert(views[i as int] == items@[i as int]@);
                    assert(e.at() == i);
                    assert(first_incomplete(views, i as int));
                }
                return Err(e);
            },
        }
        i += 1;
    }
    assert(views.take(i as int) =~= views);
    Ok(TextBatch { slots, texts })
}

} // verus!
