//! What holds of every run of the orchestrator.

use vstd::prelude::*;
use crate::engine::frame::frame;
use crate::engine::laws::{lemma_reinsertion_by_position, lemma_slots_count};
use crate::engine::reinsert::{reinserted, with_items};
use crate::engine::slot::{fits, slots_of, texts_of, written};
use crate::orchestrator::model::{
    action_of, awaited, enter, initial, next, remaining, run, sound, succeeded,
    translates_outbound, verdict_of, Machine, Occurrence, RequestView, Retries, Stage, Verdict,
};
use crate::text::blank;
use crate::wa::view::ResponseView;

verus! {

/// Whether `event` reports a translation call that did not succeed.
pub open spec fn failed_translation(event: Occurrence) -> bool {
    event is Translated && !succeeded(event->Translated_0)
}

/// Whether `event` reports a message to the assistant that failed.
pub open spec fn failed_send(event: Occurrence) -> bool {
    event is Answered && event->Answered_0 is Err
}

/// Whether every event of `events` reports a translation call that did not
/// succeed.
pub open spec fn failed_translations(events: Seq<Occurrence>) -> bool {
    forall|i: int| 0 <= i < events.len() ==> failed_translation(#[trigger] events[i])
}

/// Whether every event of `events` reports a message to the assistant that
/// failed.
pub open spec fn failed_sends(events: Seq<Occurrence>) -> bool {
    forall|i: int| 0 <= i < events.len() ==> failed_send(#[trigger] events[i])
}

/// A request starts in a sound state.
pub proof fn lemma_initial_sound(retries: Retries, request: RequestView)
    ensures
        sound(initial(retries, request)),
{
}

/// Every event leads from a sound state to a sound state.
pub proof fn lemma_next_sound(m: Machine, event: Occurrence)
    requires
        sound(m),
    ensures
        sound(next(m, event)),
{
    if m.stage is TranslateOutbound && event is Translated && succeeded(event->Translated_0) {
        let answer = m.answer->0;
        let items = answer.output.generic;
        assert(with_items(answer, reinserted(items, slots_of(items), event->Translated_0->Ok_0))
            == next(m, event).answer->0);
    }
}

/// Every run leads from a sound state to a sound state.
pub proof fn lemma_run_sound(m: Machine, events: Seq<Occurrence>)
    requires
        sound(m),
    ensures
        sound(run(m, events)),
    decreases events.len(),
{
    if events.len() > 0 {
        lemma_run_sound(m, events.drop_last());
        lemma_next_sound(run(m, events.drop_last()), events.last());
    }
}

/// Every retry loop is bounded: each event that the request waits for
/// brings its end nearer, and an event that it does not wait for changes
/// nothing. So a request is over after a number of calls that the
/// configured retries bound.
pub proof fn lemma_awaited_events_bring_the_end_nearer(m: Machine, event: Occurrence)
    requires
        sound(m),
    ensures
        awaited(m, event) ==> remaining(next(m, event)) < remaining(m),
        !awaited(m, event) ==> next(m, event) == m,
        remaining(m) == 0 <==> m.stage is Emit,
{
}

/// A run over `events` and then over one more event.
pub proof fn lemma_run_push(m: Machine, events: Seq<Occurrence>, event: Occurrence)
    ensures
        run(m, events.push(event)) == next(run(m, events), event),
{
    assert(events.push(event).drop_last() =~= events);
}

/// Pass-through: when the user's language is the assistant's, the message
/// stays as the user wrote it and no translation is ever asked for,
/// whatever happens.
///
/// So the message that reaches the assistant is the very message of the
/// request.
pub proof fn lemma_same_language_passes_through(
    retries: Retries,
    request: RequestView,
    events: Seq<Occurrence>,
)
    requires
        request.source_lang == request.target_lang,
    ensures
        !(action_of(run(initial(retries, request), events)) is Translate),
        run(initial(retries, request), events).message == request.message,
        action_of(run(initial(retries, request), events)) is Send ==> action_of(
            run(initial(retries, request), events),
        )->message == request.message,
{
    let start = initial(retries, request);
    lemma_same_language_invariant(start, events);
}

/// The invariant behind pass-through: with one language on both sides, a
/// run from a state that translates nothing reaches no state that does, and
/// does not touch the message.
proof fn lemma_same_language_invariant(start: Machine, events: Seq<Occurrence>)
    requires
        start.source == start.target,
        !(start.stage is TranslateInbound),
        !(start.stage is TranslateOutbound),
    ensures
        run(start, events).source == run(start, events).target,
        !(run(start, events).stage is TranslateInbound),
        !(run(start, events).stage is TranslateOutbound),
        run(start, events).message == start.message,
    decreases events.len(),
{
    if events.len() > 0 {
        lemma_same_language_invariant(start, events.drop_last());
    }
}

/// A blank message is forwarded as it is: it is never translated on its
/// way in, whatever the languages are and whatever happens.
pub proof fn lemma_blank_message_is_forwarded(
    retries: Retries,
    request: RequestView,
    events: Seq<Occurrence>,
)
    requires
        blank(request.message),
    ensures
        !(run(initial(retries, request), events).stage is TranslateInbound),
        run(initial(retries, request), events).message == request.message,
    decreases events.len(),
{
    if events.len() > 0 {
        lemma_blank_message_is_forwarded(retries, request, events.drop_last());
    }
}

/// While attempts are left, failed translations only count up: after `k`
/// of them in a row the request is in the same stage, `k` attempts
/// further, and nothing else has changed.
pub proof fn lemma_failed_translations_count(m: Machine, failures: Seq<Occurrence>)
    requires
        m.stage is TranslateInbound || m.stage is TranslateOutbound,
        failed_translations(failures),
        m.attempt + failures.len() <= m.retries.wlt,
    ensures
        run(m, failures) == (Machine { attempt: m.attempt + failures.len(), ..m }),
    decreases failures.len(),
{
    if failures.len() > 0 {
        let front = failures.drop_last();
        assert forall|i: int| 0 <= i < front.len() implies failed_translation(
            #[trigger] front[i],
        ) by {
            assert(front[i] == failures[i]);
        }
        lemma_failed_translations_count(m, front);
        assert(failed_translation(failures[failures.len() - 1]));
    }
}

/// While attempts are left, failed messages to the assistant only count
/// up.
pub proof fn lemma_failed_sends_count(m: Machine, failures: Seq<Occurrence>)
    requires
        m.stage is SendToAssistant,
        failed_sends(failures),
        m.attempt + failures.len() <= m.retries.wa,
    ensures
        run(m, failures) == (Machine { attempt: m.attempt + failures.len(), ..m }),
    decreases failures.len(),
{
    if failures.len() > 0 {
        let front = failures.drop_last();
        assert forall|i: int| 0 <= i < front.len() implies failed_send(#[trigger] front[i]) by {
            assert(front[i] == failures[i]);
        }
        lemma_failed_sends_count(m, front);
        assert(failed_send(failures[failures.len() - 1]));
    }
}

/// Retry, inbound: when the translation of the message fails no more often
/// than there are retries and then succeeds, the request goes on with the
/// translation that the successful call gave.
pub proof fn lemma_inbound_retry_succeeds(
    m: Machine,
    failures: Seq<Occurrence>,
    texts: Seq<Seq<char>>,
)
    requires
        m.stage is TranslateInbound,
        failed_translations(failures),
        m.attempt + failures.len() <= m.retries.wlt,
        texts.len() > 0,
    ensures
        run(m, failures.push(Occurrence::Translated(Ok(texts)))) == enter(
            Machine { message: texts[0], ..m },
            Stage::EstablishSession,
        ),
{
    lemma_failed_translations_count(m, failures);
    lemma_run_push(m, failures, Occurrence::Translated(Ok(texts)));
}

/// Exhaustion, inbound: when the translation of the message fails once
/// more than there are retries, the message goes to the assistant as the
/// user wrote it. A failed translation never ends the request.
pub proof fn lemma_inbound_retry_exhausted(m: Machine, failures: Seq<Occurrence>)
    requires
        sound(m),
        m.stage is TranslateInbound,
        failed_translations(failures),
        m.attempt + failures.len() == m.retries.wlt + 1,
    ensures
        run(m, failures) == enter(m, Stage::EstablishSession),
{
    let front = failures.drop_last();
    assert forall|i: int| 0 <= i < front.len() implies failed_translation(#[trigger] front[i]) by {
        assert(front[i] == failures[i]);
    }
    lemma_failed_translations_count(m, front);
    assert(failed_translation(failures[failures.len() - 1]));
}

/// Retry, assistant: when sending the message fails no more often than
/// there are retries and then succeeds, the request goes on with the
/// response that the successful attempt gave.
pub proof fn lemma_send_retry_succeeds(
    m: Machine,
    failures: Seq<Occurrence>,
    answer: ResponseView,
)
    requires
        m.stage is SendToAssistant,
        failed_sends(failures),
        m.attempt + failures.len() <= m.retries.wa,
    ensures
        run(m, failures.push(Occurrence::Answered(Ok(answer)))).answer == Some(answer),
        run(m, failures.push(Occurrence::Answered(Ok(answer)))).stage == if translates_outbound(
            m,
            answer,
        ) {
            Stage::TranslateOutbound
        } else {
            Stage::Emit
        },
{
    lemma_failed_sends_count(m, failures);
    lemma_run_push(m, failures, Occurrence::Answered(Ok(answer)));
}

/// Exhaustion, assistant: when sending the message fails once more than
/// there are retries, the request ends in failure, and nothing of a
/// response is emitted.
pub proof fn lemma_send_retry_exhausted(m: Machine, failures: Seq<Occurrence>)
    requires
        sound(m),
        m.stage is SendToAssistant,
        failed_sends(failures),
        m.attempt + failures.len() == m.retries.wa + 1,
    ensures
        run(m, failures).stage is Emit,
        verdict_of(run(m, failures)) is Failure,
{
    let front = failures.drop_last();
    assert forall|i: int| 0 <= i < front.len() implies failed_send(#[trigger] front[i]) by {
        assert(front[i] == failures[i]);
    }
    lemma_failed_sends_count(m, front);
    assert(failed_send(failures[failures.len() - 1]));
}

/// Retry, outbound: when the translation of the response fails no more
/// often than there are retries and then succeeds, the request ends with
/// the translations of the successful call reinserted, each at its
/// position.
pub proof fn lemma_outbound_retry_succeeds(
    m: Machine,
    failures: Seq<Occurrence>,
    texts: Seq<Seq<char>>,
)
    requires
        m.stage is TranslateOutbound,
        failed_translations(failures),
        m.attempt + failures.len() <= m.retries.wlt,
        texts.len() > 0,
    ensures
        run(m, failures.push(Occurrence::Translated(Ok(texts)))) == enter(
            Machine {
                answer: Some(
                    with_items(
                        m.answer->0,
                        reinserted(
                            m.answer->0.output.generic,
                            slots_of(m.answer->0.output.generic),
                            texts,
                        ),
                    ),
                ),
                ..m
            },
            Stage::Emit,
        ),
{
    lemma_failed_translations_count(m, failures);
    lemma_run_push(m, failures, Occurrence::Translated(Ok(texts)));
}

/// Fallback safety: as long as the translation of the response fails, the
/// response stays exactly as the assistant gave it; and once the attempts
/// are used up the request ends with that response, untranslated.
pub proof fn lemma_outbound_failure_keeps_answer(m: Machine, failures: Seq<Occurrence>)
    requires
        sound(m),
        m.stage is TranslateOutbound,
        failed_translations(failures),
    ensures
        run(m, failures).answer == m.answer,
        run(m, failures).session == m.session,
        run(m, failures).stage is TranslateOutbound || run(m, failures).stage is Emit,
        m.attempt + failures.len() > m.retries.wlt ==> run(m, failures).stage is Emit
            && verdict_of(run(m, failures)) == (Verdict::Success {
            session_id: m.session->0,
            result: m.answer->0,
        }),
    decreases failures.len(),
{
    if failures.len() > 0 {
        let front = failures.drop_last();
        assert forall|i: int| 0 <= i < front.len() implies failed_translation(
            #[trigger] front[i],
        ) by {
            assert(front[i] == failures[i]);
        }
        lemma_outbound_failure_keeps_answer(m, front);
        lemma_run_sound(m, front);
        assert(failed_translation(failures[failures.len() - 1]));
        if m.attempt + front.len() <= m.retries.wlt {
            lemma_failed_translations_count(m, front);
        }
    }
}

/// Fallback safety, from the assistant's response on: when the assistant
/// answers and every translation call after that fails, the response that
/// the request holds is the assistant's, unchanged, at every moment.
pub proof fn lemma_fallback_safety(m: Machine, answer: ResponseView, failures: Seq<Occurrence>)
    requires
        sound(m),
        m.stage is SendToAssistant,
        failed_translations(failures),
    ensures
        run(next(m, Occurrence::Answered(Ok(answer))), failures).answer == Some(answer),
        failures.len() > m.retries.wlt ==> verdict_of(
            run(next(m, Occurrence::Answered(Ok(answer))), failures),
        ) == (Verdict::Success { session_id: m.session->0, result: answer }),
{
    let received = next(m, Occurrence::Answered(Ok(answer)));
    lemma_next_sound(m, Occurrence::Answered(Ok(answer)));
    if received.stage is TranslateOutbound {
        lemma_outbound_failure_keeps_answer(received, failures);
    } else {
        lemma_finished_stays(received, failures);
    }
}

/// The orchestrator never asks for the translation of nothing: a request for
/// translation names at least one text.
pub proof fn lemma_translation_requests_are_not_empty(m: Machine)
    requires
        sound(m),
        action_of(m) is Translate,
    ensures
        action_of(m)->text.len() > 0,
{
    if m.stage is TranslateOutbound {
        lemma_slots_count(m.answer->0.output.generic);
    }
}

/// A request that is over stays as it is, whatever it is told.
pub proof fn lemma_finished_stays(m: Machine, events: Seq<Occurrence>)
    requires
        m.stage is Emit,
    ensures
        run(m, events) == m,
    decreases events.len(),
{
    if events.len() > 0 {
        lemma_finished_stays(m, events.drop_last());
    }
}

/// The guard against a mismatched count, in the run of a request: when the
/// translation service gives another number of texts than were extracted,
/// the request ends with the response as the assistant gave it.
pub proof fn lemma_mismatched_count_keeps_answer(m: Machine, texts: Seq<Seq<char>>)
    requires
        m.stage is TranslateOutbound,
        m.answer is Some,
        texts.len() != slots_of(m.answer->0.output.generic).len(),
    ensures
        next(m, Occurrence::Translated(Ok(texts))).answer == m.answer,
        texts.len() > 0 ==> next(m, Occurrence::Translated(Ok(texts))).stage is Emit,
{
}

/// The translation lands: when the translation service gives as many texts
/// as were extracted, the request ends with a response that reads as those
/// texts, in their order, and differs from the assistant's in nothing but
/// the wording of the extracted texts.
pub proof fn lemma_outbound_translation_lands(m: Machine, texts: Seq<Seq<char>>)
    requires
        sound(m),
        m.stage is TranslateOutbound,
        fits(m.answer->0.output.generic),
        texts.len() == slots_of(m.answer->0.output.generic).len(),
    ensures
        next(m, Occurrence::Translated(Ok(texts))).stage is Emit,
        next(m, Occurrence::Translated(Ok(texts))).answer is Some,
        next(m, Occurrence::Translated(Ok(texts))).answer->0 == with_items(
            m.answer->0,
            written(m.answer->0.output.generic, slots_of(m.answer->0.output.generic), texts),
        ),
        texts_of(next(m, Occurrence::Translated(Ok(texts))).answer->0.output.generic) == texts,
        frame(next(m, Occurrence::Translated(Ok(texts))).answer->0.output.generic) == frame(
            m.answer->0.output.generic,
        ),
{
    let items = m.answer->0.output.generic;
    crate::engine::laws::lemma_extraction_in_document_order(items);
    lemma_reinsertion_by_position(items, texts);
}

/// First success wins: once a translation call has succeeded, no later
/// outcome of a translation call changes anything.
pub proof fn lemma_first_success_wins(
    m: Machine,
    texts: Seq<Seq<char>>,
    later: Seq<Occurrence>,
)
    requires
        m.stage is TranslateInbound || m.stage is TranslateOutbound,
        texts.len() > 0,
        forall|i: int| 0 <= i < later.len() ==> (#[trigger] later[i]) is Translated,
    ensures
        run(next(m, Occurrence::Translated(Ok(texts))), later) == next(
            m,
            Occurrence::Translated(Ok(texts)),
        ),
    decreases later.len(),
{
    if later.len() > 0 {
        let front = later.drop_last();
        assert forall|i: int| 0 <= i < front.len() implies (#[trigger] front[i]) is Translated by {
            assert(front[i] == later[i]);
        }
        lemma_first_success_wins(m, texts, front);
        assert(later[later.len() - 1] is Translated);
    }
}

} // verus!
