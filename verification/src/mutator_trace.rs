//! What a whole mutation looks like from outside.
//!
//! [`mutation_trace`] is the sequence of things that happen when the steps of a
//! mutation are carried out and each request is answered by the next of a sequence of
//! attempts.
use crate::envelope::ResultView;
use crate::error::ErrorView;
use crate::mutator::{after_signal, after_wake, conclusion, MutationStepView, MutationView};
use crate::request::{visibility_request_view, RequestView};
use crate::retry::MAX_RETRIES;
use vstd::arithmetic::power2::lemma2_to64;
use vstd::prelude::*;

verus! {

/// An attempt as the machine reads it: the result envelope of a successful answer, if
/// it holds one, or the error of a failed attempt.
pub type ResultSignal = Result<Option<ResultView>, ErrorView>;

/// One thing that happens during a mutation.
pub enum MutationEvent {
    /// A request was sent.
    Sent(RequestView),
    /// The caller slept for so many seconds.
    Slept(nat),
    /// The mutation ended with this result.
    Ended(Result<(), ErrorView>),
}

/// What happens from `step` on, when the attempts are answered by `signals` in turn.
/// The trace stops where the mutation ends, or at a request that nothing answers.
pub open spec fn mutation_trace(step: MutationStepView, signals: Seq<ResultSignal>) -> Seq<
    MutationEvent,
>
    decreases signals.len(), (if step is Sleep { 1nat } else { 0nat }),
{
    match step {
        MutationStepView::Send { request, run } => if signals.len() == 0 {
            seq![MutationEvent::Sent(request)]
        } else {
            seq![MutationEvent::Sent(request)] + mutation_trace(
                after_signal(run, signals[0]),
                signals.drop_first(),
            )
        },
        MutationStepView::Sleep { seconds, run } => seq![MutationEvent::Slept(seconds)]
            + mutation_trace(after_wake(run), signals),
        MutationStepView::Done { result } => seq![MutationEvent::Ended(result)],
    }
}

/// The request of the mutation `run`.
pub open spec fn mutation_request(run: MutationView) -> RequestView {
    visibility_request_view(run.cookie, run.token, run.weibo_id, run.level)
}

/// A successful answer ends the mutation at once: nothing is sent or awaited after
/// it, whatever answers `later` would bring.
pub proof fn success_ends_mutation(
    run: MutationView,
    envelope: Option<ResultView>,
    later: Seq<ResultSignal>,
)
    ensures
        mutation_trace(after_wake(run), seq![Ok(envelope)] + later) == seq![
            MutationEvent::Sent(mutation_request(run)),
            MutationEvent::Ended(conclusion(envelope)),
        ],
{
    let signals = seq![Ok(envelope)] + later;
    let ended = after_signal(run, signals[0]);
    assert(mutation_trace(ended, signals.drop_first()) == seq![
        MutationEvent::Ended(conclusion(envelope)),
    ]);
    assert(mutation_trace(after_wake(run), signals) =~= seq![
        MutationEvent::Sent(mutation_request(run)),
        MutationEvent::Ended(conclusion(envelope)),
    ]);
}

/// A mutation is attempted three times at most, with waits of one second and then
/// two.
///
/// Where the first two attempts fail, the same request is sent three times, and the
/// third attempt decides: its conclusion where it succeeds, its own error where it
/// fails. Nothing is sent after it, whatever answers `later` would bring.
pub proof fn mutation_is_retried_twice(
    run: MutationView,
    first: ErrorView,
    second: ErrorView,
    third: ResultSignal,
    later: Seq<ResultSignal>,
)
    requires
        run.attempt == 0,
    ensures
        mutation_trace(after_wake(run), seq![Err(first), Err(second), third] + later) == seq![
            MutationEvent::Sent(mutation_request(run)),
            MutationEvent::Slept(1),
            MutationEvent::Sent(mutation_request(run)),
            MutationEvent::Slept(2),
            MutationEvent::Sent(mutation_request(run)),
            MutationEvent::Ended(
                match third {
                    Ok(envelope) => conclusion(envelope),
                    Err(error) => Err(error),
                },
            ),
        ],
{
    lemma2_to64();
    let signals = seq![Err(first), Err(second), third] + later;
    let request = mutation_request(run);
    let again = MutationView { attempt: 1, ..run };
    let last = MutationView { attempt: 2, ..run };
    let end = match third {
        Ok(envelope) => conclusion(envelope),
        Err(error) => Err(error),
    };
    let s1 = signals.drop_first();
    let s2 = s1.drop_first();
    assert(after_signal(run, signals[0]) == MutationStepView::Sleep { seconds: 1, run: again });
    assert(after_signal(again, s1[0]) == MutationStepView::Sleep { seconds: 2, run: last });
    assert(after_signal(last, s2[0]) == MutationStepView::Done { result: end });
    assert(mutation_trace(after_signal(last, s2[0]), s2.drop_first()) == seq![
        MutationEvent::Ended(end),
    ]);
    let t2 = mutation_trace(after_wake(last), s2);
    assert(t2 == seq![MutationEvent::Sent(request)] + seq![MutationEvent::Ended(end)]);
    let t1 = mutation_trace(after_wake(again), s1);
    assert(mutation_trace(after_signal(again, s1[0]), s2) == seq![MutationEvent::Slept(2)] + t2);
    assert(t1 == seq![MutationEvent::Sent(request)] + (seq![MutationEvent::Slept(2)] + t2));
    let t0 = mutation_trace(after_wake(run), signals);
    assert(mutation_trace(after_signal(run, signals[0]), s1) == seq![MutationEvent::Slept(1)]
        + t1);
    assert(t0 == seq![MutationEvent::Sent(request)] + (seq![MutationEvent::Slept(1)] + t1));
    assert(t0 =~= seq![
        MutationEvent::Sent(request),
        MutationEvent::Slept(1),
        MutationEvent::Sent(request),
        MutationEvent::Slept(2),
        MutationEvent::Sent(request),
        MutationEvent::Ended(end),
    ]);
}

/// An answer in 2xx whose body is no result envelope counts as success, at every
/// attempt.
pub proof fn unreadable_answer_is_success(run: MutationView)
    ensures
        after_signal(run, Ok(None)) == (MutationStepView::Done { result: Ok(()) }),
{
}

/// An envelope without a status flag counts as success; one with a status flag is a
/// success exactly where the flag is the success value.
pub proof fn status_flag_decides(envelope: ResultView)
    ensures
        envelope.ok is None ==> conclusion(Some(envelope)) is Ok,
        envelope.ok is Some ==> (conclusion(Some(envelope)) is Ok <==> envelope.ok == Some(1i32)),
        (envelope.ok is Some && envelope.ok != Some(1i32) && envelope.msg is Some) ==> conclusion(
            Some(envelope),
        ) == Err::<(), ErrorView>(ErrorView::Mutation { message: envelope.msg.unwrap() }),
{
}

/// A mutation never makes a fourth attempt: where the attempt of a run is one of the
/// three, so is the attempt of the run that follows a failure, if one follows.
pub proof fn mutation_stays_in_bounds(run: MutationView, signal: ResultSignal)
    requires
        run.attempt < MAX_RETRIES,
    ensures
        match after_signal(run, signal) {
            MutationStepView::Sleep { run: next, .. } => next.attempt < MAX_RETRIES,
            MutationStepView::Send { .. } => false,
            MutationStepView::Done { .. } => true,
        },
{
}

} // verus!
