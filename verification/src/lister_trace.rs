//! What a whole listing looks like from outside.
//!
//! [`list_trace`] is the sequence of things that happen when the steps of a listing
//! are carried out and each request is answered by the next of a sequence of
//! attempts. The theorems of this module say what that sequence is for the courses
//! that matter: pages until an empty one, pages until the ceiling, and attempts that
//! fail.
use crate::envelope::{ItemView, PageView};
use crate::error::ErrorView;
use crate::lister::{
    after_signal, after_wake, ceiling_of, first_run, with_page, ListStepView, ListView,
};
use crate::retry::MAX_RETRIES;
use crate::request::{list_request_view, RequestView};
use vstd::arithmetic::power2::lemma2_to64;
use vstd::prelude::*;

verus! {

/// An attempt as the machine reads it: a page envelope, if the answer holds one, or
/// the error of a failed attempt.
pub type PageSignal = Result<Option<PageView>, ErrorView>;

/// One thing that happens during a listing.
pub enum ListEvent {
    /// A request was sent.
    Sent(RequestView),
    /// The caller slept for so many seconds.
    Slept(nat),
    /// The listing ended with this result.
    Ended(Result<Seq<ItemView>, ErrorView>),
}

/// What happens from `step` on, when the attempts are answered by `signals` in turn.
/// The trace stops where the listing ends, or at a request that nothing answers.
pub open spec fn list_trace(step: ListStepView, signals: Seq<PageSignal>) -> Seq<ListEvent>
    decreases signals.len(), (if step is Sleep { 1nat } else { 0nat }),
{
    match step {
        ListStepView::Send { request, run } => if signals.len() == 0 {
            seq![ListEvent::Sent(request)]
        } else {
            seq![ListEvent::Sent(request)] + list_trace(
                after_signal(run, signals[0]),
                signals.drop_first(),
            )
        },
        ListStepView::Sleep { seconds, run } => seq![ListEvent::Slept(seconds)] + list_trace(
            after_wake(run),
            signals,
        ),
        ListStepView::Done { result } => seq![ListEvent::Ended(result)],
    }
}

/// The successful answer that holds the page `list`.
pub open spec fn page_signal(list: Seq<ItemView>) -> PageSignal {
    Ok(Some(PageView { ok: 1, list }))
}

/// The successful answers that hold `pages`, in order.
pub open spec fn page_signals(pages: Seq<Seq<ItemView>>) -> Seq<PageSignal> {
    pages.map_values(|list: Seq<ItemView>| page_signal(list))
}

/// Whether every one of `pages` holds an item.
pub open spec fn all_hold_items(pages: Seq<Seq<ItemView>>) -> bool {
    forall|i: int| 0 <= i < pages.len() ==> (#[trigger] pages[i]).len() > 0
}

/// The request for page `page` in the listing `run`.
pub open spec fn page_request(run: ListView, page: nat) -> RequestView {
    list_request_view(run.cookie, run.token, run.user_id, page)
}

/// Whether `run` can read `count` more pages without passing its ceiling.
pub open spec fn has_room(run: ListView, count: nat) -> bool {
    count > 0 ==> !run.at_ceiling && run.page + count <= run.ceiling + 1
}

/// The run after the pages `pages`, each with items, were read in turn.
pub open spec fn after_pages(run: ListView, pages: Seq<Seq<ItemView>>) -> ListView
    decreases pages.len(),
{
    if pages.len() == 0 {
        run
    } else {
        after_pages(with_page(run, pages[0]), pages.drop_first())
    }
}

/// A request and a pause for each of `pages`.
pub open spec fn reading(run: ListView, pages: Seq<Seq<ItemView>>) -> Seq<ListEvent>
    decreases pages.len(),
{
    if pages.len() == 0 {
        Seq::empty()
    } else {
        seq![ListEvent::Sent(page_request(run, run.page)), ListEvent::Slept(1)] + reading(
            with_page(run, pages[0]),
            pages.drop_first(),
        )
    }
}

proof fn lemma_signals_split(pages: Seq<Seq<ItemView>>, rest: Seq<PageSignal>)
    requires
        pages.len() > 0,
    ensures
        (page_signals(pages) + rest)[0] == page_signal(pages[0]),
        (page_signals(pages) + rest).drop_first() == page_signals(pages.drop_first()) + rest,
{
    assert((page_signals(pages) + rest).drop_first() =~= page_signals(pages.drop_first()) + rest);
}

proof fn lemma_room_shrinks(run: ListView, pages: Seq<Seq<ItemView>>)
    requires
        pages.len() > 0,
        all_hold_items(pages),
        has_room(run, pages.len()),
    ensures
        all_hold_items(pages.drop_first()),
        has_room(with_page(run, pages[0]), pages.drop_first().len()),
{
    let tail = pages.drop_first();
    assert forall|i: int| 0 <= i < tail.len() implies (#[trigger] tail[i]).len() > 0 by {
        assert(tail[i] == pages[i + 1]);
    }
}

/// While pages with items come and the ceiling leaves room, each is asked for once
/// and followed by a pause, and the listing goes on from the run that has read them.
proof fn lemma_reading(run: ListView, pages: Seq<Seq<ItemView>>, rest: Seq<PageSignal>)
    requires
        all_hold_items(pages),
        has_room(run, pages.len()),
    ensures
        list_trace(after_wake(run), page_signals(pages) + rest) == reading(run, pages) + list_trace(
            after_wake(after_pages(run, pages)),
            rest,
        ),
    decreases pages.len(),
{
    let signals = page_signals(pages) + rest;
    if pages.len() == 0 {
        assert(signals =~= rest);
        assert(reading(run, pages) + list_trace(after_wake(run), rest) =~= list_trace(
            after_wake(run),
            rest,
        ));
    } else {
        let next = with_page(run, pages[0]);
        let tail = pages.drop_first();
        lemma_signals_split(pages, rest);
        lemma_room_shrinks(run, pages);
        lemma_reading(next, tail, rest);
        let slept = after_signal(run, signals[0]);
        assert(slept == ListStepView::Sleep { seconds: 1, run: next });
        assert(list_trace(slept, signals.drop_first()) == seq![ListEvent::Slept(1)] + list_trace(
            after_wake(next),
            signals.drop_first(),
        ));
        assert(list_trace(after_wake(run), signals) == seq![
            ListEvent::Sent(page_request(run, run.page)),
        ] + list_trace(slept, signals.drop_first()));
        assert(list_trace(after_wake(run), signals) =~= reading(run, pages) + list_trace(
            after_wake(after_pages(run, pages)),
            rest,
        ));
    }
}

/// The requests of `reading` go to successive pages, and a pause of one second
/// follows each.
proof fn lemma_reading_shape(run: ListView, pages: Seq<Seq<ItemView>>)
    requires
        all_hold_items(pages),
        has_room(run, pages.len()),
    ensures
        reading(run, pages).len() == 2 * pages.len(),
        forall|i: int|
            0 <= i < pages.len() ==> {
                &&& #[trigger] reading(run, pages)[2 * i] == ListEvent::Sent(
                    page_request(run, (run.page + i) as nat),
                )
                &&& reading(run, pages)[2 * i + 1] == ListEvent::Slept(1)
            },
    decreases pages.len(),
{
    if pages.len() > 0 {
        let next = with_page(run, pages[0]);
        let tail = pages.drop_first();
        lemma_room_shrinks(run, pages);
        lemma_reading_shape(next, tail);
        let head = seq![ListEvent::Sent(page_request(run, run.page)), ListEvent::Slept(1)];
        assert(reading(run, pages) == head + reading(next, tail));
        assert forall|i: int| 0 <= i < pages.len() implies {
            &&& #[trigger] reading(run, pages)[2 * i] == ListEvent::Sent(
                page_request(run, (run.page + i) as nat),
            )
            &&& reading(run, pages)[2 * i + 1] == ListEvent::Slept(1)
        } by {
            if i > 0 {
                assert(reading(run, pages)[2 * i] == reading(next, tail)[2 * (i - 1)]);
                assert(reading(run, pages)[2 * i + 1] == reading(next, tail)[2 * (i - 1) + 1]);
                assert(page_request(next, (next.page + (i - 1)) as nat) == page_request(
                    run,
                    (run.page + i) as nat,
                ));
            }
        }
    }
}

/// The run that has read `pages` holds their items after its own, in order, and is at
/// the ceiling exactly where the last of them was the last page allowed.
proof fn lemma_after_pages(run: ListView, pages: Seq<Seq<ItemView>>)
    requires
        all_hold_items(pages),
        has_room(run, pages.len()),
        pages.len() > 0,
    ensures
        after_pages(run, pages).items == run.items + pages.flatten(),
        after_pages(run, pages).at_ceiling == (run.page + pages.len() == run.ceiling + 1),
        !after_pages(run, pages).at_ceiling ==> after_pages(run, pages).page == run.page
            + pages.len(),
        after_pages(run, pages).cookie == run.cookie,
        after_pages(run, pages).token == run.token,
        after_pages(run, pages).user_id == run.user_id,
        after_pages(run, pages).ceiling == run.ceiling,
        after_pages(run, pages).attempt == 0,
    decreases pages.len(),
{
    let next = with_page(run, pages[0]);
    let tail = pages.drop_first();
    lemma_room_shrinks(run, pages);
    assert(after_pages(run, pages) == after_pages(next, tail));
    if tail.len() == 0 {
        assert(after_pages(next, tail) == next);
        assert(pages.flatten() =~= pages[0]) by {
            assert(tail.flatten() =~= Seq::<ItemView>::empty());
        }
    } else {
        lemma_after_pages(next, tail);
        assert(run.items + pages.flatten() =~= next.items + tail.flatten());
    }
}

/// A listing ends at the first page without items.
///
/// Where the pages `pages` hold items, the page after them holds none and the ceiling
/// allows one page more than `pages`, the listing asks for each of these pages in
/// turn, pauses a second after each of `pages`, and returns their items in order.
/// Nothing is asked for after the empty page, whatever answers `later` would bring.
pub proof fn listing_ends_at_empty_page(
    cookie: Seq<char>,
    token: Seq<char>,
    user_id: Seq<char>,
    max_pages: Option<u32>,
    pages: Seq<Seq<ItemView>>,
    later: Seq<PageSignal>,
)
    requires
        all_hold_items(pages),
        pages.len() < ceiling_of(max_pages),
    ensures
        ({
            let start = first_run(cookie, token, user_id, max_pages);
            let signals = page_signals(pages) + (seq![page_signal(Seq::empty())] + later);
            let trace = list_trace(after_wake(start), signals);
            let count = pages.len() as int;
            &&& trace.len() == 2 * count + 2
            &&& forall|i: int|
                0 <= i < count ==> {
                    &&& #[trigger] trace[2 * i] == ListEvent::Sent(
                        list_request_view(cookie, token, user_id, (i + 1) as nat),
                    )
                    &&& trace[2 * i + 1] == ListEvent::Slept(1)
                }
            &&& trace[2 * count] == ListEvent::Sent(
                list_request_view(cookie, token, user_id, (count + 1) as nat),
            )
            &&& trace[2 * count + 1] == ListEvent::Ended(Ok(pages.flatten()))
        }),
{
    let start = first_run(cookie, token, user_id, max_pages);
    let rest = seq![page_signal(Seq::empty())] + later;
    let trace = list_trace(after_wake(start), page_signals(pages) + rest);
    let count = pages.len() as int;
    lemma_reading(start, pages, rest);
    lemma_reading_shape(start, pages);
    let run = after_pages(start, pages);
    if count > 0 {
        lemma_after_pages(start, pages);
        assert(run.items =~= pages.flatten());
    } else {
        assert(pages.flatten() =~= Seq::<ItemView>::empty());
    }
    assert(!run.at_ceiling);
    assert(run.page == count + 1);
    assert(rest[0] == page_signal(Seq::empty()));
    let ended = after_signal(run, rest[0]);
    assert(ended == ListStepView::Done { result: Ok(run.items) });
    assert(list_trace(ended, rest.drop_first()) == seq![ListEvent::Ended(Ok(run.items))]);
    assert(list_trace(after_wake(run), rest) =~= seq![
        ListEvent::Sent(page_request(run, run.page)),
        ListEvent::Ended(Ok(run.items)),
    ]);
    assert forall|i: int| 0 <= i < count implies {
        &&& #[trigger] trace[2 * i] == ListEvent::Sent(
            list_request_view(cookie, token, user_id, (i + 1) as nat),
        )
        &&& trace[2 * i + 1] == ListEvent::Slept(1)
    } by {
        assert(trace[2 * i] == reading(start, pages)[2 * i]);
        assert(trace[2 * i + 1] == reading(start, pages)[2 * i + 1]);
    }
}

/// A listing honours its page ceiling.
///
/// Where the ceiling is `pages.len()` and each of these pages holds items, the
/// listing asks for each of them once, pauses a second after each, and returns their
/// items in order. Nothing more is asked for, whatever answers `later` would bring.
pub proof fn listing_stops_at_ceiling(
    cookie: Seq<char>,
    token: Seq<char>,
    user_id: Seq<char>,
    max_pages: Option<u32>,
    pages: Seq<Seq<ItemView>>,
    later: Seq<PageSignal>,
)
    requires
        all_hold_items(pages),
        pages.len() == ceiling_of(max_pages),
    ensures
        ({
            let start = first_run(cookie, token, user_id, max_pages);
            let trace = list_trace(after_wake(start), page_signals(pages) + later);
            let count = pages.len() as int;
            &&& trace.len() == 2 * count + 1
            &&& forall|i: int|
                0 <= i < count ==> {
                    &&& #[trigger] trace[2 * i] == ListEvent::Sent(
                        list_request_view(cookie, token, user_id, (i + 1) as nat),
                    )
                    &&& trace[2 * i + 1] == ListEvent::Slept(1)
                }
            &&& trace[2 * count] == ListEvent::Ended(Ok(pages.flatten()))
        }),
{
    let start = first_run(cookie, token, user_id, max_pages);
    let trace = list_trace(after_wake(start), page_signals(pages) + later);
    let count = pages.len() as int;
    let run = after_pages(start, pages);
    if count > 0 {
        lemma_reading(start, pages, later);
        lemma_reading_shape(start, pages);
        lemma_after_pages(start, pages);
        assert(run.items =~= pages.flatten());
        assert(run.at_ceiling);
        assert forall|i: int| 0 <= i < count implies {
            &&& #[trigger] trace[2 * i] == ListEvent::Sent(
                list_request_view(cookie, token, user_id, (i + 1) as nat),
            )
            &&& trace[2 * i + 1] == ListEvent::Slept(1)
        } by {
            assert(trace[2 * i] == reading(start, pages)[2 * i]);
            assert(trace[2 * i + 1] == reading(start, pages)[2 * i + 1]);
        }
    } else {
        assert(pages.flatten() =~= Seq::<ItemView>::empty());
        assert(start.at_ceiling);
    }
}

/// A page is attempted three times at most, with waits of one second and then two.
///
/// Where the first two attempts at a page fail, the same request is sent three times,
/// and the third attempt decides: the listing goes on as that attempt says.
pub proof fn page_is_retried_twice(
    run: ListView,
    first: ErrorView,
    second: ErrorView,
    third: PageSignal,
    later: Seq<PageSignal>,
)
    requires
        !run.at_ceiling,
        run.attempt == 0,
    ensures
        ({
            let signals = seq![Err(first), Err(second), third] + later;
            let request = page_request(run, run.page);
            let last = ListView { attempt: 2, ..run };
            list_trace(after_wake(run), signals) == seq![
                ListEvent::Sent(request),
                ListEvent::Slept(1),
                ListEvent::Sent(request),
                ListEvent::Slept(2),
                ListEvent::Sent(request),
            ] + list_trace(after_signal(last, third), later)
        }),
{
    lemma2_to64();
    let signals = seq![Err(first), Err(second), third] + later;
    let request = page_request(run, run.page);
    let again = ListView { attempt: 1, ..run };
    let last = ListView { attempt: 2, ..run };
    let s1 = signals.drop_first();
    let s2 = s1.drop_first();
    assert(s2.drop_first() =~= later);
    assert(after_signal(run, signals[0]) == ListStepView::Sleep { seconds: 1, run: again });
    assert(after_signal(again, s1[0]) == ListStepView::Sleep { seconds: 2, run: last });
    let t3 = list_trace(after_signal(last, third), later);
    let t2 = list_trace(after_wake(last), s2);
    assert(t2 == seq![ListEvent::Sent(request)] + t3);
    let t1 = list_trace(after_wake(again), s1);
    assert(list_trace(after_signal(again, s1[0]), s2) == seq![ListEvent::Slept(2)] + t2);
    assert(t1 == seq![ListEvent::Sent(request)] + (seq![ListEvent::Slept(2)] + t2));
    let t0 = list_trace(after_wake(run), signals);
    assert(list_trace(after_signal(run, signals[0]), s1) == seq![ListEvent::Slept(1)] + t1);
    assert(t0 == seq![ListEvent::Sent(request)] + (seq![ListEvent::Slept(1)] + t1));
    assert(t0 =~= seq![
        ListEvent::Sent(request),
        ListEvent::Slept(1),
        ListEvent::Sent(request),
        ListEvent::Slept(2),
        ListEvent::Sent(request),
    ] + t3);
}

/// The failure of the third attempt at a page ends the listing with that attempt's
/// error, whatever was collected before.
pub proof fn third_failure_ends_listing(run: ListView, error: ErrorView)
    requires
        run.attempt == 2,
    ensures
        after_signal(run, Err(error)) == (ListStepView::Done { result: Err(error) }),
{
}

/// Whether a run is one that a listing can be in: its attempt is one of the three, its
/// page lies between the first and the ceiling, and it is at the ceiling only where
/// nothing is left to ask for.
pub open spec fn in_bounds(run: ListView) -> bool {
    &&& run.attempt < MAX_RETRIES
    &&& run.page >= 1
    &&& !run.at_ceiling ==> run.page <= run.ceiling
    &&& run.ceiling == 0 ==> run.at_ceiling
}

/// The run of a step, where it has one.
pub open spec fn run_of(step: ListStepView) -> Option<ListView> {
    match step {
        ListStepView::Send { run, .. } => Some(run),
        ListStepView::Sleep { run, .. } => Some(run),
        ListStepView::Done { .. } => None,
    }
}

/// A listing never leaves its bounds: it starts within them, and every step keeps the
/// run within them. In particular no page is attempted more than three times and no
/// page beyond the ceiling is asked for.
pub proof fn listing_stays_in_bounds(
    cookie: Seq<char>,
    token: Seq<char>,
    user_id: Seq<char>,
    max_pages: Option<u32>,
    run: ListView,
    signal: PageSignal,
)
    requires
        in_bounds(run),
    ensures
        in_bounds(first_run(cookie, token, user_id, max_pages)),
        run_of(after_wake(run)) is Some ==> in_bounds(run_of(after_wake(run)).unwrap()),
        after_wake(run) is Send ==> run.page <= run.ceiling,
        !run.at_ceiling && run_of(after_signal(run, signal)) is Some ==> in_bounds(
            run_of(after_signal(run, signal)).unwrap(),
        ),
{
}

} // verus!
