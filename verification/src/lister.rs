//! Listing the posts of a user, page by page.
//!
//! The operation is a state machine. Each [`ListStep`] tells the caller what to do
//! next: send a request and hand back what came of it, sleep and report back, or stop
//! with the result. Pages are asked for in order, from the first. A page without
//! items ends the listing; so does the page ceiling, once that many pages were read.
use crate::envelope::{
    decode_page, items_view, page_of_text, page_view, ItemView, PageEnvelope, PageView, WeiboInfo,
};
use crate::error::{ClientError, ErrorView};
use crate::request::{list_request, list_request_view, HttpRequest, RequestView};
use crate::retry::{classified, classify, next_wait, wait_after, AttemptOutcome, OutcomeView};
use vstd::prelude::*;

verus! {

/// The pause, in seconds, after each page that held items.
pub const PAGE_DELAY_SECS: u64 = 1;

/// A listing under way.
#[derive(Debug)]
pub struct ListRun {
    pub cookie: String,
    pub token: String,
    pub user_id: String,
    /// How many pages may be read at most.
    pub ceiling: u32,
    /// The page that is awaited or comes next, counted from one.
    pub page: u32,
    /// The number of the attempt at that page, counted from zero.
    pub attempt: u32,
    /// The items of the pages read so far, in order.
    pub items: Vec<WeiboInfo>,
    /// Whether as many pages were read as the ceiling allows.
    pub at_ceiling: bool,
}

/// A [`ListRun`] as a mathematical value.
pub struct ListView {
    pub cookie: Seq<char>,
    pub token: Seq<char>,
    pub user_id: Seq<char>,
    pub ceiling: nat,
    pub page: nat,
    pub attempt: nat,
    pub items: Seq<ItemView>,
    pub at_ceiling: bool,
}

impl View for ListRun {
    type V = ListView;

    open spec fn view(&self) -> ListView {
        ListView {
            cookie: self.cookie@,
            token: self.token@,
            user_id: self.user_id@,
            ceiling: self.ceiling as nat,
            page: self.page as nat,
            attempt: self.attempt as nat,
            items: items_view(self.items@),
            at_ceiling: self.at_ceiling,
        }
    }
}

/// What the caller is to do next.
#[derive(Debug)]
pub enum ListStep {
    /// Send `request`, then call [`ListRun::receive`] with what came of it.
    Send { request: HttpRequest, run: ListRun },
    /// Sleep for `seconds`, then call [`ListRun::wake`].
    Sleep { seconds: u64, run: ListRun },
    /// The listing is over.
    Done { result: Result<Vec<WeiboInfo>, ClientError> },
}

/// A [`ListStep`] as a mathematical value.
pub enum ListStepView {
    Send { request: RequestView, run: ListView },
    Sleep { seconds: nat, run: ListView },
    Done { result: Result<Seq<ItemView>, ErrorView> },
}

/// The view of the result of a listing.
pub open spec fn listing_view(result: Result<Vec<WeiboInfo>, ClientError>) -> Result<
    Seq<ItemView>,
    ErrorView,
> {
    match result {
        Ok(items) => Ok(items_view(items@)),
        Err(error) => Err(error@),
    }
}

impl View for ListStep {
    type V = ListStepView;

    open spec fn view(&self) -> ListStepView {
        match self {
            ListStep::Send { request, run } => ListStepView::Send { request: request@, run: run@ },
            ListStep::Sleep { seconds, run } => ListStepView::Sleep {
                seconds: *seconds as nat,
                run: run@,
            },
            ListStep::Done { result } => ListStepView::Done { result: listing_view(*result) },
        }
    }
}

/// The view of an attempt once read: the page envelope that a successful answer
/// holds, if it holds one, or the error of a failed attempt.
pub open spec fn signal_view(signal: Result<Option<PageEnvelope>, ClientError>) -> Result<
    Option<PageView>,
    ErrorView,
> {
    match signal {
        Ok(page) => Ok(page_view(page)),
        Err(error) => Err(error@),
    }
}

/// An attempt as the machine reads it.
pub open spec fn signal_of(outcome: OutcomeView) -> Result<Option<PageView>, ErrorView> {
    match classified(outcome) {
        Ok(body) => Ok(page_of_text(body)),
        Err(error) => Err(error),
    }
}

/// The page ceiling: the given one, or else the largest there is.
pub open spec fn ceiling_of(max_pages: Option<u32>) -> nat {
    match max_pages {
        Some(n) => n as nat,
        None => u32::MAX as nat,
    }
}

/// The run at the start of a listing.
pub open spec fn first_run(
    cookie: Seq<char>,
    token: Seq<char>,
    user_id: Seq<char>,
    max_pages: Option<u32>,
) -> ListView {
    ListView {
        cookie,
        token,
        user_id,
        ceiling: ceiling_of(max_pages),
        page: 1,
        attempt: 0,
        items: Seq::empty(),
        at_ceiling: ceiling_of(max_pages) == 0,
    }
}

/// The step with which an attempt begins: at the ceiling the listing ends with what
/// was collected, otherwise the page is asked for.
pub open spec fn after_wake(run: ListView) -> ListStepView {
    if run.at_ceiling {
        ListStepView::Done { result: Ok(run.items) }
    } else {
        ListStepView::Send {
            request: list_request_view(run.cookie, run.token, run.user_id, run.page),
            run,
        }
    }
}

/// The run after a page with items was read.
pub open spec fn with_page(run: ListView, list: Seq<ItemView>) -> ListView {
    ListView {
        items: run.items + list,
        page: if run.page < run.ceiling {
            run.page + 1
        } else {
            run.page
        },
        attempt: 0,
        at_ceiling: run.page >= run.ceiling,
        ..run
    }
}

/// The step that follows an attempt.
///
/// A failure is followed by a wait and another attempt at the same page, unless it
/// was the last: then its error ends the listing. A body that is no page envelope,
/// and an envelope whose status flag is not the success value, end the listing with
/// an error, whatever was collected. A page without items ends it with what was
/// collected. A page with items is appended, and a pause follows.
pub open spec fn after_signal(
    run: ListView,
    signal: Result<Option<PageView>, ErrorView>,
) -> ListStepView {
    match signal {
        Err(error) => match wait_after(run.attempt) {
            Some(seconds) => ListStepView::Sleep {
                seconds,
                run: ListView { attempt: run.attempt + 1, ..run },
            },
            None => ListStepView::Done { result: Err(error) },
        },
        Ok(None) => ListStepView::Done { result: Err(ErrorView::Parse { page: run.page }) },
        Ok(Some(page)) => if page.ok != 1 {
            ListStepView::Done { result: Err(ErrorView::Api { ok: page.ok }) }
        } else if page.list.len() == 0 {
            ListStepView::Done { result: Ok(run.items) }
        } else {
            ListStepView::Sleep {
                seconds: PAGE_DELAY_SECS as nat,
                run: with_page(run, page.list),
            }
        },
    }
}

impl ListRun {
    /// Starts the listing of the posts of `user_id`, over at most `max_pages` pages.
    pub fn begin(cookie: &str, token: &str, user_id: &str, max_pages: Option<u32>) -> (r: ListStep)
        ensures
            r@ == after_wake(first_run(cookie@, token@, user_id@, max_pages)),
    {
        let ceiling = match max_pages {
            Some(n) => n,
            None => u32::MAX,
        };
        let run = ListRun {
            cookie: cookie.to_owned(),
            token: token.to_owned(),
            user_id: user_id.to_owned(),
            ceiling,
            page: 1,
            attempt: 0,
            items: Vec::new(),
            at_ceiling: ceiling == 0,
        };
        assert(run@.items =~= Seq::empty());
        run.wake()
    }

    /// Goes on after a sleep.
    pub fn wake(self) -> (r: ListStep)
        ensures
            r@ == after_wake(self@),
    {
        if self.at_ceiling {
            ListStep::Done { result: Ok(self.items) }
        } else {
            let request = list_request(
                self.cookie.as_str(),
                self.token.as_str(),
                self.user_id.as_str(),
                self.page,
            );
            ListStep::Send { request, run: self }
        }
    }

    /// Goes on after an attempt, given what the attempt brought.
    pub fn receive(self, outcome: AttemptOutcome) -> (r: ListStep)
        ensures
            r@ == after_signal(self@, signal_of(outcome@)),
    {
        let signal = match classify(outcome) {
            Ok(body) => Ok(decode_page(body.as_str())),
            Err(error) => Err(error),
        };
        self.advance(signal)
    }

    /// Goes on after an attempt, given the attempt as already read.
    pub fn advance(self, signal: Result<Option<PageEnvelope>, ClientError>) -> (r: ListStep)
        ensures
            r@ == after_signal(self@, signal_view(signal)),
    {
        match signal {
            Err(error) => match next_wait(self.attempt) {
                Some(seconds) => {
                    let run = ListRun {
                        cookie: self.cookie,
                        token: self.token,
                        user_id: self.user_id,
                        ceiling: self.ceiling,
                        page: self.page,
                        attempt: self.attempt + 1,
                        items: self.items,
                        at_ceiling: self.at_ceiling,
                    };
                    ListStep::Sleep { seconds, run }
                },
                None => ListStep::Done { result: Err(error) },
            },
            Ok(None) => ListStep::Done { result: Err(ClientError::Parse { page: self.page }) },
            Ok(Some(envelope)) => {
                if envelope.ok != 1 {
                    ListStep::Done { result: Err(ClientError::Api { ok: envelope.ok }) }
                } else if envelope.list.len() == 0 {
                    ListStep::Done { result: Ok(self.items) }
                } else {
                    let ghost before = self@;
                    let mut items = self.items;
                    let mut list = envelope.list;
                    items.append(&mut list);
                    let more = self.page < self.ceiling;
                    let run = ListRun {
                        cookie: self.cookie,
                        token: self.token,
                        user_id: self.user_id,
                        ceiling: self.ceiling,
                        page: if more {
                            self.page + 1
                        } else {
                            self.page
                        },
                        attempt: 0,
                        items,
                        at_ceiling: !more,
                    };
                    assert(run@.items =~= before.items + envelope@.list);
                    ListStep::Sleep { seconds: PAGE_DELAY_SECS, run }
                }
            },
        }
    }
}

} // verus!
