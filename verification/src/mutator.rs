//! Setting the visibility of one post.
//!
//! The operation is a state machine. Each [`MutationStep`] tells the caller what to
//! do next: send a request and hand back what came of it, sleep and report back, or
//! stop with the result. The machine decides; it never touches the network or a
//! clock.
use crate::envelope::{decode_result, result_of_text, result_view, ResultEnvelope, ResultView};
use crate::error::{ClientError, ErrorView};
use crate::request::{visibility_request, visibility_request_view, HttpRequest, RequestView};
use crate::retry::{classified, classify, next_wait, wait_after, AttemptOutcome, OutcomeView};
use crate::visibility::Visibility;
use vstd::prelude::*;

verus! {

/// A mutation under way: what is being set, and how many attempts have failed.
#[derive(Debug)]
pub struct MutationRun {
    pub cookie: String,
    pub token: String,
    pub weibo_id: String,
    pub level: Visibility,
    /// The number of the attempt that is awaited or comes next, counted from zero.
    pub attempt: u32,
}

/// A [`MutationRun`] as a mathematical value.
pub struct MutationView {
    pub cookie: Seq<char>,
    pub token: Seq<char>,
    pub weibo_id: Seq<char>,
    pub level: Visibility,
    pub attempt: nat,
}

impl View for MutationRun {
    type V = MutationView;

    open spec fn view(&self) -> MutationView {
        MutationView {
            cookie: self.cookie@,
            token: self.token@,
            weibo_id: self.weibo_id@,
            level: self.level,
            attempt: self.attempt as nat,
        }
    }
}

/// What the caller is to do next.
#[derive(Debug)]
pub enum MutationStep {
    /// Send `request`, then call [`MutationRun::receive`] with what came of it.
    Send { request: HttpRequest, run: MutationRun },
    /// Sleep for `seconds`, then call [`MutationRun::wake`].
    Sleep { seconds: u64, run: MutationRun },
    /// The operation is over.
    Done { result: Result<(), ClientError> },
}

/// A [`MutationStep`] as a mathematical value.
pub enum MutationStepView {
    Send { request: RequestView, run: MutationView },
    Sleep { seconds: nat, run: MutationView },
    Done { result: Result<(), ErrorView> },
}

/// The view of the result of a mutation.
pub open spec fn outcome_view(result: Result<(), ClientError>) -> Result<(), ErrorView> {
    match result {
        Ok(_) => Ok(()),
        Err(error) => Err(error@),
    }
}

impl View for MutationStep {
    type V = MutationStepView;

    open spec fn view(&self) -> MutationStepView {
        match self {
            MutationStep::Send { request, run } => MutationStepView::Send {
                request: request@,
                run: run@,
            },
            MutationStep::Sleep { seconds, run } => MutationStepView::Sleep {
                seconds: *seconds as nat,
                run: run@,
            },
            MutationStep::Done { result } => MutationStepView::Done {
                result: outcome_view(*result),
            },
        }
    }
}

/// The view of an attempt once read: the envelope that a successful answer holds, if
/// it holds one, or the error of a failed attempt.
pub open spec fn signal_view(signal: Result<Option<ResultEnvelope>, ClientError>) -> Result<
    Option<ResultView>,
    ErrorView,
> {
    match signal {
        Ok(envelope) => Ok(result_view(envelope)),
        Err(error) => Err(error@),
    }
}

/// The message of a failure that brought none.
pub open spec fn unknown_error() -> Seq<char> {
    "未知错误"@
}

/// What a successful answer means. A status flag that is present decides: the success
/// value is success, any other a failure with the envelope's message. Without a
/// status flag, or without an envelope at all, the mutation is taken to have
/// succeeded.
pub open spec fn conclusion(envelope: Option<ResultView>) -> Result<(), ErrorView> {
    match envelope {
        Some(ResultView { ok: Some(flag), msg }) => if flag == 1 {
            Ok(())
        } else {
            Err(
                ErrorView::Mutation {
                    message: match msg {
                        Some(text) => text,
                        None => unknown_error(),
                    },
                },
            )
        },
        _ => Ok(()),
    }
}

/// An attempt as the machine reads it.
pub open spec fn signal_of(outcome: OutcomeView) -> Result<Option<ResultView>, ErrorView> {
    match classified(outcome) {
        Ok(body) => Ok(result_of_text(body)),
        Err(error) => Err(error),
    }
}

/// The run at the start of the mutation of `weibo_id`.
pub open spec fn first_run(
    cookie: Seq<char>,
    token: Seq<char>,
    weibo_id: Seq<char>,
    level: Visibility,
) -> MutationView {
    MutationView { cookie, token, weibo_id, level, attempt: 0 }
}

/// The step with which an attempt begins: the request is sent.
pub open spec fn after_wake(run: MutationView) -> MutationStepView {
    MutationStepView::Send {
        request: visibility_request_view(run.cookie, run.token, run.weibo_id, run.level),
        run,
    }
}

/// The step that follows an attempt. A successful answer ends the operation with its
/// conclusion. A failure is followed by a wait and another attempt, unless it was the
/// last: then its error ends the operation.
pub open spec fn after_signal(
    run: MutationView,
    signal: Result<Option<ResultView>, ErrorView>,
) -> MutationStepView {
    match signal {
        Ok(envelope) => MutationStepView::Done { result: conclusion(envelope) },
        Err(error) => match wait_after(run.attempt) {
            Some(seconds) => MutationStepView::Sleep {
                seconds,
                run: MutationView { attempt: run.attempt + 1, ..run },
            },
            None => MutationStepView::Done { result: Err(error) },
        },
    }
}

/// Says what a successful answer means.
pub fn conclude(envelope: Option<ResultEnvelope>) -> (r: Result<(), ClientError>)
    ensures
        outcome_view(r) == conclusion(result_view(envelope)),
        envelope is None ==> r is Ok,
{
    match envelope {
        Some(ResultEnvelope { ok: Some(flag), msg }) => {
            if flag == 1 {
                Ok(())
            } else {
                let message = match msg {
                    Some(text) => text,
                    None => "未知错误".to_owned(),
                };
                Err(ClientError::Mutation { message })
            }
        },
        _ => Ok(()),
    }
}

impl MutationRun {
    /// Starts the mutation: the first step sends the request.
    pub fn begin(cookie: &str, token: &str, weibo_id: &str, level: Visibility) -> (r: MutationStep)
        ensures
            r@ == after_wake(first_run(cookie@, token@, weibo_id@, level)),
    {
        let run = MutationRun {
            cookie: cookie.to_owned(),
            token: token.to_owned(),
            weibo_id: weibo_id.to_owned(),
            level,
            attempt: 0,
        };
        run.wake()
    }

    /// Goes on after a sleep: the request is sent again.
    pub fn wake(self) -> (r: MutationStep)
        ensures
            r@ == after_wake(self@),
    {
        let request = visibility_request(
            self.cookie.as_str(),
            self.token.as_str(),
            self.weibo_id.as_str(),
            self.level,
        );
        MutationStep::Send { request, run: self }
    }

    /// Goes on after an attempt, given what the attempt brought.
    pub fn receive(self, outcome: AttemptOutcome) -> (r: MutationStep)
        ensures
            r@ == after_signal(self@, signal_of(outcome@)),
    {
        let signal = match classify(outcome) {
            Ok(body) => Ok(decode_result(body.as_str())),
            Err(error) => Err(error),
        };
        self.advance(signal)
    }

    /// Goes on after an attempt, given the attempt as already read.
    pub fn advance(self, signal: Result<Option<ResultEnvelope>, ClientError>) -> (r: MutationStep)
        ensures
            r@ == after_signal(self@, signal_view(signal)),
    {
        match signal {
            Ok(envelope) => MutationStep::Done { result: conclude(envelope) },
            Err(error) => match next_wait(self.attempt) {
                Some(seconds) => {
                    let run = MutationRun {
                        cookie: self.cookie,
                        token: self.token,
                        weibo_id: self.weibo_id,
                        level: self.level,
                        attempt: self.attempt + 1,
                    };
                    MutationStep::Sleep { seconds, run }
                },
                None => MutationStep::Done { result: Err(error) },
            },
        }
    }
}

} // verus!
