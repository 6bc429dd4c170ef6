//! Background tasks: asking for their state until they are done.

pub mod output;

use crate::body::unreadable;
use crate::error::{ApiError, ApiErrorView, DashScopeError, DashScopeErrorView};
use crate::json::{parsed, str_eq};
use crate::operation::common::TaskStatus;
use crate::operation::task::output::{TaskResult, TaskResultView};
use vstd::prelude::*;
use vstd::string::*;

verus! {

/// The path under which the task `task_id` is asked for.
pub fn task_path(task_id: &str) -> (r: String)
    ensures
        r@ == "/tasks/"@ + task_id@,
{
    let mut path = String::new();
    path.append("/tasks/");
    path.append(task_id);
    proof {
        assert(path@ =~= "/tasks/"@ + task_id@);
    }
    path
}

/// The error object that stands for an answer without a body.
pub open spec fn empty_response() -> ApiErrorView {
    ApiErrorView {
        message: "API returned empty response"@,
        request_id: None,
        code: Some("EmptyResponse"@),
    }
}

/// What the body of an answer to a query says: the state of the task, an
/// error in place of an empty body, or a deserialization error for a body
/// that cannot be read.
pub fn query_outcome(body: &str) -> (r: Result<TaskResult, DashScopeError>)
    ensures
        match r {
            Ok(t) => body@.len() > 0 && parsed(body@) is Ok && TaskResultView::from_json(
                parsed(body@)->Ok_0,
            ) == Some(t@),
            Err(e) => if body@.len() == 0 {
                e@ == DashScopeErrorView::ApiError(empty_response())
            } else {
                (parsed(body@) is Err || TaskResultView::from_json(parsed(body@)->Ok_0) is None)
                    && e@ == unreadable(body@)
            },
        },
{
    if body.unicode_len() == 0 {
        return Err(
            DashScopeError::ApiError(
                ApiError {
                    message: "API returned empty response".to_owned(),
                    request_id: None,
                    code: Some("EmptyResponse".to_owned()),
                },
            ),
        );
    }
    TaskResult::decode(body)
}

/// What to do after a query.
#[derive(Debug, PartialEq, Eq)]
pub enum Verdict {
    /// The polling is over; this is its result.
    Done(Result<TaskResult, DashScopeError>),
    /// Wait for the interval, then ask again.
    Wait,
}

/// Whether a status is final: the task will not change any more.
pub open spec fn is_final(status: TaskStatus) -> bool {
    status != TaskStatus::Pending && status != TaskStatus::Running
}

/// Whether an error of a query may go away by itself: the body could not be
/// read, the exchange failed, or the answer had no body.
pub open spec fn is_passing(e: DashScopeErrorView) -> bool {
    match e {
        DashScopeErrorView::JSONDeserialize { .. } => true,
        DashScopeErrorView::Reqwest(_) => true,
        DashScopeErrorView::ApiError(api) => api.code == Some("EmptyResponse"@),
        _ => false,
    }
}

/// Whether the outcome of a query ends the polling: a task in a final
/// state, or an error that will not go away.
pub open spec fn ends_polling(outcome: Result<TaskResultView, DashScopeErrorView>) -> bool {
    match outcome {
        Ok(t) => is_final(t.output.task_status),
        Err(e) => !is_passing(e),
    }
}

/// The content of the outcome of a query.
pub open spec fn outcome_view(outcome: Result<TaskResult, DashScopeError>) -> Result<
    TaskResultView,
    DashScopeErrorView,
> {
    match outcome {
        Ok(t) => Ok(t@),
        Err(e) => Err(e@),
    }
}

/// Judges the outcome of one query. The polling is over, with that very
/// outcome, when the task is in a final state or the error will not go
/// away; otherwise the caller waits and asks again.
pub fn judge(outcome: Result<TaskResult, DashScopeError>) -> (r: Verdict)
    ensures
        match r {
            Verdict::Done(result) => ends_polling(outcome_view(outcome)) && result == outcome,
            Verdict::Wait => !ends_polling(outcome_view(outcome)),
        },
{
    let over = match &outcome {
        Ok(t) => match t.output.task_status {
            TaskStatus::Pending => false,
            TaskStatus::Running => false,
            _ => true,
        },
        Err(e) => match e {
            DashScopeError::JSONDeserialize { .. } => false,
            DashScopeError::Reqwest(_) => false,
            DashScopeError::ApiError(api) => match &api.code {
                Some(code) => !str_eq(code.as_str(), "EmptyResponse"),
                None => true,
            },
            _ => true,
        },
    };
    if over {
        Verdict::Done(outcome)
    } else {
        Verdict::Wait
    }
}

/// What the error of a polling that has run out of attempts says.
pub open spec fn timeout_text() -> Seq<char> {
    "轮询超时，任务未在预期时间内完成"@
}

/// Counts the attempts of a polling.
#[derive(Debug, Clone, Copy, PartialEq, Eq, Structural)]
pub struct Poller {
    /// How many queries may still be made.
    pub remaining: u32,
}

impl Poller {
    /// A polling of at most `max_attempts` queries.
    pub fn new(max_attempts: u32) -> (r: Poller)
        ensures
            r.remaining == max_attempts,
    {
        Poller { remaining: max_attempts }
    }

    /// Asks for leave to query once more: `Ok` while attempts are left, of
    /// which one is then used up; else the timeout error.
    pub fn attempt(&mut self) -> (r: Result<(), DashScopeError>)
        ensures
            match r {
                Ok(_) => old(self).remaining > 0 && final(self).remaining == old(self).remaining
                    - 1,
                Err(e) => old(self).remaining == 0 && final(self).remaining == 0 && e@
                    == DashScopeErrorView::TimeoutError(timeout_text()),
            },
    {
        if self.remaining == 0 {
            Err(
                DashScopeError::TimeoutError("轮询超时，任务未在预期时间内完成".to_owned()),
            )
        } else {
            self.remaining = self.remaining - 1;
            Ok(())
        }
    }
}

} // verus!
