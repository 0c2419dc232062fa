//! One in-flight asynchronous operation.

use crate::error::AppError;
use vstd::prelude::*;

verus! {

/// The four mutually exclusive states of an asynchronous operation.
pub enum TaskState<T> {
    Idle,
    Loading,
    Success(T),
    Error(AppError),
}

/// A wrapper around one in-flight network operation: exactly one of
/// idle / loading / success / error holds at a time.  Transitions run
/// `Idle`/`Success`/`Error` → `Loading` on a trigger and `Loading` →
/// `Success` | `Error` on completion.  A trigger while `Loading` is ignored,
/// so double submissions never launch overlapping requests; no retry policy
/// is built in — a retry is the caller re-triggering.
pub struct AsyncTask<T> {
    state: TaskState<T>,
}

impl<T> View for AsyncTask<T> {
    type V = TaskState<T>;

    closed spec fn view(&self) -> TaskState<T> {
        self.state
    }
}

impl<T> AsyncTask<T> {
    /// One trigger step: ignored while a call is in flight, otherwise the
    /// task moves to `Loading` and exactly one underlying call is launched.
    pub open spec fn spec_trigger(s: TaskState<T>) -> (TaskState<T>, bool) {
        if s is Loading {
            (s, false)
        } else {
            (TaskState::Loading, true)
        }
    }

    /// A task that has not run yet.
    pub fn new() -> (t: Self)
        ensures
            t@ is Idle,
    {
        AsyncTask { state: TaskState::Idle }
    }

    /// (Re)start the operation.  Returns whether the underlying call must now
    /// be launched; while the task is already `Loading` nothing is launched
    /// and the state is left alone.
    pub fn trigger(&mut self) -> (launched: bool)
        ensures
            (final(self)@, launched) == Self::spec_trigger(old(self)@),
            launched == !(old(self)@ is Loading),
    {
        match &self.state {
            TaskState::Loading => false,
            _ => {
                self.state = TaskState::Loading;
                true
            },
        }
    }

    /// Record the outcome of the launched call.
    pub fn complete(&mut self, outcome: Result<T, AppError>)
        requires
            old(self)@ is Loading,
        ensures
            final(self)@ == match outcome {
                Ok(v) => TaskState::Success(v),
                Err(e) => TaskState::Error(e),
            },
    {
        self.state = match outcome {
            Ok(v) => TaskState::Success(v),
            Err(e) => TaskState::Error(e),
        };
    }

    /// Whether a call is in flight.
    pub fn loading(&self) -> (b: bool)
        ensures
            b == (self@ is Loading),
    {
        match &self.state {
            TaskState::Loading => true,
            _ => false,
        }
    }

    /// The data of a completed call, if it succeeded.
    pub fn data(&self) -> (d: Option<&T>)
        ensures
            match self@ {
                TaskState::Success(v) => d matches Some(p) && *p == v,
                _ => d is None,
            },
    {
        match &self.state {
            TaskState::Success(v) => Some(v),
            _ => None,
        }
    }

    /// The error of a completed call, if it failed.
    pub fn error(&self) -> (e: Option<&AppError>)
        ensures
            match self@ {
                TaskState::Error(err) => e matches Some(p) && *p == err,
                _ => e is None,
            },
    {
        match &self.state {
            TaskState::Error(err) => Some(err),
            _ => None,
        }
    }

    /// Law: a trigger while `Loading` changes nothing and launches nothing,
    /// and once a trigger has launched a call, re-triggering before completion
    /// launches no second one — exactly one call per logical submission.
    pub proof fn lemma_retrigger_ignored(s: TaskState<T>)
        ensures
            s is Loading ==> Self::spec_trigger(s) == (s, false),
            Self::spec_trigger(s).1 ==> !(Self::spec_trigger(Self::spec_trigger(s).0).1),
    {
    }
}

} // verus!
