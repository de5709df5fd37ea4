//! The rules that decide when collected operations are handed to the handler.

use vstd::prelude::*;

use crate::clock::{duration_nanos, nanos_between, nanos_of, now};

verus! {

/// The state of a policy, as its contracts speak of it.
pub enum PolicyView {
    /// Operations are handed over only when the collection is torn down.
    DropOnly,
    /// Every `max`-th operation hands over the batch; `count` operations have
    /// been collected since the last hand-over.
    CountThreshold { max: nat, count: nat },
    /// The first operation that comes more than `duration` nanoseconds after
    /// `since` hands over the batch.
    Debounced { duration: nat, since: std::time::Instant },
}

impl PolicyView {
    pub open spec fn wf(self) -> bool {
        match self {
            PolicyView::CountThreshold { max, count } => 0 < max && count < max,
            _ => true,
        }
    }

    /// Nothing counted yet.
    pub open spec fn fresh(self) -> bool {
        match self {
            PolicyView::CountThreshold { max, count } => count == 0,
            _ => true,
        }
    }

    /// `post` is the state after one operation under `self`, and `flush` says
    /// whether that operation hands over the batch.
    pub open spec fn step(self, post: PolicyView, flush: bool) -> bool {
        match self {
            PolicyView::DropOnly => post == self && !flush,
            PolicyView::CountThreshold { max, count } => {
                &&& flush == (count + 1 == max)
                &&& post == PolicyView::CountThreshold {
                    max,
                    count: if flush { 0 } else { count + 1 },
                }
            },
            PolicyView::Debounced { duration, since } => {
                &&& post is Debounced
                &&& post->Debounced_duration == duration
                &&& !flush ==> post->Debounced_since == since
            },
        }
    }

    /// As `step`, for an operation seen at `at`, `elapsed` nanoseconds after the
    /// instant that a debounced policy measures from.
    pub open spec fn step_at(self, post: PolicyView, flush: bool, at: std::time::Instant, elapsed: nat) -> bool {
        match self {
            PolicyView::Debounced { duration, since } => {
                &&& flush == (elapsed > duration)
                &&& post == PolicyView::Debounced {
                    duration,
                    since: if flush { at } else { since },
                }
            },
            _ => self.step(post, flush),
        }
    }

    /// `copy` is a fresh policy with the parameters of `self`: counters start
    /// again from zero and timers from the moment of the copy.
    pub open spec fn fresh_copy(self, copy: PolicyView) -> bool {
        match self {
            PolicyView::DropOnly => copy == self,
            PolicyView::CountThreshold { max, count } => copy == PolicyView::CountThreshold { max, count: 0 },
            PolicyView::Debounced { duration, since } => {
                &&& copy is Debounced
                &&& copy->Debounced_duration == duration
            },
        }
    }
}

/// Why a policy could not be built.
#[derive(Debug, PartialEq, Eq, Structural)]
pub enum PolicyError {
    /// A count threshold of zero operations.
    ZeroThreshold,
}

pub(crate) enum PolicyInner {
    // Operations will be handled only at teardown (`finish` or a consuming method).
    OnDropOnly,
    // Operations will be handled each N method call.
    OnCountOperations { max_operations: usize, current_operations: usize },
    // Operations will be handled at the first method call that happens more than
    // `duration` nanoseconds after the last handling.
    LessOften { duration: u128, last_collect: std::time::Instant },
}

/// Describes rules when collected operations will be handled.
pub struct Policy {
    pub(crate) inner: PolicyInner,
}

impl View for Policy {
    type V = PolicyView;

    closed spec fn view(&self) -> PolicyView {
        match self.inner {
            PolicyInner::OnDropOnly => PolicyView::DropOnly,
            PolicyInner::OnCountOperations { max_operations, current_operations } => PolicyView::CountThreshold {
                max: max_operations as nat,
                count: current_operations as nat,
            },
            PolicyInner::LessOften { duration, last_collect } => PolicyView::Debounced {
                duration: duration as nat,
                since: last_collect,
            },
        }
    }
}

impl Clone for Policy {
    /// A copy with the same parameters, whose counter or timer starts afresh.
    fn clone(&self) -> (r: Self)
        ensures
            self@.fresh_copy(r@),
    {
        match &self.inner {
            PolicyInner::OnDropOnly => Policy { inner: PolicyInner::OnDropOnly },
            PolicyInner::OnCountOperations { max_operations, .. } => Policy {
                inner: PolicyInner::OnCountOperations { max_operations: *max_operations, current_operations: 0 },
            },
            PolicyInner::LessOften { duration, .. } => Policy {
                inner: PolicyInner::LessOften { duration: *duration, last_collect: now() },
            },
        }
    }
}

impl Policy {
    /// Operations will be handled only at teardown (`finish` or a consuming method).
    pub fn on_drop_only() -> (r: Self)
        ensures
            r@ == PolicyView::DropOnly,
    {
        Policy { inner: PolicyInner::OnDropOnly }
    }

    /// Operations will be handled each `max_operations`-th method call; zero is
    /// refused.
    pub fn on_count_operations(max_operations: usize) -> (r: Result<Self, PolicyError>)
        ensures
            max_operations == 0 <==> (r is Err),
            r matches Err(e) ==> (e == PolicyError::ZeroThreshold),
            r matches Ok(p) ==> (p@ == (PolicyView::CountThreshold { max: max_operations as nat, count: 0 })),
    {
        if max_operations == 0 {
            Err(PolicyError::ZeroThreshold)
        } else {
            Ok(Policy { inner: PolicyInner::OnCountOperations { max_operations, current_operations: 0 } })
        }
    }

    /// Operations will be handled at the first method call that happens more
    /// than `duration` after the last handling; the first period starts now.
    pub fn less_often(duration: std::time::Duration) -> (r: Self)
        ensures
            (r@ is Debounced),
            r@->Debounced_duration == nanos_of(duration),
    {
        Policy { inner: PolicyInner::LessOften { duration: duration_nanos(&duration), last_collect: now() } }
    }

    /// Takes note of one operation seen at `at`, `elapsed` nanoseconds after
    /// the instant that a debounced policy measures from, and says whether the
    /// collected operations are to be handled now.
    pub fn after_operation_at(&mut self, at: std::time::Instant, elapsed: u128) -> (flush: bool)
        ensures
            old(self)@.wf() ==> final(self)@.wf(),
            old(self)@.wf() ==> old(self)@.step_at(final(self)@, flush, at, elapsed as nat),
    {
        match &mut self.inner {
            PolicyInner::OnDropOnly => false,
            PolicyInner::OnCountOperations { max_operations, current_operations } => {
                if *current_operations >= *max_operations || *max_operations - 1 == *current_operations {
                    *current_operations = 0;
                    true
                } else {
                    *current_operations = *current_operations + 1;
                    false
                }
            },
            PolicyInner::LessOften { duration, last_collect } => {
                if elapsed > *duration {
                    *last_collect = at;
                    true
                } else {
                    false
                }
            },
        }
    }

    /// Takes note of one operation seen now and says whether the collected
    /// operations are to be handled now.
    pub fn after_operation(&mut self) -> (flush: bool)
        ensures
            old(self)@.wf() ==> final(self)@.wf(),
            old(self)@.wf() ==> old(self)@.step(final(self)@, flush),
    {
        let at = now();
        let elapsed: u128 = match &self.inner {
            PolicyInner::LessOften { last_collect, .. } => nanos_between(last_collect, &at),
            _ => 0,
        };
        self.after_operation_at(at, elapsed)
    }
}

} // verus!
