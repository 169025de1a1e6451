//! Driving a plan against the cluster: the caller performs each action the
//! run hands out and reports its outcome; the first failure ends the run.
//! Actions already applied stay applied: nothing is rolled back.
use vstd::prelude::*;
use crate::plan::{Action, ActionView, plan_view};

verus! {

/// A failed call against the cluster API.
#[derive(Clone, Copy, Debug, PartialEq, Eq, Structural)]
pub enum ClusterError {
    /// The request could not be built.
    Request,
    /// The API answered with this error status (a conflict, a missing object, ...).
    Api(u16),
    /// The API could not be reached or its answer could not be read.
    Transport,
}

pub struct Reconciliation {
    plan: Vec<Action>,
    applied: usize,
    failure: Option<ClusterError>,
}

impl Reconciliation {
    pub closed spec fn actions(&self) -> Seq<ActionView> {
        plan_view(self.plan@)
    }

    /// Number of actions that succeeded, all of them before any failure.
    pub closed spec fn applied(&self) -> nat {
        self.applied as nat
    }

    pub closed spec fn failure(&self) -> Option<ClusterError> {
        self.failure
    }

    pub closed spec fn wf(&self) -> bool {
        self.applied <= self.plan@.len()
    }

    pub open spec fn finished(&self) -> bool {
        self.failure() is Some || self.applied() == self.actions().len()
    }

    pub fn new(plan: Vec<Action>) -> (r: Self)
        ensures
            r.wf(),
            r.actions() == plan_view(plan@),
            r.applied() == 0,
            r.failure() is None,
    {
        Reconciliation { plan, applied: 0, failure: None }
    }

    /// The action to perform next; `None` once the run is finished.
    pub fn next_action(&self) -> (r: Option<&Action>)
        requires
            self.wf(),
        ensures
            r is Some <==> !self.finished(),
            r matches Some(a) ==> a@ == self.actions()[self.applied() as int],
    {
        assert(self.actions().len() == self.plan@.len());
        if self.failure.is_some() || self.applied == self.plan.len() {
            None
        } else {
            Some(&self.plan[self.applied])
        }
    }

    /// Records the outcome of the action last handed out.
    pub fn record(&mut self, outcome: Result<(), ClusterError>)
        requires
            old(self).wf(),
            !old(self).finished(),
        ensures
            final(self).wf(),
            final(self).actions() == old(self).actions(),
            outcome is Ok ==> final(self).applied() == old(self).applied() + 1
                && final(self).failure() is None,
            outcome matches Err(e) ==> final(self).applied() == old(self).applied()
                && final(self).failure() == Some(e),
    {
        let n = self.plan.len();
        assert(self.actions().len() == n);
        match outcome {
            Ok(()) => {
                self.applied = self.applied + 1;
            },
            Err(e) => {
                self.failure = Some(e);
            },
        }
    }

    pub fn is_finished(&self) -> (r: bool)
        requires
            self.wf(),
        ensures
            r == self.finished(),
    {
        assert(self.actions().len() == self.plan@.len());
        self.failure.is_some() || self.applied == self.plan.len()
    }

    /// Outcome of a finished run: the first failure, if any.
    pub fn outcome(&self) -> (r: Result<(), ClusterError>)
        requires
            self.wf(),
            self.finished(),
        ensures
            r == match self.failure() {
                Some(e) => Err(e),
                None => Ok::<(), ClusterError>(()),
            },
    {
        match self.failure {
            Some(e) => Err(e),
            None => Ok(()),
        }
    }
}

} // verus!
