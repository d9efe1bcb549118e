//! Collecting one outcome per selected backend and aggregating them.
//!
//! Backends run independently: a failure in one never prevents attempting
//! the others (the fail-fast policy of the command sequence runner applies
//! only within a single backend's own sequence).  The aggregate is a
//! success exactly when every selected backend succeeded; backends that
//! were never selected stay `Skipped` and never affect the aggregate.  No
//! rollback exists: a backend that succeeded before another failed is
//! reported as succeeded, so the operator sees the partial application.

use vstd::prelude::*;

use crate::selection::BackendSet;

verus! {

/// Result of one backend's part in one invocation.
#[derive(Debug, Clone)]
pub enum Outcome {
    Success,
    /// The backend was not selected for this invocation.
    Skipped,
    /// The backend was attempted and failed, with the reason to report.
    Failed(String),
}

impl Outcome {
    pub fn is_success(&self) -> (r: bool)
        ensures
            r == (self is Success),
    {
        match self {
            Outcome::Success => true,
            _ => false,
        }
    }

    pub fn is_skipped(&self) -> (r: bool)
        ensures
            r == (self is Skipped),
    {
        match self {
            Outcome::Skipped => true,
            _ => false,
        }
    }

    pub fn is_failed(&self) -> (r: bool)
        ensures
            r == (self is Failed),
    {
        match self {
            Outcome::Failed(_) => true,
            _ => false,
        }
    }
}

/// The per-backend breakdown of one invocation, preserved for the caller
/// to report: a single failing backend never hides that the others
/// succeeded.
#[derive(Debug, Clone)]
pub struct BackendReport {
    pub accounting: Outcome,
    pub directory: Outcome,
    pub home_dir: Outcome,
}

/// Aggregate rule: overall success iff no backend failed — i.e. every
/// selected backend succeeded, while skipped backends never affect the
/// aggregate.
pub open spec fn spec_overall_success(r: BackendReport) -> bool {
    !(r.accounting is Failed) && !(r.directory is Failed) && !(r.home_dir is Failed)
}

impl BackendReport {
    pub fn overall_success(&self) -> (r: bool)
        ensures
            r == spec_overall_success(*self),
    {
        !self.accounting.is_failed() && !self.directory.is_failed() && !self.home_dir.is_failed()
    }
}

/// The aggregate depends only on which backends failed: any failed backend
/// yields overall failure, and exchanging `Success` and `Skipped` entries
/// never changes the aggregate.
pub proof fn lemma_aggregate_ignores_skipped(a: BackendReport, b: BackendReport)
    requires
        (a.accounting is Failed) == (b.accounting is Failed),
        (a.directory is Failed) == (b.directory is Failed),
        (a.home_dir is Failed) == (b.home_dir is Failed),
    ensures
        spec_overall_success(a) == spec_overall_success(b),
        a.accounting is Failed || a.directory is Failed || a.home_dir is Failed
            ==> !spec_overall_success(a),
{
}

/// Per-invocation coordinator: holds the backend selection and records one
/// outcome per selected backend as its run finishes, in any order, until
/// the report can be aggregated.
pub struct Orchestrator {
    pub selection: BackendSet,
    pub accounting: Option<Outcome>,
    pub directory: Option<Outcome>,
    pub home_dir: Option<Outcome>,
}

impl Orchestrator {
    /// Outcomes are recorded only for selected backends.
    pub open spec fn wf(&self) -> bool {
        &&& (!self.selection.accounting ==> self.accounting is None)
        &&& (!self.selection.directory ==> self.directory is None)
        &&& (!self.selection.home_dir ==> self.home_dir is None)
    }

    /// Every selected backend has an outcome recorded.
    pub open spec fn spec_complete(&self) -> bool {
        &&& (self.selection.accounting ==> self.accounting is Some)
        &&& (self.selection.directory ==> self.directory is Some)
        &&& (self.selection.home_dir ==> self.home_dir is Some)
    }

    pub fn new(selection: BackendSet) -> (r: Self)
        ensures
            r.wf(),
            r.selection == selection,
            r.accounting is None,
            r.directory is None,
            r.home_dir is None,
    {
        Orchestrator { selection, accounting: None, directory: None, home_dir: None }
    }

    pub fn record_accounting(&mut self, outcome: Outcome)
        requires
            old(self).selection.accounting,
            old(self).accounting is None,
        ensures
            final(self).selection == old(self).selection,
            final(self).accounting == Some(outcome),
            final(self).directory == old(self).directory,
            final(self).home_dir == old(self).home_dir,
    {
        self.accounting = Some(outcome);
    }

    pub fn record_directory(&mut self, outcome: Outcome)
        requires
            old(self).selection.directory,
            old(self).directory is None,
        ensures
            final(self).selection == old(self).selection,
            final(self).directory == Some(outcome),
            final(self).accounting == old(self).accounting,
            final(self).home_dir == old(self).home_dir,
    {
        self.directory = Some(outcome);
    }

    pub fn record_home_dir(&mut self, outcome: Outcome)
        requires
            old(self).selection.home_dir,
            old(self).home_dir is None,
        ensures
            final(self).selection == old(self).selection,
            final(self).home_dir == Some(outcome),
            final(self).accounting == old(self).accounting,
            final(self).directory == old(self).directory,
    {
        self.home_dir = Some(outcome);
    }

    pub fn is_complete(&self) -> (r: bool)
        ensures
            r == self.spec_complete(),
    {
        (!self.selection.accounting || matches!(self.accounting, Some(_))) && (
        !self.selection.directory || matches!(self.directory, Some(_))) && (
        !self.selection.home_dir || matches!(self.home_dir, Some(_)))
    }

    /// The final per-backend breakdown: the recorded outcome for every
    /// selected backend, `Skipped` for every backend that was never
    /// selected.
    pub fn report(self) -> (r: BackendReport)
        requires
            self.wf(),
            self.spec_complete(),
        ensures
            self.selection.accounting ==> Some(r.accounting) == self.accounting,
            !self.selection.accounting ==> r.accounting is Skipped,
            self.selection.directory ==> Some(r.directory) == self.directory,
            !self.selection.directory ==> r.directory is Skipped,
            self.selection.home_dir ==> Some(r.home_dir) == self.home_dir,
            !self.selection.home_dir ==> r.home_dir is Skipped,
    {
        BackendReport {
            accounting: match self.accounting {
                Some(o) => o,
                None => Outcome::Skipped,
            },
            directory: match self.directory {
                Some(o) => o,
                None => Outcome::Skipped,
            },
            home_dir: match self.home_dir {
                Some(o) => o,
                None => Outcome::Skipped,
            },
        }
    }
}

} // verus!
