use vstd::prelude::*;

use crate::error::PipelineError;

verus! {

/// The status with which the catalog confirms that a variant was created.
pub const CREATED: u16 = 201;

/// Whether a record is kept: always when filtering is off, else only when it
/// passed the upstream quality filter.
pub open spec fn passes(filter_enabled: bool, has_pass: bool) -> bool {
    !filter_enabled || has_pass
}

/// Decides whether a record passes curation.
pub fn passes_filter(filter_enabled: bool, has_pass: bool) -> (r: bool)
    ensures
        r == passes(filter_enabled, has_pass),
{
    !filter_enabled || has_pass
}

/// What to do with the record that was just read.
#[derive(Debug, Clone, Copy, PartialEq, Eq)]
pub enum RecordAction {
    /// Build its variant (and submit it unless this is a dry run).
    Process,
    /// Leave it out: it did not pass the filter.
    Skip,
    /// Read no further: an earlier submission was rejected.
    Stop,
}

/// The state of a run: its two counters, its mode, and whether it has been aborted.
#[derive(Debug, Clone, Copy, PartialEq, Eq)]
pub struct Pipeline {
    pub total: u64,
    pub passed: u64,
    pub filter_enabled: bool,
    pub dry_run: bool,
    pub aborted: bool,
}

impl Pipeline {
    /// No more records pass than were seen, and without filtering every one passes.
    pub open spec fn wf(self) -> bool {
        &&& self.passed <= self.total
        &&& !self.filter_enabled ==> self.passed == self.total
    }

    /// The action that `on_record` takes.
    pub open spec fn next_action(self, has_pass: bool) -> RecordAction {
        if self.aborted {
            RecordAction::Stop
        } else if passes(self.filter_enabled, has_pass) {
            RecordAction::Process
        } else {
            RecordAction::Skip
        }
    }

    /// The state that `on_record` leaves.
    pub open spec fn after_record(self, has_pass: bool) -> Pipeline {
        if self.aborted {
            self
        } else if passes(self.filter_enabled, has_pass) {
            Pipeline { total: (self.total + 1) as u64, passed: (self.passed + 1) as u64, ..self }
        } else {
            Pipeline { total: (self.total + 1) as u64, ..self }
        }
    }

    /// The state that `on_response` leaves.
    pub open spec fn after_response(self, status: u16) -> Pipeline {
        Pipeline { aborted: self.aborted || status != CREATED, ..self }
    }

    /// A fresh run with both counters at zero.
    pub fn new(filter_enabled: bool, dry_run: bool) -> (r: Pipeline)
        ensures
            r.wf(),
            r.total == 0,
            r.passed == 0,
            r.filter_enabled == filter_enabled,
            r.dry_run == dry_run,
            !r.aborted,
    {
        Pipeline { total: 0, passed: 0, filter_enabled, dry_run, aborted: false }
    }

    /// Counts the record just read and decides what to do with it.
    pub fn on_record(&mut self, has_pass: bool) -> (r: RecordAction)
        requires
            old(self).wf(),
            old(self).total < u64::MAX,
        ensures
            final(self).wf(),
            r == old(self).next_action(has_pass),
            *final(self) == old(self).after_record(has_pass),
    {
        if self.aborted {
            return RecordAction::Stop;
        }
        self.total = self.total + 1;
        if passes_filter(self.filter_enabled, has_pass) {
            self.passed = self.passed + 1;
            RecordAction::Process
        } else {
            RecordAction::Skip
        }
    }

    /// Whether a built variant is sent to the catalog.
    pub fn should_submit(&self) -> (r: bool)
        ensures
            r == !self.dry_run,
    {
        !self.dry_run
    }

    /// Takes the catalog's answer to a submission; anything but 201 aborts the run
    /// and carries the answer's body.
    pub fn on_response(&mut self, status: u16, body: String) -> (r: Result<(), PipelineError>)
        ensures
            r is Ok <==> status == CREATED,
            r is Err ==> r->Err_0 == PipelineError::Submission(body),
            *final(self) == old(self).after_response(status),
    {
        if status == CREATED {
            Ok(())
        } else {
            self.aborted = true;
            Err(PipelineError::Submission(body))
        }
    }

    /// The counts to report: the total, and the passed count only when filtering was on.
    pub fn summary(&self) -> (r: (u64, Option<u64>))
        ensures
            r.0 == self.total,
            r.1 == (if self.filter_enabled {
                Some(self.passed)
            } else {
                None::<u64>
            }),
    {
        if self.filter_enabled {
            (self.total, Some(self.passed))
        } else {
            (self.total, None)
        }
    }
}

/// Once the catalog rejects a submission, no later record is processed and the
/// counters stay where they were.
pub proof fn lemma_rejection_stops(p: Pipeline, status: u16, has_pass: bool)
    requires
        status != CREATED,
    ensures
        p.after_response(status).next_action(has_pass) == RecordAction::Stop,
        p.after_response(status).after_record(has_pass) == p.after_response(status),
        p.after_response(status).total == p.total,
        p.after_response(status).passed == p.passed,
{
}

/// Reading a record never lets the passed count exceed the total, and the total
/// grows by one unless the run was aborted.
pub proof fn lemma_counts_monotone(p: Pipeline, has_pass: bool)
    requires
        p.wf(),
        p.total < u64::MAX,
    ensures
        p.after_record(has_pass).wf(),
        p.after_record(has_pass).passed <= p.after_record(has_pass).total,
        p.after_record(has_pass).total >= p.total,
        p.after_record(has_pass).passed >= p.passed,
        !p.aborted ==> p.after_record(has_pass).total == p.total + 1,
{
}

} // verus!
