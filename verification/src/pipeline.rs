//! The course of one attempt: the steps of its plan are made one by one, and
//! the first that fails ends the attempt.

use vstd::prelude::*;
use crate::error::IssuanceError;
use crate::plan::{touches_ledger, Step};

verus! {

/// Where an attempt stands. The checks of a request take it from `Idle`
/// over `ProofChecked` to `LedgerChecked` in one go, or fail it; an [`Attempt`]
/// begins with what they gave.
#[derive(Clone, Copy, Debug, PartialEq, Eq, Structural)]
pub enum Stage {
    /// Nothing was looked at yet.
    Idle,
    /// The proof was accepted; the ledger was not asked yet.
    ProofChecked,
    /// No record exists for the claimant: the plan's steps may begin.
    LedgerChecked,
    /// Everything before the ledger's steps was made.
    ResourceCreated,
    /// The record was written.
    RecordWritten,
    /// Every step was made.
    Done,
    /// The attempt ended without success.
    Failed(IssuanceError),
}

/// An attempt as a mathematical value: its plan, how many steps were made,
/// and why it failed if it did.
pub struct Progress {
    pub steps: Seq<Step>,
    pub cursor: nat,
    pub failure: Option<IssuanceError>,
}

/// One of the first `cursor` steps wrote the record.
pub open spec fn written_before(steps: Seq<Step>, cursor: int) -> bool
    decreases cursor,
{
    if cursor <= 0 {
        false
    } else {
        steps[cursor - 1].call is WriteReference || written_before(steps, cursor - 1)
    }
}

/// The stage of an attempt that has made the first `cursor` steps of `steps`
/// and has not failed.
pub open spec fn stage_at(steps: Seq<Step>, cursor: int) -> Stage {
    if cursor >= steps.len() {
        Stage::Done
    } else if written_before(steps, cursor) {
        Stage::RecordWritten
    } else if cursor > 0 && touches_ledger(steps[cursor]) {
        Stage::ResourceCreated
    } else {
        Stage::LedgerChecked
    }
}

impl Progress {
    /// Where the attempt stands.
    pub open spec fn stage(self) -> Stage {
        match self.failure {
            Some(e) => Stage::Failed(e),
            None => stage_at(self.steps, self.cursor as int),
        }
    }

    /// The step that is to be made next, if the attempt goes on.
    pub open spec fn pending(self) -> Option<Step> {
        if self.failure is None && self.cursor < self.steps.len() {
            Some(self.steps[self.cursor as int])
        } else {
            None
        }
    }

    /// The attempt after the host said how the pending step went. An
    /// attempt that has ended takes no more reports.
    pub open spec fn report(self, outcome: Result<(), u64>) -> Progress {
        if self.pending() is None {
            self
        } else {
            match outcome {
                Ok(_) => Progress { cursor: self.cursor + 1, ..self },
                Err(code) => Progress {
                    failure: Some(IssuanceError::CollaboratorFailure(code)),
                    ..self
                },
            }
        }
    }
}

/// The attempt that follows the checks: ready for the first step of the
/// plan, or failed with what the checks found.
pub open spec fn begin_spec(checked: Result<Seq<Step>, IssuanceError>) -> Progress {
    match checked {
        Ok(steps) => Progress { steps, cursor: 0, failure: None },
        Err(e) => Progress { steps: Seq::empty(), cursor: 0, failure: Some(e) },
    }
}

/// A plan or a finding, as a mathematical value.
pub open spec fn checked_view(checked: Result<Vec<Step>, IssuanceError>) -> Result<
    Seq<Step>,
    IssuanceError,
> {
    match checked {
        Ok(steps) => Ok(steps@),
        Err(e) => Err(e),
    }
}

/// A result of the checks says what `expected` says.
pub open spec fn outcome_is(
    r: Result<Vec<Step>, IssuanceError>,
    expected: Result<Seq<Step>, IssuanceError>,
) -> bool {
    checked_view(r) == expected
}

/// An attempt that is under way.
pub struct Attempt {
    steps: Vec<Step>,
    cursor: usize,
    failure: Option<IssuanceError>,
}

impl View for Attempt {
    type V = Progress;

    closed spec fn view(&self) -> Progress {
        Progress { steps: self.steps@, cursor: self.cursor as nat, failure: self.failure }
    }
}

impl Attempt {
    /// The attempt has made no more steps than its plan has.
    pub closed spec fn well_formed(&self) -> bool {
        self.cursor <= self.steps@.len()
    }

    /// Starts an attempt from what the checks gave.
    pub fn begin(checked: Result<Vec<Step>, IssuanceError>) -> (attempt: Attempt)
        ensures
            attempt.well_formed(),
            attempt@ == begin_spec(checked_view(checked)),
    {
        match checked {
            Ok(steps) => Attempt { steps, cursor: 0, failure: None },
            Err(e) => Attempt { steps: Vec::new(), cursor: 0, failure: Some(e) },
        }
    }

    /// Where the attempt stands.
    pub fn stage(&self) -> (stage: Stage)
        requires
            self.well_formed(),
        ensures
            stage == self@.stage(),
    {
        match self.failure {
            Some(e) => Stage::Failed(e),
            None => {
                if self.cursor >= self.steps.len() {
                    Stage::Done
                } else if wrote_before(&self.steps, self.cursor) {
                    Stage::RecordWritten
                } else if self.cursor > 0 && ledger_step(&self.steps[self.cursor]) {
                    Stage::ResourceCreated
                } else {
                    Stage::LedgerChecked
                }
            },
        }
    }

    /// The step that the host is to make next; none once the attempt ended.
    pub fn pending(&self) -> (step: Option<Step>)
        requires
            self.well_formed(),
        ensures
            step == self@.pending(),
    {
        if self.failure.is_none() && self.cursor < self.steps.len() {
            Some(self.steps[self.cursor])
        } else {
            None
        }
    }

    /// Takes the host's word on the pending step: a success moves on to
    /// the next step, a failure ends the attempt with the host's code.
    pub fn report(&mut self, outcome: Result<(), u64>)
        requires
            old(self).well_formed(),
        ensures
            final(self).well_formed(),
            final(self)@ == old(self)@.report(outcome),
    {
        if self.failure.is_none() && self.cursor < self.steps.len() {
            match outcome {
                Ok(_) => {
                    self.cursor = self.cursor + 1;
                },
                Err(code) => {
                    self.failure = Some(IssuanceError::CollaboratorFailure(code));
                },
            }
        }
    }

    /// How the attempt ended: `Ok` once every step was made, the reason
    /// once it failed, and nothing while steps are pending.
    pub fn outcome(&self) -> (ended: Option<Result<(), IssuanceError>>)
        requires
            self.well_formed(),
        ensures
            ended == (match self@.stage() {
                Stage::Done => Some(Ok::<(), IssuanceError>(())),
                Stage::Failed(e) => Some(Err::<(), IssuanceError>(e)),
                _ => None::<Result<(), IssuanceError>>,
            }),
    {
        match self.failure {
            Some(e) => Some(Err(e)),
            None => {
                if self.cursor >= self.steps.len() {
                    Some(Ok(()))
                } else {
                    None
                }
            },
        }
    }
}

/// Tells whether one of the first `cursor` steps wrote the record.
pub fn wrote_before(steps: &Vec<Step>, cursor: usize) -> (r: bool)
    requires
        cursor <= steps@.len(),
    ensures
        r == written_before(steps@, cursor as int),
{
    let mut i: usize = 0;
    while i < cursor
        invariant
            i <= cursor <= steps@.len(),
            !written_before(steps@, i as int),
        decreases cursor - i,
    {
        match steps[i].call {
            crate::plan::Call::WriteReference { .. } => {
                proof {
                    lemma_written_stays(steps@, i + 1, cursor as int);
                }
                return true;
            },
            _ => {},
        }
        i += 1;
    }
    false
}

/// Once the record was written, it stays written.
proof fn lemma_written_stays(steps: Seq<Step>, from: int, to: int)
    requires
        0 <= from <= to,
        written_before(steps, from),
    ensures
        written_before(steps, to),
    decreases to - from,
{
    if from < to {
        lemma_written_stays(steps, from, to - 1);
    }
}

/// Tells whether a step allocates or writes a ledger record.
pub fn ledger_step(step: &Step) -> (r: bool)
    ensures
        r == touches_ledger(*step),
{
    match step.call {
        crate::plan::Call::WriteReference { .. } => true,
        crate::plan::Call::Allocate { owner, .. } => match owner {
            crate::plan::Owner::Engine => true,
            _ => false,
        },
        _ => false,
    }
}

/// When the host fails a step, any step, the record's write
/// among them, the attempt has failed with the host's code, no step is
/// pending any more, and further reports change nothing. The host then
/// discards what the attempt did; the same request, checked again, starts from
/// the first step of the same plan.
pub proof fn law_fault_ends_attempt(
    checked: Result<Seq<Step>, IssuanceError>,
    made: nat,
    code: u64,
    later: Result<(), u64>,
)
    requires
        checked is Ok,
        made < checked->Ok_0.len(),
    ensures
        ({
            let running = Progress { cursor: made, ..begin_spec(checked) };
            let failed = running.report(Err(code));
            &&& failed.stage() == Stage::Failed(IssuanceError::CollaboratorFailure(code))
            &&& failed.pending() is None
            &&& failed.report(later) == failed
            &&& begin_spec(checked).pending() == Some(checked->Ok_0[0])
            &&& begin_spec(checked).failure is None
        }),
{
}

/// The record is written before the attempt is done, and only after the
/// steps before the ledger's were made: in a plan that keeps the ledger's
/// order, the stage is `ResourceCreated` when the record's allocation is
/// pending and `RecordWritten` once its write was made.
pub proof fn law_record_follows_resource(steps: Seq<Step>, record: usize, k: int)
    requires
        0 < k,
        k + 1 < steps.len(),
        crate::plan::allocates_record(steps[k], record),
        crate::plan::writes_record(steps[k + 1], record),
        forall|j: int|
            0 <= j < steps.len() && j != k && j != k + 1 ==> !touches_ledger(#[trigger] steps[j]),
    ensures
        forall|cursor: int| 0 <= cursor < k ==> stage_at(steps, cursor) == Stage::LedgerChecked,
        stage_at(steps, k) == Stage::ResourceCreated,
        stage_at(steps, k + 1) == Stage::ResourceCreated,
        forall|cursor: int|
            k + 2 <= cursor < steps.len() ==> stage_at(steps, cursor) == Stage::RecordWritten,
        stage_at(steps, steps.len() as int) == Stage::Done,
{
    assert forall|cursor: int| 0 <= cursor <= k + 1 implies !written_before(steps, cursor) by {
        lemma_not_written(steps, record, k, cursor);
    }
    assert forall|cursor: int| k + 2 <= cursor <= steps.len() implies written_before(
        steps,
        cursor,
    ) by {
        lemma_written(steps, k, cursor);
    }
}

/// Before the record's write no step has written the ledger.
proof fn lemma_not_written(steps: Seq<Step>, record: usize, k: int, cursor: int)
    requires
        0 < k,
        k + 1 < steps.len(),
        crate::plan::allocates_record(steps[k], record),
        forall|j: int|
            0 <= j < steps.len() && j != k && j != k + 1 ==> !touches_ledger(#[trigger] steps[j]),
        0 <= cursor <= k + 1,
    ensures
        !written_before(steps, cursor),
    decreases cursor,
{
    if cursor > 0 {
        lemma_not_written(steps, record, k, cursor - 1);
        if cursor - 1 != k {
            assert(!touches_ledger(steps[cursor - 1]));
        }
    }
}

/// From the record's write on, the ledger has been written.
proof fn lemma_written(steps: Seq<Step>, k: int, cursor: int)
    requires
        0 <= k,
        k + 1 < steps.len(),
        steps[k + 1].call is WriteReference,
        k + 2 <= cursor <= steps.len(),
    ensures
        written_before(steps, cursor),
    decreases cursor,
{
    if cursor > k + 2 {
        lemma_written(steps, k, cursor - 1);
    }
}

/// Nothing is recorded before the token exists. In a plan that keeps the
/// ledger's order, when a step that creates a part of the token is pending, no
/// step before it has allocated or written the record; so where the host fails
/// that step, the attempt fails with no record made.
pub proof fn law_failed_creation_leaves_no_record(
    steps: Seq<Step>,
    record: usize,
    pending: int,
    code: u64,
)
    requires
        crate::plan::ledger_once_after_creation(steps, record),
        0 <= pending < steps.len(),
        crate::plan::creates_token(steps[pending]),
    ensures
        forall|i: int| 0 <= i <= pending ==> !touches_ledger(#[trigger] steps[i]),
        !written_before(steps, pending),
        ({
            let running = Progress { steps, cursor: pending as nat, failure: None };
            &&& running.pending() == Some(steps[pending])
            &&& running.report(Err(code)).stage() == Stage::Failed(
                IssuanceError::CollaboratorFailure(code),
            )
            &&& running.report(Err(code)).pending() is None
        }),
{
    let k = choose|k: int|
        {
            &&& 0 < k
            &&& k + 1 < steps.len()
            &&& crate::plan::allocates_record(#[trigger] steps[k], record)
            &&& crate::plan::writes_record(steps[k + 1], record)
            &&& crate::plan::creates_token(steps[0])
            &&& forall|j: int|
                0 <= j < steps.len() && j != k && j != k + 1 ==> !touches_ledger(#[trigger] steps[j])
            &&& forall|j: int|
                k + 1 < j < steps.len() ==> !crate::plan::creates_token(#[trigger] steps[j])
        };
    assert(!crate::plan::creates_token(steps[k]));
    assert(!crate::plan::creates_token(steps[k + 1]));
    assert(pending < k);
    lemma_not_written(steps, record, k, pending);
}

} // verus!
