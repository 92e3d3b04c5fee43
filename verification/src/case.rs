//! One case: the order of the outside work and what each answer leads to.

use vstd::prelude::*;
use crate::amount::Amount;
use crate::error::TestErrorKind;
use crate::fixture::Test;
use crate::reconcile::{
    ExceptionPolicy,
    Executed,
    ExecutionOutcome,
    Space,
    check_tx_bytes,
    excused,
    extract_executed,
    process_consensus_check_fail,
    reconciled,
};

verus! {

/// The piece of outside work that a run waits for, or its end.
#[derive(Clone, Copy, Debug, PartialEq, Eq)]
pub enum Action {
    /// Build a fresh working state from the unit's pre-state.
    BuildState,
    /// Construct the case's transaction from the unit's template.
    BuildTransaction,
    /// Build the block context for the constructed transaction.
    BuildEnv,
    /// Put the transaction before the consensus gate.
    VerifyTransaction,
    /// Hand the transaction to the engine, once. `checked` says whether the
    /// engine is to check the result, and is always set.
    Execute { checked: bool },
    /// Commit what the execution left in the working state's journal.
    CommitState,
    /// Add `amount` to the balance of the block's fee recipient in `space`.
    CreditFeeRecipient { amount: Amount, space: Space },
    /// Compare the working state with the post-state that the case describes.
    VerifyPostState,
    /// The run is over, and its result stands.
    Finish,
    /// The engine itself failed. Nothing can be said of the unit.
    Abort,
}

/// What came of a piece of outside work.
#[derive(Debug)]
pub enum Event {
    /// The working state stands.
    StateBuilt,
    /// The canonical bytes of the constructed transaction, or nothing where
    /// no transaction can be constructed from the case.
    Transaction(Option<Vec<u8>>),
    /// The block context stands.
    EnvBuilt,
    /// The consensus gate let the transaction through.
    GatePassed,
    /// The consensus gate turned the transaction down, for the labelled reason.
    GateFailed(String),
    /// The engine answered.
    Outcome(ExecutionOutcome),
    /// The engine could not be invoked: its storage failed.
    EngineFault,
    /// The journal is committed.
    Committed,
    /// The fee recipient has the fee.
    Credited,
    /// Whether the working state is the one that the case describes.
    PostState(bool),
}

/// Where a run stands.
#[derive(Clone, Copy, Debug, PartialEq, Eq)]
pub enum Stage {
    AwaitState,
    AwaitTransaction,
    AwaitEnv,
    AwaitGate,
    AwaitOutcome,
    /// The engine has answered; what follows from the answer is held back
    /// until the journal is committed.
    AwaitCommit(Result<Option<Executed>, TestErrorKind>),
    AwaitCredit(Executed),
    AwaitPostState,
    /// Over: `Ok(true)` where every case of the selected fork passed,
    /// `Ok(false)` where no case ran, or the first mismatch.
    Finished(Result<bool, TestErrorKind>),
    /// Over without a result, on a failure of the engine itself.
    Aborted,
}

/// What an answer means for the case it belongs to.
#[derive(Clone, Copy, Debug, PartialEq, Eq)]
pub enum Verdict {
    /// The case goes on, or the run ends without a result, at the given stage.
    Proceed(Stage),
    /// The case is over and counts as passed without further checks: no
    /// transaction can be constructed from it, or the transaction was turned
    /// down as the case expects.
    Skipped,
    /// The case is over: the transaction was executed and the post-state is
    /// the one that the case describes.
    Verified,
    /// The case is over: the engine and the case disagree.
    Failed(TestErrorKind),
}

impl Verdict {
    /// The case is over and has not failed.
    pub open spec fn passed(self) -> bool {
        self is Skipped || self is Verified
    }
}

/// The place of a stage in the order of a case's work.
pub open spec fn stage_rank(stage: Stage) -> nat {
    match stage {
        Stage::AwaitState => 0,
        Stage::AwaitTransaction => 1,
        Stage::AwaitEnv => 2,
        Stage::AwaitGate => 3,
        Stage::AwaitOutcome => 4,
        Stage::AwaitCommit(_) => 5,
        Stage::AwaitCredit(_) => 6,
        Stage::AwaitPostState => 7,
        Stage::Finished(_) => 8,
        Stage::Aborted => 8,
    }
}

/// What a case expects, as plain characters.
pub open spec fn expected_label(test: Test) -> Option<Seq<char>> {
    match test.expect_exception {
        Some(label) => Some(label@),
        None => None,
    }
}

/// The event answers the work that belongs to the stage.
pub open spec fn stage_expects(stage: Stage, event: Event) -> bool {
    match stage {
        Stage::AwaitState => event is StateBuilt,
        Stage::AwaitTransaction => event is Transaction,
        Stage::AwaitEnv => event is EnvBuilt,
        Stage::AwaitGate => event is GatePassed || event is GateFailed,
        Stage::AwaitOutcome => event is Outcome || event is EngineFault,
        Stage::AwaitCommit(_) => event is Committed,
        Stage::AwaitCredit(_) => event is Credited,
        Stage::AwaitPostState => event is PostState,
        Stage::Finished(_) => false,
        Stage::Aborted => false,
    }
}

/// The work that belongs to a stage.
pub open spec fn pending(stage: Stage) -> Action {
    match stage {
        Stage::AwaitState => Action::BuildState,
        Stage::AwaitTransaction => Action::BuildTransaction,
        Stage::AwaitEnv => Action::BuildEnv,
        Stage::AwaitGate => Action::VerifyTransaction,
        Stage::AwaitOutcome => Action::Execute { checked: true },
        Stage::AwaitCommit(_) => Action::CommitState,
        Stage::AwaitCredit(executed) => Action::CreditFeeRecipient {
            amount: Amount::of(executed.charge()),
            space: Space::Ethereum,
        },
        Stage::AwaitPostState => Action::VerifyPostState,
        Stage::Finished(_) => Action::Finish,
        Stage::Aborted => Action::Abort,
    }
}

/// What `event` means for `test` at `stage`. An event that does not answer
/// the work of the stage changes nothing.
pub open spec fn verdict(policy: ExceptionPolicy, stage: Stage, test: Test, event: Event) -> Verdict {
    match (stage, event) {
        (Stage::AwaitState, Event::StateBuilt) => Verdict::Proceed(Stage::AwaitTransaction),
        (Stage::AwaitTransaction, Event::Transaction(None)) => Verdict::Skipped,
        (Stage::AwaitTransaction, Event::Transaction(Some(encoded))) => {
            if test.txbytes is Some && test.txbytes->0@ != encoded@ {
                Verdict::Failed(TestErrorKind::TxBytesMismatch)
            } else {
                Verdict::Proceed(Stage::AwaitEnv)
            }
        },
        (Stage::AwaitEnv, Event::EnvBuilt) => Verdict::Proceed(Stage::AwaitGate),
        (Stage::AwaitGate, Event::GatePassed) => Verdict::Proceed(Stage::AwaitOutcome),
        (Stage::AwaitGate, Event::GateFailed(label)) => {
            if excused(policy, expected_label(test), label@) {
                Verdict::Skipped
            } else {
                Verdict::Failed(TestErrorKind::ConsensusCheckMismatch)
            }
        },
        (Stage::AwaitOutcome, Event::EngineFault) => Verdict::Proceed(Stage::Aborted),
        (Stage::AwaitOutcome, Event::Outcome(outcome)) => Verdict::Proceed(
            Stage::AwaitCommit(reconciled(policy, outcome, expected_label(test))),
        ),
        (Stage::AwaitCommit(Err(kind)), Event::Committed) => Verdict::Failed(kind),
        (Stage::AwaitCommit(Ok(None)), Event::Committed) => Verdict::Skipped,
        (Stage::AwaitCommit(Ok(Some(executed))), Event::Committed) => Verdict::Proceed(
            Stage::AwaitCredit(executed),
        ),
        (Stage::AwaitCredit(_), Event::Credited) => Verdict::Proceed(Stage::AwaitPostState),
        (Stage::AwaitPostState, Event::PostState(true)) => Verdict::Verified,
        (Stage::AwaitPostState, Event::PostState(false)) => Verdict::Failed(
            TestErrorKind::PostStateMismatch,
        ),
        _ => Verdict::Proceed(stage),
    }
}

/// The work that belongs to a stage.
pub fn pending_action(stage: Stage) -> (r: Action)
    ensures
        r == pending(stage),
{
    match stage {
        Stage::AwaitState => Action::BuildState,
        Stage::AwaitTransaction => Action::BuildTransaction,
        Stage::AwaitEnv => Action::BuildEnv,
        Stage::AwaitGate => Action::VerifyTransaction,
        Stage::AwaitOutcome => Action::Execute { checked: true },
        Stage::AwaitCommit(_) => Action::CommitState,
        Stage::AwaitCredit(executed) => Action::CreditFeeRecipient {
            amount: executed.fee(),
            space: Space::Ethereum,
        },
        Stage::AwaitPostState => Action::VerifyPostState,
        Stage::Finished(_) => Action::Finish,
        Stage::Aborted => Action::Abort,
    }
}

/// Decides whether `event` answers the work that belongs to `stage`.
pub fn answers(stage: Stage, event: &Event) -> (r: bool)
    ensures
        r == stage_expects(stage, *event),
{
    match stage {
        Stage::AwaitState => matches!(event, Event::StateBuilt),
        Stage::AwaitTransaction => matches!(event, Event::Transaction(_)),
        Stage::AwaitEnv => matches!(event, Event::EnvBuilt),
        Stage::AwaitGate => matches!(event, Event::GatePassed) || matches!(
            event,
            Event::GateFailed(_)
        ),
        Stage::AwaitOutcome => matches!(event, Event::Outcome(_)) || matches!(
            event,
            Event::EngineFault
        ),
        Stage::AwaitCommit(_) => matches!(event, Event::Committed),
        Stage::AwaitCredit(_) => matches!(event, Event::Credited),
        Stage::AwaitPostState => matches!(event, Event::PostState(_)),
        Stage::Finished(_) => false,
        Stage::Aborted => false,
    }
}

/// Decides what `event` means for `test` at `stage`.
pub fn decide(policy: ExceptionPolicy, stage: Stage, test: &Test, event: Event) -> (r: Verdict)
    ensures
        r == verdict(policy, stage, *test, event),
{
    match (stage, event) {
        (Stage::AwaitState, Event::StateBuilt) => Verdict::Proceed(Stage::AwaitTransaction),
        (Stage::AwaitTransaction, Event::Transaction(None)) => Verdict::Skipped,
        (Stage::AwaitTransaction, Event::Transaction(Some(encoded))) => {
            match check_tx_bytes(test.txbytes.as_ref(), &encoded) {
                Ok(()) => Verdict::Proceed(Stage::AwaitEnv),
                Err(kind) => Verdict::Failed(kind),
            }
        },
        (Stage::AwaitEnv, Event::EnvBuilt) => Verdict::Proceed(Stage::AwaitGate),
        (Stage::AwaitGate, Event::GatePassed) => Verdict::Proceed(Stage::AwaitOutcome),
        (Stage::AwaitGate, Event::GateFailed(label)) => {
            match process_consensus_check_fail(policy, &label, test.expect_exception.as_ref()) {
                Ok(()) => Verdict::Skipped,
                Err(kind) => Verdict::Failed(kind),
            }
        },
        (Stage::AwaitOutcome, Event::EngineFault) => Verdict::Proceed(Stage::Aborted),
        (Stage::AwaitOutcome, Event::Outcome(outcome)) => {
            let held = extract_executed(policy, &outcome, test.expect_exception.as_ref());
            Verdict::Proceed(Stage::AwaitCommit(held))
        },
        (Stage::AwaitCommit(Err(kind)), Event::Committed) => Verdict::Failed(kind),
        (Stage::AwaitCommit(Ok(None)), Event::Committed) => Verdict::Skipped,
        (Stage::AwaitCommit(Ok(Some(executed))), Event::Committed) => Verdict::Proceed(
            Stage::AwaitCredit(executed),
        ),
        (Stage::AwaitCredit(_), Event::Credited) => Verdict::Proceed(Stage::AwaitPostState),
        (Stage::AwaitPostState, Event::PostState(true)) => Verdict::Verified,
        (Stage::AwaitPostState, Event::PostState(false)) => Verdict::Failed(
            TestErrorKind::PostStateMismatch,
        ),
        _ => Verdict::Proceed(stage),
    }
}

} // verus!
