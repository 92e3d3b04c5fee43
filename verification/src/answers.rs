//! What a run comes to, stated over what the collaborators answer.
//!
//! A run asks for one piece of work at a time and stops asking as soon as a
//! case is decided. Here the same is said in one piece: given what each
//! collaborator would answer for each case, were it asked, the end of every
//! case and of the whole run is a plain function of those answers, and the
//! run, taken through them step by step, comes to exactly that end.

use vstd::prelude::*;
use crate::amount::Amount;
use crate::case::{Action, Event, Stage, expected_label};
use crate::error::TestErrorKind;
use crate::fixture::Test;
use crate::reconcile::{ExceptionPolicy, Executed, ExecutionOutcome, Space, excused, reconciled};
use crate::runner::{RunConfig, RunView, UnitTester};

verus! {

/// What the collaborators would answer for one case.
pub ghost struct Answers {
    /// The canonical bytes of the transaction, or nothing where none can be
    /// constructed.
    pub transaction: Option<Vec<u8>>,
    /// The label under which the consensus gate would turn the transaction
    /// down, or nothing where it would let it through.
    pub gate: Option<String>,
    /// The engine's answer, or nothing where its storage would fail.
    pub engine: Option<ExecutionOutcome>,
    /// Whether the post-state would compare equal.
    pub post_state: bool,
}

/// How a case ends.
pub ghost enum CaseEnd {
    /// Passed without further checks.
    Skipped,
    /// Executed, settled and compared equal.
    Verified,
    /// The engine and the case disagree.
    Failed(TestErrorKind),
    /// The engine itself failed.
    Aborted,
}

impl CaseEnd {
    pub open spec fn passed(self) -> bool {
        self is Skipped || self is Verified
    }
}

/// The end of a case, from the first answer that decides it.
pub open spec fn case_end(policy: ExceptionPolicy, test: Test, answers: Answers) -> CaseEnd {
    match answers.transaction {
        None => CaseEnd::Skipped,
        Some(encoded) => if test.txbytes is Some && test.txbytes->0@ != encoded@ {
            CaseEnd::Failed(TestErrorKind::TxBytesMismatch)
        } else {
            match answers.gate {
                Some(label) => if excused(policy, expected_label(test), label@) {
                    CaseEnd::Skipped
                } else {
                    CaseEnd::Failed(TestErrorKind::ConsensusCheckMismatch)
                },
                None => match answers.engine {
                    None => CaseEnd::Aborted,
                    Some(outcome) => match reconciled(policy, outcome, expected_label(test)) {
                        Err(kind) => CaseEnd::Failed(kind),
                        Ok(None) => CaseEnd::Skipped,
                        Ok(Some(_)) => if answers.post_state {
                            CaseEnd::Verified
                        } else {
                            CaseEnd::Failed(TestErrorKind::PostStateMismatch)
                        },
                    },
                },
            }
        },
    }
}

/// The stage at which a run ends that is at the start of case `from`: that
/// of the first case from there on that does not pass, or success where every
/// one of them passes.
pub open spec fn unit_end(
    policy: ExceptionPolicy,
    tests: Seq<Test>,
    answers: Seq<Answers>,
    from: nat,
) -> Stage
    decreases tests.len() - from,
{
    if from >= tests.len() {
        Stage::Finished(Ok(true))
    } else {
        match case_end(policy, tests[from as int], answers[from as int]) {
            CaseEnd::Failed(kind) => Stage::Finished(Err(kind)),
            CaseEnd::Aborted => Stage::Aborted,
            _ => unit_end(policy, tests, answers, from + 1),
        }
    }
}

/// The answer of the consensus gate as an event.
pub open spec fn gate_event(answers: Answers) -> Event {
    match answers.gate {
        Some(label) => Event::GateFailed(label),
        None => Event::GatePassed,
    }
}

/// The engine's answer as an event.
pub open spec fn engine_event(answers: Answers) -> Event {
    match answers.engine {
        Some(outcome) => Event::Outcome(outcome),
        None => Event::EngineFault,
    }
}

impl RunView {
    /// The states that the run passes through while it is handed, in order,
    /// every answer for one case: the run itself, then the run after each
    /// answer. Answers to work that the run does not ask for fall away.
    pub open spec fn steps(self, answers: Answers) -> Seq<RunView> {
        let built = self.next(Event::StateBuilt);
        let constructed = built.next(Event::Transaction(answers.transaction));
        let framed = constructed.next(Event::EnvBuilt);
        let gated = framed.next(gate_event(answers));
        let answered = gated.next(engine_event(answers));
        let committed = answered.next(Event::Committed);
        let credited = committed.next(Event::Credited);
        let compared = credited.next(Event::PostState(answers.post_state));
        seq![
            self,
            built,
            constructed,
            framed,
            gated,
            answered,
            committed,
            credited,
            compared,
        ]
    }

    /// The run after it was handed every answer for one case.
    pub open spec fn through_case(self, answers: Answers) -> RunView {
        self.steps(answers)[8]
    }

    /// The run after it was handed the answers for case `from` and for every
    /// case after it.
    pub open spec fn through_cases(self, answers: Seq<Answers>, from: nat) -> RunView
        decreases answers.len() - from,
    {
        if from >= answers.len() {
            self
        } else {
            self.through_case(answers[from as int]).through_cases(answers, from + 1)
        }
    }
}

impl UnitTester {
    /// The stage at which a run of this unit ends.
    pub open spec fn end(
        self,
        config: RunConfig,
        pattern: Option<Seq<char>>,
        answers: Seq<Answers>,
    ) -> Stage {
        let start = self.start(config, pattern);
        if start.active() {
            unit_end(config.policy, start.cases(), answers, 0)
        } else {
            Stage::Finished(Ok(false))
        }
    }
}

/// A case taken from its start through its answers has passed, has failed or
/// has aborted the run, as its end says.
pub proof fn lemma_case_comes_to_its_end(run: RunView, answers: Answers)
    requires
        run.stage == Stage::AwaitState,
    ensures
        run.through_case(answers) == match case_end(run.policy, run.current(), answers) {
            CaseEnd::Skipped => run.case_passed(),
            CaseEnd::Verified => run.case_passed(),
            CaseEnd::Failed(kind) => run.case_failed(kind),
            CaseEnd::Aborted => run.at(Stage::Aborted),
        },
{
}

/// Raw bytes that the constructed transaction does not encode to decide the
/// case on their own: it fails with an encoding mismatch, whatever the case
/// expects and whatever the consensus gate, the engine and the comparison
/// would have answered.
pub proof fn lemma_altered_bytes_decide_the_case(
    policy: ExceptionPolicy,
    test: Test,
    answers: Answers,
)
    requires
        test.txbytes is Some,
        answers.transaction is Some,
        test.txbytes->0@ != answers.transaction->0@,
    ensures
        case_end(policy, test, answers) == CaseEnd::Failed(TestErrorKind::TxBytesMismatch),
{
}

/// A case whose transaction the consensus gate turns down as the case
/// expects has passed, and on the way the engine was never asked to execute.
pub proof fn lemma_expected_gate_failure_skips_execution(run: RunView, answers: Answers)
    requires
        run.stage == Stage::AwaitState,
        answers.transaction is Some,
        !(run.current().txbytes is Some && run.current().txbytes->0@
            != answers.transaction->0@),
        answers.gate is Some,
        excused(run.policy, expected_label(run.current()), answers.gate->0@),
    ensures
        case_end(run.policy, run.current(), answers) == CaseEnd::Skipped,
        run.through_case(answers) == run.case_passed(),
        forall|i: int| 0 <= i < 9 ==> !((#[trigger] run.steps(answers)[i]).action() is Execute),
{
}

/// A case whose transaction is included where no exception is expected is
/// settled exactly once and before the comparison: of the work asked for on
/// the way, one piece is the credit of gas consumed times price to the fee
/// recipient, and the piece right after it is the one comparison.
pub proof fn lemma_included_case_is_settled_once(
    run: RunView,
    answers: Answers,
    executed: Executed,
)
    requires
        run.stage == Stage::AwaitState,
        answers.transaction is Some,
        !(run.current().txbytes is Some && run.current().txbytes->0@
            != answers.transaction->0@),
        answers.gate is None,
        answers.engine == Some(ExecutionOutcome::Included(executed)),
        expected_label(run.current()) is None,
    ensures
        run.steps(answers)[6].action() == (Action::CreditFeeRecipient {
            amount: Amount::of(executed.charge()),
            space: Space::Ethereum,
        }),
        run.steps(answers)[7].action() == Action::VerifyPostState,
        forall|i: int|
            0 <= i < 9 && (#[trigger] run.steps(answers)[i]).action() is CreditFeeRecipient ==> i
                == 6,
        forall|i: int|
            0 <= i < 9 && (#[trigger] run.steps(answers)[i]).action() is VerifyPostState ==> i == 7,
        case_end(run.policy, run.current(), answers) == if answers.post_state {
            CaseEnd::Verified
        } else {
            CaseEnd::Failed(TestErrorKind::PostStateMismatch)
        },
{
}

/// A run that is over stays as it is, whatever answers it is handed.
pub proof fn lemma_ended_run_takes_no_answers(run: RunView, answers: Seq<Answers>, from: nat)
    requires
        !run.active(),
    ensures
        run.through_cases(answers, from) == run,
    decreases answers.len() - from,
{
    if from < answers.len() {
        lemma_ended_run_takes_no_answers(run, answers, from + 1);
    }
}

/// A run at the start of a case, taken through the answers for that case and
/// all after it, ends as the first of them that does not pass ends, and in
/// success where all pass.
pub proof fn lemma_cases_come_to_their_end(run: RunView, answers: Seq<Answers>)
    requires
        run.wf(),
        run.stage == Stage::AwaitState,
        answers.len() == run.cases().len(),
    ensures
        run.through_cases(answers, run.case).stage == unit_end(
            run.policy,
            run.cases(),
            answers,
            run.case,
        ),
    decreases run.cases().len() - run.case,
{
    let here = answers[run.case as int];
    let after = run.through_case(here);
    lemma_case_comes_to_its_end(run, here);
    if after.active() {
        lemma_cases_come_to_their_end(after, answers);
    } else {
        lemma_ended_run_takes_no_answers(after, answers, run.case + 1);
        if case_end(run.policy, run.current(), here).passed() {
            assert(unit_end(run.policy, run.cases(), answers, run.case + 1) == Stage::Finished(
                Ok(true),
            ));
        }
    }
}

/// A run of a unit, taken through the answers for the cases of the selected
/// fork, ends as `end` says: without a case run where the pattern leaves the
/// unit out, no fork is supported or the selected fork has no case; else with
/// the first mismatch, or aborted by the first failure of the engine, or in
/// success.
pub proof fn lemma_run_comes_to_its_end(
    tester: UnitTester,
    config: RunConfig,
    pattern: Option<Seq<char>>,
    answers: Seq<Answers>,
)
    requires
        tester.start(config, pattern).active() ==> answers.len() == tester.start(
            config,
            pattern,
        ).cases().len(),
    ensures
        tester.start(config, pattern).through_cases(answers, 0).stage == tester.end(
            config,
            pattern,
            answers,
        ),
{
    let start = tester.start(config, pattern);
    crate::laws::lemma_start_is_well_formed(tester, config, pattern);
    if start.active() {
        lemma_cases_come_to_their_end(start, answers);
    } else {
        lemma_ended_run_takes_no_answers(start, answers, 0);
    }
}

} // verus!
