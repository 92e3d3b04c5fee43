//! What holds of every run, proved from the definitions of the other modules.

use vstd::prelude::*;
use crate::amount::Amount;
use crate::case::{Action, Event, Stage, Verdict, expected_label, stage_rank, verdict};
use crate::error::TestErrorKind;
use crate::filter::selected;
use crate::fixture::spec_ids;
use crate::fork::{is_pick, is_pick_upto, none_supported, picked};
use crate::reconcile::{ExceptionPolicy, Executed, ExecutionOutcome, Space, excused};
use crate::runner::{RunConfig, RunView, UnitTester};

verus! {

/// The selection is the choice where there is one, and there is none exactly
/// where no entry is supported.
pub proof fn lemma_picked_is_the_choice(ids: Seq<u8>, max: u8)
    ensures
        match picked(ids, max) {
            Some(k) => is_pick(ids, max, k),
            None => none_supported(ids, max),
        },
        picked(ids, max) is None <==> none_supported(ids, max),
{
    if exists|k: int| is_pick(ids, max, k) {
        let k = choose|k: int| is_pick(ids, max, k);
    } else {
        if !none_supported(ids, max) {
            let i = choose|i: int| 0 <= i < ids.len() && !(#[trigger] ids[i] > max);
            lemma_some_entry_is_the_choice(ids, max, ids.len() as int, i);
            let k = choose|k: int| #[trigger] is_pick_upto(ids, max, ids.len() as int, k);
            assert(is_pick(ids, max, k));
        }
    }
}

/// Where an entry among the first `n` is supported, one of them is the choice
/// among them.
proof fn lemma_some_entry_is_the_choice(ids: Seq<u8>, max: u8, n: int, i: int)
    requires
        0 <= i < n <= ids.len(),
        ids[i] <= max,
    ensures
        exists|k: int| #[trigger] is_pick_upto(ids, max, n, k),
    decreases n,
{
    let m = n - 1;
    if i == n - 1 {
        if exists|j: int| 0 <= j < n - 1 && #[trigger] ids[j] <= max {
            let j = choose|j: int| 0 <= j < n - 1 && #[trigger] ids[j] <= max;
            lemma_some_entry_is_the_choice(ids, max, n - 1, j);
            let k = choose|k: int| #[trigger] is_pick_upto(ids, max, m, k);
            if ids[i] > ids[k] {
                assert(is_pick_upto(ids, max, n, i));
            } else {
                assert(is_pick_upto(ids, max, n, k));
            }
        } else {
            assert(is_pick_upto(ids, max, n, i));
        }
    } else {
        lemma_some_entry_is_the_choice(ids, max, n - 1, i);
        let k = choose|k: int| #[trigger] is_pick_upto(ids, max, m, k);
        if ids[n - 1] <= max && ids[n - 1] > ids[k] {
            assert(is_pick_upto(ids, max, n, n - 1));
        } else {
            assert(is_pick_upto(ids, max, n, k));
        }
    }
}

/// Among the entries that share the place of the choice, the choice comes
/// first; an entry that is unsupported, or less advanced than another
/// supported one, is never the choice.
pub proof fn lemma_choice_is_first_of_most_advanced(ids: Seq<u8>, max: u8, k: int, j: int)
    requires
        picked(ids, max) == Some(k),
        0 <= j < ids.len(),
    ensures
        ids[k] <= max,
        ids[j] == ids[k] ==> k <= j,
        ids[j] > max || ids[j] < ids[k] ==> j != k,
        ids[j] <= max ==> ids[j] <= ids[k],
{
    lemma_picked_is_the_choice(ids, max);
}

/// A unit none of whose forks is supported runs nothing: its run is over at
/// the start, reports that no case ran, and asks for no work.
pub proof fn lemma_unsupported_unit_runs_nothing(
    tester: UnitTester,
    config: RunConfig,
    pattern: Option<Seq<char>>,
    event: Event,
)
    requires
        none_supported(spec_ids(tester.groups()), config.max_spec_id),
    ensures
        tester.start(config, pattern).stage == Stage::Finished(Ok(false)),
        tester.start(config, pattern).action() == Action::Finish,
        tester.start(config, pattern).next(event) == tester.start(config, pattern),
{
    lemma_picked_is_the_choice(spec_ids(tester.groups()), config.max_spec_id);
}

/// A unit that the pattern leaves out runs nothing either.
pub proof fn lemma_unselected_unit_runs_nothing(
    tester: UnitTester,
    config: RunConfig,
    pattern: Option<Seq<char>>,
    event: Event,
)
    requires
        !selected(pattern, tester.path(), tester.name()),
    ensures
        tester.start(config, pattern).stage == Stage::Finished(Ok(false)),
        tester.start(config, pattern).next(event) == tester.start(config, pattern),
{
}

/// A run that starts with work to do stands before the first case of the
/// selected fork, and the first work is a fresh working state.
pub proof fn lemma_start_is_well_formed(
    tester: UnitTester,
    config: RunConfig,
    pattern: Option<Seq<char>>,
)
    ensures
        tester.start(config, pattern).wf(),
        tester.start(config, pattern).active() ==> {
            &&& picked(spec_ids(tester.groups()), config.max_spec_id) == Some(
                tester.start(config, pattern).fork as int,
            )
            &&& tester.start(config, pattern).case == 0
            &&& tester.start(config, pattern).action() == Action::BuildState
        },
{
    lemma_picked_is_the_choice(spec_ids(tester.groups()), config.max_spec_id);
}

/// A step keeps a well-formed run well formed, and never changes the unit,
/// the policy or the selected fork.
pub proof fn lemma_step_keeps_the_run(run: RunView, event: Event)
    requires
        run.wf(),
    ensures
        run.next(event).wf(),
        run.next(event).path == run.path,
        run.next(event).name == run.name,
        run.next(event).groups == run.groups,
        run.next(event).policy == run.policy,
        run.next(event).fork == run.fork,
{
}

/// A run that is over stays as it is: after the first mismatch no further
/// case is taken up.
pub proof fn lemma_ended_run_is_final(run: RunView, event: Event)
    requires
        !run.active(),
    ensures
        run.next(event) == run,
        !run.expects(event),
{
}

/// An event that does not answer the work the run waits for changes nothing.
pub proof fn lemma_stray_event_is_ignored(run: RunView, event: Event)
    requires
        !run.expects(event),
    ensures
        run.next(event) == run,
{
}

/// Where a case declares raw bytes and the constructed transaction encodes to
/// other bytes, the run ends there with an encoding mismatch, whatever the
/// case expects and whatever an execution would have given.
pub proof fn lemma_altered_bytes_fail(run: RunView, encoded: Vec<u8>)
    requires
        run.stage is AwaitTransaction,
        run.current().txbytes is Some,
        run.current().txbytes->0@ != encoded@,
    ensures
        run.next(Event::Transaction(Some(encoded))).stage == Stage::Finished(
            Err(TestErrorKind::TxBytesMismatch),
        ),
        run.next(Event::Transaction(Some(encoded))).action() == Action::Finish,
{
}

/// Where the consensus gate fails as the case expects, the case has passed
/// and the engine is not asked to execute it.
pub proof fn lemma_expected_gate_failure_passes(run: RunView, label: String)
    requires
        run.stage is AwaitGate,
        excused(run.policy, expected_label(run.current()), label@),
    ensures
        run.next(Event::GateFailed(label)) == run.case_passed(),
        !(run.next(Event::GateFailed(label)).action() is Execute),
        !(run.next(Event::GateFailed(label)).stage matches Stage::Finished(Err(_))),
{
}

/// The engine is asked to execute only a transaction that the consensus gate
/// has just let through, and in the same case.
pub proof fn lemma_execute_only_through_gate(run: RunView, event: Event)
    requires
        run.next(event).action() is Execute,
        run.next(event) != run,
    ensures
        run.stage is AwaitGate,
        event is GatePassed,
        run.next(event).case == run.case,
{
}

/// Whatever the engine answers, the next work is to commit the journal; what
/// the answer means is settled only after that.
pub proof fn lemma_commit_follows_every_answer(run: RunView, outcome: ExecutionOutcome)
    requires
        run.stage is AwaitOutcome,
    ensures
        run.next(Event::Outcome(outcome)).action() == Action::CommitState,
        run.next(Event::Outcome(outcome)).case == run.case,
{
}

/// A failure of the engine itself ends the run without a result: it is never
/// reported as a mismatch, and no mismatch is ever reported as such a failure.
pub proof fn lemma_fault_is_no_mismatch(run: RunView, event: Event)
    requires
        run.active(),
    ensures
        run.next(event).stage is Aborted <==> run.stage is AwaitOutcome && event is EngineFault,
        run.next(event).stage is Aborted ==> run.next(event).action() == Action::Abort,
{
}

/// The balance of the fee recipient after an action has been carried out.
pub open spec fn balance_after(balance: nat, action: Action) -> nat {
    match action {
        Action::CreditFeeRecipient { amount, .. } => balance + amount.value(),
        _ => balance,
    }
}

/// A transaction that was included where no exception was expected is settled
/// before the post-state is compared: after the commit the fee recipient is
/// credited once, in the Ethereum space, with gas consumed times price, and
/// only then is the comparison asked for.
pub proof fn lemma_fee_settled_before_comparison(run: RunView, executed: Executed, balance: nat)
    requires
        run.stage is AwaitOutcome,
        expected_label(run.current()) is None,
        executed.fits(),
    ensures
        ({
            let answered = run.next(Event::Outcome(ExecutionOutcome::Included(executed)));
            let committed = answered.next(Event::Committed);
            let credited = committed.next(Event::Credited);
            &&& answered.action() == Action::CommitState
            &&& committed.action() == Action::CreditFeeRecipient {
                amount: Amount::of(executed.charge()),
                space: Space::Ethereum,
            }
            &&& balance_after(balance, committed.action()) == balance + executed.gas()
                * executed.price().value()
            &&& (executed.charge() > 0 ==> balance_after(balance, committed.action()) > balance)
            &&& credited.action() == Action::VerifyPostState
            &&& credited.case == run.case
        }),
{
    crate::amount::lemma_of_value(executed.charge());
}

/// The post-state is compared only right after the fee recipient was
/// credited, and the credit is asked for only right after the commit of an
/// included transaction.
pub proof fn lemma_comparison_only_after_credit(run: RunView, event: Event)
    requires
        run.next(event) != run,
    ensures
        run.next(event).action() is VerifyPostState ==> run.stage is AwaitCredit && event
            is Credited,
        run.next(event).action() is CreditFeeRecipient ==> run.stage is AwaitCommit && event
            is Committed,
{
}

/// Within a case the work goes forward one stage at a time: a step that
/// changes the run stays in the case and moves to the next stage, or leaves
/// the case for the start of the next, or ends the run. So no piece of work
/// is asked for twice in one case: one execution, one commit, one credit.
pub proof fn lemma_work_is_asked_once(run: RunView, event: Event)
    requires
        run.next(event) != run,
    ensures
        run.active(),
        run.expects(event),
        ({
            ||| run.next(event).case == run.case && run.next(event).active() && stage_rank(
                run.next(event).stage,
            ) == stage_rank(run.stage) + 1
            ||| run.next(event).case == run.case + 1 && run.next(event).stage == Stage::AwaitState
            ||| run.next(event).case == run.case && !run.next(event).active()
        }),
{
}

/// A case ends in exactly one of three ways. It is skipped where no
/// transaction can be constructed, or where the transaction is turned down
/// as expected, before or by the engine. It is verified only by a post-state
/// that compares equal. Every other end is a failure.
pub proof fn lemma_case_ends_one_way(
    policy: ExceptionPolicy,
    stage: Stage,
    test: crate::fixture::Test,
    event: Event,
)
    ensures
        verdict(policy, stage, test, event) is Verified <==> stage is AwaitPostState && event
            == Event::PostState(true),
        verdict(policy, stage, test, event) is Skipped <==> {
            ||| stage is AwaitTransaction && event == Event::Transaction(None)
            ||| stage is AwaitGate && event is GateFailed && excused(
                policy,
                expected_label(test),
                event->GateFailed_0@,
            )
            ||| stage == Stage::AwaitCommit(Ok(None)) && event is Committed
        },
{
}

/// What an answer means for a case depends on the policy, the stage and that
/// case alone: two runs that agree on these reach the same verdict, whatever
/// their other cases hold and whatever happened in them.
pub proof fn lemma_verdict_reads_current_case(a: RunView, b: RunView, event: Event)
    requires
        a.active(),
        b.active(),
        a.policy == b.policy,
        a.stage == b.stage,
        a.current() == b.current(),
    ensures
        verdict(a.policy, a.stage, a.current(), event) == verdict(
            b.policy,
            b.stage,
            b.current(),
            event,
        ),
        (a.case + 1 < a.cases().len()) == (b.case + 1 < b.cases().len()) ==> a.next(event).stage
            == b.next(event).stage,
{
}

/// Every case begins alike: when a step leaves a case for the next, the run
/// holds nothing of the case it leaves, and the first work of the new case is
/// a fresh working state.
pub proof fn lemma_case_begins_fresh(run: RunView, event: Event)
    requires
        run.next(event).case != run.case,
    ensures
        run.next(event) == (RunView { case: run.case + 1, stage: Stage::AwaitState, ..run }),
        run.next(event).action() == Action::BuildState,
        verdict(run.policy, run.stage, run.current(), event).passed(),
{
}

/// A run reports that its cases passed only when the last case of the
/// selected fork has passed, and a mismatch only from the case that a step
/// has just failed.
pub proof fn lemma_result_comes_from_the_cases(run: RunView, event: Event)
    requires
        run.active(),
        run.wf(),
        !run.next(event).active(),
    ensures
        run.next(event).stage == Stage::Finished(Ok(true)) ==> {
            &&& verdict(run.policy, run.stage, run.current(), event).passed()
            &&& run.case + 1 == run.cases().len()
        },
        run.next(event).stage matches Stage::Finished(Err(kind)) ==> verdict(
            run.policy,
            run.stage,
            run.current(),
            event,
        ) == Verdict::Failed(kind),
        !(run.next(event).stage == Stage::Finished(Ok(false))),
{
}

} // verus!
