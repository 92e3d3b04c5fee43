use evm_spec_tester::filter::{text_contains, unit_selected};
use evm_spec_tester::reconcile::{
    check_tx_bytes, extract_executed, is_excused, process_consensus_check_fail, same_bytes,
};
use evm_spec_tester::case::{answers, decide, pending_action};
use evm_spec_tester::{
    Action, Amount, Event, ExceptionPolicy, Executed, ExecutionOutcome, Space, Stage, Test,
    TestErrorKind, Verdict,
};

fn label(text: &str) -> String {
    text.to_string()
}

#[test]
fn pattern_is_found_anywhere_in_the_text() {
    assert!(text_contains("stateTests/add.json::add11", "add"));
    assert!(text_contains("stateTests/add.json::add11", "stateTests"));
    assert!(text_contains("stateTests/add.json::add11", "add11"));
    assert!(text_contains("stateTests/add.json::add11", "json::add"));
    assert!(text_contains("aab", "ab"));
    assert!(!text_contains("stateTests/add.json::add11", "add12"));
    assert!(!text_contains("stateTests/add.json::add11", "sub"));
}

#[test]
fn empty_pattern_is_found_in_every_text() {
    assert!(text_contains("abc", ""));
    assert!(text_contains("", ""));
}

#[test]
fn pattern_longer_than_the_text_is_not_found() {
    assert!(!text_contains("abc", "abcd"));
    assert!(!text_contains("", "a"));
    assert!(text_contains("abc", "abc"));
}

#[test]
fn unit_is_matched_by_path_separator_and_name() {
    let path = label("tests/stExample/add11.json");
    let name = label("add11");
    assert!(unit_selected(None, &path, &name));
    assert!(unit_selected(Some("stExample"), &path, &name));
    assert!(unit_selected(Some("json::add11"), &path, &name));
    assert!(unit_selected(Some("::"), &path, &name));
    assert!(unit_selected(Some(""), &path, &name));
    assert!(!unit_selected(Some("json:add11"), &path, &name));
    assert!(!unit_selected(Some("add11::"), &path, &name));
    assert!(!unit_selected(Some("stOther"), &path, &name));
}

#[test]
fn pattern_is_found_among_characters_of_any_width() {
    assert!(text_contains("añb€c𝄞d", "ñb€"));
    assert!(text_contains("añb€c𝄞d", "𝄞"));
    assert!(text_contains("añb€c𝄞d", "c𝄞d"));
    assert!(!text_contains("añb€c𝄞d", "ñ€"));
    assert!(!text_contains("añb€c𝄞d", "n"));
    assert_eq!(text_contains("añb€c𝄞d", "b€c"), "añb€c𝄞d".contains("b€c"));
}

#[test]
fn unit_is_matched_beyond_ascii() {
    let path = label("tests/überweisung.json");
    let name = label("währung");
    assert!(unit_selected(Some("überweisung.json::währung"), &path, &name));
    assert!(unit_selected(Some("ü"), &path, &name));
    assert!(!unit_selected(Some("ö"), &path, &name));
}

#[test]
fn byte_strings_are_compared_in_full() {
    assert!(same_bytes(&vec![1, 2, 3], &vec![1, 2, 3]));
    assert!(same_bytes(&Vec::new(), &Vec::new()));
    assert!(!same_bytes(&vec![1, 2, 3], &vec![1, 2]));
    assert!(!same_bytes(&vec![1, 2], &vec![1, 2, 3]));
    assert!(!same_bytes(&vec![1, 2, 3], &vec![1, 2, 4]));
    assert!(!same_bytes(&vec![0, 2, 3], &vec![1, 2, 3]));
}

#[test]
fn undeclared_bytes_pass() {
    assert_eq!(check_tx_bytes(None, &vec![0xf8, 0x01]), Ok(()));
}

#[test]
fn declared_bytes_must_be_met() {
    let raw = vec![0xf8, 0x6b, 0x80, 0x01];
    assert_eq!(check_tx_bytes(Some(&raw), &vec![0xf8, 0x6b, 0x80, 0x01]), Ok(()));
    assert_eq!(
        check_tx_bytes(Some(&raw), &vec![0xf8, 0x6b, 0x80, 0x02]),
        Err(TestErrorKind::TxBytesMismatch)
    );
    assert_eq!(
        check_tx_bytes(Some(&raw), &vec![0xf8, 0x6b, 0x80]),
        Err(TestErrorKind::TxBytesMismatch)
    );
    assert_eq!(check_tx_bytes(Some(&raw), &Vec::new()), Err(TestErrorKind::TxBytesMismatch));
}

#[test]
fn any_rejection_meets_a_declared_expectation_under_the_lenient_policy() {
    let expected = label("TR_IntrinsicGas");
    assert!(is_excused(ExceptionPolicy::AnyFailure, Some(&expected), &label("TR_IntrinsicGas")));
    assert!(is_excused(ExceptionPolicy::AnyFailure, Some(&expected), &label("TR_NonceTooLow")));
    assert!(!is_excused(ExceptionPolicy::AnyFailure, None, &label("TR_IntrinsicGas")));
}

#[test]
fn only_the_declared_label_meets_the_expectation_under_the_strict_policy() {
    let expected = label("TR_IntrinsicGas");
    assert!(is_excused(ExceptionPolicy::SameLabel, Some(&expected), &label("TR_IntrinsicGas")));
    assert!(!is_excused(ExceptionPolicy::SameLabel, Some(&expected), &label("TR_NonceTooLow")));
    assert!(!is_excused(ExceptionPolicy::SameLabel, Some(&expected), &label("")));
    assert!(!is_excused(ExceptionPolicy::SameLabel, None, &label("TR_IntrinsicGas")));
}

#[test]
fn gate_failure_is_settled_against_the_expectation() {
    let expected = label("TR_TypeNotSupported");
    assert_eq!(
        process_consensus_check_fail(
            ExceptionPolicy::SameLabel,
            &label("TR_TypeNotSupported"),
            Some(&expected)
        ),
        Ok(())
    );
    assert_eq!(
        process_consensus_check_fail(
            ExceptionPolicy::SameLabel,
            &label("TR_GasLimitReached"),
            Some(&expected)
        ),
        Err(TestErrorKind::ConsensusCheckMismatch)
    );
    assert_eq!(
        process_consensus_check_fail(
            ExceptionPolicy::AnyFailure,
            &label("TR_GasLimitReached"),
            Some(&expected)
        ),
        Ok(())
    );
    assert_eq!(
        process_consensus_check_fail(ExceptionPolicy::AnyFailure, &label("TR_GasLimitReached"), None),
        Err(TestErrorKind::ConsensusCheckMismatch)
    );
}

#[test]
fn expected_rejection_leaves_nothing_to_check() {
    let expected = label("TR_NoFunds");
    let outcome = ExecutionOutcome::Rejected(label("TR_NoFunds"));
    assert_eq!(extract_executed(ExceptionPolicy::SameLabel, &outcome, Some(&expected)), Ok(None));
    assert_eq!(extract_executed(ExceptionPolicy::AnyFailure, &outcome, Some(&expected)), Ok(None));
}

#[test]
fn unexpected_rejection_is_a_mismatch() {
    let outcome = ExecutionOutcome::Rejected(label("TR_NoFunds"));
    assert_eq!(
        extract_executed(ExceptionPolicy::AnyFailure, &outcome, None),
        Err(TestErrorKind::OutcomeMismatch)
    );
    let other = label("TR_NonceTooHigh");
    assert_eq!(
        extract_executed(ExceptionPolicy::SameLabel, &outcome, Some(&other)),
        Err(TestErrorKind::OutcomeMismatch)
    );
    assert_eq!(extract_executed(ExceptionPolicy::AnyFailure, &outcome, Some(&other)), Ok(None));
}

#[test]
fn inclusion_where_a_rejection_was_expected_is_a_mismatch() {
    let executed = Executed::new(21_000, Amount::from_u64(7)).unwrap();
    let outcome = ExecutionOutcome::Included(executed);
    let expected = label("TR_NoFunds");
    assert_eq!(
        extract_executed(ExceptionPolicy::AnyFailure, &outcome, Some(&expected)),
        Err(TestErrorKind::OutcomeMismatch)
    );
    assert_eq!(
        extract_executed(ExceptionPolicy::SameLabel, &outcome, Some(&expected)),
        Err(TestErrorKind::OutcomeMismatch)
    );
}

#[test]
fn inclusion_without_expectation_hands_on_the_charge() {
    let executed = Executed::new(21_000, Amount::from_u64(7)).unwrap();
    let outcome = ExecutionOutcome::Included(executed);
    assert_eq!(extract_executed(ExceptionPolicy::AnyFailure, &outcome, None), Ok(Some(executed)));
    assert_eq!(extract_executed(ExceptionPolicy::SameLabel, &outcome, None), Ok(Some(executed)));
}

#[test]
fn each_stage_names_its_work() {
    let executed = Executed::new(100, Amount::from_u64(3)).unwrap();
    assert_eq!(pending_action(Stage::AwaitState), Action::BuildState);
    assert_eq!(pending_action(Stage::AwaitTransaction), Action::BuildTransaction);
    assert_eq!(pending_action(Stage::AwaitEnv), Action::BuildEnv);
    assert_eq!(pending_action(Stage::AwaitGate), Action::VerifyTransaction);
    assert_eq!(pending_action(Stage::AwaitOutcome), Action::Execute { checked: true });
    assert_eq!(pending_action(Stage::AwaitCommit(Ok(Some(executed)))), Action::CommitState);
    assert_eq!(pending_action(Stage::AwaitCommit(Ok(None))), Action::CommitState);
    assert_eq!(
        pending_action(Stage::AwaitCredit(executed)),
        Action::CreditFeeRecipient { amount: Amount::from_u64(300), space: Space::Ethereum }
    );
    assert_eq!(pending_action(Stage::AwaitPostState), Action::VerifyPostState);
    assert_eq!(pending_action(Stage::Finished(Ok(true))), Action::Finish);
    assert_eq!(pending_action(Stage::Aborted), Action::Abort);
}

#[test]
fn each_stage_takes_its_own_answer_only() {
    assert!(answers(Stage::AwaitState, &Event::StateBuilt));
    assert!(!answers(Stage::AwaitState, &Event::EnvBuilt));
    assert!(answers(Stage::AwaitTransaction, &Event::Transaction(None)));
    assert!(answers(Stage::AwaitGate, &Event::GatePassed));
    assert!(answers(Stage::AwaitGate, &Event::GateFailed(label("x"))));
    assert!(!answers(Stage::AwaitGate, &Event::EngineFault));
    assert!(answers(Stage::AwaitOutcome, &Event::EngineFault));
    assert!(answers(Stage::AwaitOutcome, &Event::Outcome(ExecutionOutcome::Rejected(label("x")))));
    assert!(answers(Stage::AwaitCommit(Ok(None)), &Event::Committed));
    assert!(!answers(Stage::AwaitCommit(Ok(None)), &Event::Credited));
    assert!(answers(Stage::AwaitPostState, &Event::PostState(false)));
    assert!(!answers(Stage::Finished(Ok(true)), &Event::StateBuilt));
    assert!(!answers(Stage::Aborted, &Event::Committed));
}

#[test]
fn a_case_ends_skipped_verified_or_failed() {
    let policy = ExceptionPolicy::SameLabel;
    let plain = Test { txbytes: Some(vec![1, 2]), expect_exception: None };
    let expecting = Test { txbytes: None, expect_exception: Some(label("TR_NoFunds")) };
    let executed = Executed::new(100, Amount::from_u64(3)).unwrap();

    assert_eq!(
        decide(policy, Stage::AwaitTransaction, &expecting, Event::Transaction(None)),
        Verdict::Skipped
    );
    assert_eq!(
        decide(policy, Stage::AwaitTransaction, &plain, Event::Transaction(Some(vec![1, 2]))),
        Verdict::Proceed(Stage::AwaitEnv)
    );
    assert_eq!(
        decide(policy, Stage::AwaitTransaction, &plain, Event::Transaction(Some(vec![1, 3]))),
        Verdict::Failed(TestErrorKind::TxBytesMismatch)
    );
    assert_eq!(
        decide(policy, Stage::AwaitGate, &expecting, Event::GateFailed(label("TR_NoFunds"))),
        Verdict::Skipped
    );
    assert_eq!(
        decide(policy, Stage::AwaitGate, &expecting, Event::GatePassed),
        Verdict::Proceed(Stage::AwaitOutcome)
    );
    assert_eq!(
        decide(
            policy,
            Stage::AwaitOutcome,
            &plain,
            Event::Outcome(ExecutionOutcome::Included(executed))
        ),
        Verdict::Proceed(Stage::AwaitCommit(Ok(Some(executed))))
    );
    assert_eq!(
        decide(
            policy,
            Stage::AwaitOutcome,
            &expecting,
            Event::Outcome(ExecutionOutcome::Included(executed))
        ),
        Verdict::Proceed(Stage::AwaitCommit(Err(TestErrorKind::OutcomeMismatch)))
    );
    assert_eq!(
        decide(policy, Stage::AwaitOutcome, &plain, Event::EngineFault),
        Verdict::Proceed(Stage::Aborted)
    );
    assert_eq!(
        decide(policy, Stage::AwaitCommit(Ok(Some(executed))), &plain, Event::Committed),
        Verdict::Proceed(Stage::AwaitCredit(executed))
    );
    assert_eq!(
        decide(policy, Stage::AwaitCommit(Ok(None)), &expecting, Event::Committed),
        Verdict::Skipped
    );
    assert_eq!(
        decide(
            policy,
            Stage::AwaitCommit(Err(TestErrorKind::OutcomeMismatch)),
            &plain,
            Event::Committed
        ),
        Verdict::Failed(TestErrorKind::OutcomeMismatch)
    );
    assert_eq!(
        decide(policy, Stage::AwaitCredit(executed), &plain, Event::Credited),
        Verdict::Proceed(Stage::AwaitPostState)
    );
    assert_eq!(
        decide(policy, Stage::AwaitPostState, &plain, Event::PostState(true)),
        Verdict::Verified
    );
    assert_eq!(
        decide(policy, Stage::AwaitPostState, &plain, Event::PostState(false)),
        Verdict::Failed(TestErrorKind::PostStateMismatch)
    );
    assert_eq!(
        decide(policy, Stage::AwaitPostState, &plain, Event::Credited),
        Verdict::Proceed(Stage::AwaitPostState)
    );
}
