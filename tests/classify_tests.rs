use move_unit_test::outcome::{
    classify, ExpectedFailure, FailureReason, MajorStatus, Verdict, VmError, VmOutcome,
};

fn abort(code: u64) -> VmOutcome {
    VmOutcome::Failed(VmError { major_status: MajorStatus::Aborted, sub_status: Some(code) })
}

fn out_of_gas() -> VmOutcome {
    VmOutcome::Failed(VmError { major_status: MajorStatus::OutOfGas, sub_status: None })
}

#[test]
fn out_of_gas_is_timeout_for_every_expectation() {
    let expectations = vec![
        None,
        Some(ExpectedFailure::Expected),
        Some(ExpectedFailure::ExpectedWithCode(7)),
    ];
    for e in expectations {
        assert_eq!(classify(e, &out_of_gas()), Verdict::Fail(FailureReason::Timeout));
    }
}

#[test]
fn out_of_gas_with_matching_code_is_timeout() {
    let outcome =
        VmOutcome::Failed(VmError { major_status: MajorStatus::OutOfGas, sub_status: Some(7) });
    let v = classify(Some(ExpectedFailure::ExpectedWithCode(7)), &outcome);
    assert_eq!(v, Verdict::Fail(FailureReason::Timeout));
    assert!(v.is_timeout());
}

#[test]
fn unexpected_abort_records_code() {
    assert_eq!(classify(None, &abort(7)), Verdict::Fail(FailureReason::Aborted(7)));
}

#[test]
fn expected_code_matches() {
    let v = classify(Some(ExpectedFailure::ExpectedWithCode(7)), &abort(7));
    assert_eq!(v, Verdict::Pass);
    assert!(v.is_pass());
}

#[test]
fn expected_code_differs() {
    assert_eq!(
        classify(Some(ExpectedFailure::ExpectedWithCode(7)), &abort(9)),
        Verdict::Fail(FailureReason::WrongAbortCode { expected: 7, actual: 9 })
    );
}

#[test]
fn expected_code_under_other_major_status_is_wrong_code() {
    let outcome =
        VmOutcome::Failed(VmError { major_status: MajorStatus::Other(4000), sub_status: Some(7) });
    assert_eq!(
        classify(Some(ExpectedFailure::ExpectedWithCode(7)), &outcome),
        Verdict::Fail(FailureReason::WrongAbortCode { expected: 7, actual: 7 })
    );
}

#[test]
fn expected_any_abort_passes() {
    assert_eq!(classify(Some(ExpectedFailure::Expected), &abort(3)), Verdict::Pass);
}

#[test]
fn error_without_code_is_unknown() {
    let outcome =
        VmOutcome::Failed(VmError { major_status: MajorStatus::Other(2000), sub_status: None });
    for e in vec![None, Some(ExpectedFailure::Expected), Some(ExpectedFailure::ExpectedWithCode(1))] {
        assert_eq!(classify(e, &outcome), Verdict::Fail(FailureReason::Unknown));
    }
}

#[test]
fn normal_completion_passes_without_expectation() {
    assert_eq!(classify(None, &VmOutcome::Executed), Verdict::Pass);
}

#[test]
fn normal_completion_fails_when_abort_expected() {
    for e in vec![ExpectedFailure::Expected, ExpectedFailure::ExpectedWithCode(7)] {
        assert_eq!(classify(Some(e), &VmOutcome::Executed), Verdict::Fail(FailureReason::NoAbort));
    }
}

#[test]
fn reason_constructors() {
    assert_eq!(FailureReason::timeout(), FailureReason::Timeout);
    assert_eq!(FailureReason::aborted(4), FailureReason::Aborted(4));
    assert_eq!(
        FailureReason::wrong_abort(1, 2),
        FailureReason::WrongAbortCode { expected: 1, actual: 2 }
    );
    assert_eq!(FailureReason::no_abort(), FailureReason::NoAbort);
    assert_eq!(FailureReason::unknown(), FailureReason::Unknown);
}
