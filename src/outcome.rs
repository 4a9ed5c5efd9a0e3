use vstd::prelude::*;

verus! {

/// What a test author declares about how a test is meant to end.
#[derive(Clone, Copy, Debug, PartialEq, Eq, Structural)]
pub enum ExpectedFailure {
    /// The test must abort, with any abort code.
    Expected,
    /// The test must abort with exactly this abort code.
    ExpectedWithCode(u64),
}

/// The major status that the virtual machine reports with an error.
#[derive(Clone, Copy, Debug, PartialEq, Eq, Structural)]
pub enum MajorStatus {
    /// The gas budget, and so the step bound, was exhausted.
    OutOfGas,
    /// The program aborted on purpose.
    Aborted,
    /// Any other status, by its numeric code.
    Other(u64),
}

/// An error raised by the virtual machine: a major status and, for an abort,
/// the abort code.
#[derive(Clone, Copy, Debug, PartialEq, Eq, Structural)]
pub struct VmError {
    pub major_status: MajorStatus,
    pub sub_status: Option<u64>,
}

/// How one invocation of a test function ended.
#[derive(Clone, Copy, Debug, PartialEq, Eq, Structural)]
pub enum VmOutcome {
    /// The function returned normally; its return value does not matter.
    Executed,
    /// The virtual machine reported an error.
    Failed(VmError),
}

/// Why a test did not pass.
#[derive(Clone, Copy, Debug, PartialEq, Eq, Structural)]
pub enum FailureReason {
    /// The step bound was exhausted.
    Timeout,
    /// The test aborted with this code though no abort was expected.
    Aborted(u64),
    /// The test aborted with `actual` where `expected` was declared.
    WrongAbortCode { expected: u64, actual: u64 },
    /// An abort was declared but execution completed normally.
    NoAbort,
    /// The virtual machine raised an error that carries no abort code.
    Unknown,
}

/// The verdict on one test.
#[derive(Clone, Copy, Debug, PartialEq, Eq, Structural)]
pub enum Verdict {
    Pass,
    Fail(FailureReason),
}

impl FailureReason {
    pub fn timeout() -> (r: FailureReason)
        ensures
            r == FailureReason::Timeout,
    {
        FailureReason::Timeout
    }

    pub fn aborted(code: u64) -> (r: FailureReason)
        ensures
            r == FailureReason::Aborted(code),
    {
        FailureReason::Aborted(code)
    }

    pub fn wrong_abort(expected: u64, actual: u64) -> (r: FailureReason)
        ensures
            r == (FailureReason::WrongAbortCode { expected, actual }),
    {
        FailureReason::WrongAbortCode { expected, actual }
    }

    pub fn no_abort() -> (r: FailureReason)
        ensures
            r == FailureReason::NoAbort,
    {
        FailureReason::NoAbort
    }

    pub fn unknown() -> (r: FailureReason)
        ensures
            r == FailureReason::Unknown,
    {
        FailureReason::Unknown
    }
}

impl Verdict {
    pub open spec fn spec_is_timeout(self) -> bool {
        self == Verdict::Fail(FailureReason::Timeout)
    }

    /// Whether this verdict is a timeout.
    pub fn is_timeout(&self) -> (r: bool)
        ensures
            r == self.spec_is_timeout(),
    {
        match self {
            Verdict::Fail(FailureReason::Timeout) => true,
            _ => false,
        }
    }

    /// Whether this verdict is a pass.
    pub fn is_pass(&self) -> (r: bool)
        ensures
            r == (*self == Verdict::Pass),
    {
        match self {
            Verdict::Pass => true,
            _ => false,
        }
    }
}

/// The verdict on a test with the declared expectation `expected` whose run
/// ended with `outcome`. Exhaustion of the step bound is decided first, before
/// any expectation is looked at.
pub open spec fn verdict_of(expected: Option<ExpectedFailure>, outcome: VmOutcome) -> Verdict {
    match outcome {
        VmOutcome::Executed => {
            if expected is Some {
                Verdict::Fail(FailureReason::NoAbort)
            } else {
                Verdict::Pass
            }
        },
        VmOutcome::Failed(err) => {
            if err.major_status == MajorStatus::OutOfGas {
                Verdict::Fail(FailureReason::Timeout)
            } else {
                match (expected, err.sub_status) {
                    (None, Some(code)) => Verdict::Fail(FailureReason::Aborted(code)),
                    (Some(ExpectedFailure::ExpectedWithCode(code)), Some(other)) => {
                        if err.major_status == MajorStatus::Aborted && code == other {
                            Verdict::Pass
                        } else {
                            Verdict::Fail(FailureReason::WrongAbortCode { expected: code, actual: other })
                        }
                    },
                    (Some(ExpectedFailure::Expected), Some(_)) => Verdict::Pass,
                    (_, None) => Verdict::Fail(FailureReason::Unknown),
                }
            }
        },
    }
}

/// The error that a failure record keeps: the virtual machine's error, where
/// there was one.
pub open spec fn error_of(outcome: VmOutcome) -> Option<VmError> {
    match outcome {
        VmOutcome::Executed => None,
        VmOutcome::Failed(err) => Some(err),
    }
}

/// Classifies the outcome of one test run against its declared expectation.
pub fn classify(expected: Option<ExpectedFailure>, outcome: &VmOutcome) -> (r: Verdict)
    ensures
        r == verdict_of(expected, *outcome),
{
    match outcome {
        VmOutcome::Executed => {
            if expected.is_some() {
                Verdict::Fail(FailureReason::no_abort())
            } else {
                Verdict::Pass
            }
        },
        VmOutcome::Failed(err) => {
            if err.major_status == MajorStatus::OutOfGas {
                return Verdict::Fail(FailureReason::timeout());
            }
            match (expected, err.sub_status) {
                (None, Some(code)) => Verdict::Fail(FailureReason::aborted(code)),
                (Some(ExpectedFailure::ExpectedWithCode(code)), Some(other)) => {
                    if err.major_status == MajorStatus::Aborted && code == other {
                        Verdict::Pass
                    } else {
                        Verdict::Fail(FailureReason::wrong_abort(code, other))
                    }
                },
                (Some(ExpectedFailure::Expected), Some(_)) => Verdict::Pass,
                (_, None) => Verdict::Fail(FailureReason::unknown()),
            }
        },
    }
}

/// Exhaustion of the step bound is a timeout whatever was declared, also
/// where the declared abort code is the one that the error carries.
pub proof fn lemma_out_of_gas_is_timeout(expected: Option<ExpectedFailure>, err: VmError)
    requires
        err.major_status == MajorStatus::OutOfGas,
    ensures
        verdict_of(expected, VmOutcome::Failed(err)) == Verdict::Fail(FailureReason::Timeout),
{
}

} // verus!
