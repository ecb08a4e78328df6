//! What the remote side answered, and whether it is what a caller expected.

use vstd::prelude::*;

verus! {

/// Status that the remote side reports for a call that went through.
pub const STATUS_OK: u64 = 0;

/// A remote answer as the network layer hands it over: a status, the
/// message that came with it, and the returned values.
#[derive(Debug, Clone, PartialEq, Eq)]
pub struct RawResult {
    pub status: u64,
    pub message: String,
    pub values: Vec<Vec<u8>>,
}

/// A classified answer.
#[derive(Debug, Clone, PartialEq, Eq)]
pub enum RemoteOutcome {
    /// The call went through and returned these values.
    Success(Vec<Vec<u8>>),
    /// The remote side declared a failure.
    Failure { code: u64, message: String },
}

/// A classified answer, with its values and message as sequences.
pub enum OutcomeView {
    Success(Seq<Seq<u8>>),
    Failure { code: u64, message: Seq<char> },
}

/// The returned values as sequences of bytes.
pub open spec fn value_views(values: Seq<Vec<u8>>) -> Seq<Seq<u8>> {
    values.map_values(|v: Vec<u8>| v@)
}

impl View for RemoteOutcome {
    type V = OutcomeView;

    open spec fn view(&self) -> OutcomeView {
        match *self {
            RemoteOutcome::Success(values) => OutcomeView::Success(value_views(values@)),
            RemoteOutcome::Failure { code, message } => OutcomeView::Failure {
                code,
                message: message@,
            },
        }
    }
}

/// How an answer differs from the failure that was expected.
#[derive(Debug, Clone, Copy, PartialEq, Eq, Structural)]
pub enum Mismatch {
    /// The call succeeded where a failure was expected.
    UnexpectedSuccess,
    /// It failed with another code.
    WrongCode,
    /// It failed with the expected code and another message.
    WrongMessage,
}

/// An answer is a success exactly when its status is zero; any other
/// status is a declared failure with that status as its code.
pub open spec fn classified(status: u64, message: Seq<char>, values: Seq<Seq<u8>>) -> OutcomeView {
    if status == STATUS_OK {
        OutcomeView::Success(values)
    } else {
        OutcomeView::Failure { code: status, message }
    }
}

/// An expected failure is met only by a failure with the same code and the
/// same message, character for character.
pub open spec fn checked(outcome: OutcomeView, code: u64, message: Seq<char>) -> Result<
    (),
    Mismatch,
> {
    match outcome {
        OutcomeView::Success(_) => Err(Mismatch::UnexpectedSuccess),
        OutcomeView::Failure { code: c, message: m } => if c != code {
            Err(Mismatch::WrongCode)
        } else if m != message {
            Err(Mismatch::WrongMessage)
        } else {
            Ok(())
        },
    }
}

/// Tells success from declared failure. It never retries and never
/// reinterprets: one answer, one classification.
pub struct ResponseClassifier;

impl ResponseClassifier {
    /// Classifies one raw answer.
    pub fn classify(raw: RawResult) -> (r: RemoteOutcome)
        ensures
            r@ == classified(raw.status, raw.message@, value_views(raw.values@)),
    {
        if raw.status == STATUS_OK {
            RemoteOutcome::Success(raw.values)
        } else {
            RemoteOutcome::Failure { code: raw.status, message: raw.message }
        }
    }

    /// Checks that an outcome is the failure that was expected.
    pub fn assert_expected(outcome: &RemoteOutcome, expected_code: u64, expected_message: &str) -> (r:
        Result<(), Mismatch>)
        ensures
            r == checked(outcome@, expected_code, expected_message@),
    {
        match outcome {
            RemoteOutcome::Success(_) => Err(Mismatch::UnexpectedSuccess),
            RemoteOutcome::Failure { code, message } => {
                if *code != expected_code {
                    Err(Mismatch::WrongCode)
                } else if *message != expected_message.to_owned() {
                    Err(Mismatch::WrongMessage)
                } else {
                    Ok(())
                }
            },
        }
    }
}

/// An answer with a non-zero status is classified as a failure that meets
/// the expectation of exactly its own code and message.
pub proof fn lemma_declared_failure_is_recognised(
    status: u64,
    message: Seq<char>,
    values: Seq<Seq<u8>>,
    code: u64,
    expected: Seq<char>,
)
    requires
        status != STATUS_OK,
    ensures
        checked(classified(status, message, values), code, expected) is Ok <==> (status == code
            && message == expected),
{
}

/// A successful answer meets no expected failure.
pub proof fn lemma_success_meets_no_expectation(
    message: Seq<char>,
    values: Seq<Seq<u8>>,
    code: u64,
    expected: Seq<char>,
)
    ensures
        checked(classified(STATUS_OK, message, values), code, expected) == Err::<(), Mismatch>(
            Mismatch::UnexpectedSuccess,
        ),
{
}

} // verus!
