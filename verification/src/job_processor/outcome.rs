//! What a finished task execution can report, and the text recorded for a
//! failure.

use vstd::prelude::*;
use vstd::string::StringExecFns;

verus! {

/// Why a job did not produce its artifacts.
#[derive(Debug)]
pub enum JobFailure {
    /// The execution ran to its end and reported an error with this text.
    Logical { error: String },
    /// The execution unit crashed; `payload` is the text it crashed with, if
    /// it left one.
    Panicked { payload: Option<String> },
    /// The execution unit was torn down before it completed.
    Cancelled,
}

/// How a task execution ended.
#[derive(Debug)]
pub enum TaskOutcome<A> {
    /// The execution finished and produced artifacts.
    Success(A),
    /// The execution reported an error or terminated abnormally.
    Failure(JobFailure),
}

impl JobFailure {
    /// Whether the execution unit ended without completing, as opposed to
    /// reporting an error of its own.
    pub open spec fn is_abnormal(&self) -> bool {
        !(self is Logical)
    }

    /// The text recorded for this failure: the reported error as it is, the
    /// crash payload where there is a non-empty one, and a fixed phrase
    /// otherwise.
    pub open spec fn message_spec(&self) -> Seq<char> {
        match self {
            JobFailure::Logical { error } => error@,
            JobFailure::Panicked { payload: Some(text) } => if text@.len() > 0 {
                text@
            } else {
                "Unknown panic"@
            },
            JobFailure::Panicked { payload: None } => "Unknown panic"@,
            JobFailure::Cancelled => "Cancelled task"@,
        }
    }

    /// Tells logical failure from abnormal termination.
    pub fn terminated_abnormally(&self) -> (abnormal: bool)
        ensures
            abnormal == self.is_abnormal(),
    {
        match self {
            JobFailure::Logical { .. } => false,
            _ => true,
        }
    }

    /// The text to record for this failure.
    pub fn message(&self) -> (text: String)
        ensures
            text@ == self.message_spec(),
            self.is_abnormal() ==> text@.len() > 0,
    {
        proof {
            if self.is_abnormal() {
                lemma_abnormal_message_nonempty(*self);
            }
        }
        match self {
            JobFailure::Logical { error } => error.clone(),
            JobFailure::Panicked { payload: Some(text) } => {
                if text.as_str().is_empty() {
                    String::from_str("Unknown panic")
                } else {
                    text.clone()
                }
            },
            JobFailure::Panicked { payload: None } => String::from_str("Unknown panic"),
            JobFailure::Cancelled => String::from_str("Cancelled task"),
        }
    }
}

/// The text recorded for an abnormal termination is never empty.
pub proof fn lemma_abnormal_message_nonempty(failure: JobFailure)
    requires
        failure.is_abnormal(),
    ensures
        failure.message_spec().len() > 0,
{
    reveal_strlit("Unknown panic");
    reveal_strlit("Cancelled task");
}

} // verus!
