//! The ways in which an evaluation can fail.

use crate::config::whole_millis;
use crate::decimal::{decimal, spec_decimal};
use std::time::Duration;
use vstd::prelude::*;
use vstd::string::{to_string_from_display_ensures, StringExecFns};

verus! {

/// `std::io::Error`, an error of the operating system or of a stream.
#[verifier::external_type_specification]
#[verifier::external_body]
pub struct ExIoError(std::io::Error);

/// Why an evaluation gave no verdict.
///
/// A caller gets exactly one of these per failed call. The second variant
/// stands for every abnormal end of the child on purpose: a deadline that
/// passed, a kill for want of memory and a crash are not told apart.
#[derive(Debug)]
pub enum SafeJaqError {
    /// The child could not be started or reached, or what it wrote is no
    /// result.
    Command(std::io::Error),
    /// The evaluation went over the time limit or the memory limit, which
    /// are given here.
    LimitExceeded(Duration, u64),
    /// The filter was refused, or failed while it ran; the child's message.
    Evaluation(String),
}

/// Whether `error`, when displayed, reads as `text`.
pub open spec fn spec_reads_as(error: std::io::Error, text: Seq<char>) -> bool {
    exists|words: String| #[trigger]
        to_string_from_display_ensures::<std::io::Error>(&error, words) && words@ == text
}

/// Calls `std::io::Error::other` on a message.
///
/// Believed: the error, when displayed, reads as the message.
#[verifier::external_body]
pub(crate) fn io_error(message: String) -> (error: std::io::Error)
    ensures
        spec_reads_as(error, message@),
{
    std::io::Error::other(message)
}

impl SafeJaqError {
    /// The message of a `LimitExceeded` error with these limits.
    pub open spec fn spec_limit_message(millis: u128, memory_limit: u64) -> Seq<char> {
        "filter evaluation exceeded either the time limit of "@ + spec_decimal(millis as nat)
            + "ms or the memory limit of "@ + spec_decimal(memory_limit as nat) + " bytes"@
    }

    /// The message of an `Evaluation` error with this message from the child.
    pub open spec fn spec_evaluation_message(message: Seq<char>) -> Seq<char> {
        "failed to evaluate the filter: "@ + message
    }

    /// The message of a `Command` error whose cause reads `cause`.
    pub open spec fn spec_command_message(cause: Seq<char>) -> Seq<char> {
        "failed to use the evaluator command: "@ + cause
    }

    /// The error in words, for people to read.
    ///
    /// The message of a `Command` error ends with the cause as it reads
    /// when displayed.
    pub fn message(&self) -> (text: String)
        ensures
            match *self {
                SafeJaqError::Command(cause) => exists|words: Seq<char>|
                    spec_reads_as(cause, words) && text@ == #[trigger] Self::spec_command_message(
                        words,
                    ),
                SafeJaqError::LimitExceeded(time_limit, memory_limit) => text@
                    == Self::spec_limit_message(whole_millis(time_limit), memory_limit),
                SafeJaqError::Evaluation(message) => text@ == Self::spec_evaluation_message(
                    message@,
                ),
            },
    {
        match self {
            SafeJaqError::Command(error) => {
                let cause = error.to_string();
                let text = String::from_str("failed to use the evaluator command: ").concat(
                    cause.as_str(),
                );
                assert(text@ == Self::spec_command_message(cause@));
                text
            },
            SafeJaqError::LimitExceeded(time_limit, memory_limit) => {
                let mut text = String::from_str(
                    "filter evaluation exceeded either the time limit of ",
                );
                text.append(decimal(time_limit.as_millis()).as_str());
                text.append("ms or the memory limit of ");
                text.append(decimal(*memory_limit as u128).as_str());
                text.append(" bytes");
                text
            },
            SafeJaqError::Evaluation(message) => String::from_str(
                "failed to evaluate the filter: ",
            ).concat(message.as_str()),
        }
    }
}

} // verus!
