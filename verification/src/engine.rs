//! The decisions of the filter engine.
//!
//! The filter language lives in the `jaq` crates, and whoever drives the
//! engine calls them: it compiles the filter, starts the run and draws the
//! results one by one. This module decides what that amounts to: the words
//! of a refusal, and the verdict of a run, which is the first boolean that
//! the run yields, or `false`.

use vstd::prelude::*;
use vstd::string::StringExecFns;

verus! {

/// What one draw from a run brought, as far as the verdict depends on it.
#[derive(Clone, Copy, Debug, PartialEq, Eq, Structural)]
pub enum Output {
    /// The run yielded a boolean.
    Bool(bool),
    /// The run yielded a value that is not a boolean.
    Other,
    /// The run raised an error at this point.
    Failed,
}

/// The step at which a filter was refused.
#[derive(Clone, Copy, Debug, PartialEq, Eq, Structural)]
pub enum Refused {
    /// The text could not be read as a filter.
    Loading,
    /// The text was read, but it could not be compiled.
    Compiling,
}

/// The words in which a refusal is handed to the caller: which step
/// refused the filter, then the errors as the step reported them.
pub open spec fn spec_refusal(step: Refused, errors: Seq<char>) -> Seq<char> {
    match step {
        Refused::Loading => "failed to parse the filter: "@ + errors,
        Refused::Compiling => "failed to compile the filter: "@ + errors,
    }
}

/// Whether the scan of a run is over after `item`, and with which verdict.
///
/// `item` is what a draw brought: a result, or `None` at the end of the run.
pub open spec fn spec_settle(item: Option<Output>) -> Option<bool> {
    match item {
        None => Some(false),
        Some(Output::Bool(value)) => Some(value),
        Some(_) => None,
    }
}

/// Whether each of the first `count` draws brought a value that is no
/// boolean, or an error, so that none of them settles the verdict.
pub open spec fn spec_passed_over(draws: Seq<Option<Output>>, count: int) -> bool {
    forall|place: int| 0 <= place < count ==> spec_settle(#[trigger] draws[place]) is None
}

/// The verdict that a scan reaches on `draws`, taken in order: that of the
/// first draw that settles it. `None` where no draw does, so that the scan
/// goes on.
pub open spec fn spec_scan(draws: Seq<Option<Output>>) -> Option<bool>
    decreases draws.len(),
{
    if draws.len() == 0 {
        None
    } else {
        match spec_settle(draws[0]) {
            Some(verdict) => Some(verdict),
            None => spec_scan(draws.skip(1)),
        }
    }
}

/// The scan stops at the first draw that settles the verdict. What was
/// drawn before is passed over, be it other values or errors, and what
/// would come after is not looked at.
pub proof fn lemma_scan_stops_at_first(draws: Seq<Option<Output>>, at: int, verdict: bool)
    requires
        0 <= at < draws.len(),
        spec_passed_over(draws, at),
        spec_settle(draws[at]) == Some(verdict),
    ensures
        spec_scan(draws) == Some(verdict),
    decreases at,
{
    if at > 0 {
        assert(spec_settle(draws[0]) is None);
        let rest = draws.skip(1);
        assert forall|place: int| 0 <= place < at - 1 implies spec_settle(
            #[trigger] rest[place],
        ) is None by {
            assert(rest[place] == draws[place + 1]);
        }
        lemma_scan_stops_at_first(rest, at - 1, verdict);
    }
}

/// The scan goes on exactly as long as no draw has settled the verdict.
pub proof fn lemma_scan_goes_on(draws: Seq<Option<Output>>)
    ensures
        spec_scan(draws) is None <==> spec_passed_over(draws, draws.len() as int),
    decreases draws.len(),
{
    if draws.len() > 0 {
        let rest = draws.skip(1);
        lemma_scan_goes_on(rest);
        if spec_settle(draws[0]) is None {
            if spec_passed_over(rest, rest.len() as int) {
                assert forall|place: int| 0 <= place < draws.len() implies spec_settle(
                    #[trigger] draws[place],
                ) is None by {
                    if place > 0 {
                        assert(draws[place] == rest[place - 1]);
                    }
                }
            }
            if spec_passed_over(draws, draws.len() as int) {
                assert forall|place: int| 0 <= place < rest.len() implies spec_settle(
                    #[trigger] rest[place],
                ) is None by {
                    assert(rest[place] == draws[place + 1]);
                }
            }
        }
    }
}

/// The first boolean of a run is its verdict, whatever the run yields
/// before it and after it.
pub proof fn lemma_first_boolean_decides(draws: Seq<Option<Output>>, at: int, value: bool)
    requires
        0 <= at < draws.len(),
        draws[at] == Some(Output::Bool(value)),
        forall|place: int|
            0 <= place < at ==> (#[trigger] draws[place] matches Some(output) && !(output
                is Bool)),
    ensures
        spec_scan(draws) == Some(value),
{
    lemma_scan_stops_at_first(draws, at, value);
}

/// A run that ends without having yielded a boolean has the verdict
/// `false`: it may have yielded nothing, or values of other kinds, or
/// errors.
pub proof fn lemma_no_boolean_is_false(draws: Seq<Option<Output>>, end: int)
    requires
        0 <= end < draws.len(),
        draws[end] is None,
        forall|place: int|
            0 <= place < end ==> (#[trigger] draws[place] matches Some(output) && !(output
                is Bool)),
    ensures
        spec_scan(draws) == Some(false),
{
    lemma_scan_stops_at_first(draws, end, false);
}

/// Writes the refusal of a filter for the caller.
pub fn refusal(step: Refused, errors: &str) -> (message: String)
    ensures
        message@ == spec_refusal(step, errors@),
{
    match step {
        Refused::Loading => String::from_str("failed to parse the filter: ").concat(errors),
        Refused::Compiling => String::from_str("failed to compile the filter: ").concat(errors),
    }
}

/// Decides, from what a draw brought, whether the scan of the run is over.
///
/// The driver draws again as long as the answer is `None`, and stops at
/// the first verdict. Results are thus drawn no further than the first
/// boolean, and errors that the run raises on the way are passed over.
pub fn settle(item: Option<Output>) -> (decided: Option<bool>)
    ensures
        decided == spec_settle(item),
{
    match item {
        None => Some(false),
        Some(Output::Bool(value)) => Some(value),
        Some(_) => None,
    }
}

} // verus!
