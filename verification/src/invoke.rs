//! The external-processor invoker: the outcome of running the processor on a
//! selected file is turned into exactly one result string, with a fixed
//! textual marker for each of the two failure forms.

use vstd::prelude::*;
use vstd::string::StringExecFns;
use vstd::utf8::{decode_utf8, valid_utf8};

verus! {

/// How one attempt to run the external processor ended: the process ran to
/// completion with captured output streams, or it could not be started at all.
pub enum ProcessOutcome {
    Exited { success: bool, stdout: Vec<u8>, stderr: Vec<u8> },
    LaunchFailed { description: String },
}

/// The mathematical model of a [`ProcessOutcome`]: byte streams as sequences
/// of bytes, the launch-failure description as a sequence of characters.
pub enum OutcomeModel {
    Exited { success: bool, stdout: Seq<u8>, stderr: Seq<u8> },
    LaunchFailed { description: Seq<char> },
}

impl View for ProcessOutcome {
    type V = OutcomeModel;

    open spec fn view(&self) -> OutcomeModel {
        match self {
            ProcessOutcome::Exited { success, stdout, stderr } => OutcomeModel::Exited {
                success: *success,
                stdout: stdout@,
                stderr: stderr@,
            },
            ProcessOutcome::LaunchFailed { description } => OutcomeModel::LaunchFailed {
                description: description@,
            },
        }
    }
}

/// The three observable classifications of an invocation.
pub enum OutcomeKind {
    Success,
    ExitFailure,
    LaunchFailure,
}

/// Which of the three classifications an outcome falls under.
pub open spec fn outcome_kind(outcome: OutcomeModel) -> OutcomeKind {
    match outcome {
        OutcomeModel::Exited { success, .. } => if success {
            OutcomeKind::Success
        } else {
            OutcomeKind::ExitFailure
        },
        OutcomeModel::LaunchFailed { .. } => OutcomeKind::LaunchFailure,
    }
}

/// The marker prefixed to the result when the processor exits unsuccessfully.
pub open spec fn exit_failure_marker() -> Seq<char> {
    "Error: "@
}

/// The marker prefixed to the result when the processor cannot be started.
pub open spec fn launch_failure_marker() -> Seq<char> {
    "Execution failed: "@
}

/// The text that `String::from_utf8_lossy` decodes the given bytes to: a
/// function of the bytes alone, named here rather than spelled out.
pub uninterp spec fn lossy_decode(bytes: Seq<u8>) -> Seq<char>;

/// Relies on `String::from_utf8_lossy`: the decoding depends on the bytes
/// alone (invalid sequences are replaced, never rejected), and bytes that are
/// valid UTF-8 decode to exactly the scalar values they encode.
#[verifier::external_body]
fn decode_lossy(bytes: &[u8]) -> (text: String)
    ensures
        text@ == lossy_decode(bytes@),
        valid_utf8(bytes@) ==> text@ == decode_utf8(bytes@),
{
    String::from_utf8_lossy(bytes).into_owned()
}

/// The single result string owed to the caller for a given outcome: the
/// decoded standard output verbatim on success, the decoded standard error
/// behind the exit-failure marker on an unsuccessful exit, and the failure
/// description behind the launch-failure marker when no process could start.
pub open spec fn invocation_result(outcome: OutcomeModel) -> Seq<char> {
    match outcome {
        OutcomeModel::Exited { success, stdout, stderr } => if success {
            lossy_decode(stdout)
        } else {
            exit_failure_marker() + lossy_decode(stderr)
        },
        OutcomeModel::LaunchFailed { description } => launch_failure_marker() + description,
    }
}

/// Turns the outcome of one processor run into the result string: exactly one
/// of the three outcome texts, never left unset.
pub fn invoke_result(outcome: &ProcessOutcome) -> (report: String)
    ensures
        report@ == invocation_result(outcome@),
{
    match outcome {
        ProcessOutcome::Exited { success, stdout, stderr } => {
            if *success {
                decode_lossy(stdout.as_slice())
            } else {
                let mut text = String::from_str("Error: ");
                let diagnostic = decode_lossy(stderr.as_slice());
                text.append(diagnostic.as_str());
                text
            }
        },
        ProcessOutcome::LaunchFailed { description } => {
            let mut text = String::from_str("Execution failed: ");
            text.append(description.as_str());
            text
        },
    }
}

/// A successful exit reports the decoded standard output verbatim; the bytes
/// on standard error have no influence on the result.
pub proof fn lemma_success_reports_stdout(stdout: Seq<u8>, stderr1: Seq<u8>, stderr2: Seq<u8>)
    ensures
        invocation_result(OutcomeModel::Exited { success: true, stdout, stderr: stderr1 })
            == lossy_decode(stdout),
        invocation_result(OutcomeModel::Exited { success: true, stdout, stderr: stderr1 })
            == invocation_result(OutcomeModel::Exited { success: true, stdout, stderr: stderr2 }),
{
}

/// An unsuccessful exit reports the exit-failure marker followed by the
/// decoded standard error, and nothing else: the marker is the prefix, the
/// decoded standard error is the remainder, and the bytes on standard output
/// have no influence on the result.
pub proof fn lemma_exit_failure_reports_stderr(stderr: Seq<u8>, stdout1: Seq<u8>, stdout2: Seq<u8>)
    ensures
        invocation_result(OutcomeModel::Exited { success: false, stdout: stdout1, stderr })
            .subrange(0, exit_failure_marker().len() as int) == exit_failure_marker(),
        invocation_result(OutcomeModel::Exited { success: false, stdout: stdout1, stderr })
            .skip(exit_failure_marker().len() as int) == lossy_decode(stderr),
        invocation_result(OutcomeModel::Exited { success: false, stdout: stdout1, stderr })
            == invocation_result(OutcomeModel::Exited { success: false, stdout: stdout2, stderr }),
{
    let full = invocation_result(OutcomeModel::Exited { success: false, stdout: stdout1, stderr });
    assert(full.subrange(0, exit_failure_marker().len() as int) =~= exit_failure_marker());
    assert(full.skip(exit_failure_marker().len() as int) =~= lossy_decode(stderr));
}

/// A launch failure reports the launch-failure marker followed by the failure
/// description, and nothing else; a non-empty description makes the result
/// strictly longer than the marker.
pub proof fn lemma_launch_failure_reports_description(description: Seq<char>)
    ensures
        invocation_result(OutcomeModel::LaunchFailed { description })
            .subrange(0, launch_failure_marker().len() as int) == launch_failure_marker(),
        invocation_result(OutcomeModel::LaunchFailed { description })
            .skip(launch_failure_marker().len() as int) == description,
        description.len() > 0 ==> invocation_result(OutcomeModel::LaunchFailed { description }).len()
            > launch_failure_marker().len(),
{
    let full = invocation_result(OutcomeModel::LaunchFailed { description });
    assert(full.subrange(0, launch_failure_marker().len() as int) =~= launch_failure_marker());
    assert(full.skip(launch_failure_marker().len() as int) =~= description);
}

/// The two failure markers are distinct, and neither is a prefix of the
/// other: the two failure forms can always be told apart by their prefix.
pub proof fn lemma_markers_distinguishable()
    ensures
        exit_failure_marker() != launch_failure_marker(),
        !exit_failure_marker().is_prefix_of(launch_failure_marker()),
        !launch_failure_marker().is_prefix_of(exit_failure_marker()),
{
    reveal_strlit("Error: ");
    reveal_strlit("Execution failed: ");
    assert(exit_failure_marker()[1] != launch_failure_marker()[1]);
}

/// Invocation is deterministic in the outcome: equal outcomes yield the same
/// result text, and in particular the same classification.
pub proof fn lemma_invocation_deterministic(outcome1: OutcomeModel, outcome2: OutcomeModel)
    requires
        outcome1 == outcome2,
    ensures
        invocation_result(outcome1) == invocation_result(outcome2),
        outcome_kind(outcome1) == outcome_kind(outcome2),
{
}

} // verus!
