//! The one result that every job ends in, and the texts of its failures.

use vstd::prelude::*;
use vstd::string::StringExecFns;
use crate::decimal::{push_signed_decimal, signed_decimal};

verus! {

/// The two ways a job can end.
#[derive(Clone, Copy, Debug, PartialEq, Eq, Structural)]
pub enum Status {
    Success,
    Failure,
}

/// Where a failure came from.
#[derive(Clone, Copy, Debug, PartialEq, Eq, Structural)]
pub enum ErrorKind {
    /// The image could not be written, flushed or closed.
    StagingIo,
    /// The native print tool could not be launched.
    ProcessSpawn,
    /// The staged file stayed unreadable for the whole retry budget.
    DriverTimeout,
    /// The native print tool ran and signalled a failure.
    DriverExecution,
}

/// How a job ended, with a message for a human reader.
#[derive(Clone, Debug)]
pub struct PrintResult {
    pub status: Status,
    pub detail: String,
}

impl View for PrintResult {
    type V = (Status, Seq<char>);

    /// The status and the characters of the message.
    open spec fn view(&self) -> (Status, Seq<char>) {
        (self.status, self.detail@)
    }
}

impl PrintResult {
    /// A result is definite when it carries a message.
    pub open spec fn is_definite(&self) -> bool {
        self.detail@.len() > 0
    }

    /// Whether the job succeeded.
    pub fn is_success(&self) -> (b: bool)
        ensures
            b == (self.status == Status::Success),
    {
        match self.status {
            Status::Success => true,
            Status::Failure => false,
        }
    }
}

/// The words that open the message of a failure of each kind.
pub open spec fn label(kind: ErrorKind) -> Seq<char> {
    match kind {
        ErrorKind::StagingIo => "could not stage the image: "@,
        ErrorKind::ProcessSpawn => "could not launch the print tool: "@,
        ErrorKind::DriverTimeout => "timed out reading the staged file: "@,
        ErrorKind::DriverExecution => "the print driver reported a failure: "@,
    }
}

/// The message of a failure: the label of its kind, then the detail as it
/// was reported.
pub open spec fn failure_text(kind: ErrorKind, detail: Seq<char>) -> Seq<char> {
    label(kind) + detail
}

/// The message of a success.
pub open spec fn success_text(printer: Seq<char>) -> Seq<char> {
    "sent to "@ + printer
}

/// What a native tool left behind, in one line: its exit status, then what
/// it wrote to each stream.
pub open spec fn process_report(
    exit_code: Option<i32>,
    stdout: Seq<char>,
    stderr: Seq<char>,
) -> Seq<char> {
    "exit status "@ + (match exit_code {
        Some(code) => signed_decimal(code as int),
        None => "unknown"@,
    }) + "; stdout: "@ + stdout + "; stderr: "@ + stderr
}

/// The label of a kind of failure is never empty.
pub proof fn lemma_label_not_empty(kind: ErrorKind)
    ensures
        label(kind).len() > 0,
{
    reveal_strlit("could not stage the image: ");
    reveal_strlit("could not launch the print tool: ");
    reveal_strlit("timed out reading the staged file: ");
    reveal_strlit("the print driver reported a failure: ");
}

/// The failure of the given kind, reported with `detail`.
pub fn failure(kind: ErrorKind, detail: &str) -> (result: PrintResult)
    ensures
        result.status == Status::Failure,
        result.detail@ == failure_text(kind, detail@),
        result.is_definite(),
{
    let mut text = match kind {
        ErrorKind::StagingIo => "could not stage the image: ".to_owned(),
        ErrorKind::ProcessSpawn => "could not launch the print tool: ".to_owned(),
        ErrorKind::DriverTimeout => "timed out reading the staged file: ".to_owned(),
        ErrorKind::DriverExecution => "the print driver reported a failure: ".to_owned(),
    };
    text.append(detail);
    proof {
        lemma_label_not_empty(kind);
    }
    PrintResult { status: Status::Failure, detail: text }
}

/// The success of a job sent to `printer`.
pub fn success(printer: &str) -> (result: PrintResult)
    ensures
        result.status == Status::Success,
        result.detail@ == success_text(printer@),
        result.is_definite(),
{
    let mut text = "sent to ".to_owned();
    text.append(printer);
    proof {
        reveal_strlit("sent to ");
    }
    PrintResult { status: Status::Success, detail: text }
}

/// Writes out what a native tool left behind: see [`process_report`].
pub fn report_process(exit_code: Option<i32>, stdout: &str, stderr: &str) -> (report: String)
    ensures
        report@ == process_report(exit_code, stdout@, stderr@),
{
    let mut report = "exit status ".to_owned();
    match exit_code {
        Some(code) => push_signed_decimal(&mut report, code),
        None => report.append("unknown"),
    }
    report.append("; stdout: ");
    report.append(stdout);
    report.append("; stderr: ");
    report.append(stderr);
    report
}

} // verus!
