//! The decisions of one print job.
//!
//! A job alternates outside work (staging the image, reading it back, running
//! the native tool) with decisions. The decisions are made here: every step
//! takes the outcome of the work that was asked for and answers with the next
//! [`Action`]. Each action that asks for work carries the state of the job,
//! which only the fitting outcome can be handed to; a job that has ended
//! carries nothing but its result.

use vstd::prelude::*;
use crate::command::{
    posix_print_args, posix_print_command, print_script, windows_print_args,
    windows_print_command, Invocation,
};
use crate::outcome::{
    failure, failure_text, process_report, report_process, success, success_text, ErrorKind,
    PrintResult, Status,
};
use crate::platform::{decode_lossy, utf8_lossy, Platform, ProcessOutput};
use crate::retry::{after_attempt, verdict, ReadVerdict, MAX_READ_ATTEMPTS};
use crate::scaling::{render_size, scaled_height, STRIP_WIDTH};
use crate::staging::StagedFile;

verus! {

/// What is reported of an image that was decoded and has no width.
pub const NO_WIDTH: &'static str = "the image has no width";

/// What one call asks to have printed, and where.
#[derive(Clone, Debug)]
pub struct PrintJob {
    /// The image, as the bytes of a raster file.
    pub image: Vec<u8>,
    /// The name of the target printer, as the host knows it.
    pub printer: String,
}

/// A job whose image is to be staged.
#[derive(Debug)]
pub struct Staging {
    platform: Platform,
    printer: String,
    image: Vec<u8>,
}

/// A job on a Windows host whose staged image is to be read back.
#[derive(Debug)]
pub struct Reading {
    printer: String,
    path: String,
    made: u32,
}

/// A job whose native tool is to be run.
#[derive(Debug)]
pub struct Running {
    platform: Platform,
    printer: String,
}

/// How reading the staged image back ended.
#[derive(Clone, Debug)]
pub enum ReadOutcome {
    /// The file could not be read.
    Failed,
    /// The file was read and holds an image of this size, in pixels.
    Image { width: u32, height: u32 },
    /// The file was read and does not hold an image.
    Rejected { reason: String },
}

/// What a job asks for next.
#[derive(Debug)]
pub enum Action {
    /// Write the image to a new file, flush it and close it.
    Stage { job: Staging },
    /// Pause for `delay_ms` milliseconds, then read the staged file and
    /// decode it.
    ReadBack { job: Reading, delay_ms: u64 },
    /// Run the native tool and wait for it to end.
    Run { job: Running, invocation: Invocation },
    /// Nothing more: the job has ended.
    Finish { result: PrintResult },
}

impl Staging {
    /// The family of the host.
    pub closed spec fn platform(&self) -> Platform {
        self.platform
    }

    /// The name of the target printer.
    pub closed spec fn printer(&self) -> Seq<char> {
        self.printer@
    }

    /// The bytes to stage.
    pub closed spec fn image(&self) -> Seq<u8> {
        self.image@
    }

    /// The bytes to write to the staged file.
    pub fn image_bytes(&self) -> (bytes: &[u8])
        ensures
            bytes@ == self.image(),
    {
        self.image.as_slice()
    }

    /// Takes the outcome of staging: the file, or the reason why there is
    /// none. Without a file the job fails at once and no tool is run. With
    /// one, a POSIX host submits it as it is; a Windows host first reads it
    /// back, without delay.
    pub fn staged(self, outcome: Result<StagedFile, String>) -> (action: Action)
        ensures
            match outcome {
                Err(reason) => action matches Action::Finish { result } && result@ == (
                    Status::Failure,
                    failure_text(ErrorKind::StagingIo, reason@),
                ) && result.is_definite(),
                Ok(file) => match self.platform() {
                    Platform::Posix => action matches Action::Run { job, invocation }
                        && job.platform() == Platform::Posix && job.printer() == self.printer()
                        && invocation.runs("lp"@, posix_print_args(self.printer(), file.path@)),
                    Platform::Windows => action matches Action::ReadBack { job, delay_ms }
                        && delay_ms == 0 && job.printer() == self.printer() && job.path()
                        == file.path@ && job.made() == 0,
                },
            },
    {
        match outcome {
            Err(reason) => Action::Finish {
                result: failure(ErrorKind::StagingIo, reason.as_str()),
            },
            Ok(file) => match self.platform {
                Platform::Posix => {
                    let invocation = posix_print_command(
                        self.printer.as_str(),
                        file.path.as_str(),
                    );
                    Action::Run {
                        job: Running { platform: Platform::Posix, printer: self.printer },
                        invocation,
                    }
                },
                Platform::Windows => Action::ReadBack {
                    job: Reading { printer: self.printer, path: file.path, made: 0 },
                    delay_ms: 0,
                },
            },
        }
    }
}

impl Reading {
    #[verifier::type_invariant]
    spec fn within_budget(&self) -> bool {
        self.made < MAX_READ_ATTEMPTS
    }

    /// The name of the target printer.
    pub closed spec fn printer(&self) -> Seq<char> {
        self.printer@
    }

    /// The path of the staged file.
    pub closed spec fn path(&self) -> Seq<char> {
        self.path@
    }

    /// The number of reads made so far, all in vain.
    pub closed spec fn made(&self) -> nat {
        self.made as nat
    }

    /// The path of the file to read.
    pub fn staged_path(&self) -> (path: &str)
        ensures
            path@ == self.path(),
    {
        self.path.as_str()
    }

    /// Takes the outcome of one read. A read that failed is made again after
    /// the pause, unless the budget is spent: then the job fails with the
    /// path that timed out. An image is drawn at the strip's width, its
    /// height scaled alike; what cannot be drawn fails the job.
    pub fn read(self, outcome: ReadOutcome) -> (action: Action)
        ensures
            match outcome {
                ReadOutcome::Failed => match verdict(self.made() + 1, false) {
                    ReadVerdict::Retry { delay_ms: pause } => action matches Action::ReadBack {
                        job,
                        delay_ms,
                    } && delay_ms == pause && job.printer() == self.printer() && job.path()
                        == self.path() && job.made() == self.made() + 1,
                    _ => action matches Action::Finish { result } && result@ == (
                        Status::Failure,
                        failure_text(ErrorKind::DriverTimeout, self.path()),
                    ) && result.is_definite(),
                },
                ReadOutcome::Image { width, height } => if width > 0 {
                    action matches Action::Run { job, invocation } && job.platform()
                        == Platform::Windows && job.printer() == self.printer()
                        && invocation.runs(
                        "powershell"@,
                        windows_print_args(
                            print_script(
                                self.printer(),
                                self.path(),
                                STRIP_WIDTH as nat,
                                scaled_height(width as nat, height as nat),
                            ),
                        ),
                    )
                } else {
                    action matches Action::Finish { result } && result@ == (
                        Status::Failure,
                        failure_text(ErrorKind::DriverExecution, NO_WIDTH@),
                    ) && result.is_definite()
                },
                ReadOutcome::Rejected { reason } => action matches Action::Finish { result }
                    && result@ == (
                    Status::Failure,
                    failure_text(ErrorKind::DriverExecution, reason@),
                ) && result.is_definite(),
            },
    {
        proof {
            use_type_invariant(&self);
        }
        match outcome {
            ReadOutcome::Failed => {
                let made = self.made + 1;
                match after_attempt(made, false) {
                    ReadVerdict::Retry { delay_ms } => Action::ReadBack {
                        job: Reading { printer: self.printer, path: self.path, made },
                        delay_ms,
                    },
                    _ => Action::Finish {
                        result: failure(ErrorKind::DriverTimeout, self.path.as_str()),
                    },
                }
            },
            ReadOutcome::Image { width, height } => match render_size(width, height) {
                Some(size) => {
                    let invocation = windows_print_command(
                        self.printer.as_str(),
                        self.path.as_str(),
                        size,
                    );
                    Action::Run {
                        job: Running { platform: Platform::Windows, printer: self.printer },
                        invocation,
                    }
                },
                None => Action::Finish { result: failure(ErrorKind::DriverExecution, NO_WIDTH) },
            },
            ReadOutcome::Rejected { reason } => Action::Finish {
                result: failure(ErrorKind::DriverExecution, reason.as_str()),
            },
        }
    }
}

/// Whether a native print tool that ended this way has failed. Any exit
/// status but zero is a failure. On a Windows host so is anything at all on
/// the diagnostic stream, since the scripting host may report an error there
/// and still exit with zero.
pub open spec fn exit_failed(platform: Platform, exit_code: Option<i32>, stderr: Seq<char>) -> bool {
    exit_code != Some(0i32) || (platform == Platform::Windows && stderr.len() > 0)
}

/// The result of a job whose native tool ended this way.
pub open spec fn exit_verdict(
    platform: Platform,
    printer: Seq<char>,
    exit_code: Option<i32>,
    stdout: Seq<char>,
    stderr: Seq<char>,
) -> (Status, Seq<char>) {
    if exit_failed(platform, exit_code, stderr) {
        (
            Status::Failure,
            failure_text(ErrorKind::DriverExecution, process_report(exit_code, stdout, stderr)),
        )
    } else {
        (Status::Success, success_text(printer))
    }
}

/// Judges how the native print tool ended, from its exit status and the text
/// of its two streams.
pub fn judge_exit(
    platform: Platform,
    printer: &str,
    exit_code: Option<i32>,
    stdout: &str,
    stderr: &str,
) -> (result: PrintResult)
    ensures
        result@ == exit_verdict(platform, printer@, exit_code, stdout@, stderr@),
        result.is_definite(),
{
    let clean_exit = match exit_code {
        Some(code) => code == 0,
        None => false,
    };
    let complained = match platform {
        Platform::Windows => !stderr.is_empty(),
        Platform::Posix => false,
    };
    if !clean_exit || complained {
        let report = report_process(exit_code, stdout, stderr);
        failure(ErrorKind::DriverExecution, report.as_str())
    } else {
        success(printer)
    }
}

impl Running {
    /// The family of the host.
    pub closed spec fn platform(&self) -> Platform {
        self.platform
    }

    /// The name of the target printer.
    pub closed spec fn printer(&self) -> Seq<char> {
        self.printer@
    }

    /// Takes the outcome of running the native tool: what it left behind, or
    /// the reason why it could not be launched. The job ends either way.
    pub fn exited(self, outcome: Result<ProcessOutput, String>) -> (result: PrintResult)
        ensures
            result@ == (match outcome {
                Err(reason) => (Status::Failure, failure_text(ErrorKind::ProcessSpawn, reason@)),
                Ok(output) => exit_verdict(
                    self.platform(),
                    self.printer(),
                    output.exit_code,
                    utf8_lossy(output.stdout@),
                    utf8_lossy(output.stderr@),
                ),
            }),
            result.is_definite(),
    {
        match outcome {
            Err(reason) => failure(ErrorKind::ProcessSpawn, reason.as_str()),
            Ok(output) => {
                let stdout = decode_lossy(output.stdout.as_slice());
                let stderr = decode_lossy(output.stderr.as_slice());
                judge_exit(
                    self.platform,
                    self.printer.as_str(),
                    output.exit_code,
                    stdout.as_str(),
                    stderr.as_str(),
                )
            },
        }
    }
}

/// Opens a job on a host of the given family. The first thing a job asks
/// for is to have its image staged.
pub fn dispatch(platform: Platform, job: PrintJob) -> (action: Action)
    ensures
        action matches Action::Stage { job: staging } && staging.platform() == platform
            && staging.printer() == job.printer@ && staging.image() == job.image@,
{
    Action::Stage { job: Staging { platform, printer: job.printer, image: job.image } }
}

} // verus!
