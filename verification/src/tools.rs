//! What the worker asks of an external tool, and what it hears back.

use crate::text::truncated;
use vstd::prelude::*;

verus! {

/// A program to run, with its arguments.
#[derive(Debug)]
pub struct ToolCommand {
    pub program: String,
    pub args: Vec<String>,
}

/// What a `ToolCommand` holds.
pub struct CommandModel {
    pub program: Seq<char>,
    pub args: Seq<Seq<char>>,
}

/// What a list of arguments holds.
pub open spec fn arg_models(args: Seq<String>) -> Seq<Seq<char>> {
    args.map_values(|a: String| a@)
}

impl View for ToolCommand {
    type V = CommandModel;

    open spec fn view(&self) -> CommandModel {
        CommandModel { program: self.program@, args: arg_models(self.args@) }
    }
}

/// How the run of a tool ended.
#[derive(Debug)]
pub enum ToolRun {
    /// The program could not be started.
    NotStarted,
    /// The program ran and exited; `code` is absent where a signal ended it.
    Exited { code: Option<i32>, stdout: String, stderr: String },
}

/// What a `ToolRun` holds.
pub enum RunModel {
    NotStarted,
    Exited { code: Option<i32>, stdout: Seq<char>, stderr: Seq<char> },
}

impl View for ToolRun {
    type V = RunModel;

    open spec fn view(&self) -> RunModel {
        match self {
            ToolRun::NotStarted => RunModel::NotStarted,
            ToolRun::Exited { code, stdout, stderr } => RunModel::Exited {
                code: *code,
                stdout: stdout@,
                stderr: stderr@,
            },
        }
    }
}

impl RunModel {
    /// A run succeeded when the program exited with status zero.
    pub open spec fn succeeded(self) -> bool {
        self matches RunModel::Exited { code, .. } && code == Some(0i32)
    }
}

impl ToolRun {
    /// Whether the program exited with status zero.
    pub fn succeeded(&self) -> (r: bool)
        ensures
            r == self@.succeeded(),
    {
        match self {
            ToolRun::NotStarted => false,
            ToolRun::Exited { code, .. } => match code {
                Some(c) => *c == 0,
                None => false,
            },
        }
    }
}

/// The adapter that failed.
#[derive(Clone, Copy, Debug, PartialEq, Eq, Structural)]
pub enum ToolErrorKind {
    DownloadFailed,
    ProbeFailed,
    FramesFailed,
    AudioMissing,
    OcrFailed,
}

/// What went wrong with the tool.
#[derive(Clone, Copy, Debug, PartialEq, Eq, Structural)]
pub enum Fault {
    /// The program could not be started.
    NotStarted,
    /// The program exited with a status other than zero.
    ExitStatus,
    /// The program left no output where it was expected.
    OutputMissing,
    /// The program's output could not be read.
    OutputUnreadable,
    /// A tool that is called as a library returned an error.
    Reported,
}

/// The failure of a tool adapter.
#[derive(Debug)]
pub struct ExternalToolError {
    pub kind: ToolErrorKind,
    pub fault: Fault,
    pub tool: String,
    pub exit_code: Option<i32>,
    pub stderr: String,
}

/// What an `ExternalToolError` holds.
pub struct ToolErrorModel {
    pub kind: ToolErrorKind,
    pub fault: Fault,
    pub tool: Seq<char>,
    pub exit_code: Option<i32>,
    pub stderr: Seq<char>,
}

impl View for ExternalToolError {
    type V = ToolErrorModel;

    open spec fn view(&self) -> ToolErrorModel {
        ToolErrorModel {
            kind: self.kind,
            fault: self.fault,
            tool: self.tool@,
            exit_code: self.exit_code,
            stderr: self.stderr@,
        }
    }
}

/// The number of characters of a tool's error output that an error keeps.
pub const STDERR_LIMIT: usize = 2048;

/// The first `STDERR_LIMIT` characters of a tool's error output.
pub open spec fn kept_stderr(stderr: Seq<char>) -> Seq<char> {
    if stderr.len() <= STDERR_LIMIT {
        stderr
    } else {
        stderr.subrange(0, STDERR_LIMIT as int)
    }
}

/// The error of a tool whose run did not succeed: not started, or exited
/// with a status other than zero.
pub open spec fn run_failure(kind: ToolErrorKind, tool: Seq<char>, run: RunModel) -> ToolErrorModel {
    match run {
        RunModel::NotStarted => ToolErrorModel {
            kind,
            fault: Fault::NotStarted,
            tool,
            exit_code: None,
            stderr: Seq::empty(),
        },
        RunModel::Exited { code, stdout, stderr } => ToolErrorModel {
            kind,
            fault: Fault::ExitStatus,
            tool,
            exit_code: code,
            stderr: kept_stderr(stderr),
        },
    }
}

/// The error of a tool that ran but whose output is missing or unreadable.
pub open spec fn output_failure(
    kind: ToolErrorKind,
    fault: Fault,
    tool: Seq<char>,
    run: RunModel,
) -> ToolErrorModel {
    match run {
        RunModel::NotStarted => ToolErrorModel {
            kind,
            fault,
            tool,
            exit_code: None,
            stderr: Seq::empty(),
        },
        RunModel::Exited { code, stdout, stderr } => ToolErrorModel {
            kind,
            fault,
            tool,
            exit_code: code,
            stderr: kept_stderr(stderr),
        },
    }
}

/// What an adapter was running its tool for, as the description of a tool
/// that could not be started says it.
pub open spec fn purpose(kind: ToolErrorKind) -> Seq<char> {
    match kind {
        ToolErrorKind::FramesFailed => " for frame extraction"@,
        ToolErrorKind::AudioMissing => " for audio extraction"@,
        _ => ""@,
    }
}

/// The text that describes a tool's failure.
pub open spec fn description(error: ToolErrorModel) -> Seq<char> {
    match error.fault {
        Fault::NotStarted => "Failed to execute "@ + error.tool + purpose(error.kind),
        Fault::ExitStatus => error.tool + " failed: "@ + error.stderr,
        Fault::OutputMissing => match error.kind {
            ToolErrorKind::DownloadFailed => "Downloaded video file not found"@,
            ToolErrorKind::AudioMissing => "Audio file was not created"@,
            _ => error.tool + " left no output"@,
        },
        Fault::OutputUnreadable => error.tool + " output could not be read"@,
        Fault::Reported => error.tool + " failed: "@ + error.stderr,
    }
}

/// The error of a tool that is called as a library and returned an error
/// with the text `detail`.
pub open spec fn reported_failure(kind: ToolErrorKind, tool: Seq<char>, detail: Seq<char>) -> ToolErrorModel {
    ToolErrorModel {
        kind,
        fault: Fault::Reported,
        tool,
        exit_code: None,
        stderr: kept_stderr(detail),
    }
}

impl ExternalToolError {
    /// The error of a tool whose run did not succeed.
    pub fn of_run(kind: ToolErrorKind, tool: &str, run: &ToolRun) -> (r: ExternalToolError)
        ensures
            r@ == run_failure(kind, tool@, run@),
    {
        match run {
            ToolRun::NotStarted => ExternalToolError {
                kind,
                fault: Fault::NotStarted,
                tool: tool.to_string(),
                exit_code: None,
                stderr: String::new(),
            },
            ToolRun::Exited { code, stdout: _, stderr } => ExternalToolError {
                kind,
                fault: Fault::ExitStatus,
                tool: tool.to_string(),
                exit_code: *code,
                stderr: truncated(stderr.as_str(), STDERR_LIMIT),
            },
        }
    }

    /// The error of a tool that ran but whose output is missing or unreadable.
    pub fn of_output(kind: ToolErrorKind, fault: Fault, tool: &str, run: &ToolRun) -> (r:
        ExternalToolError)
        ensures
            r@ == output_failure(kind, fault, tool@, run@),
    {
        match run {
            ToolRun::NotStarted => ExternalToolError {
                kind,
                fault,
                tool: tool.to_string(),
                exit_code: None,
                stderr: String::new(),
            },
            ToolRun::Exited { code, stdout: _, stderr } => ExternalToolError {
                kind,
                fault,
                tool: tool.to_string(),
                exit_code: *code,
                stderr: truncated(stderr.as_str(), STDERR_LIMIT),
            },
        }
    }

    /// The error of a tool that is called as a library and returned an error
    /// with the text `detail`.
    pub fn reported(kind: ToolErrorKind, tool: &str, detail: &str) -> (r: ExternalToolError)
        ensures
            r@ == reported_failure(kind, tool@, detail@),
    {
        ExternalToolError {
            kind,
            fault: Fault::Reported,
            tool: tool.to_string(),
            exit_code: None,
            stderr: truncated(detail, STDERR_LIMIT),
        }
    }

    /// The text that describes the failure.
    pub fn describe(&self) -> (r: String)
        ensures
            r@ == description(self@),
    {
        match self.fault {
            Fault::NotStarted => {
                let purpose = match self.kind {
                    ToolErrorKind::FramesFailed => " for frame extraction",
                    ToolErrorKind::AudioMissing => " for audio extraction",
                    _ => "",
                };
                "Failed to execute ".to_string().concat(self.tool.as_str()).concat(purpose)
            },
            Fault::ExitStatus => self.tool.clone().concat(" failed: ").concat(
                self.stderr.as_str(),
            ),
            Fault::OutputMissing => match self.kind {
                ToolErrorKind::DownloadFailed => "Downloaded video file not found".to_string(),
                ToolErrorKind::AudioMissing => "Audio file was not created".to_string(),
                _ => self.tool.clone().concat(" left no output"),
            },
            Fault::OutputUnreadable => self.tool.clone().concat(" output could not be read"),
            Fault::Reported => self.tool.clone().concat(" failed: ").concat(self.stderr.as_str()),
        }
    }
}

/// A list of arguments, each a copy of the text at its place.
pub fn arguments(texts: &Vec<&str>) -> (r: Vec<String>)
    ensures
        r@.len() == texts@.len(),
        forall|i: int| 0 <= i < texts@.len() ==> (#[trigger] r@[i])@ == texts@[i]@,
{
    let mut r: Vec<String> = Vec::new();
    let mut i: usize = 0;
    while i < texts.len()
        invariant
            i <= texts.len(),
            r@.len() == i,
            forall|j: int| 0 <= j < i ==> (#[trigger] r@[j])@ == texts@[j]@,
        decreases texts.len() - i,
    {
        r.push(texts[i].to_string());
        i += 1;
    }
    r
}

} // verus!
