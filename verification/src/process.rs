//! One external command: its description, what was captured of it, and what
//! follows from the way it ended.

use crate::console::{err, out, Console, Line, Stream};
use crate::exit_code::{decimal, ExitCode};
use crate::text::{decode, joined};
use crate::verbosity::Verbosity;
use vstd::prelude::*;
use vstd::string::StringExecFns;
use vstd::utf8::{decode_utf8, valid_utf8};

verus! {

/// What the operating system reported of one attempt to run a command.
#[derive(Clone, Debug, PartialEq, Eq)]
pub enum Report {
    /// The command could not be started at all.
    NotLaunched,
    /// The command was started and has ended.
    Finished {
        /// The exit status, or `None` where the command did not end by
        /// itself but was terminated by a signal.
        status: Option<i32>,
        /// Everything the command wrote to its standard output.
        stdout: Vec<u8>,
        /// Everything the command wrote to its standard error.
        stderr: Vec<u8>,
    },
}

impl Report {
    /// How an attempt is classified:
    ///
    /// * `Unavailable`: the command could not be started;
    /// * `OsErr`: it was terminated by a signal;
    /// * `DataErr`: its output is not valid UTF-8;
    /// * `Success`: it ended by itself, with whatever exit status, and its
    ///   output is text.
    pub open spec fn status(self) -> ExitCode {
        match self {
            Report::NotLaunched => ExitCode::Unavailable,
            Report::Finished { status, stdout, stderr } => {
                if status is None {
                    ExitCode::OsErr
                } else if !valid_utf8(stderr@) || !valid_utf8(stdout@) {
                    ExitCode::DataErr
                } else {
                    ExitCode::Success
                }
            },
        }
    }
}

/// The settings for a process to be invoked, and what was captured of its
/// last execution.
#[derive(Clone, Debug)]
pub struct Process {
    application: String,
    arguments: Vec<String>,
    exit: i32,
    stderr: String,
    stdout: String,
    verbosity: Verbosity,
}

/// The mathematical value of a [`Process`].
pub struct ProcessView {
    /// The application to call.
    pub application: Seq<char>,
    /// The command line arguments to pass, in their order.
    pub arguments: Seq<Seq<char>>,
    /// The exit status of the last execution; 0 before the first one.
    pub exit: i32,
    /// What the last execution wrote to its standard error.
    pub stderr: Seq<char>,
    /// What the last execution wrote to its standard output.
    pub stdout: Seq<char>,
    /// The verbosity level.
    pub verbosity: Verbosity,
}

impl View for Process {
    type V = ProcessView;

    closed spec fn view(&self) -> ProcessView {
        ProcessView {
            application: self.application@,
            arguments: self.arguments.deep_view(),
            exit: self.exit,
            stderr: self.stderr@,
            stdout: self.stdout@,
            verbosity: self.verbosity,
        }
    }
}

impl ProcessView {
    /// A description that was never executed: exit status 0 and no output.
    pub open spec fn fresh(
        application: Seq<char>,
        arguments: Seq<Seq<char>>,
        verbosity: Verbosity,
    ) -> ProcessView {
        ProcessView {
            application,
            arguments,
            exit: 0,
            stderr: Seq::empty(),
            stdout: Seq::empty(),
            verbosity,
        }
    }

    /// The call line: the application, then every argument in its order with
    /// one space in front of it.
    pub open spec fn command_line(self) -> Seq<char> {
        self.application + joined(self.arguments)
    }

    /// Whether the exit status is 0, the one status that stands for success.
    pub open spec fn success(self) -> bool {
        self.exit == 0
    }

    /// What is written before the command is launched: the call line on the
    /// standard output, unless the verbosity is `Silent`.
    pub open spec fn announcement(self) -> Seq<Line> {
        if self.verbosity.rank() > 0 {
            seq![out(self.command_line() + "\n"@)]
        } else {
            Seq::empty()
        }
    }

    /// The description after an attempt was recorded.
    ///
    /// Nothing changes where the command was not launched or was terminated
    /// by a signal.  Otherwise the exit status is stored as it is, then the
    /// standard error, then the standard output; storing stops at the first
    /// stream that is not valid UTF-8.
    pub open spec fn recorded(self, report: Report) -> ProcessView {
        match report {
            Report::NotLaunched => self,
            Report::Finished { status, stdout, stderr } => match status {
                None => self,
                Some(code) => {
                    if !valid_utf8(stderr@) {
                        ProcessView { exit: code, ..self }
                    } else if !valid_utf8(stdout@) {
                        ProcessView { exit: code, stderr: decode_utf8(stderr@), ..self }
                    } else {
                        ProcessView {
                            exit: code,
                            stderr: decode_utf8(stderr@),
                            stdout: decode_utf8(stdout@),
                            ..self
                        }
                    }
                },
            },
        }
    }

    /// The captured output as it is echoed at verbosity `Chatty`: the
    /// standard output followed by a line break on the standard output, then
    /// the standard error as it is on the standard error, each one only if it
    /// is not empty.  Nothing is echoed at the other levels.
    pub open spec fn echo(self) -> Seq<Line> {
        if self.verbosity == Verbosity::Chatty {
            (if self.stdout.len() > 0 {
                seq![out(self.stdout + "\n"@)]
            } else {
                Seq::empty()
            }) + (if self.stderr.len() > 0 {
                seq![err(self.stderr)]
            } else {
                Seq::empty()
            })
        } else {
            Seq::empty()
        }
    }

    /// What is written while an attempt is recorded: the echo of the
    /// captured output, and only where the attempt is classified as
    /// `Success`.
    pub open spec fn echoed(self, report: Report) -> Seq<Line> {
        if report.status() == ExitCode::Success {
            self.recorded(report).echo()
        } else {
            Seq::empty()
        }
    }

    /// The text that reports a failed command: the given message followed by
    /// a line break, or, where none is given, the captured standard error as
    /// it is.
    pub open spec fn complaint(self, error: Option<Seq<char>>) -> Seq<char> {
        match error {
            Some(message) => message + "\n"@,
            None => self.stderr,
        }
    }

    /// The one diagnostic that belongs to a classification, or none where
    /// the command ended by itself with exit status 0.
    pub open spec fn diagnostic(self, status: ExitCode, error: Option<Seq<char>>) -> Seq<Line> {
        match status {
            ExitCode::DataErr => seq![
                err("Failed to convert output of '"@ + self.command_line() + "'!\n"@),
            ],
            ExitCode::Success => if self.success() {
                Seq::empty()
            } else {
                seq![err(self.complaint(error))]
            },
            ExitCode::OsErr => seq![
                err("'"@ + self.command_line() + "' was terminated unexpectedly by a signal!\n"@),
            ],
            ExitCode::Unavailable => seq![
                err("Failed to launch '"@ + self.command_line() + "'!\n"@),
            ],
            _ => seq![
                err(
                    "Unknown exit status "@ + decimal(status.number()) + " originating from '"@
                        + self.command_line() + "'!\n"@,
                ),
            ],
        }
    }

    /// The code that ends the whole run, or `None` where the run goes on.
    ///
    /// A command that could not be launched, was terminated by a signal or
    /// wrote output that is no text ends the run with the code of that
    /// classification.  A command that ended by itself ends the run with the
    /// code `ret` unless its exit status is 0.  Any other classification
    /// ends the run with `Config`.
    pub open spec fn verdict(self, status: ExitCode, ret: ExitCode) -> Option<ExitCode> {
        match status {
            ExitCode::DataErr => Some(ExitCode::DataErr),
            ExitCode::Success => if self.success() {
                None
            } else {
                Some(ret)
            },
            ExitCode::OsErr => Some(ExitCode::OsErr),
            ExitCode::Unavailable => Some(ExitCode::Unavailable),
            _ => Some(ExitCode::Config),
        }
    }

    /// Everything that handling an attempt writes: the echo of the captured
    /// output, then the diagnostic.
    pub open spec fn handled_lines(self, report: Report, error: Option<Seq<char>>) -> Seq<Line> {
        self.echoed(report) + self.recorded(report).diagnostic(report.status(), error)
    }

    /// The code with which handling an attempt ends the run, or `None`.
    pub open spec fn handled(self, report: Report, ret: ExitCode) -> Option<ExitCode> {
        self.recorded(report).verdict(report.status(), ret)
    }
}

impl Process {
    /// Configure a new process.
    ///
    /// What is only known after an execution starts with sane values: zero
    /// for the exit status, as the process is expected to succeed, and empty
    /// texts for the output.
    #[must_use]
    pub fn new(application: &str, arguments: Vec<String>, verbosity: Verbosity) -> (process:
        Process)
        ensures
            process@ == ProcessView::fresh(application@, arguments.deep_view(), verbosity),
    {
        Process {
            application: String::from_str(application),
            arguments,
            exit: 0,
            stderr: String::new(),
            stdout: String::new(),
            verbosity,
        }
    }

    /// The application to call.
    pub fn application(&self) -> (application: &str)
        ensures
            application@ == self@.application,
    {
        self.application.as_str()
    }

    /// The command line arguments to pass, in their order.
    pub fn arguments(&self) -> (arguments: &Vec<String>)
        ensures
            arguments.deep_view() == self@.arguments,
    {
        &self.arguments
    }

    /// The verbosity level.
    pub fn verbosity(&self) -> (verbosity: Verbosity)
        ensures
            verbosity == self@.verbosity,
    {
        self.verbosity
    }

    /// The exit status of the last execution.
    pub fn exit(&self) -> (exit: i32)
        ensures
            exit == self@.exit,
    {
        self.exit
    }

    /// What the last execution wrote to its standard error.
    pub fn stderr(&self) -> (stderr: &str)
        ensures
            stderr@ == self@.stderr,
    {
        self.stderr.as_str()
    }

    /// What the last execution wrote to its standard output.
    pub fn stdout(&self) -> (stdout: &str)
        ensures
            stdout@ == self@.stdout,
    {
        self.stdout.as_str()
    }

    /// Whether the called application returned with code zero.
    ///
    /// By convention, the exit code zero stands for the success of the
    /// called application.  Any other value is a failure.
    #[must_use]
    pub fn success(&self) -> (success: bool)
        ensures
            success == self@.success(),
    {
        self.exit == 0
    }

    /// The call line: the application and all the arguments passed to it in
    /// their order, joined by one space each.
    pub fn to_string(&self) -> (line: String)
        ensures
            line@ == self@.command_line(),
    {
        let mut line = self.application.clone();
        let ghost arguments = self.arguments.deep_view();
        let mut index: usize = 0;
        while index < self.arguments.len()
            invariant
                index <= self.arguments.len(),
                arguments == self.arguments.deep_view(),
                line@ == self.application@ + joined(arguments.take(index as int)),
            decreases self.arguments.len() - index,
        {
            line.append(" ");
            line.append(self.arguments[index].as_str());
            proof {
                let longer = arguments.take(index + 1);
                assert(longer.drop_last() =~= arguments.take(index as int));
                assert(longer.last() == self.arguments[index as int]@);
                assert(line@ =~= self.application@ + joined(longer));
            }
            index += 1;
        }
        assert(arguments.take(index as int) =~= arguments);
        line
    }

    /// Tells the user which command is about to be launched.
    ///
    /// Unless the verbosity is `Silent`, the call line is recorded for the
    /// standard output.  The caller writes it before it launches the command.
    pub fn announce(&self, console: &mut Console)
        ensures
            final(console)@ == old(console)@ + self@.announcement(),
    {
        if self.verbosity > Verbosity::Silent {
            let mut line = self.to_string();
            line.append("\n");
            console.print(line);
            assert(console@ =~= old(console)@ + self@.announcement());
        } else {
            assert(console@ =~= old(console)@ + self@.announcement());
        }
    }

    /// Records what the operating system reported of the launched process
    /// and classifies it.
    ///
    /// The exit status and the output of the process are stored in this
    /// instance for later evaluation, as far as they are there and are text.
    /// At verbosity `Chatty` the captured output is echoed to the streams it
    /// came from, if it is not empty.
    ///
    /// The classification is one of four codes:
    ///
    /// * `ExitCode::Unavailable` if the process could not be launched;
    /// * `ExitCode::OsErr` if the process did not terminate itself but was
    ///   terminated by a signal;
    /// * `ExitCode::DataErr` if the output of the process is not valid UTF-8;
    /// * `ExitCode::Success` if the process terminated itself, whatever its
    ///   exit status.
    pub fn run(&mut self, report: Report, console: &mut Console) -> (status: ExitCode)
        ensures
            status == report.status(),
            final(self)@ == old(self)@.recorded(report),
            final(console)@ == old(console)@ + old(self)@.echoed(report),
    {
        match report {
            Report::NotLaunched => {
                assert(console@ =~= old(console)@ + old(self)@.echoed(report));
                ExitCode::Unavailable
            },
            Report::Finished { status, stdout, stderr } => {
                let code = match status {
                    Some(code) => code,
                    None => {
                        assert(console@ =~= old(console)@ + old(self)@.echoed(report));
                        return ExitCode::OsErr;
                    },
                };
                self.exit = code;
                match decode(stderr) {
                    Some(text) => {
                        self.stderr = text;
                    },
                    None => {
                        assert(console@ =~= old(console)@ + old(self)@.echoed(report));
                        return ExitCode::DataErr;
                    },
                }
                match decode(stdout) {
                    Some(text) => {
                        self.stdout = text;
                    },
                    None => {
                        assert(console@ =~= old(console)@ + old(self)@.echoed(report));
                        return ExitCode::DataErr;
                    },
                }
                let chatty = self.verbosity == Verbosity::Chatty;
                if chatty && !self.stdout.as_str().is_empty() {
                    let mut text = self.stdout.clone();
                    text.append("\n");
                    console.print(text);
                }
                if chatty && !self.stderr.as_str().is_empty() {
                    console.eprint(self.stderr.clone());
                }
                assert(console@ =~= old(console)@ + old(self)@.echoed(report));
                ExitCode::Success
            },
        }
    }

    /// Reports the failure of the called application, if it failed.
    ///
    /// If the called application exited non-zero, the given message,
    /// followed by a line break, is recorded for the standard error.  Where
    /// no message is given, the error output of the application is recorded
    /// instead, as it is.
    #[must_use]
    pub fn failure(&self, error: Option<&str>, console: &mut Console) -> (failed: bool)
        ensures
            failed == !self@.success(),
            final(console)@ == old(console)@ + (if failed {
                seq![err(self@.complaint(error.deep_view()))]
            } else {
                Seq::empty()
            }),
    {
        let failed = !self.success();
        if failed {
            let message = match error {
                Some(text) => {
                    let mut message = String::from_str(text);
                    message.append("\n");
                    message
                },
                None => self.stderr.clone(),
            };
            console.eprint(message);
            assert(console@ =~= old(console)@ + seq![err(self@.complaint(error.deep_view()))]);
        } else {
            assert(console@ =~= old(console)@ + Seq::<Line>::empty());
        }
        failed
    }

    /// Decides what follows from a classification.
    ///
    /// Every classification but `ExitCode::Success` ends the run: a default
    /// error message that names the command is recorded for the standard
    /// error, and the code of the classification is returned, or
    /// `ExitCode::Config` for a classification that [`Process::run`] never
    /// gives.  A process that terminated itself may still have failed: then
    /// [`Process::failure`] records its message and `ret` is returned.  If
    /// it succeeded, nothing is recorded and the result is `None`.
    pub fn resolve(
        &self,
        status: ExitCode,
        error: Option<&str>,
        ret: ExitCode,
        console: &mut Console,
    ) -> (outcome: Option<ExitCode>)
        ensures
            outcome == self@.verdict(status, ret),
            final(console)@ == old(console)@ + self@.diagnostic(status, error.deep_view()),
    {
        let line = self.to_string();
        match status {
            ExitCode::DataErr => {
                let mut message = String::from_str("Failed to convert output of '");
                message.append(line.as_str());
                message.append("'!\n");
                console.eprint(message);
                assert(console@ =~= old(console)@ + self@.diagnostic(status, error.deep_view()));
                Some(ExitCode::DataErr)
            },
            ExitCode::Success => {
                if self.failure(error, console) {
                    Some(ret)
                } else {
                    None
                }
            },
            ExitCode::OsErr => {
                let mut message = String::from_str("'");
                message.append(line.as_str());
                message.append("' was terminated unexpectedly by a signal!\n");
                console.eprint(message);
                assert(console@ =~= old(console)@ + self@.diagnostic(status, error.deep_view()));
                Some(ExitCode::OsErr)
            },
            ExitCode::Unavailable => {
                let mut message = String::from_str("Failed to launch '");
                message.append(line.as_str());
                message.append("'!\n");
                console.eprint(message);
                assert(console@ =~= old(console)@ + self@.diagnostic(status, error.deep_view()));
                Some(ExitCode::Unavailable)
            },
            code => {
                let number = code.to_string();
                let mut message = String::from_str("Unknown exit status ");
                message.append(number.as_str());
                message.append(" originating from '");
                message.append(line.as_str());
                message.append("'!\n");
                console.eprint(message);
                assert(console@ =~= old(console)@ + self@.diagnostic(status, error.deep_view()));
                Some(ExitCode::Config)
            },
        }
    }

    /// Records what the operating system reported of the launched process
    /// and handles every error that shows.
    ///
    /// The report is recorded and classified by [`Process::run`], and
    /// [`Process::resolve`] decides what follows.  The result is the code
    /// that the caller has to end with at once, or `None` if the process
    /// succeeded.  Only the most important error messages are recorded for
    /// the standard error: one for a run that ends, none for one that goes
    /// on.
    pub fn handle(
        &mut self,
        report: Report,
        error: Option<&str>,
        ret: ExitCode,
        console: &mut Console,
    ) -> (outcome: Option<ExitCode>)
        ensures
            final(self)@ == old(self)@.recorded(report),
            outcome == old(self)@.handled(report, ret),
            final(console)@ == old(console)@ + old(self)@.handled_lines(
                report,
                error.deep_view(),
            ),
    {
        let status = self.run(report, console);
        let outcome = self.resolve(status, error, ret, console);
        assert(console@ =~= old(console)@ + old(self)@.handled_lines(report, error.deep_view()));
        outcome
    }
}

/// A report is always classified as one of four codes, so that handling a
/// report never ends with the code for an unknown classification unless the
/// caller chose that code for a failed step.
pub proof fn lemma_classification_is_closed(process: ProcessView, report: Report, ret: ExitCode)
    ensures
        report.status() == ExitCode::Unavailable || report.status() == ExitCode::OsErr
            || report.status() == ExitCode::DataErr || report.status() == ExitCode::Success,
        process.handled(report, ret) == Some(ExitCode::Config) ==> ret == ExitCode::Config,
{
}

/// Whatever the classification, a run that ends writes exactly one
/// diagnostic, a run that goes on writes none, and every diagnostic goes to
/// the standard error.
pub proof fn lemma_one_diagnostic_per_failure(
    process: ProcessView,
    status: ExitCode,
    error: Option<Seq<char>>,
    ret: ExitCode,
)
    ensures
        process.verdict(status, ret) is Some ==> process.diagnostic(status, error).len() == 1,
        process.verdict(status, ret) is None ==> process.diagnostic(status, error).len() == 0,
        forall|i: int|
            0 <= i < process.diagnostic(status, error).len() ==> process.diagnostic(
                status,
                error,
            )[i].stream == Stream::Stderr,
{
}

/// A command that ends by itself with exit status 0 lets the run go on, at
/// every verbosity and whatever text it wrote: nothing but the echo of its
/// output is written.
pub proof fn lemma_exit_zero_proceeds(
    process: ProcessView,
    stdout: Vec<u8>,
    stderr: Vec<u8>,
    error: Option<Seq<char>>,
    ret: ExitCode,
)
    requires
        valid_utf8(stdout@),
        valid_utf8(stderr@),
    ensures
        ({
            let report = Report::Finished { status: Some(0), stdout, stderr };
            &&& process.handled(report, ret) is None
            &&& process.recorded(report).success()
            &&& process.handled_lines(report, error) == process.recorded(report).echo()
        }),
{
    let report = Report::Finished { status: Some(0), stdout, stderr };
    assert(process.handled_lines(report, error) =~= process.recorded(report).echo());
}

/// A command that ends by itself with another exit status than 0 ends the
/// run with the code that the caller chose, and exactly one diagnostic is
/// written to the standard error: the caller's message followed by a line
/// break, or, where there is none, the captured standard error as it is.
/// Below verbosity `Chatty` nothing else is written.
pub proof fn lemma_nonzero_exit_fails(
    process: ProcessView,
    code: i32,
    stdout: Vec<u8>,
    stderr: Vec<u8>,
    error: Option<Seq<char>>,
    ret: ExitCode,
)
    requires
        code != 0,
        valid_utf8(stdout@),
        valid_utf8(stderr@),
    ensures
        ({
            let report = Report::Finished { status: Some(code), stdout, stderr };
            let diagnostic = seq![
                err(
                    match error {
                        Some(message) => message + "\n"@,
                        None => decode_utf8(stderr@),
                    },
                ),
            ];
            &&& process.handled(report, ret) == Some(ret)
            &&& process.recorded(report).exit == code
            &&& process.recorded(report).diagnostic(report.status(), error) == diagnostic
            &&& process.handled_lines(report, error) == process.recorded(report).echo()
                + diagnostic
            &&& process.verbosity != Verbosity::Chatty ==> process.handled_lines(report, error)
                == diagnostic
        }),
{
    let report = Report::Finished { status: Some(code), stdout, stderr };
    let diagnostic = seq![
        err(
            match error {
                Some(message) => message + "\n"@,
                None => decode_utf8(stderr@),
            },
        ),
    ];
    assert(process.recorded(report).diagnostic(report.status(), error) =~= diagnostic);
    assert(process.verbosity != Verbosity::Chatty ==> process.handled_lines(report, error)
        =~= diagnostic);
}

/// A command that cannot be launched ends the run with `Unavailable`, one
/// diagnostic names the command, and neither the exit status nor the output
/// of the description changes.
pub proof fn lemma_launch_failure_is_unavailable(
    process: ProcessView,
    error: Option<Seq<char>>,
    ret: ExitCode,
)
    ensures
        process.handled(Report::NotLaunched, ret) == Some(ExitCode::Unavailable),
        process.recorded(Report::NotLaunched) == process,
        process.handled_lines(Report::NotLaunched, error) == seq![
            err("Failed to launch '"@ + process.command_line() + "'!\n"@),
        ],
{
    assert(process.handled_lines(Report::NotLaunched, error) =~= seq![
        err("Failed to launch '"@ + process.command_line() + "'!\n"@),
    ]);
}

} // verus!
