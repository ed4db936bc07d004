//! A fixed sequence of external commands, run one after the other until the
//! first one fails.
//!
//! The sequence never launches anything by itself.  [`Application::run`]
//! and [`Step::resume`] say what comes next: a step to launch, or the code to
//! end with.  The caller launches the step, waits for it, and resumes with
//! what the operating system reported.

use crate::console::{err, Console, Line};
use crate::exit_code::ExitCode;
use crate::process::{Process, ProcessView, Report};
use crate::text::copy_texts;
use crate::verbosity::Verbosity;
use vstd::prelude::*;
use vstd::string::StringExecFns;

verus! {

/// The settings of a whole run: for each step, in parallel lists, the
/// application to call, its arguments, the message to show if it fails, the
/// code to end with if it fails, and its verbosity.
#[derive(Clone, Debug)]
pub struct Application {
    applications: Vec<String>,
    arguments: Vec<Vec<String>>,
    error_messages: Vec<Option<String>>,
    exit_codes: Vec<ExitCode>,
    verbosities: Vec<Verbosity>,
}

/// The mathematical value of an [`Application`].
pub struct ApplicationView {
    /// The processes to be called.
    pub applications: Seq<Seq<char>>,
    /// The command line arguments of the processes to be called.
    pub arguments: Seq<Seq<Seq<char>>>,
    /// The error messages to show in case the processes should fail.
    pub error_messages: Seq<Option<Seq<char>>>,
    /// The codes to end with in case the processes should fail.
    pub exit_codes: Seq<ExitCode>,
    /// The verbosities of the respective processes.
    pub verbosities: Seq<Verbosity>,
}

impl View for Application {
    type V = ApplicationView;

    closed spec fn view(&self) -> ApplicationView {
        ApplicationView {
            applications: self.applications.deep_view(),
            arguments: self.arguments.deep_view(),
            error_messages: self.error_messages.deep_view(),
            exit_codes: self.exit_codes@,
            verbosities: self.verbosities@,
        }
    }
}

impl ApplicationView {
    /// The number of configured steps.
    pub open spec fn len(self) -> nat {
        self.applications.len()
    }

    /// Whether the steps are defined uniformly: every list has one entry for
    /// each step.
    pub open spec fn uniform(self) -> bool {
        &&& self.arguments.len() == self.applications.len()
        &&& self.error_messages.len() == self.applications.len()
        &&& self.exit_codes.len() == self.applications.len()
        &&& self.verbosities.len() == self.applications.len()
    }

    /// The description of one step before it is executed.
    pub open spec fn process(self, index: int) -> ProcessView {
        ProcessView::fresh(
            self.applications[index],
            self.arguments[index],
            self.verbosities[index],
        )
    }

    /// The code with which one step ends the run, given what the operating
    /// system reported of it, or `None` where the run goes on after it.
    pub open spec fn handled(self, index: int, report: Report) -> Option<ExitCode> {
        self.process(index).handled(report, self.exit_codes[index])
    }

    /// Everything that handling one step writes.
    pub open spec fn handled_lines(self, index: int, report: Report) -> Seq<Line> {
        self.process(index).handled_lines(report, self.error_messages[index])
    }

    /// What is written of a sequence whose steps are not defined uniformly.
    pub open spec fn refusal() -> Seq<Line> {
        seq![err("Internal error:  non-uniform count of process specification details!\n"@)]
    }

    /// What is written when a run begins: the refusal of a sequence that is
    /// not uniform, else the announcement of the first step, if there is
    /// one.
    pub open spec fn opening(self) -> Seq<Line> {
        if !self.uniform() {
            ApplicationView::refusal()
        } else if self.len() == 0 {
            Seq::empty()
        } else {
            self.process(0).announcement()
        }
    }

    /// Whether another step is launched after the step at `index`: that step
    /// must have passed and must not be the last one.
    pub open spec fn continues(self, index: int, report: Report) -> bool {
        self.handled(index, report) is None && index + 1 < self.len()
    }

    /// The code that the run ends with after the step at `index`, where no
    /// other step is launched: the code of the failure, or `Success` after
    /// the last step.
    pub open spec fn ending(self, index: int, report: Report) -> ExitCode {
        match self.handled(index, report) {
            Some(code) => code,
            None => ExitCode::Success,
        }
    }

    /// What is written when the run is resumed after the step at `index`:
    /// what handling that step writes, then the announcement of the next
    /// step, if one is launched.
    pub open spec fn resumed_lines(self, index: int, report: Report) -> Seq<Line> {
        self.handled_lines(index, report) + (if self.continues(index, report) {
            self.process(index + 1).announcement()
        } else {
            Seq::empty()
        })
    }

    /// The code that a run ends with and the number of steps that it
    /// launches, from the step at `from` on, where `reports[i]` is what the
    /// operating system reports of step `i` if it is launched.
    pub open spec fn outcome_from(self, from: nat, reports: Seq<Report>) -> (ExitCode, nat)
        decreases self.len() - from,
    {
        if from >= self.len() {
            (ExitCode::Success, 0)
        } else {
            match self.handled(from as int, reports[from as int]) {
                Some(code) => (code, 1),
                None => {
                    let rest = self.outcome_from(from + 1, reports);
                    (rest.0, rest.1 + 1)
                },
            }
        }
    }

    /// The code that a whole run ends with and the number of steps that it
    /// launches.  A sequence that is not uniform ends with `Software` and
    /// launches nothing.
    pub open spec fn outcome(self, reports: Seq<Report>) -> (ExitCode, nat) {
        if !self.uniform() {
            (ExitCode::Software, 0)
        } else {
            self.outcome_from(0, reports)
        }
    }
}

/// One step of a run that is waiting to be launched.
#[derive(Debug)]
pub struct Step {
    application: Application,
    index: usize,
    process: Process,
}

/// What a run does next.
#[derive(Debug)]
pub enum Progress {
    /// Launch this step, wait for it, and resume with what the operating
    /// system reported.
    Launch(Step),
    /// Stop at once and end with this code.
    Exit(ExitCode),
}

impl Application {
    /// Create a new application instance from the parallel lists that
    /// describe its steps.
    #[must_use]
    pub fn new(
        applications: Vec<String>,
        arguments: Vec<Vec<String>>,
        error_messages: Vec<Option<String>>,
        exit_codes: Vec<ExitCode>,
        verbosities: Vec<Verbosity>,
    ) -> (application: Application)
        ensures
            application@ == (ApplicationView {
                applications: applications.deep_view(),
                arguments: arguments.deep_view(),
                error_messages: error_messages.deep_view(),
                exit_codes: exit_codes@,
                verbosities: verbosities@,
            }),
    {
        Application { applications, arguments, error_messages, exit_codes, verbosities }
    }

    /// Whether the steps are defined uniformly.
    pub fn uniform(&self) -> (uniform: bool)
        ensures
            uniform == self@.uniform(),
    {
        self.applications.len() == self.arguments.len() && self.applications.len()
            == self.error_messages.len() && self.applications.len() == self.exit_codes.len()
            && self.applications.len() == self.verbosities.len()
    }

    /// Announces the step at `index` and hands it out to be launched.
    fn launch(self, index: usize, console: &mut Console) -> (progress: Progress)
        requires
            self@.uniform(),
            index < self@.len(),
        ensures
            final(console)@ == old(console)@ + self@.process(index as int).announcement(),
            progress matches Progress::Launch(step) && step.sequence() == self@ && step.position()
                == index,
    {
        let process = Process::new(
            self.applications[index].as_str(),
            copy_texts(&self.arguments[index]),
            self.verbosities[index],
        );
        process.announce(console);
        Progress::Launch(Step { application: self, index, process })
    }

    /// Begin the run.
    ///
    /// First of all, it is checked whether the steps were defined
    /// uniformly: for each process there must be a set of command line
    /// arguments, an error message or none, an exit code and a verbosity.
    /// If not, an internal error is recorded for the standard error and the
    /// run ends with `ExitCode::Software` before anything is launched.
    ///
    /// Then the first step is announced and handed out to be launched.  A
    /// sequence without steps ends with `ExitCode::Success` at once.
    #[must_use]
    pub fn run(self, console: &mut Console) -> (progress: Progress)
        ensures
            final(console)@ == old(console)@ + self@.opening(),
            !self@.uniform() ==> progress == Progress::Exit(ExitCode::Software),
            self@.uniform() && self@.len() == 0 ==> progress == Progress::Exit(ExitCode::Success),
            self@.uniform() && self@.len() > 0 ==> (progress matches Progress::Launch(step)
                && step.sequence() == self@ && step.position() == 0),
    {
        if !self.uniform() {
            console.eprint(
                String::from_str(
                    "Internal error:  non-uniform count of process specification details!\n",
                ),
            );
            assert(console@ =~= old(console)@ + self@.opening());
            return Progress::Exit(ExitCode::Software);
        }
        if self.applications.len() == 0 {
            assert(console@ =~= old(console)@ + self@.opening());
            return Progress::Exit(ExitCode::Success);
        }
        self.launch(0, console)
    }
}

impl Step {
    #[verifier::type_invariant]
    spec fn valid(self) -> bool {
        &&& self.application@.uniform()
        &&& self.index < self.application@.len()
        &&& self.process@ == self.application@.process(self.index as int)
    }

    /// The sequence that the step belongs to.
    pub closed spec fn sequence(self) -> ApplicationView {
        self.application@
    }

    /// The position of the step in its sequence, counted from 0.
    pub closed spec fn position(self) -> nat {
        self.index as nat
    }

    /// The position of the step in its sequence, counted from 0.  A step
    /// always belongs to a uniform sequence and lies within it.
    pub fn index(&self) -> (index: usize)
        ensures
            index == self.position(),
            self.sequence().uniform(),
            self.position() < self.sequence().len(),
    {
        proof {
            use_type_invariant(self);
        }
        self.index
    }

    /// The description of the command to launch.
    pub fn process(&self) -> (process: &Process)
        ensures
            process@ == self.sequence().process(self.position() as int),
    {
        proof {
            use_type_invariant(self);
        }
        &self.process
    }

    /// Resume the run with what the operating system reported of this step.
    ///
    /// The report is handled with the error message and the exit code that
    /// are configured for this step.  If the step failed, the run ends with
    /// the code of the failure, and no later step is ever handed out.  If
    /// it passed, the next step is announced and handed out to be launched,
    /// or, after the last step, the run ends with `ExitCode::Success`.
    #[must_use]
    pub fn resume(self, report: Report, console: &mut Console) -> (progress: Progress)
        ensures
            final(console)@ == old(console)@ + self.sequence().resumed_lines(
                self.position() as int,
                report,
            ),
            self.sequence().continues(self.position() as int, report) ==> (progress matches
                Progress::Launch(step) && step.sequence() == self.sequence() && step.position()
                == self.position() + 1),
            !self.sequence().continues(self.position() as int, report) ==> progress
                == Progress::Exit(self.sequence().ending(self.position() as int, report)),
    {
        proof {
            use_type_invariant(&self);
        }
        let ghost sequence = self.sequence();
        let ghost position = self.position() as int;
        let Step { application, index, mut process } = self;
        assert(index < application.applications.len());
        let error = match &application.error_messages[index] {
            Some(text) => Some(text.as_str()),
            None => None,
        };
        let ret = application.exit_codes[index];
        let outcome = process.handle(report, error, ret, console);
        assert(error.deep_view() == sequence.error_messages[position]);
        match outcome {
            Some(code) => {
                assert(console@ =~= old(console)@ + sequence.resumed_lines(position, report));
                Progress::Exit(code)
            },
            None => {
                if index + 1 < application.applications.len() {
                    let progress = application.launch(index + 1, console);
                    assert(console@ =~= old(console)@ + sequence.resumed_lines(position, report));
                    progress
                } else {
                    assert(console@ =~= old(console)@ + sequence.resumed_lines(position, report));
                    Progress::Exit(ExitCode::Success)
                }
            },
        }
    }
}

/// A sequence whose lists differ in length ends with `Software` and launches
/// nothing, whatever the steps would report.
pub proof fn lemma_mismatch_launches_nothing(application: ApplicationView, reports: Seq<Report>)
    requires
        !application.uniform(),
    ensures
        application.outcome(reports) == (ExitCode::Software, 0nat),
{
}

/// From any step on, a run stops at the first step that fails: it ends with
/// the code of that step and launches no step after it.
pub proof fn lemma_stops_at_first_failure_from(
    application: ApplicationView,
    reports: Seq<Report>,
    from: nat,
    failing: nat,
    code: ExitCode,
)
    requires
        from <= failing < application.len(),
        forall|i: int| from <= i < failing ==> application.handled(i, reports[i]) is None,
        application.handled(failing as int, reports[failing as int]) == Some(code),
    ensures
        application.outcome_from(from, reports) == (code, (failing - from + 1) as nat),
    decreases failing - from,
{
    if from < failing {
        lemma_stops_at_first_failure_from(application, reports, from + 1, failing, code);
    }
}

/// A run stops at the first step that fails: where every step before the
/// step at `failing` passes and that step fails with `code`, the whole run
/// ends with exactly `code`, and it launches the steps up to that one and
/// none of the later ones.
pub proof fn lemma_stops_at_first_failure(
    application: ApplicationView,
    reports: Seq<Report>,
    failing: nat,
    code: ExitCode,
)
    requires
        application.uniform(),
        failing < application.len(),
        forall|i: int| 0 <= i < failing ==> application.handled(i, reports[i]) is None,
        application.handled(failing as int, reports[failing as int]) == Some(code),
    ensures
        application.outcome(reports) == (code, failing + 1),
{
    lemma_stops_at_first_failure_from(application, reports, 0, failing, code);
}

/// From any step on, a run in which every step passes launches all the
/// steps that are left and ends with `Success`.
pub proof fn lemma_all_pass_from(application: ApplicationView, reports: Seq<Report>, from: nat)
    requires
        from <= application.len(),
        forall|i: int| from <= i < application.len() ==> application.handled(i, reports[i]) is None,
    ensures
        application.outcome_from(from, reports) == (
            ExitCode::Success,
            (application.len() - from) as nat,
        ),
    decreases application.len() - from,
{
    if from < application.len() {
        lemma_all_pass_from(application, reports, from + 1);
    }
}

/// A run in which every step passes launches every step and ends with
/// `Success`.
pub proof fn lemma_all_pass(application: ApplicationView, reports: Seq<Report>)
    requires
        application.uniform(),
        forall|i: int| 0 <= i < application.len() ==> application.handled(i, reports[i]) is None,
    ensures
        application.outcome(reports) == (ExitCode::Success, application.len()),
{
    lemma_all_pass_from(application, reports, 0);
}

/// The steps that [`Application::run`] and [`Step::resume`] hand out are
/// the steps that the outcome counts: after the step at `index`, the run
/// either goes on with the next step or ends with the code of the outcome.
pub proof fn lemma_outcome_follows_steps(
    application: ApplicationView,
    reports: Seq<Report>,
    index: nat,
)
    requires
        index < application.len(),
    ensures
        application.continues(index as int, reports[index as int]) ==> application.outcome_from(
            index,
            reports,
        ) == (
            application.outcome_from(index + 1, reports).0,
            application.outcome_from(index + 1, reports).1 + 1,
        ),
        !application.continues(index as int, reports[index as int]) ==> application.outcome_from(
            index,
            reports,
        ) == (application.ending(index as int, reports[index as int]), 1nat),
{
    if application.handled(index as int, reports[index as int]) is None && index + 1
        >= application.len() {
        assert(application.outcome_from(index + 1, reports) == (ExitCode::Success, 0nat));
    }
}

} // verus!
