//! Loading and running a module from a file: what the host has to do on the
//! engine, in which order, and what the run returns.

use vstd::prelude::*;
use crate::js_error::{JsError, JsErrorView, result_view};

verus! {

/// Put in front of the cause when the working directory cannot be had.
pub const CWD_CONTEXT: &'static str = "Unable to get CWD: ";

/// What the host has to do next to run a module.
#[derive(Clone, Copy, Debug, PartialEq, Eq, Structural)]
pub enum LoadAction {
    /// Build the single-threaded executor on which the rest is awaited.
    BuildExecutor,
    /// Ask for the current working directory.
    CurrentDir,
    /// Resolve the module's path against the working directory.
    ResolvePath,
    /// Load the module, and what it imports, as the main module.
    LoadMainModule,
    /// Start the module's evaluation.
    Evaluate,
    /// Run the event loop until no work is left.
    RunEventLoop,
    /// Wait for the verdict of the module's evaluation.
    AwaitEvaluation,
}

/// What the host reports back.
#[derive(Debug)]
pub enum LoadEvent {
    /// The action was done.
    Done,
    /// The action failed.
    Failed(String),
    /// The evaluation has settled: the module ran through, or threw.
    Evaluated(Result<(), String>),
}

/// A `LoadEvent` with texts in place of strings.
pub enum LoadEventView {
    Done,
    Failed(Seq<char>),
    Evaluated(Result<(), Seq<char>>),
}

impl View for LoadEvent {
    type V = LoadEventView;

    open spec fn view(&self) -> LoadEventView {
        match *self {
            LoadEvent::Done => LoadEventView::Done,
            LoadEvent::Failed(message) => LoadEventView::Failed(message@),
            LoadEvent::Evaluated(Ok(_)) => LoadEventView::Evaluated(Ok(())),
            LoadEvent::Evaluated(Err(message)) => LoadEventView::Evaluated(Err(message@)),
        }
    }
}

/// The run of one module.
#[derive(Clone, Copy, Debug, PartialEq, Eq, Structural)]
pub struct ModuleRun {
    /// What the host is asked to do.
    pub action: LoadAction,
    /// Whether a module that threw makes the run fail. If not, the run only
    /// waits for the evaluation to settle.
    pub report_evaluation: bool,
}

/// How far a run has come after an event.
#[derive(Debug)]
pub enum LoadProgress {
    /// The run goes on.
    Pending(ModuleRun),
    /// The run is over.
    Finished(Result<(), JsError>),
}

/// What a `LoadProgress` stands for.
pub enum LoadProgressView {
    Pending(ModuleRun),
    Finished(Result<(), JsErrorView>),
}

impl View for LoadProgress {
    type V = LoadProgressView;

    open spec fn view(&self) -> LoadProgressView {
        match *self {
            LoadProgress::Pending(run) => LoadProgressView::Pending(run),
            LoadProgress::Finished(result) => LoadProgressView::Finished(result_view(result)),
        }
    }
}

/// The action that follows one that was done. Waiting for the verdict is the
/// last one.
pub open spec fn action_after(action: LoadAction) -> LoadAction {
    match action {
        LoadAction::BuildExecutor => LoadAction::CurrentDir,
        LoadAction::CurrentDir => LoadAction::ResolvePath,
        LoadAction::ResolvePath => LoadAction::LoadMainModule,
        LoadAction::LoadMainModule => LoadAction::Evaluate,
        LoadAction::Evaluate => LoadAction::RunEventLoop,
        LoadAction::RunEventLoop => LoadAction::AwaitEvaluation,
        LoadAction::AwaitEvaluation => LoadAction::AwaitEvaluation,
    }
}

/// The message with which the run fails when `action` failed with `cause`.
pub open spec fn failure_message(action: LoadAction, cause: Seq<char>) -> Seq<char> {
    if action == LoadAction::CurrentDir {
        CWD_CONTEXT@ + cause
    } else {
        cause
    }
}

/// What the run returns once the evaluation has settled with `verdict`.
pub open spec fn verdict_result(report_evaluation: bool, verdict: Result<(), Seq<char>>) -> Result<
    (),
    JsErrorView,
> {
    match verdict {
        Err(message) if report_evaluation => Err(JsErrorView::Runtime(message)),
        _ => Ok(()),
    }
}

/// The protocol of a run. The actions are done one after the other, and the
/// first that fails ends the run with its message. The verdict of the
/// evaluation is waited for last. An event that does not answer the action
/// asked for changes nothing.
pub open spec fn after_load_event(run: ModuleRun, event: LoadEventView) -> LoadProgressView {
    match event {
        LoadEventView::Failed(cause) => LoadProgressView::Finished(
            Err(JsErrorView::Runtime(failure_message(run.action, cause))),
        ),
        LoadEventView::Done => if run.action == LoadAction::AwaitEvaluation {
            LoadProgressView::Pending(run)
        } else {
            LoadProgressView::Pending(
                ModuleRun {
                    action: action_after(run.action),
                    report_evaluation: run.report_evaluation,
                },
            )
        },
        LoadEventView::Evaluated(verdict) => if run.action == LoadAction::AwaitEvaluation {
            LoadProgressView::Finished(verdict_result(run.report_evaluation, verdict))
        } else {
            LoadProgressView::Pending(run)
        },
    }
}

/// What happens on the host during one run: the actions that fail, each
/// with its cause, and the verdict of the evaluation.
pub struct HostAnswers {
    pub failures: Map<LoadAction, Seq<char>>,
    pub verdict: Result<(), Seq<char>>,
}

/// The report of a host that did what it was asked to do.
pub open spec fn load_answer(action: LoadAction, host: HostAnswers) -> LoadEventView {
    if host.failures.contains_key(action) {
        LoadEventView::Failed(host.failures[action])
    } else if action == LoadAction::AwaitEvaluation {
        LoadEventView::Evaluated(host.verdict)
    } else {
        LoadEventView::Done
    }
}

/// The number of actions that follow `action` in a run that goes well.
pub open spec fn load_actions_left(action: LoadAction) -> nat {
    match action {
        LoadAction::BuildExecutor => 6,
        LoadAction::CurrentDir => 5,
        LoadAction::ResolvePath => 4,
        LoadAction::LoadMainModule => 3,
        LoadAction::Evaluate => 2,
        LoadAction::RunEventLoop => 1,
        LoadAction::AwaitEvaluation => 0,
    }
}

/// What a run returns whose host answers every action with what happened.
pub open spec fn run_module(run: ModuleRun, host: HostAnswers) -> Result<(), JsErrorView>
    decreases load_actions_left(run.action),
{
    match after_load_event(run, load_answer(run.action, host)) {
        LoadProgressView::Finished(result) => result,
        LoadProgressView::Pending(next) => if load_actions_left(next.action) < load_actions_left(
            run.action,
        ) {
            run_module(next, host)
        } else {
            Ok(())
        },
    }
}

/// Whether `action` is asked for in a run that begins with `first` and in
/// which nothing fails.
pub open spec fn in_run(first: LoadAction, action: LoadAction) -> bool {
    load_actions_left(action) <= load_actions_left(first)
}

/// A run in which no action fails returns the verdict of the evaluation if
/// it reports it, and success if it does not.
pub proof fn lemma_clean_run(run: ModuleRun, host: HostAnswers)
    requires
        forall|action: LoadAction| in_run(run.action, action) ==> !host.failures.contains_key(action),
    ensures
        run_module(run, host) == verdict_result(run.report_evaluation, host.verdict),
    decreases load_actions_left(run.action),
{
    if run.action != LoadAction::AwaitEvaluation {
        let next = ModuleRun {
            action: action_after(run.action),
            report_evaluation: run.report_evaluation,
        };
        assert(in_run(run.action, run.action));
        assert forall|action: LoadAction| in_run(next.action, action) implies !host.failures.contains_key(
            action,
        ) by {
            assert(in_run(run.action, action));
        }
        lemma_clean_run(next, host);
    } else {
        assert(in_run(run.action, run.action));
    }
}

/// A run ends with the first action that fails: with that action's message,
/// whatever would have come after it.
pub proof fn lemma_first_failure_ends_run(run: ModuleRun, failed: LoadAction, host: HostAnswers)
    requires
        in_run(run.action, failed),
        host.failures.contains_key(failed),
        forall|action: LoadAction|
            in_run(run.action, action) && !in_run(failed, action) ==> !host.failures.contains_key(
                action,
            ),
    ensures
        run_module(run, host) == Err::<(), JsErrorView>(
            JsErrorView::Runtime(failure_message(failed, host.failures[failed])),
        ),
    decreases load_actions_left(run.action),
{
    if run.action != failed {
        let next = ModuleRun {
            action: action_after(run.action),
            report_evaluation: run.report_evaluation,
        };
        assert(in_run(run.action, run.action) && !in_run(failed, run.action));
        assert forall|action: LoadAction|
            in_run(next.action, action) && !in_run(failed, action) implies !host.failures.contains_key(
            action,
        ) by {
            assert(in_run(run.action, action));
        }
        lemma_first_failure_ends_run(next, failed, host);
    }
}

impl ModuleRun {
    /// The run that loads a module into a session: it builds its own
    /// executor, and a module that throws makes it fail.
    pub fn load_module() -> (run: ModuleRun)
        ensures
            run == (ModuleRun { action: LoadAction::BuildExecutor, report_evaluation: true }),
    {
        ModuleRun { action: LoadAction::BuildExecutor, report_evaluation: true }
    }

    /// The run of a module on an engine of its own, inside an executor that
    /// is already there: it only waits for the evaluation to settle.
    pub fn run_js() -> (run: ModuleRun)
        ensures
            run == (ModuleRun { action: LoadAction::CurrentDir, report_evaluation: false }),
    {
        ModuleRun { action: LoadAction::CurrentDir, report_evaluation: false }
    }

    /// Takes the host's report of what happened and moves the run on.
    pub fn advance(self, event: LoadEvent) -> (progress: LoadProgress)
        ensures
            progress@ == after_load_event(self, event@),
    {
        let at_end = matches!(self.action, LoadAction::AwaitEvaluation);
        match event {
            LoadEvent::Failed(cause) => {
                let message = match self.action {
                    LoadAction::CurrentDir => {
                        let mut message = String::from_str(CWD_CONTEXT);
                        message.append(cause.as_str());
                        message
                    },
                    _ => cause,
                };
                LoadProgress::Finished(Err(JsError::Runtime(message)))
            },
            LoadEvent::Done => if at_end {
                LoadProgress::Pending(self)
            } else {
                let action = match self.action {
                    LoadAction::BuildExecutor => LoadAction::CurrentDir,
                    LoadAction::CurrentDir => LoadAction::ResolvePath,
                    LoadAction::ResolvePath => LoadAction::LoadMainModule,
                    LoadAction::LoadMainModule => LoadAction::Evaluate,
                    LoadAction::Evaluate => LoadAction::RunEventLoop,
                    _ => LoadAction::AwaitEvaluation,
                };
                LoadProgress::Pending(
                    ModuleRun { action, report_evaluation: self.report_evaluation },
                )
            },
            LoadEvent::Evaluated(verdict) => if at_end {
                match verdict {
                    Err(message) if self.report_evaluation => LoadProgress::Finished(
                        Err(JsError::Runtime(message)),
                    ),
                    _ => LoadProgress::Finished(Ok(())),
                }
            } else {
                LoadProgress::Pending(self)
            },
        }
    }
}

} // verus!
