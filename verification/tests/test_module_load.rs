use js_sandbox::module_load::{LoadAction, LoadEvent, LoadProgress, ModuleRun};
use js_sandbox::JsError;

/// Runs through the actions; `fails` names the action that fails, if any.
fn drive(
    mut run: ModuleRun,
    fails: Option<(LoadAction, &str)>,
    verdict: Result<(), String>,
    asked: &mut Vec<LoadAction>,
) -> Result<(), JsError> {
    for _ in 0..16 {
        asked.push(run.action);
        let event = match fails {
            Some((action, cause)) if action == run.action => LoadEvent::Failed(cause.to_string()),
            _ if run.action == LoadAction::AwaitEvaluation => LoadEvent::Evaluated(verdict.clone()),
            _ => LoadEvent::Done,
        };
        match run.advance(event) {
            LoadProgress::Pending(next) => run = next,
            LoadProgress::Finished(result) => return result,
        }
    }
    panic!("the run did not finish");
}

#[test]
fn loading_a_module_goes_through_all_actions_in_order() {
    let mut asked = Vec::new();
    let result = drive(ModuleRun::load_module(), None, Ok(()), &mut asked);
    assert!(result.is_ok());
    assert_eq!(
        asked,
        vec![
            LoadAction::BuildExecutor,
            LoadAction::CurrentDir,
            LoadAction::ResolvePath,
            LoadAction::LoadMainModule,
            LoadAction::Evaluate,
            LoadAction::RunEventLoop,
            LoadAction::AwaitEvaluation,
        ]
    );
}

#[test]
fn running_a_module_needs_no_executor_of_its_own() {
    let mut asked = Vec::new();
    let result = drive(ModuleRun::run_js(), None, Ok(()), &mut asked);
    assert!(result.is_ok());
    assert_eq!(asked[0], LoadAction::CurrentDir);
    assert_eq!(asked.len(), 6);
    assert_eq!(asked[5], LoadAction::AwaitEvaluation);
}

#[test]
fn a_module_that_throws_fails_the_load() {
    let mut asked = Vec::new();
    let verdict = Err("Error: boom".to_string());
    match drive(ModuleRun::load_module(), None, verdict, &mut asked) {
        Err(JsError::Runtime(message)) => assert_eq!(message, "Error: boom"),
        other => panic!("expected a runtime error, got {:?}", other),
    }
    assert_eq!(asked.len(), 7);
}

#[test]
fn a_module_that_throws_does_not_fail_a_plain_run() {
    let mut asked = Vec::new();
    let verdict = Err("Error: boom".to_string());
    assert!(drive(ModuleRun::run_js(), None, verdict, &mut asked).is_ok());
}

#[test]
fn a_module_that_cannot_be_loaded_ends_the_run_there() {
    let mut asked = Vec::new();
    let fails = Some((LoadAction::LoadMainModule, "Module not found"));
    match drive(ModuleRun::load_module(), fails, Ok(()), &mut asked) {
        Err(JsError::Runtime(message)) => assert_eq!(message, "Module not found"),
        other => panic!("expected a runtime error, got {:?}", other),
    }
    assert_eq!(asked[asked.len() - 1], LoadAction::LoadMainModule);
    assert_eq!(asked.len(), 4);
}

#[test]
fn a_failing_event_loop_wins_over_the_verdict() {
    let mut asked = Vec::new();
    let fails = Some((LoadAction::RunEventLoop, "Uncaught Error: late"));
    let verdict = Err("Error: boom".to_string());
    match drive(ModuleRun::load_module(), fails, verdict, &mut asked) {
        Err(JsError::Runtime(message)) => assert_eq!(message, "Uncaught Error: late"),
        other => panic!("expected a runtime error, got {:?}", other),
    }
}

#[test]
fn a_missing_working_directory_is_named_in_the_message() {
    let mut asked = Vec::new();
    let fails = Some((LoadAction::CurrentDir, "Permission denied"));
    match drive(ModuleRun::run_js(), fails, Ok(()), &mut asked) {
        Err(JsError::Runtime(message)) => {
            assert_eq!(message, "Unable to get CWD: Permission denied")
        }
        other => panic!("expected a runtime error, got {:?}", other),
    }
    assert_eq!(asked, vec![LoadAction::CurrentDir]);
}

#[test]
fn an_evaluation_that_is_dropped_fails_either_run() {
    for run in [ModuleRun::load_module(), ModuleRun::run_js()] {
        let mut asked = Vec::new();
        let fails = Some((LoadAction::AwaitEvaluation, "oneshot canceled"));
        match drive(run, fails, Ok(()), &mut asked) {
            Err(JsError::Runtime(message)) => assert_eq!(message, "oneshot canceled"),
            other => panic!("expected a runtime error, got {:?}", other),
        }
    }
}

#[test]
fn a_verdict_that_comes_too_early_changes_nothing() {
    let run = ModuleRun::load_module();
    match run.advance(LoadEvent::Evaluated(Err("early".to_string()))) {
        LoadProgress::Pending(next) => assert_eq!(next, run),
        other => panic!("expected the run to go on, got {:?}", other),
    }
    let last = ModuleRun { action: LoadAction::AwaitEvaluation, report_evaluation: true };
    match last.advance(LoadEvent::Done) {
        LoadProgress::Pending(next) => assert_eq!(next, last),
        other => panic!("expected the run to go on, got {:?}", other),
    }
}
