use core_agent::actions::ActionType;
use core_agent::executor::{dispatch_log_line, execute_step, execute_step_logged, result_log_line};
use core_agent::orchestrator::AgentEffect;
use core_agent::params::ActionParams;
use core_agent::planner::PlanStep;

fn step_with(action: ActionType, params: Vec<(&str, &str)>) -> PlanStep {
    let mut parameters = ActionParams::new();
    for (k, v) in params {
        parameters.insert(k.to_string(), v.to_string());
    }
    PlanStep {
        id: 1,
        action_type: action,
        parameters,
        description: "test step".into(),
        expected_outcome: "expected".into(),
    }
}

#[test]
fn execute_simulated_mouse_click() {
    let step = step_with(ActionType::MouseClick, vec![("x", "100"), ("y", "200"), ("button", "left")]);
    let result = execute_step(&step, true).unwrap();
    assert!(result.success);
    assert!(result.simulated);
    assert!(result.description.contains("left-clicked"));
}

#[test]
fn execute_simulated_keyboard_type() {
    let step = step_with(ActionType::KeyboardType, vec![("text", "hello")]);
    let result = execute_step(&step, true).unwrap();
    assert!(result.description.contains("hello"));
}

#[test]
fn execute_simulated_system_launch() {
    let step = step_with(ActionType::SystemLaunch, vec![("application", "calc.exe")]);
    let result = execute_step(&step, true).unwrap();
    assert!(result.description.contains("calc.exe"));
}

#[test]
fn execute_simulated_window_close() {
    let step = step_with(ActionType::WindowClose, vec![("window_title", "Notepad")]);
    let result = execute_step(&step, true).unwrap();
    assert!(result.description.contains("closed"));
}

#[test]
fn real_execution_fails_gracefully() {
    let step = step_with(ActionType::MouseClick, vec![]);
    let result = execute_step(&step, false);
    assert!(result.is_err());
}

#[test]
fn executor_log_lines() {
    let step = step_with(ActionType::KeyboardType, vec![("text", "hi")]);
    assert_eq!(dispatch_log_line(&step, true), "[simulated] step 1: KeyboardType {text=hi} — test step");
    assert_eq!(dispatch_log_line(&step, false), "[real] step 1: KeyboardType {text=hi} — test step");
    let click = step_with(ActionType::MouseClick, vec![("x", "1"), ("y", "2"), ("x", "3")]);
    assert_eq!(dispatch_log_line(&click, true), "[simulated] step 1: MouseClick {x=3, y=2} — test step");
    let none = step_with(ActionType::MouseMove, vec![]);
    assert_eq!(dispatch_log_line(&none, true), "[simulated] step 1: MouseMove {} — test step");
    let result = execute_step(&step, true).unwrap();
    assert_eq!(result_log_line(&step, &result), "step 1: SIM: typed 2 characters: \"hi\"");
}

fn log_lines(logs: &[AgentEffect]) -> Vec<(String, String, String)> {
    logs.iter()
        .map(|e| match e {
            AgentEffect::Log { module, event, data } => (module.clone(), event.clone(), data.clone()),
            other => panic!("unexpected {other:?}"),
        })
        .collect()
}

#[test]
fn logged_execution_writes_dispatch_then_result() {
    let step = step_with(ActionType::KeyboardPress, vec![("key", "Enter")]);
    let run = execute_step_logged(&step, true);
    assert_eq!(run.result.unwrap().description, "SIM: pressed key [Enter]");
    assert_eq!(
        log_lines(&run.logs),
        vec![
            ("executor".into(), "dispatch".into(), "[simulated] step 1: KeyboardPress {key=Enter} — test step".into()),
            ("executor".into(), "result".into(), "step 1: SIM: pressed key [Enter]".into()),
        ]
    );
}

#[test]
fn logged_execution_logs_error_before_returning_it() {
    let step = step_with(ActionType::FileOpen, vec![]);
    let run = execute_step_logged(&step, false);
    assert!(run.result.is_err());
    assert_eq!(
        log_lines(&run.logs),
        vec![
            ("executor".into(), "dispatch".into(), "[real] step 1: FileOpen {} — test step".into()),
            ("executor".into(), "error".into(), "[action] Real execution not yet implemented for FileOpen".into()),
        ]
    );
}
