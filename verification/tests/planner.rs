use core_agent::actions::ActionType;
use core_agent::planner::{create_plan, match_instruction, plan_search, plan_type_text};

#[test]
fn create_plan_preserves_instruction() {
    let plan = create_plan("open notepad").unwrap();
    assert_eq!(plan.instruction, "open notepad");
}

#[test]
fn notepad_plan_has_two_steps() {
    let plan = create_plan("open notepad").unwrap();
    assert_eq!(plan.steps.len(), 2);
    assert_eq!(plan.steps[0].action_type, ActionType::SystemLaunch);
    assert_eq!(plan.steps[1].action_type, ActionType::WindowFocus);
}

#[test]
fn calculator_plan_has_two_steps() {
    let plan = create_plan("open calculator").unwrap();
    assert_eq!(plan.steps.len(), 2);
}

#[test]
fn type_plan_includes_text() {
    let plan = create_plan("type hello world").unwrap();
    assert_eq!(plan.steps.len(), 2);
    assert_eq!(plan.steps[1].action_type, ActionType::KeyboardType);
}

#[test]
fn search_plan_has_three_steps() {
    let plan = create_plan("search for rust programming").unwrap();
    assert_eq!(plan.steps.len(), 3);
}

#[test]
fn generic_instruction_produces_single_step() {
    let plan = create_plan("do something unknown").unwrap();
    assert_eq!(plan.steps.len(), 1);
}

// ── Exact plans ──

fn value(plan: &core_agent::planner::Plan, step: usize, key: &str) -> String {
    plan.steps[step].parameters.get(key).cloned().unwrap()
}

#[test]
fn keywords_are_matched_after_lowercasing() {
    let plan = create_plan("Open NOTEPAD please").unwrap();
    assert_eq!(plan.instruction, "Open NOTEPAD please");
    assert_eq!(value(&plan, 0, "application"), "notepad.exe");
    assert_eq!(value(&plan, 1, "window_title"), "Untitled - Notepad");
    let plan = create_plan("CALC").unwrap();
    assert_eq!(value(&plan, 0, "application"), "calc.exe");
}

#[test]
fn typed_text_is_extracted_and_trimmed() {
    let plan = create_plan("Type Hello World").unwrap();
    assert_eq!(value(&plan, 1, "text"), "hello world");
    assert_eq!(plan.steps[1].description, "Type: hello world");
    assert_eq!(value(&plan, 0, "x"), "400");
    assert_eq!(value(&plan, 0, "y"), "300");
    assert_eq!(value(&plan, 0, "button"), "left");
    let plan = create_plan("  write  ").unwrap();
    assert_eq!(value(&plan, 1, "text"), "Hello, world!");
    let plan = create_plan("escribe hola").unwrap();
    assert_eq!(value(&plan, 1, "text"), "hola");
}

#[test]
fn search_query_is_extracted() {
    let plan = create_plan("search for rust programming").unwrap();
    assert_eq!(value(&plan, 0, "keys"), "Win+S");
    assert_eq!(value(&plan, 1, "text"), "rust programming");
    assert_eq!(plan.steps[1].description, "Type search query: rust programming");
    assert_eq!(value(&plan, 2, "key"), "Enter");
    let plan = create_plan("find").unwrap();
    assert_eq!(value(&plan, 1, "text"), "example");
    let plan = create_plan("buscar fortune").unwrap();
    assert_eq!(value(&plan, 1, "text"), "tune");
}

#[test]
fn keyword_precedence() {
    assert_eq!(create_plan("type into notepad").unwrap().steps[0].action_type, ActionType::SystemLaunch);
    assert_eq!(create_plan("press close").unwrap().steps[0].action_type, ActionType::MouseClick);
    assert_eq!(create_plan("click search").unwrap().steps[0].action_type, ActionType::MouseClick);
    let close = create_plan("cerrar ventana").unwrap();
    assert_eq!(close.steps[0].action_type, ActionType::WindowClose);
    assert_eq!(value(&close, 0, "window_title"), "active");
}

#[test]
fn generic_plan_carries_lowercased_instruction() {
    let plan = create_plan("Do Something").unwrap();
    assert_eq!(plan.steps[0].action_type, ActionType::SystemLaunch);
    assert_eq!(value(&plan, 0, "instruction"), "do something");
    assert_eq!(plan.steps[0].description, "Process instruction: do something");
    assert_eq!(plan.steps[0].expected_outcome, "Instruction processed successfully");
}

#[test]
fn steps_are_numbered_from_one() {
    for instr in ["open notepad", "calculator", "type x", "click", "close", "search x", "other"] {
        let steps = match_instruction(instr);
        assert!(!steps.is_empty() && steps.len() <= 3);
        for (i, s) in steps.iter().enumerate() {
            assert_eq!(s.id as usize, i + 1);
        }
    }
}

#[test]
fn search_and_type_plans_directly() {
    let steps = plan_search("find information");
    assert_eq!(steps[1].parameters.get("text").unwrap(), "inmation");
    let steps = plan_search("search for");
    assert_eq!(steps[1].parameters.get("text").unwrap(), "example");
    let steps = plan_type_text("type");
    assert_eq!(steps[1].parameters.get("text").unwrap(), "Hello, world!");
    assert_eq!(steps[1].description, "Type: Hello, world!");
}
