use core_agent::config::AppConfig;
use core_agent::error::LapisError;
use core_agent::orchestrator::{handle_instruction, AgentEffect, StepStatus};

fn notifications(effects: &[AgentEffect]) -> Vec<(u32, u32, StepStatus)> {
    effects
        .iter()
        .filter_map(|e| match e {
            AgentEffect::Notify(n) => Some((n.step_id, n.total_steps, n.status)),
            _ => None,
        })
        .collect()
}

#[test]
fn handle_instruction_succeeds_with_defaults() {
    let config = AppConfig::default();
    let run = handle_instruction("test instruction", &config, None);
    let result = run.outcome.unwrap();
    assert!(result.contains("test instruction"));
}

#[test]
fn notepad_instruction_produces_notifications() {
    let config = AppConfig::default();
    let run = handle_instruction("open notepad", &config, None);
    let result = run.outcome.unwrap();
    assert!(notifications(&run.effects).len() >= 4);
    assert!(result.contains("2 steps"));
}

#[test]
fn simulated_run_effects_in_order() {
    let config = AppConfig::default();
    let run = handle_instruction("search for cats", &config, None);
    assert_eq!(
        run.outcome.unwrap(),
        "Completed 'search for cats' — 3 steps via keyword (simulation=true, verified=0, failed=0)"
    );
    assert_eq!(run.effects.len(), 5 * 3 + 3);
    assert_eq!(
        notifications(&run.effects),
        vec![
            (1, 3, StepStatus::Started),
            (1, 3, StepStatus::Completed),
            (2, 3, StepStatus::Started),
            (2, 3, StepStatus::Completed),
            (3, 3, StepStatus::Started),
            (3, 3, StepStatus::Completed),
        ]
    );
    match &run.effects[1] {
        AgentEffect::Log { module, event, data } => {
            assert_eq!(module, "orchestrator");
            assert_eq!(event, "plan_created");
            assert_eq!(data, "3 steps via keyword for 'search for cats'");
        }
        other => panic!("unexpected {other:?}"),
    }
    match &run.effects[6] {
        AgentEffect::StepResult { step_id, success, simulated, description, verified } => {
            assert_eq!(*step_id, 1);
            assert!(*success && *simulated);
            assert_eq!(description, "SIM: pressed combo [Win+S]");
            assert_eq!(*verified, None);
        }
        other => panic!("unexpected {other:?}"),
    }
}

#[test]
fn real_mode_stops_at_first_step() {
    let mut config = AppConfig::default();
    config.simulation_mode = false;
    let run = handle_instruction("open notepad", &config, Some("a screen"));
    match run.outcome {
        Err(LapisError::Action(msg)) => assert_eq!(msg, "Real execution not yet implemented for SystemLaunch"),
        other => panic!("unexpected {other:?}"),
    }
    assert_eq!(run.effects.len(), 5);
    assert_eq!(notifications(&run.effects), vec![(1, 2, StepStatus::Started)]);
    match &run.effects[3] {
        AgentEffect::Log { module, event, data } => {
            assert_eq!(module, "executor");
            assert_eq!(event, "dispatch");
            assert_eq!(data, "[real] step 1: SystemLaunch {application=notepad.exe} — Launch Notepad application");
        }
        other => panic!("unexpected {other:?}"),
    }
    match &run.effects[4] {
        AgentEffect::Log { module, event, data } => {
            assert_eq!(module, "executor");
            assert_eq!(event, "error");
            assert_eq!(data, "[action] Real execution not yet implemented for SystemLaunch");
        }
        other => panic!("unexpected {other:?}"),
    }
}
