use core_agent::error::LapisError;

#[test]
fn error_display_includes_module_tag() {
    let err = LapisError::Config("missing file".into());
    assert_eq!(err.describe(), "[config] missing file");
}

#[test]
fn error_is_debug_printable() {
    let err = LapisError::Ipc("connection refused".into());
    let debug = format!("{err:?}");
    assert!(debug.contains("connection refused"));
}

#[test]
fn every_error_kind_has_its_tag() {
    let cases = vec![
        (LapisError::Config("m".into()), "[config] m"),
        (LapisError::Ipc("m".into()), "[ipc] m"),
        (LapisError::Planner("m".into()), "[planner] m"),
        (LapisError::Executor("m".into()), "[executor] m"),
        (LapisError::Perception("m".into()), "[perception] m"),
        (LapisError::Action("m".into()), "[action] m"),
        (LapisError::System("m".into()), "[system] m"),
        (LapisError::Logging("m".into()), "[logging] m"),
        (LapisError::Orchestrator("m".into()), "[orchestrator] m"),
    ];
    for (e, text) in cases {
        assert_eq!(e.describe(), text);
    }
}
