use core_agent::config::{load, AppConfig};

#[test]
fn default_config_is_simulation_mode() {
    let cfg = AppConfig::default();
    assert!(cfg.simulation_mode);
}

#[test]
fn load_returns_defaults() {
    let cfg = load().unwrap();
    assert_eq!(cfg.ipc_port, 9100);
    assert_eq!(cfg.vlm_model, "moondream");
}

#[test]
fn default_config_values() {
    let cfg = AppConfig::default();
    assert_eq!(cfg.ipc_transport, "tcp");
    assert_eq!(cfg.log_level, "info");
    assert_eq!(cfg.vlm_endpoint, "http://localhost:11434");
}
