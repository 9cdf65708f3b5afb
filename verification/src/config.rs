use vstd::prelude::*;
use vstd::string::*;
use crate::error::LapisResult;

verus! {

/// Runtime configuration for the agent.
#[derive(Clone, Debug)]
pub struct AppConfig {
    /// Whether actions are simulated (true) or real (false).
    pub simulation_mode: bool,
    /// IPC transport: "pipe" or "tcp".
    pub ipc_transport: String,
    /// TCP port used when ipc_transport is "tcp".
    pub ipc_port: u16,
    /// Logging level: "debug", "info", "warn", "error".
    pub log_level: String,
    /// VLM endpoint URL (e.g. Ollama).
    pub vlm_endpoint: String,
    /// VLM model name (e.g. "llava:latest").
    pub vlm_model: String,
}

/// A configuration as the specifications see it.
pub struct ConfigView {
    pub simulation_mode: bool,
    pub ipc_transport: Seq<char>,
    pub ipc_port: u16,
    pub log_level: Seq<char>,
    pub vlm_endpoint: Seq<char>,
    pub vlm_model: Seq<char>,
}

impl View for AppConfig {
    type V = ConfigView;

    open spec fn view(&self) -> ConfigView {
        ConfigView {
            simulation_mode: self.simulation_mode,
            ipc_transport: self.ipc_transport@,
            ipc_port: self.ipc_port,
            log_level: self.log_level@,
            vlm_endpoint: self.vlm_endpoint@,
            vlm_model: self.vlm_model@,
        }
    }
}

/// The default configuration: simulation on, TCP transport on port 9100,
/// `info` logging, and the local moondream vision model.
pub open spec fn default_config() -> ConfigView {
    ConfigView {
        simulation_mode: true,
        ipc_transport: "tcp"@,
        ipc_port: 9100,
        log_level: "info"@,
        vlm_endpoint: "http://localhost:11434"@,
        vlm_model: "moondream"@,
    }
}

impl Default for AppConfig {
    fn default() -> (c: Self)
        ensures
            c@ == default_config(),
    {
        AppConfig {
            simulation_mode: true,
            ipc_transport: String::from_str("tcp"),
            ipc_port: 9100,
            log_level: String::from_str("info"),
            vlm_endpoint: String::from_str("http://localhost:11434"),
            vlm_model: String::from_str("moondream"),
        }
    }
}

/// Loads the configuration; only the defaults exist so far.
pub fn load() -> (r: LapisResult<AppConfig>)
    ensures
        r matches Ok(c) && c@ == default_config(),
{
    Ok(AppConfig::default())
}

/// The default configuration simulates actions, serves JSON-RPC over TCP on
/// port 9100, logs at `info`, and uses the moondream model at the local
/// Ollama endpoint.
pub proof fn lemma_default_configuration()
    ensures
        default_config().simulation_mode,
        default_config().ipc_transport == "tcp"@,
        default_config().ipc_port == 9100,
        default_config().log_level == "info"@,
        default_config().vlm_endpoint == "http://localhost:11434"@,
        default_config().vlm_model == "moondream"@,
{
}

} // verus!
