use core_agent::config::AppConfig;
use core_agent::ipc::{
    analysis_prompt, analysis_reply, dispatch_request, handle_configure, handle_instruct,
    handle_screenshot, parse_error, request_line, route_method, IpcServer, RequestAction, RpcMethod, RpcParams,
    RpcReply, RpcResult, INVALID_PARAMS, METHOD_NOT_FOUND, PARSE_ERROR, SERVER_ERROR,
};
use core_agent::error::LapisError;
use core_agent::orchestrator::AgentEffect;
use core_agent::perception::{ScreenAnalysis, Screenshot};

fn no_params() -> RpcParams {
    RpcParams { text: None, prompt: None, vlm_endpoint: None, vlm_model: None, simulation_mode: None }
}

fn failure(reply: &RpcReply) -> (i32, String) {
    match reply {
        RpcReply::Failure(e) => (e.code, e.message.clone()),
        other => panic!("expected a failure, got {other:?}"),
    }
}

#[test]
fn server_creates_successfully() {
    assert!(IpcServer::new(AppConfig::default()).is_ok());
}

#[test]
fn server_keeps_port_and_config() {
    let mut cfg = AppConfig::default();
    cfg.ipc_port = 4242;
    let server = IpcServer::new(cfg).unwrap();
    assert_eq!(server.port(), 4242);
    assert_eq!(server.config().ipc_port, 4242);
}

#[test]
fn routes_known_methods() {
    assert_eq!(route_method("agent.instruct"), RpcMethod::Instruct);
    assert_eq!(route_method("agent.ping"), RpcMethod::Ping);
    assert_eq!(route_method("agent.status"), RpcMethod::Status);
    assert_eq!(route_method("agent.screenshot"), RpcMethod::Screenshot);
    assert_eq!(route_method("agent.configure"), RpcMethod::Configure);
    assert_eq!(route_method("agent.analyze_screen"), RpcMethod::AnalyzeScreen);
    assert_eq!(route_method("agent.Ping"), RpcMethod::Unknown);
}

#[test]
fn ping_answers_pong() {
    let mut cfg = AppConfig::default();
    match dispatch_request("agent.ping", &None, &mut cfg) {
        RequestAction::Reply(RpcReply::Success(RpcResult::Pong)) => {}
        _ => panic!("expected pong"),
    }
}

#[test]
fn status_reports_configuration() {
    let mut cfg = AppConfig::default();
    match dispatch_request("agent.status", &None, &mut cfg) {
        RequestAction::Reply(RpcReply::Success(RpcResult::Status { simulation_mode, version, vlm_endpoint, vlm_model })) => {
            assert!(simulation_mode);
            assert_eq!(version, "0.1.0");
            assert_eq!(vlm_endpoint, "http://localhost:11434");
            assert_eq!(vlm_model, "moondream");
        }
        _ => panic!("expected status"),
    }
}

#[test]
fn unknown_method_is_not_found() {
    let mut cfg = AppConfig::default();
    match dispatch_request("agent.fly", &None, &mut cfg) {
        RequestAction::Reply(reply) => {
            assert_eq!(failure(&reply), (METHOD_NOT_FOUND, "Method not found: agent.fly".to_string()));
        }
        _ => panic!("expected a reply"),
    }
    assert_eq!(METHOD_NOT_FOUND, -32601);
}

#[test]
fn configure_updates_given_fields_only() {
    let mut cfg = AppConfig::default();
    let params = Some(RpcParams {
        vlm_model: Some("llava:latest".into()),
        simulation_mode: Some(false),
        ..no_params()
    });
    match handle_configure(&params, &mut cfg) {
        RpcReply::Success(RpcResult::Configured) => {}
        other => panic!("unexpected {other:?}"),
    }
    assert_eq!(cfg.vlm_model, "llava:latest");
    assert!(!cfg.simulation_mode);
    assert_eq!(cfg.vlm_endpoint, "http://localhost:11434");
    assert_eq!(cfg.ipc_port, 9100);
}

#[test]
fn configure_without_params_is_invalid() {
    let mut cfg = AppConfig::default();
    let reply = handle_configure(&None, &mut cfg);
    assert_eq!(failure(&reply), (INVALID_PARAMS, "Missing parameters".to_string()));
    assert!(cfg.simulation_mode);
    assert_eq!(INVALID_PARAMS, -32602);
}

#[test]
fn instruct_without_text_is_invalid() {
    let cfg = AppConfig::default();
    let out = handle_instruct(&None, &cfg);
    assert!(out.effects.is_empty());
    assert_eq!(failure(&out.reply), (INVALID_PARAMS, "Missing 'text' parameter".to_string()));
    let out = handle_instruct(&Some(RpcParams { text: Some(String::new()), ..no_params() }), &cfg);
    assert!(out.effects.is_empty());
}

#[test]
fn instruct_runs_the_instruction() {
    let cfg = AppConfig::default();
    let out = handle_instruct(&Some(RpcParams { text: Some("open notepad".into()), ..no_params() }), &cfg);
    match &out.reply {
        RpcReply::Success(RpcResult::Summary(s)) => assert_eq!(
            s,
            "Completed 'open notepad' — 2 steps via keyword (simulation=true, verified=0, failed=0)"
        ),
        other => panic!("unexpected {other:?}"),
    }
    let notes = out.effects.iter().filter(|e| matches!(e, AgentEffect::Notify(_))).count();
    assert_eq!(notes, 4);
}

#[test]
fn instruct_in_real_mode_reports_agent_error() {
    let mut cfg = AppConfig::default();
    cfg.simulation_mode = false;
    let out = handle_instruct(&Some(RpcParams { text: Some("open notepad".into()), ..no_params() }), &cfg);
    assert_eq!(
        failure(&out.reply),
        (SERVER_ERROR, "Agent error: [action] Real execution not yet implemented for SystemLaunch".to_string())
    );
}

#[test]
fn screenshot_reply_has_stub_image() {
    match handle_screenshot() {
        RpcReply::Success(RpcResult::Screenshot { width, height, png_base64 }) => {
            assert_eq!((width, height), (0, 0));
            assert_eq!(png_base64, "");
        }
        other => panic!("unexpected {other:?}"),
    }
}

#[test]
fn analyze_screen_uses_prompt_and_vision_model() {
    let mut cfg = AppConfig::default();
    match dispatch_request("agent.analyze_screen", &None, &mut cfg) {
        RequestAction::AnalyzeScreen { prompt, vlm_endpoint, vlm_model } => {
            assert!(prompt.starts_with("Describe what you see on the screen"));
            assert_eq!(vlm_endpoint, "http://localhost:11434");
            assert_eq!(vlm_model, "moondream");
        }
        _ => panic!("expected an analysis request"),
    }
    let params = Some(RpcParams { prompt: Some("What is open?".into()), ..no_params() });
    assert_eq!(analysis_prompt(&params), "What is open?");
}

#[test]
fn analysis_replies() {
    let shot = Screenshot { width: 3, height: 4, data: vec![] };
    let analysis = ScreenAnalysis { description: "a desktop".into(), model: "moondream".into() };
    match analysis_reply(Ok((shot, analysis))) {
        RpcReply::Success(RpcResult::Analysis { width, height, description, model }) => {
            assert_eq!((width, height), (3, 4));
            assert_eq!(description, "a desktop");
            assert_eq!(model, "moondream");
        }
        other => panic!("unexpected {other:?}"),
    }
    let reply = analysis_reply(Err(LapisError::Perception("no screen".into())));
    assert_eq!(failure(&reply), (SERVER_ERROR, "Analysis error: [perception] no screen".to_string()));
}

#[test]
fn parse_error_message() {
    let e = parse_error("expected value at line 1 column 1");
    assert_eq!(e.code, PARSE_ERROR);
    assert_eq!(e.code, -32700);
    assert_eq!(e.message, "Parse error: expected value at line 1 column 1");
}

#[test]
fn request_lines_are_trimmed_and_blank_ones_skipped() {

    assert_eq!(request_line("  {\"a\":1}\r"), Some("{\"a\":1}".to_string()));
    assert_eq!(request_line(" \t "), None);
    assert_eq!(request_line(""), None);
}
