use vstd::prelude::*;
use vstd::string::*;
use crate::config::{AppConfig, ConfigView};
use crate::error::{ErrorView, LapisError, LapisResult, error_tag, error_text};
use crate::orchestrator::{AgentEffect, EffectView, effects_view, handle_instruction, instruction_run};
use crate::perception::{ScreenAnalysis, Screenshot, base64, capture_screen};
use crate::text::{chars_of, same_text, string_from_chars, trim, trimmed};

verus! {

/// The error object of a JSON-RPC 2.0 response.
#[derive(Clone, Debug)]
pub struct JsonRpcError {
    pub code: i32,
    pub message: String,
}

/// Invalid JSON was received.
pub const PARSE_ERROR: i32 = -32700;

/// The method does not exist.
pub const METHOD_NOT_FOUND: i32 = -32601;

/// The method's parameters are missing or invalid.
pub const INVALID_PARAMS: i32 = -32602;

/// The agent failed while serving the request.
pub const SERVER_ERROR: i32 = -32000;

/// The protocol version the server reports.
pub open spec fn agent_version() -> Seq<char> {
    "0.1.0"@
}

/// The methods the server knows.
#[derive(Clone, Copy, Debug, PartialEq, Eq, Structural)]
pub enum RpcMethod {
    Instruct,
    Ping,
    Status,
    Screenshot,
    Configure,
    AnalyzeScreen,
    Unknown,
}

/// The method that a method name selects.
pub open spec fn method_of(name: Seq<char>) -> RpcMethod {
    if name == "agent.instruct"@ {
        RpcMethod::Instruct
    } else if name == "agent.ping"@ {
        RpcMethod::Ping
    } else if name == "agent.status"@ {
        RpcMethod::Status
    } else if name == "agent.screenshot"@ {
        RpcMethod::Screenshot
    } else if name == "agent.configure"@ {
        RpcMethod::Configure
    } else if name == "agent.analyze_screen"@ {
        RpcMethod::AnalyzeScreen
    } else {
        RpcMethod::Unknown
    }
}

/// Selects the method for a method name.
pub fn route_method(name: &str) -> (m: RpcMethod)
    ensures
        m == method_of(name@),
{
    if same_text(name, "agent.instruct") {
        RpcMethod::Instruct
    } else if same_text(name, "agent.ping") {
        RpcMethod::Ping
    } else if same_text(name, "agent.status") {
        RpcMethod::Status
    } else if same_text(name, "agent.screenshot") {
        RpcMethod::Screenshot
    } else if same_text(name, "agent.configure") {
        RpcMethod::Configure
    } else if same_text(name, "agent.analyze_screen") {
        RpcMethod::AnalyzeScreen
    } else {
        RpcMethod::Unknown
    }
}

/// The fields of a request's parameter object that the methods read, each
/// present only where the object holds it with the right JSON type.
#[derive(Clone, Debug)]
pub struct RpcParams {
    pub text: Option<String>,
    pub prompt: Option<String>,
    pub vlm_endpoint: Option<String>,
    pub vlm_model: Option<String>,
    pub simulation_mode: Option<bool>,
}

/// An optional string as the specifications see it.
pub open spec fn opt_text(o: Option<String>) -> Option<Seq<char>> {
    match o {
        Some(s) => Some(s@),
        None => None,
    }
}

/// Request parameters as the specifications see them.
pub struct ParamsView {
    pub text: Option<Seq<char>>,
    pub prompt: Option<Seq<char>>,
    pub vlm_endpoint: Option<Seq<char>>,
    pub vlm_model: Option<Seq<char>>,
    pub simulation_mode: Option<bool>,
}

impl View for RpcParams {
    type V = ParamsView;

    open spec fn view(&self) -> ParamsView {
        ParamsView {
            text: opt_text(self.text),
            prompt: opt_text(self.prompt),
            vlm_endpoint: opt_text(self.vlm_endpoint),
            vlm_model: opt_text(self.vlm_model),
            simulation_mode: self.simulation_mode,
        }
    }
}

/// Optional parameters as the specifications see them.
pub open spec fn params_view(p: Option<RpcParams>) -> Option<ParamsView> {
    match p {
        Some(q) => Some(q@),
        None => None,
    }
}

/// The payload of a successful response.
#[derive(Clone, Debug)]
pub enum RpcResult {
    /// `{"pong": true}`
    Pong,
    /// The agent's mode, version and vision model.
    Status { simulation_mode: bool, version: String, vlm_endpoint: String, vlm_model: String },
    /// `{"configured": true}`
    Configured,
    /// `{"summary": ...}` of a handled instruction.
    Summary(String),
    /// A captured screenshot, Base64-encoded.
    Screenshot { width: u32, height: u32, png_base64: String },
    /// A screenshot's size and what a vision model saw in it.
    Analysis { width: u32, height: u32, description: String, model: String },
}

/// A response payload as the specifications see it.
pub enum ResultView {
    Pong,
    Status { simulation_mode: bool, version: Seq<char>, vlm_endpoint: Seq<char>, vlm_model: Seq<char> },
    Configured,
    Summary(Seq<char>),
    Screenshot { width: u32, height: u32, png_base64: Seq<char> },
    Analysis { width: u32, height: u32, description: Seq<char>, model: Seq<char> },
}

impl View for RpcResult {
    type V = ResultView;

    open spec fn view(&self) -> ResultView {
        match self {
            RpcResult::Pong => ResultView::Pong,
            RpcResult::Status { simulation_mode, version, vlm_endpoint, vlm_model } => ResultView::Status {
                simulation_mode: *simulation_mode,
                version: version@,
                vlm_endpoint: vlm_endpoint@,
                vlm_model: vlm_model@,
            },
            RpcResult::Configured => ResultView::Configured,
            RpcResult::Summary(s) => ResultView::Summary(s@),
            RpcResult::Screenshot { width, height, png_base64 } => ResultView::Screenshot {
                width: *width,
                height: *height,
                png_base64: png_base64@,
            },
            RpcResult::Analysis { width, height, description, model } => ResultView::Analysis {
                width: *width,
                height: *height,
                description: description@,
                model: model@,
            },
        }
    }
}

/// The answer to a request: a result or an error.
#[derive(Clone, Debug)]
pub enum RpcReply {
    Success(RpcResult),
    Failure(JsonRpcError),
}

/// An answer as the specifications see it.
pub enum ReplyView {
    Success(ResultView),
    Failure { code: i32, message: Seq<char> },
}

impl View for RpcReply {
    type V = ReplyView;

    open spec fn view(&self) -> ReplyView {
        match self {
            RpcReply::Success(r) => ReplyView::Success(r@),
            RpcReply::Failure(e) => ReplyView::Failure { code: e.code, message: e.message@ },
        }
    }
}

/// An error answer with a fixed prefix before a detail.
fn failure(code: i32, prefix: &str, detail: &str) -> (r: RpcReply)
    ensures
        r@ == (ReplyView::Failure { code, message: prefix@ + detail@ }),
{
    let mut message = String::from_str(prefix);
    message.append(detail);
    RpcReply::Failure(JsonRpcError { code, message })
}

/// The request a received line holds: the line without surrounding white
/// space, or nothing where the line is blank.
pub open spec fn request_text(line: Seq<char>) -> Option<Seq<char>> {
    if trim(line).len() == 0 { None } else { Some(trim(line)) }
}

/// The request a received line holds; blank lines hold none.
pub fn request_line(line: &str) -> (r: Option<String>)
    ensures
        opt_text(r) == request_text(line@),
{
    let t = trimmed(chars_of(line).as_slice());
    if t.len() == 0 { None } else { Some(string_from_chars(t.as_slice())) }
}

/// The error answer for a line that is not a valid request.
pub fn parse_error(detail: &str) -> (e: JsonRpcError)
    ensures
        e.code == PARSE_ERROR,
        e.message@ == "Parse error: "@ + detail@,
{
    let mut message = String::from_str("Parse error: ");
    message.append(detail);
    JsonRpcError { code: PARSE_ERROR, message }
}

/// The configuration after `agent.configure` with the given parameters:
/// each of the vision endpoint, the vision model and the simulation mode is
/// replaced where the parameters hold it, and everything else stays.
pub open spec fn configured(c: ConfigView, p: ParamsView) -> ConfigView {
    ConfigView {
        vlm_endpoint: match p.vlm_endpoint {
            Some(e) => e,
            None => c.vlm_endpoint,
        },
        vlm_model: match p.vlm_model {
            Some(m) => m,
            None => c.vlm_model,
        },
        simulation_mode: match p.simulation_mode {
            Some(b) => b,
            None => c.simulation_mode,
        },
        ..c
    }
}

/// What `agent.configure` answers and leaves as the configuration.
pub open spec fn configure_spec(p: Option<ParamsView>, c: ConfigView) -> (ReplyView, ConfigView) {
    match p {
        None => (ReplyView::Failure { code: INVALID_PARAMS, message: "Missing parameters"@ }, c),
        Some(q) => (ReplyView::Success(ResultView::Configured), configured(c, q)),
    }
}

/// Handles `agent.configure`: updates the configuration from the parameters.
pub fn handle_configure(params: &Option<RpcParams>, config: &mut AppConfig) -> (r: RpcReply)
    ensures
        (r@, final(config)@) == configure_spec(params_view(*params), old(config)@),
{
    match params {
        None => RpcReply::Failure(JsonRpcError { code: INVALID_PARAMS, message: String::from_str("Missing parameters") }),
        Some(p) => {
            match &p.vlm_endpoint {
                Some(e) => {
                    config.vlm_endpoint = e.clone();
                },
                None => {},
            }
            match &p.vlm_model {
                Some(m) => {
                    config.vlm_model = m.clone();
                },
                None => {},
            }
            match p.simulation_mode {
                Some(b) => {
                    config.simulation_mode = b;
                },
                None => {},
            }
            RpcReply::Success(RpcResult::Configured)
        },
    }
}

/// The instruction text of `agent.instruct`: the `text` parameter, or empty.
pub open spec fn instruct_text(p: Option<ParamsView>) -> Seq<char> {
    match p {
        Some(q) => match q.text {
            Some(t) => t,
            None => Seq::empty(),
        },
        None => Seq::empty(),
    }
}

/// What `agent.instruct` does: the effects of handling the instruction in
/// the configured mode, and the answer, which carries the summary or the
/// agent's error; an empty instruction is refused before anything runs.
pub open spec fn instruct_spec(p: Option<ParamsView>, c: ConfigView) -> (Seq<EffectView>, ReplyView) {
    let text = instruct_text(p);
    if text.len() == 0 {
        (Seq::empty(), ReplyView::Failure { code: INVALID_PARAMS, message: "Missing 'text' parameter"@ })
    } else {
        let (effects, outcome) = instruction_run(text, c.simulation_mode);
        (
            effects,
            match outcome {
                Ok(s) => ReplyView::Success(ResultView::Summary(s)),
                Err(e) => ReplyView::Failure { code: SERVER_ERROR, message: "Agent error: "@ + error_text(e) },
            },
        )
    }
}

/// The outcome of `agent.instruct`: the effects to carry out (notifications
/// and log lines, in order) and the answer.
pub struct InstructReply {
    pub effects: Vec<AgentEffect>,
    pub reply: RpcReply,
}

/// Handles `agent.instruct`.
pub fn handle_instruct(params: &Option<RpcParams>, config: &AppConfig) -> (r: InstructReply)
    ensures
        (effects_view(r.effects@), r.reply@) == instruct_spec(params_view(*params), config@),
{
    let text: &str = match params {
        Some(p) => match &p.text {
            Some(t) => t.as_str(),
            None => "",
        },
        None => "",
    };
    proof {
        reveal_strlit("");
    }
    if text.is_empty() {
        let reply = RpcReply::Failure(JsonRpcError {
            code: INVALID_PARAMS,
            message: String::from_str("Missing 'text' parameter"),
        });
        let effects: Vec<AgentEffect> = Vec::new();
        assert(effects_view(effects@) =~= Seq::<EffectView>::empty());
        return InstructReply { effects, reply };
    }
    let run = handle_instruction(text, config, None);
    let reply = match &run.outcome {
        Ok(summary) => RpcReply::Success(RpcResult::Summary(summary.clone())),
        Err(e) => {
            let d = e.describe();
            failure(SERVER_ERROR, "Agent error: ", d.as_str())
        },
    };
    InstructReply { effects: run.effects, reply }
}

/// What `agent.screenshot` answers for a capture: its size and Base64 image,
/// or the capture error.
pub open spec fn screenshot_reply(capture: Result<(u32, u32, Seq<u8>), ErrorView>) -> ReplyView {
    match capture {
        Ok((w, h, data)) => ReplyView::Success(ResultView::Screenshot { width: w, height: h, png_base64: base64(data) }),
        Err(e) => ReplyView::Failure { code: SERVER_ERROR, message: "Screenshot error: "@ + error_text(e) },
    }
}

/// Handles `agent.screenshot`: captures the screen and answers with the image.
pub fn handle_screenshot() -> (r: RpcReply)
    ensures
        r@ == screenshot_reply(Ok((0u32, 0u32, Seq::<u8>::empty()))),
{
    match capture_screen() {
        Ok(shot) => {
            assert(shot.data@ =~= Seq::<u8>::empty());
            RpcReply::Success(RpcResult::Screenshot {
                width: shot.width,
                height: shot.height,
                png_base64: shot.png_base64(),
            })
        },
        Err(e) => {
            let d = e.describe();
            failure(SERVER_ERROR, "Screenshot error: ", d.as_str())
        },
    }
}

/// The prompt used for screen analysis when the request gives none.
pub open spec fn default_prompt() -> Seq<char> {
    "Describe what you see on the screen in detail. Include any visible windows, text, buttons, and UI elements."@
}

/// The prompt of `agent.analyze_screen`: the `prompt` parameter, or the default.
pub open spec fn analysis_prompt_spec(p: Option<ParamsView>) -> Seq<char> {
    match p {
        Some(q) => match q.prompt {
            Some(t) => t,
            None => default_prompt(),
        },
        None => default_prompt(),
    }
}

/// The prompt for a screen analysis request.
pub fn analysis_prompt(params: &Option<RpcParams>) -> (s: String)
    ensures
        s@ == analysis_prompt_spec(params_view(*params)),
{
    match params {
        Some(p) => match &p.prompt {
            Some(t) => t.clone(),
            None => String::from_str(
                "Describe what you see on the screen in detail. Include any visible windows, text, buttons, and UI elements.",
            ),
        },
        None => String::from_str(
            "Describe what you see on the screen in detail. Include any visible windows, text, buttons, and UI elements.",
        ),
    }
}

/// What `agent.analyze_screen` answers for the outcome of an analysis.
pub open spec fn analysis_reply_spec(outcome: Result<(u32, u32, Seq<char>, Seq<char>), ErrorView>) -> ReplyView {
    match outcome {
        Ok((w, h, d, m)) => ReplyView::Success(ResultView::Analysis { width: w, height: h, description: d, model: m }),
        Err(e) => ReplyView::Failure { code: SERVER_ERROR, message: "Analysis error: "@ + error_text(e) },
    }
}

/// The view of the outcome of a screen analysis.
pub open spec fn analysis_view(outcome: LapisResult<(Screenshot, ScreenAnalysis)>) -> Result<(u32, u32, Seq<char>, Seq<char>), ErrorView> {
    match outcome {
        Ok((s, a)) => Ok((s.width, s.height, a.description@, a.model@)),
        Err(e) => Err(e@),
    }
}

/// Answers `agent.analyze_screen` once the capture and the analysis are done.
pub fn analysis_reply(outcome: LapisResult<(Screenshot, ScreenAnalysis)>) -> (r: RpcReply)
    ensures
        r@ == analysis_reply_spec(analysis_view(outcome)),
{
    match outcome {
        Ok((shot, analysis)) => RpcReply::Success(RpcResult::Analysis {
            width: shot.width,
            height: shot.height,
            description: analysis.description,
            model: analysis.model,
        }),
        Err(e) => {
            let d = e.describe();
            failure(SERVER_ERROR, "Analysis error: ", d.as_str())
        },
    }
}

/// What the server does with a request, decided from its method.
pub enum RequestAction {
    /// Send this answer.
    Reply(RpcReply),
    /// Carry out these effects in order, then send the answer.
    Instruct(InstructReply),
    /// Capture the screen, have the vision model at this endpoint analyse it
    /// with this prompt, and answer with `analysis_reply`.
    AnalyzeScreen { prompt: String, vlm_endpoint: String, vlm_model: String },
}

/// A request action as the specifications see it.
pub enum RequestActionView {
    Reply(ReplyView),
    Instruct(Seq<EffectView>, ReplyView),
    AnalyzeScreen { prompt: Seq<char>, vlm_endpoint: Seq<char>, vlm_model: Seq<char> },
}

impl View for RequestAction {
    type V = RequestActionView;

    open spec fn view(&self) -> RequestActionView {
        match self {
            RequestAction::Reply(r) => RequestActionView::Reply(r@),
            RequestAction::Instruct(i) => RequestActionView::Instruct(effects_view(i.effects@), i.reply@),
            RequestAction::AnalyzeScreen { prompt, vlm_endpoint, vlm_model } => RequestActionView::AnalyzeScreen {
                prompt: prompt@,
                vlm_endpoint: vlm_endpoint@,
                vlm_model: vlm_model@,
            },
        }
    }
}

/// What the server does with a request, and the configuration it leaves.
pub open spec fn request_spec(method: Seq<char>, p: Option<ParamsView>, c: ConfigView) -> (RequestActionView, ConfigView) {
    match method_of(method) {
        RpcMethod::Instruct => {
            let (effects, reply) = instruct_spec(p, c);
            (RequestActionView::Instruct(effects, reply), c)
        },
        RpcMethod::Ping => (RequestActionView::Reply(ReplyView::Success(ResultView::Pong)), c),
        RpcMethod::Status => (
            RequestActionView::Reply(ReplyView::Success(ResultView::Status {
                simulation_mode: c.simulation_mode,
                version: agent_version(),
                vlm_endpoint: c.vlm_endpoint,
                vlm_model: c.vlm_model,
            })),
            c,
        ),
        RpcMethod::Screenshot => (
            RequestActionView::Reply(screenshot_reply(Ok((0u32, 0u32, Seq::<u8>::empty())))),
            c,
        ),
        RpcMethod::Configure => {
            let (reply, c2) = configure_spec(p, c);
            (RequestActionView::Reply(reply), c2)
        },
        RpcMethod::AnalyzeScreen => (
            RequestActionView::AnalyzeScreen {
                prompt: analysis_prompt_spec(p),
                vlm_endpoint: c.vlm_endpoint,
                vlm_model: c.vlm_model,
            },
            c,
        ),
        RpcMethod::Unknown => (
            RequestActionView::Reply(ReplyView::Failure { code: METHOD_NOT_FOUND, message: "Method not found: "@ + method }),
            c,
        ),
    }
}

/// Routes a request to the handler of its method.
pub fn dispatch_request(method: &str, params: &Option<RpcParams>, config: &mut AppConfig) -> (r: RequestAction)
    ensures
        (r@, final(config)@) == request_spec(method@, params_view(*params), old(config)@),
{
    match route_method(method) {
        RpcMethod::Instruct => RequestAction::Instruct(handle_instruct(params, config)),
        RpcMethod::Ping => RequestAction::Reply(RpcReply::Success(RpcResult::Pong)),
        RpcMethod::Status => RequestAction::Reply(RpcReply::Success(RpcResult::Status {
            simulation_mode: config.simulation_mode,
            version: String::from_str("0.1.0"),
            vlm_endpoint: config.vlm_endpoint.clone(),
            vlm_model: config.vlm_model.clone(),
        })),
        RpcMethod::Screenshot => RequestAction::Reply(handle_screenshot()),
        RpcMethod::Configure => RequestAction::Reply(handle_configure(params, config)),
        RpcMethod::AnalyzeScreen => RequestAction::AnalyzeScreen {
            prompt: analysis_prompt(params),
            vlm_endpoint: config.vlm_endpoint.clone(),
            vlm_model: config.vlm_model.clone(),
        },
        RpcMethod::Unknown => RequestAction::Reply(failure(METHOD_NOT_FOUND, "Method not found: ", method)),
    }
}

/// The IPC server's state: the port it listens on and the configuration it
/// serves.
pub struct IpcServer {
    port: u16,
    config: AppConfig,
}

impl IpcServer {
    /// A server for the given configuration, listening on its IPC port.
    pub fn new(config: AppConfig) -> (r: LapisResult<Self>)
        ensures
            r matches Ok(s) && s.port_spec() == config.ipc_port && s.config_spec() == config@,
    {
        let port = config.ipc_port;
        Ok(IpcServer { port, config })
    }

    /// The port the server listens on.
    pub closed spec fn port_spec(&self) -> u16 {
        self.port
    }

    /// The configuration the server serves.
    pub closed spec fn config_spec(&self) -> ConfigView {
        self.config@
    }

    /// The port the server listens on.
    pub fn port(&self) -> (p: u16)
        ensures
            p == self.port_spec(),
    {
        self.port
    }

    /// The configuration the server serves.
    pub fn config(&self) -> (c: &AppConfig)
        ensures
            c@ == self.config_spec(),
    {
        &self.config
    }
}

/// Only `agent.configure` changes the configuration; a request for any
/// other method, known or not, leaves it as it was.
pub proof fn lemma_only_configure_changes_config(method: Seq<char>, p: Option<ParamsView>, c: ConfigView)
    ensures
        method_of(method) != RpcMethod::Configure ==> request_spec(method, p, c).1 == c,
{
}

/// `agent.configure` touches only the vision endpoint, the vision model and
/// the simulation mode, and applying the same parameters twice changes
/// nothing more than applying them once.
pub proof fn lemma_configure_settles(c: ConfigView, q: ParamsView)
    ensures
        configured(c, q).ipc_transport == c.ipc_transport,
        configured(c, q).ipc_port == c.ipc_port,
        configured(c, q).log_level == c.log_level,
        configured(configured(c, q), q) == configured(c, q),
{
}

/// A request for a method the server does not know is answered with
/// "method not found" and the method's name.
pub proof fn lemma_unknown_method_refused(method: Seq<char>, p: Option<ParamsView>, c: ConfigView)
    ensures
        method_of(method) == RpcMethod::Unknown ==> request_spec(method, p, c).0 == RequestActionView::Reply(
            ReplyView::Failure { code: METHOD_NOT_FOUND, message: "Method not found: "@ + method },
        ),
{
}

/// In simulation mode a non-empty instruction is always answered with the
/// summary of its completed run.
pub proof fn lemma_simulated_instruct_succeeds(p: Option<ParamsView>, c: ConfigView)
    requires
        c.simulation_mode,
        instruct_text(p).len() > 0,
    ensures
        instruct_spec(p, c).1 == ReplyView::Success(ResultView::Summary(
            crate::orchestrator::summary_text(
                instruct_text(p),
                crate::planner::plan_for(instruct_text(p)).steps.len(),
                true,
                0,
            ),
        )),
{
    crate::orchestrator::lemma_simulated_instruction(instruct_text(p));
}

/// Each method name selects its own method.
pub proof fn lemma_method_names()
    ensures
        method_of("agent.instruct"@) == RpcMethod::Instruct,
        method_of("agent.ping"@) == RpcMethod::Ping,
        method_of("agent.status"@) == RpcMethod::Status,
        method_of("agent.screenshot"@) == RpcMethod::Screenshot,
        method_of("agent.configure"@) == RpcMethod::Configure,
        method_of("agent.analyze_screen"@) == RpcMethod::AnalyzeScreen,
{
    reveal_strlit("agent.instruct");
    reveal_strlit("agent.ping");
    reveal_strlit("agent.status");
    reveal_strlit("agent.screenshot");
    reveal_strlit("agent.configure");
    reveal_strlit("agent.analyze_screen");
    assert("agent.instruct"@[6] != "agent.ping"@[6]);
    assert("agent.instruct"@[6] != "agent.status"@[6]);
    assert("agent.instruct"@[6] != "agent.screenshot"@[6]);
    assert("agent.ping"@[6] != "agent.status"@[6]);
    assert("agent.ping"@[6] != "agent.screenshot"@[6]);
    assert("agent.screenshot"@[7] != "agent.status"@[7]);
    assert("agent.configure"@[6] != "agent.instruct"@[6]);
    assert("agent.configure"@[6] != "agent.ping"@[6]);
    assert("agent.configure"@[6] != "agent.status"@[6]);
    assert("agent.configure"@[6] != "agent.screenshot"@[6]);
    assert("agent.analyze_screen"@[6] != "agent.instruct"@[6]);
    assert("agent.analyze_screen"@[6] != "agent.ping"@[6]);
    assert("agent.analyze_screen"@[6] != "agent.status"@[6]);
    assert("agent.analyze_screen"@[6] != "agent.screenshot"@[6]);
    assert("agent.analyze_screen"@[6] != "agent.configure"@[6]);
}

/// `agent.status` reports the configuration as it stands: its simulation
/// mode, the version `0.1.0`, and its vision endpoint and model, and leaves
/// the configuration unchanged.
pub proof fn lemma_status_reports_config(p: Option<ParamsView>, c: ConfigView)
    ensures
        request_spec("agent.status"@, p, c) == (
            RequestActionView::Reply(ReplyView::Success(ResultView::Status {
                simulation_mode: c.simulation_mode,
                version: "0.1.0"@,
                vlm_endpoint: c.vlm_endpoint,
                vlm_model: c.vlm_model,
            })),
            c,
        ),
{
    lemma_method_names();
}

/// `agent.ping` is answered with pong and changes nothing.
pub proof fn lemma_ping_pongs(p: Option<ParamsView>, c: ConfigView)
    ensures
        request_spec("agent.ping"@, p, c) == (RequestActionView::Reply(ReplyView::Success(ResultView::Pong)), c),
{
    lemma_method_names();
}

/// `agent.configure` with parameters sets each of the vision endpoint, the
/// vision model and the simulation mode to the value the parameters give, and
/// keeps its old value where they give none; every other field stays. Without
/// parameters it is refused with "Missing parameters" and changes nothing.
pub proof fn lemma_configure_sets_given_fields(p: Option<ParamsView>, c: ConfigView)
    ensures
        ({
            let (action, c2) = request_spec("agent.configure"@, p, c);
            match p {
                None => {
                    &&& action == RequestActionView::Reply(ReplyView::Failure { code: -32602i32, message: "Missing parameters"@ })
                    &&& c2 == c
                },
                Some(q) => {
                    &&& action == RequestActionView::Reply(ReplyView::Success(ResultView::Configured))
                    &&& (q.vlm_endpoint matches Some(e) ==> c2.vlm_endpoint == e)
                    &&& (q.vlm_endpoint is None ==> c2.vlm_endpoint == c.vlm_endpoint)
                    &&& (q.vlm_model matches Some(m) ==> c2.vlm_model == m)
                    &&& (q.vlm_model is None ==> c2.vlm_model == c.vlm_model)
                    &&& (q.simulation_mode matches Some(b) ==> c2.simulation_mode == b)
                    &&& (q.simulation_mode is None ==> c2.simulation_mode == c.simulation_mode)
                    &&& c2.ipc_transport == c.ipc_transport
                    &&& c2.ipc_port == c.ipc_port
                    &&& c2.log_level == c.log_level
                },
            }
        }),
{
    lemma_method_names();
}

/// `agent.instruct` refuses a missing or empty `text` with "Missing 'text'
/// parameter" and does nothing; otherwise it runs that text in the
/// configuration's mode, carries out the run's effects, and answers with its
/// summary or with "Agent error: " and the error. The configuration stays.
pub proof fn lemma_instruct_runs_text(p: Option<ParamsView>, c: ConfigView)
    ensures
        ({
            let text = match p { Some(q) => match q.text { Some(t) => t, None => Seq::<char>::empty() }, None => Seq::<char>::empty() };
            let (action, c2) = request_spec("agent.instruct"@, p, c);
            &&& c2 == c
            &&& text.len() == 0 ==> action == RequestActionView::Instruct(
                Seq::empty(),
                ReplyView::Failure { code: -32602i32, message: "Missing 'text' parameter"@ },
            )
            &&& text.len() > 0 ==> action == RequestActionView::Instruct(
                instruction_run(text, c.simulation_mode).0,
                match instruction_run(text, c.simulation_mode).1 {
                    Ok(summary) => ReplyView::Success(ResultView::Summary(summary)),
                    Err(e) => ReplyView::Failure { code: -32000i32, message: "Agent error: "@ + error_text(e) },
                },
            )
        }),
{
    lemma_method_names();
}

/// `agent.analyze_screen` asks for an analysis with the given prompt, or the
/// default prompt, at the configured vision endpoint and model.
pub proof fn lemma_analyze_screen_uses_config(p: Option<ParamsView>, c: ConfigView)
    ensures
        request_spec("agent.analyze_screen"@, p, c) == (
            RequestActionView::AnalyzeScreen {
                prompt: match p {
                    Some(q) => match q.prompt { Some(t) => t, None => default_prompt() },
                    None => default_prompt(),
                },
                vlm_endpoint: c.vlm_endpoint,
                vlm_model: c.vlm_model,
            },
            c,
        ),
{
    lemma_method_names();
}

/// Every name other than the six known method names selects no method.
pub proof fn lemma_other_names_unknown(name: Seq<char>)
    requires
        name != "agent.instruct"@,
        name != "agent.ping"@,
        name != "agent.status"@,
        name != "agent.screenshot"@,
        name != "agent.configure"@,
        name != "agent.analyze_screen"@,
    ensures
        method_of(name) == RpcMethod::Unknown,
{
}

/// `agent.screenshot` answers with the captured image's size and its Base64
/// text; the capture is an empty 0x0 image, so both sizes are 0 and the text
/// is empty. The configuration stays.
pub proof fn lemma_screenshot_answer(p: Option<ParamsView>, c: ConfigView)
    ensures
        request_spec("agent.screenshot"@, p, c) == (
            RequestActionView::Reply(ReplyView::Success(ResultView::Screenshot {
                width: 0,
                height: 0,
                png_base64: Seq::empty(),
            })),
            c,
        ),
{
    lemma_method_names();
}

/// A finished analysis is answered with the screenshot's width and height and
/// the model's description and name, in those fields; a failed one with a
/// server error "Analysis error: " and the error's text.
pub proof fn lemma_analysis_answer(outcome: Result<(u32, u32, Seq<char>, Seq<char>), ErrorView>)
    ensures
        match outcome {
            Ok((w, h, d, m)) => analysis_reply_spec(outcome) == ReplyView::Success(ResultView::Analysis {
                width: w,
                height: h,
                description: d,
                model: m,
            }),
            Err(e) => analysis_reply_spec(outcome) == ReplyView::Failure {
                code: -32000i32,
                message: "Analysis error: "@ + ("["@ + error_tag(e.0) + "] "@ + e.1),
            },
        },
{
}

} // verus!
