use vstd::prelude::*;
use vstd::string::*;
use vstd::utf8::encode_utf8;
use crate::error::{ErrorKind, ErrorView, LapisError, LapisResult};
pub use crate::params::ActionParams;
use crate::params::param_value;
use crate::text::{decimal, push_decimal};

verus! {

/// The type of action to perform.
#[derive(Clone, Copy, Debug, PartialEq, Eq, Structural)]
pub enum ActionType {
    MouseClick,
    MouseMove,
    MouseDrag,
    KeyboardType,
    KeyboardPress,
    KeyboardCombo,
    WindowFocus,
    WindowMinimize,
    WindowMaximize,
    WindowClose,
    FileOpen,
    SystemLaunch,
}

/// Result of executing an action.
#[derive(Clone, Debug)]
pub struct ActionResult {
    pub success: bool,
    pub simulated: bool,
    pub description: String,
}

/// An action result as the specifications see it.
pub struct ActionOutcome {
    pub success: bool,
    pub simulated: bool,
    pub description: Seq<char>,
}

impl View for ActionResult {
    type V = ActionOutcome;

    open spec fn view(&self) -> ActionOutcome {
        ActionOutcome { success: self.success, simulated: self.simulated, description: self.description@ }
    }
}

/// The name of an action type, as it is spelled in the enum.
pub open spec fn action_name(t: ActionType) -> Seq<char> {
    match t {
        ActionType::MouseClick => "MouseClick"@,
        ActionType::MouseMove => "MouseMove"@,
        ActionType::MouseDrag => "MouseDrag"@,
        ActionType::KeyboardType => "KeyboardType"@,
        ActionType::KeyboardPress => "KeyboardPress"@,
        ActionType::KeyboardCombo => "KeyboardCombo"@,
        ActionType::WindowFocus => "WindowFocus"@,
        ActionType::WindowMinimize => "WindowMinimize"@,
        ActionType::WindowMaximize => "WindowMaximize"@,
        ActionType::WindowClose => "WindowClose"@,
        ActionType::FileOpen => "FileOpen"@,
        ActionType::SystemLaunch => "SystemLaunch"@,
    }
}

/// `"` + s + `"`.
pub open spec fn quoted(s: Seq<char>) -> Seq<char> {
    "\""@ + s + "\""@
}

/// What the simulation of an action reports, given its parameters.
pub open spec fn simulated_description(t: ActionType, p: Map<Seq<char>, Seq<char>>) -> Seq<char> {
    let v = |k: Seq<char>| param_value(p, k);
    match t {
        ActionType::MouseClick => {
            let button = v("button"@);
            let btn = if button.len() == 0 { "left"@ } else { button };
            "SIM: "@ + btn + "-clicked at ("@ + v("x"@) + ", "@ + v("y"@) + ")"@
        },
        ActionType::MouseMove => "SIM: moved cursor to ("@ + v("x"@) + ", "@ + v("y"@) + ")"@,
        ActionType::MouseDrag => "SIM: dragged from ("@ + v("from_x"@) + ", "@ + v("from_y"@)
            + ") to ("@ + v("to_x"@) + ", "@ + v("to_y"@) + ")"@,
        ActionType::KeyboardType => {
            let text = v("text"@);
            "SIM: typed "@ + decimal(encode_utf8(text).len()) + " characters: "@ + quoted(text)
        },
        ActionType::KeyboardPress => "SIM: pressed key ["@ + v("key"@) + "]"@,
        ActionType::KeyboardCombo => "SIM: pressed combo ["@ + v("keys"@) + "]"@,
        ActionType::WindowFocus => "SIM: focused window "@ + quoted(v("window_title"@)),
        ActionType::WindowMinimize => "SIM: minimized window "@ + quoted(v("window_title"@)),
        ActionType::WindowMaximize => "SIM: maximized window "@ + quoted(v("window_title"@)),
        ActionType::WindowClose => "SIM: closed window "@ + quoted(v("window_title"@)),
        ActionType::FileOpen => "SIM: opened file "@ + quoted(v("path"@)),
        ActionType::SystemLaunch => {
            let app = v("application"@);
            if app.len() == 0 {
                "SIM: processed system instruction "@ + quoted(v("instruction"@))
            } else {
                "SIM: launched application "@ + quoted(app)
            }
        },
    }
}

/// The error that real execution of an action gives while it is not implemented.
pub open spec fn not_implemented_error(t: ActionType) -> ErrorView {
    (ErrorKind::Action, "Real execution not yet implemented for "@ + action_name(t))
}

/// The successful simulation outcome of an action.
pub open spec fn simulated_outcome(t: ActionType, p: Map<Seq<char>, Seq<char>>) -> ActionOutcome {
    ActionOutcome { success: true, simulated: true, description: simulated_description(t, p) }
}

/// What dispatching an action gives: in simulation mode the simulated outcome,
/// otherwise the error that real execution is not implemented.
pub open spec fn dispatch_spec(t: ActionType, p: Map<Seq<char>, Seq<char>>, simulation: bool) -> Result<ActionOutcome, ErrorView> {
    if simulation {
        Ok(simulated_outcome(t, p))
    } else {
        Err(not_implemented_error(t))
    }
}

/// The view of an action's result.
pub open spec fn action_result_view(r: LapisResult<ActionResult>) -> Result<ActionOutcome, ErrorView> {
    match r {
        Ok(a) => Ok(a@),
        Err(e) => Err(e@),
    }
}

impl ActionType {
    /// The name of the action type.
    pub fn name(&self) -> (s: &'static str)
        ensures
            s@ == action_name(*self),
    {
        match self {
            ActionType::MouseClick => "MouseClick",
            ActionType::MouseMove => "MouseMove",
            ActionType::MouseDrag => "MouseDrag",
            ActionType::KeyboardType => "KeyboardType",
            ActionType::KeyboardPress => "KeyboardPress",
            ActionType::KeyboardCombo => "KeyboardCombo",
            ActionType::WindowFocus => "WindowFocus",
            ActionType::WindowMinimize => "WindowMinimize",
            ActionType::WindowMaximize => "WindowMaximize",
            ActionType::WindowClose => "WindowClose",
            ActionType::FileOpen => "FileOpen",
            ActionType::SystemLaunch => "SystemLaunch",
        }
    }
}

/// Behaviour shared by all action handlers: a simulated and a real execution.
pub trait Action {
    fn execute_simulated(&self, params: &ActionParams) -> (r: LapisResult<ActionResult>);

    fn execute_real(&self, params: &ActionParams) -> (r: LapisResult<ActionResult>);
}

/// The value of a parameter, empty when it is absent.
fn param(params: &ActionParams, key: &str) -> (s: String)
    ensures
        s@ == param_value(params@, key@),
{
    params.value_or_empty(key)
}

/// A successful simulated result with the given description.
fn sim_result(desc: String) -> (r: ActionResult)
    ensures
        r.success,
        r.simulated,
        r.description@ == desc@,
{
    ActionResult { success: true, simulated: true, description: desc }
}

/// The error for an action whose real execution does not exist yet.
fn not_implemented(action: ActionType) -> (r: LapisResult<ActionResult>)
    ensures
        action_result_view(r) == Err::<ActionOutcome, ErrorView>(not_implemented_error(action)),
{
    let mut msg = String::new();
    msg.append("Real execution not yet implemented for ");
    msg.append(action.name());
    Err(LapisError::Action(msg))
}

/// Appends `"` + v + `"` to a string.
fn push_quoted(s: &mut String, v: &str)
    ensures
        final(s)@ == old(s)@ + quoted(v@),
{
    s.append("\"");
    s.append(v);
    s.append("\"");
}

/// A simulated result that reports `prefix` followed by the quoted value of `key`.
fn sim_quoted(prefix: &str, params: &ActionParams, key: &str) -> (r: LapisResult<ActionResult>)
    ensures
        r matches Ok(a) && a@ == (ActionOutcome {
            success: true,
            simulated: true,
            description: prefix@ + quoted(param_value(params@, key@)),
        }),
{
    let v = param(params, key);
    let mut d = String::new();
    d.append(prefix);
    push_quoted(&mut d, v.as_str());
    Ok(sim_result(d))
}

/// Clicks a mouse button at a position.
struct MouseClickAction;

impl Action for MouseClickAction {
    fn execute_simulated(&self, params: &ActionParams) -> (r: LapisResult<ActionResult>)
        ensures
            action_result_view(r) == Ok::<ActionOutcome, ErrorView>(simulated_outcome(ActionType::MouseClick, params@)),
    {
        let x = param(params, "x");
        let y = param(params, "y");
        let button = param(params, "button");
        let btn = if button.as_str().is_empty() {
            String::from_str("left")
        } else {
            button
        };
        let mut d = String::new();
        d.append("SIM: ");
        d.append(btn.as_str());
        d.append("-clicked at (");
        d.append(x.as_str());
        d.append(", ");
        d.append(y.as_str());
        d.append(")");
        Ok(sim_result(d))
    }

    fn execute_real(&self, _params: &ActionParams) -> (r: LapisResult<ActionResult>)
        ensures
            action_result_view(r) == Err::<ActionOutcome, ErrorView>(not_implemented_error(ActionType::MouseClick)),
    {
        not_implemented(ActionType::MouseClick)
    }
}

/// Moves the mouse cursor.
struct MouseMoveAction;

impl Action for MouseMoveAction {
    fn execute_simulated(&self, params: &ActionParams) -> (r: LapisResult<ActionResult>)
        ensures
            action_result_view(r) == Ok::<ActionOutcome, ErrorView>(simulated_outcome(ActionType::MouseMove, params@)),
    {
        let x = param(params, "x");
        let y = param(params, "y");
        let mut d = String::new();
        d.append("SIM: moved cursor to (");
        d.append(x.as_str());
        d.append(", ");
        d.append(y.as_str());
        d.append(")");
        Ok(sim_result(d))
    }

    fn execute_real(&self, _params: &ActionParams) -> (r: LapisResult<ActionResult>)
        ensures
            action_result_view(r) == Err::<ActionOutcome, ErrorView>(not_implemented_error(ActionType::MouseMove)),
    {
        not_implemented(ActionType::MouseMove)
    }
}

/// Drags the mouse from one position to another.
struct MouseDragAction;

impl Action for MouseDragAction {
    fn execute_simulated(&self, params: &ActionParams) -> (r: LapisResult<ActionResult>)
        ensures
            action_result_view(r) == Ok::<ActionOutcome, ErrorView>(simulated_outcome(ActionType::MouseDrag, params@)),
    {
        let from_x = param(params, "from_x");
        let from_y = param(params, "from_y");
        let to_x = param(params, "to_x");
        let to_y = param(params, "to_y");
        let mut d = String::new();
        d.append("SIM: dragged from (");
        d.append(from_x.as_str());
        d.append(", ");
        d.append(from_y.as_str());
        d.append(") to (");
        d.append(to_x.as_str());
        d.append(", ");
        d.append(to_y.as_str());
        d.append(")");
        Ok(sim_result(d))
    }

    fn execute_real(&self, _params: &ActionParams) -> (r: LapisResult<ActionResult>)
        ensures
            action_result_view(r) == Err::<ActionOutcome, ErrorView>(not_implemented_error(ActionType::MouseDrag)),
    {
        not_implemented(ActionType::MouseDrag)
    }
}

/// Types a text.
struct KeyboardTypeAction;

impl Action for KeyboardTypeAction {
    fn execute_simulated(&self, params: &ActionParams) -> (r: LapisResult<ActionResult>)
        ensures
            action_result_view(r) == Ok::<ActionOutcome, ErrorView>(simulated_outcome(ActionType::KeyboardType, params@)),
    {
        let text = param(params, "text");
        let len: usize = text.as_str().as_bytes().len();
        let mut d = String::new();
        d.append("SIM: typed ");
        push_decimal(&mut d, len as u64);
        d.append(" characters: ");
        push_quoted(&mut d, text.as_str());
        Ok(sim_result(d))
    }

    fn execute_real(&self, _params: &ActionParams) -> (r: LapisResult<ActionResult>)
        ensures
            action_result_view(r) == Err::<ActionOutcome, ErrorView>(not_implemented_error(ActionType::KeyboardType)),
    {
        not_implemented(ActionType::KeyboardType)
    }
}

/// Presses a single key.
struct KeyboardPressAction;

impl Action for KeyboardPressAction {
    fn execute_simulated(&self, params: &ActionParams) -> (r: LapisResult<ActionResult>)
        ensures
            action_result_view(r) == Ok::<ActionOutcome, ErrorView>(simulated_outcome(ActionType::KeyboardPress, params@)),
    {
        let key = param(params, "key");
        let mut d = String::new();
        d.append("SIM: pressed key [");
        d.append(key.as_str());
        d.append("]");
        Ok(sim_result(d))
    }

    fn execute_real(&self, _params: &ActionParams) -> (r: LapisResult<ActionResult>)
        ensures
            action_result_view(r) == Err::<ActionOutcome, ErrorView>(not_implemented_error(ActionType::KeyboardPress)),
    {
        not_implemented(ActionType::KeyboardPress)
    }
}

/// Presses a key combination.
struct KeyboardComboAction;

impl Action for KeyboardComboAction {
    fn execute_simulated(&self, params: &ActionParams) -> (r: LapisResult<ActionResult>)
        ensures
            action_result_view(r) == Ok::<ActionOutcome, ErrorView>(simulated_outcome(ActionType::KeyboardCombo, params@)),
    {
        let keys = param(params, "keys");
        let mut d = String::new();
        d.append("SIM: pressed combo [");
        d.append(keys.as_str());
        d.append("]");
        Ok(sim_result(d))
    }

    fn execute_real(&self, _params: &ActionParams) -> (r: LapisResult<ActionResult>)
        ensures
            action_result_view(r) == Err::<ActionOutcome, ErrorView>(not_implemented_error(ActionType::KeyboardCombo)),
    {
        not_implemented(ActionType::KeyboardCombo)
    }
}

/// Brings a window to the foreground.
struct WindowFocusAction;

impl Action for WindowFocusAction {
    fn execute_simulated(&self, params: &ActionParams) -> (r: LapisResult<ActionResult>)
        ensures
            action_result_view(r) == Ok::<ActionOutcome, ErrorView>(simulated_outcome(ActionType::WindowFocus, params@)),
    {
        sim_quoted("SIM: focused window ", params, "window_title")
    }

    fn execute_real(&self, _params: &ActionParams) -> (r: LapisResult<ActionResult>)
        ensures
            action_result_view(r) == Err::<ActionOutcome, ErrorView>(not_implemented_error(ActionType::WindowFocus)),
    {
        not_implemented(ActionType::WindowFocus)
    }
}

/// Minimizes a window.
struct WindowMinimizeAction;

impl Action for WindowMinimizeAction {
    fn execute_simulated(&self, params: &ActionParams) -> (r: LapisResult<ActionResult>)
        ensures
            action_result_view(r) == Ok::<ActionOutcome, ErrorView>(simulated_outcome(ActionType::WindowMinimize, params@)),
    {
        sim_quoted("SIM: minimized window ", params, "window_title")
    }

    fn execute_real(&self, _params: &ActionParams) -> (r: LapisResult<ActionResult>)
        ensures
            action_result_view(r) == Err::<ActionOutcome, ErrorView>(not_implemented_error(ActionType::WindowMinimize)),
    {
        not_implemented(ActionType::WindowMinimize)
    }
}

/// Maximizes a window.
struct WindowMaximizeAction;

impl Action for WindowMaximizeAction {
    fn execute_simulated(&self, params: &ActionParams) -> (r: LapisResult<ActionResult>)
        ensures
            action_result_view(r) == Ok::<ActionOutcome, ErrorView>(simulated_outcome(ActionType::WindowMaximize, params@)),
    {
        sim_quoted("SIM: maximized window ", params, "window_title")
    }

    fn execute_real(&self, _params: &ActionParams) -> (r: LapisResult<ActionResult>)
        ensures
            action_result_view(r) == Err::<ActionOutcome, ErrorView>(not_implemented_error(ActionType::WindowMaximize)),
    {
        not_implemented(ActionType::WindowMaximize)
    }
}

/// Closes a window.
struct WindowCloseAction;

impl Action for WindowCloseAction {
    fn execute_simulated(&self, params: &ActionParams) -> (r: LapisResult<ActionResult>)
        ensures
            action_result_view(r) == Ok::<ActionOutcome, ErrorView>(simulated_outcome(ActionType::WindowClose, params@)),
    {
        sim_quoted("SIM: closed window ", params, "window_title")
    }

    fn execute_real(&self, _params: &ActionParams) -> (r: LapisResult<ActionResult>)
        ensures
            action_result_view(r) == Err::<ActionOutcome, ErrorView>(not_implemented_error(ActionType::WindowClose)),
    {
        not_implemented(ActionType::WindowClose)
    }
}

/// Opens a file.
struct FileOpenAction;

impl Action for FileOpenAction {
    fn execute_simulated(&self, params: &ActionParams) -> (r: LapisResult<ActionResult>)
        ensures
            action_result_view(r) == Ok::<ActionOutcome, ErrorView>(simulated_outcome(ActionType::FileOpen, params@)),
    {
        sim_quoted("SIM: opened file ", params, "path")
    }

    fn execute_real(&self, _params: &ActionParams) -> (r: LapisResult<ActionResult>)
        ensures
            action_result_view(r) == Err::<ActionOutcome, ErrorView>(not_implemented_error(ActionType::FileOpen)),
    {
        not_implemented(ActionType::FileOpen)
    }
}

/// Launches an application, or processes a free-form system instruction.
struct SystemLaunchAction;

impl Action for SystemLaunchAction {
    fn execute_simulated(&self, params: &ActionParams) -> (r: LapisResult<ActionResult>)
        ensures
            action_result_view(r) == Ok::<ActionOutcome, ErrorView>(simulated_outcome(ActionType::SystemLaunch, params@)),
    {
        let app = param(params, "application");
        if app.as_str().is_empty() {
            sim_quoted("SIM: processed system instruction ", params, "instruction")
        } else {
            let mut d = String::new();
            d.append("SIM: launched application ");
            push_quoted(&mut d, app.as_str());
            Ok(sim_result(d))
        }
    }

    fn execute_real(&self, _params: &ActionParams) -> (r: LapisResult<ActionResult>)
        ensures
            action_result_view(r) == Err::<ActionOutcome, ErrorView>(not_implemented_error(ActionType::SystemLaunch)),
    {
        not_implemented(ActionType::SystemLaunch)
    }
}

/// Runs an action through its handler: simulated when `simulation` holds,
/// for real otherwise.
pub fn dispatch(action_type: &ActionType, params: &ActionParams, simulation: bool) -> (r: LapisResult<ActionResult>)
    ensures
        action_result_view(r) == dispatch_spec(*action_type, params@, simulation),
{
    match action_type {
        ActionType::MouseClick => if simulation { MouseClickAction.execute_simulated(params) } else { MouseClickAction.execute_real(params) },
        ActionType::MouseMove => if simulation { MouseMoveAction.execute_simulated(params) } else { MouseMoveAction.execute_real(params) },
        ActionType::MouseDrag => if simulation { MouseDragAction.execute_simulated(params) } else { MouseDragAction.execute_real(params) },
        ActionType::KeyboardType => if simulation { KeyboardTypeAction.execute_simulated(params) } else { KeyboardTypeAction.execute_real(params) },
        ActionType::KeyboardPress => if simulation { KeyboardPressAction.execute_simulated(params) } else { KeyboardPressAction.execute_real(params) },
        ActionType::KeyboardCombo => if simulation { KeyboardComboAction.execute_simulated(params) } else { KeyboardComboAction.execute_real(params) },
        ActionType::WindowFocus => if simulation { WindowFocusAction.execute_simulated(params) } else { WindowFocusAction.execute_real(params) },
        ActionType::WindowMinimize => if simulation { WindowMinimizeAction.execute_simulated(params) } else { WindowMinimizeAction.execute_real(params) },
        ActionType::WindowMaximize => if simulation { WindowMaximizeAction.execute_simulated(params) } else { WindowMaximizeAction.execute_real(params) },
        ActionType::WindowClose => if simulation { WindowCloseAction.execute_simulated(params) } else { WindowCloseAction.execute_real(params) },
        ActionType::FileOpen => if simulation { FileOpenAction.execute_simulated(params) } else { FileOpenAction.execute_real(params) },
        ActionType::SystemLaunch => if simulation { SystemLaunchAction.execute_simulated(params) } else { SystemLaunchAction.execute_real(params) },
    }
}

/// In simulation mode every action succeeds, is marked simulated, and
/// reports its simulated description.
pub proof fn lemma_simulation_always_succeeds(t: ActionType, p: Map<Seq<char>, Seq<char>>)
    ensures
        dispatch_spec(t, p, true) matches Ok(o) && o.success && o.simulated
            && o.description == simulated_description(t, p),
{
}

/// Outside simulation mode no action runs: each one fails with an action
/// error that names it.
pub proof fn lemma_real_execution_refused(t: ActionType, p: Map<Seq<char>, Seq<char>>)
    ensures
        dispatch_spec(t, p, false) matches Err(e) && e.0 == ErrorKind::Action
            && e.1 == "Real execution not yet implemented for "@ + action_name(t),
{
}

proof fn lemma_quote_shape(prefix: Seq<char>, w: Seq<char>)
    ensures
        prefix + quoted(w) == prefix + "\""@ + w + "\""@,
{
    vstd::seq_lib::lemma_concat_associative(prefix, "\""@ + w, "\""@);
    vstd::seq_lib::lemma_concat_associative(prefix, "\""@, w);
}

/// In simulation mode each action reports what it would have done, quoting
/// the parameters it reads by their literal keys: a click names its button
/// (left by default) and position, a move its position, a drag both
/// positions, typing the UTF-8 byte count and the text, key presses their
/// keys, window actions the `window_title`, opening a file its `path`, and a
/// launch its `application`, or else its `instruction`.
pub proof fn lemma_simulated_descriptions(p: Map<Seq<char>, Seq<char>>)
    ensures
        dispatch_spec(ActionType::MouseClick, p, true) == Ok::<ActionOutcome, ErrorView>(ActionOutcome {
            success: true,
            simulated: true,
            description: "SIM: "@ + (if param_value(p, "button"@).len() == 0 { "left"@ } else { param_value(p, "button"@) })
                + "-clicked at ("@ + param_value(p, "x"@) + ", "@ + param_value(p, "y"@) + ")"@,
        }),
        dispatch_spec(ActionType::MouseMove, p, true) == Ok::<ActionOutcome, ErrorView>(ActionOutcome {
            success: true,
            simulated: true,
            description: "SIM: moved cursor to ("@ + param_value(p, "x"@) + ", "@ + param_value(p, "y"@) + ")"@,
        }),
        dispatch_spec(ActionType::MouseDrag, p, true) == Ok::<ActionOutcome, ErrorView>(ActionOutcome {
            success: true,
            simulated: true,
            description: "SIM: dragged from ("@ + param_value(p, "from_x"@) + ", "@ + param_value(p, "from_y"@)
                + ") to ("@ + param_value(p, "to_x"@) + ", "@ + param_value(p, "to_y"@) + ")"@,
        }),
        dispatch_spec(ActionType::KeyboardType, p, true) == Ok::<ActionOutcome, ErrorView>(ActionOutcome {
            success: true,
            simulated: true,
            description: "SIM: typed "@ + decimal(encode_utf8(param_value(p, "text"@)).len())
                + " characters: "@ + "\""@ + param_value(p, "text"@) + "\""@,
        }),
        dispatch_spec(ActionType::KeyboardPress, p, true) == Ok::<ActionOutcome, ErrorView>(ActionOutcome {
            success: true,
            simulated: true,
            description: "SIM: pressed key ["@ + param_value(p, "key"@) + "]"@,
        }),
        dispatch_spec(ActionType::KeyboardCombo, p, true) == Ok::<ActionOutcome, ErrorView>(ActionOutcome {
            success: true,
            simulated: true,
            description: "SIM: pressed combo ["@ + param_value(p, "keys"@) + "]"@,
        }),
        dispatch_spec(ActionType::WindowFocus, p, true) == Ok::<ActionOutcome, ErrorView>(ActionOutcome {
            success: true,
            simulated: true,
            description: "SIM: focused window "@ + "\""@ + param_value(p, "window_title"@) + "\""@,
        }),
        dispatch_spec(ActionType::WindowMinimize, p, true) == Ok::<ActionOutcome, ErrorView>(ActionOutcome {
            success: true,
            simulated: true,
            description: "SIM: minimized window "@ + "\""@ + param_value(p, "window_title"@) + "\""@,
        }),
        dispatch_spec(ActionType::WindowMaximize, p, true) == Ok::<ActionOutcome, ErrorView>(ActionOutcome {
            success: true,
            simulated: true,
            description: "SIM: maximized window "@ + "\""@ + param_value(p, "window_title"@) + "\""@,
        }),
        dispatch_spec(ActionType::WindowClose, p, true) == Ok::<ActionOutcome, ErrorView>(ActionOutcome {
            success: true,
            simulated: true,
            description: "SIM: closed window "@ + "\""@ + param_value(p, "window_title"@) + "\""@,
        }),
        dispatch_spec(ActionType::FileOpen, p, true) == Ok::<ActionOutcome, ErrorView>(ActionOutcome {
            success: true,
            simulated: true,
            description: "SIM: opened file "@ + "\""@ + param_value(p, "path"@) + "\""@,
        }),
        dispatch_spec(ActionType::SystemLaunch, p, true) == Ok::<ActionOutcome, ErrorView>(ActionOutcome {
            success: true,
            simulated: true,
            description: if param_value(p, "application"@).len() == 0 {
                "SIM: processed system instruction "@ + "\""@ + param_value(p, "instruction"@) + "\""@
            } else {
                "SIM: launched application "@ + "\""@ + param_value(p, "application"@) + "\""@
            },
        }),
{
    lemma_quote_shape("SIM: focused window "@, param_value(p, "window_title"@));
    lemma_quote_shape("SIM: minimized window "@, param_value(p, "window_title"@));
    lemma_quote_shape("SIM: maximized window "@, param_value(p, "window_title"@));
    lemma_quote_shape("SIM: closed window "@, param_value(p, "window_title"@));
    lemma_quote_shape("SIM: opened file "@, param_value(p, "path"@));
    lemma_quote_shape("SIM: processed system instruction "@, param_value(p, "instruction"@));
    lemma_quote_shape("SIM: launched application "@, param_value(p, "application"@));
    lemma_quote_shape("SIM: typed "@ + decimal(encode_utf8(param_value(p, "text"@)).len()) + " characters: "@, param_value(p, "text"@));
}

/// Outside simulation mode every action fails with an action error that
/// names the action type as it is spelled.
pub proof fn lemma_real_errors_name_the_action(p: Map<Seq<char>, Seq<char>>)
    ensures
        dispatch_spec(ActionType::MouseClick, p, false) == Err::<ActionOutcome, ErrorView>((ErrorKind::Action, "Real execution not yet implemented for "@ + "MouseClick"@)),
        dispatch_spec(ActionType::MouseMove, p, false) == Err::<ActionOutcome, ErrorView>((ErrorKind::Action, "Real execution not yet implemented for "@ + "MouseMove"@)),
        dispatch_spec(ActionType::MouseDrag, p, false) == Err::<ActionOutcome, ErrorView>((ErrorKind::Action, "Real execution not yet implemented for "@ + "MouseDrag"@)),
        dispatch_spec(ActionType::KeyboardType, p, false) == Err::<ActionOutcome, ErrorView>((ErrorKind::Action, "Real execution not yet implemented for "@ + "KeyboardType"@)),
        dispatch_spec(ActionType::KeyboardPress, p, false) == Err::<ActionOutcome, ErrorView>((ErrorKind::Action, "Real execution not yet implemented for "@ + "KeyboardPress"@)),
        dispatch_spec(ActionType::KeyboardCombo, p, false) == Err::<ActionOutcome, ErrorView>((ErrorKind::Action, "Real execution not yet implemented for "@ + "KeyboardCombo"@)),
        dispatch_spec(ActionType::WindowFocus, p, false) == Err::<ActionOutcome, ErrorView>((ErrorKind::Action, "Real execution not yet implemented for "@ + "WindowFocus"@)),
        dispatch_spec(ActionType::WindowMinimize, p, false) == Err::<ActionOutcome, ErrorView>((ErrorKind::Action, "Real execution not yet implemented for "@ + "WindowMinimize"@)),
        dispatch_spec(ActionType::WindowMaximize, p, false) == Err::<ActionOutcome, ErrorView>((ErrorKind::Action, "Real execution not yet implemented for "@ + "WindowMaximize"@)),
        dispatch_spec(ActionType::WindowClose, p, false) == Err::<ActionOutcome, ErrorView>((ErrorKind::Action, "Real execution not yet implemented for "@ + "WindowClose"@)),
        dispatch_spec(ActionType::FileOpen, p, false) == Err::<ActionOutcome, ErrorView>((ErrorKind::Action, "Real execution not yet implemented for "@ + "FileOpen"@)),
        dispatch_spec(ActionType::SystemLaunch, p, false) == Err::<ActionOutcome, ErrorView>((ErrorKind::Action, "Real execution not yet implemented for "@ + "SystemLaunch"@)),
{
}

} // verus!
