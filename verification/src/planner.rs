use vstd::prelude::*;
use vstd::string::*;
use crate::actions::ActionType;
use crate::error::LapisResult;
use crate::params::ActionParams;
use crate::text::{
    chars_of, contains, contains_seq, lowercase, remove_all, remove_all_of, string_from_chars,
    to_lowercase, trim, trimmed,
};

verus! {

/// A single step in a plan.
pub struct PlanStep {
    pub id: u32,
    pub action_type: ActionType,
    pub parameters: ActionParams,
    pub description: String,
    pub expected_outcome: String,
}

/// A full plan: the instruction it was made for and its ordered steps.
pub struct Plan {
    pub instruction: String,
    pub steps: Vec<PlanStep>,
}

/// A plan step as the specifications see it.
pub struct StepView {
    pub id: u32,
    pub action_type: ActionType,
    pub parameters: Map<Seq<char>, Seq<char>>,
    pub parameter_list: Seq<(Seq<char>, Seq<char>)>,
    pub description: Seq<char>,
    pub expected_outcome: Seq<char>,
}

/// A plan as the specifications see it.
pub struct PlanView {
    pub instruction: Seq<char>,
    pub steps: Seq<StepView>,
}

impl View for PlanStep {
    type V = StepView;

    open spec fn view(&self) -> StepView {
        StepView {
            id: self.id,
            action_type: self.action_type,
            parameters: self.parameters@,
            parameter_list: self.parameters.pair_list(),
            description: self.description@,
            expected_outcome: self.expected_outcome@,
        }
    }
}

/// The views of a list of steps.
pub open spec fn steps_view(steps: Seq<PlanStep>) -> Seq<StepView> {
    steps.map_values(|s: PlanStep| s@)
}

impl View for Plan {
    type V = PlanView;

    open spec fn view(&self) -> PlanView {
        PlanView { instruction: self.instruction@, steps: steps_view(self.steps@) }
    }
}

/// A step with one parameter.
pub open spec fn step1(
    id: u32,
    t: ActionType,
    key: Seq<char>,
    value: Seq<char>,
    description: Seq<char>,
    outcome: Seq<char>,
) -> StepView {
    StepView {
        id,
        action_type: t,
        parameters: Map::empty().insert(key, value),
        parameter_list: seq![(key, value)],
        description,
        expected_outcome: outcome,
    }
}

/// The plan that opens Notepad.
pub open spec fn notepad_steps() -> Seq<StepView> {
    seq![
        step1(1, ActionType::SystemLaunch, "application"@, "notepad.exe"@,
            "Launch Notepad application"@, "Notepad window appears on screen"@),
        step1(2, ActionType::WindowFocus, "window_title"@, "Untitled - Notepad"@,
            "Focus the Notepad window"@, "Notepad window is in foreground"@),
    ]
}

/// The plan that opens the Calculator.
pub open spec fn calculator_steps() -> Seq<StepView> {
    seq![
        step1(1, ActionType::SystemLaunch, "application"@, "calc.exe"@,
            "Launch Calculator application"@, "Calculator window appears on screen"@),
        step1(2, ActionType::WindowFocus, "window_title"@, "Calculator"@,
            "Focus the Calculator window"@, "Calculator window is in foreground"@),
    ]
}

/// The parameters of a left click at a position.
pub open spec fn click_params(x: Seq<char>, y: Seq<char>) -> Map<Seq<char>, Seq<char>> {
    Map::empty().insert("x"@, x).insert("y"@, y).insert("button"@, "left"@)
}

/// The parameters of a left click at a position, in the order they are stored.
pub open spec fn click_pairs(x: Seq<char>, y: Seq<char>) -> Seq<(Seq<char>, Seq<char>)> {
    seq![("x"@, x), ("y"@, y), ("button"@, "left"@)]
}

/// The plan that clicks into a text area and types `text`.
pub open spec fn type_text_steps(text: Seq<char>) -> Seq<StepView> {
    seq![
        StepView {
            id: 1,
            action_type: ActionType::MouseClick,
            parameters: click_params("400"@, "300"@),
            parameter_list: click_pairs("400"@, "300"@),
            description: "Click on the target text area"@,
            expected_outcome: "Text cursor appears in the target area"@,
        },
        step1(2, ActionType::KeyboardType, "text"@, text, "Type: "@ + text,
            "Text appears in the target area"@),
    ]
}

/// The plan that clicks at a fixed position.
pub open spec fn click_steps() -> Seq<StepView> {
    seq![
        StepView {
            id: 1,
            action_type: ActionType::MouseClick,
            parameters: click_params("500"@, "400"@),
            parameter_list: click_pairs("500"@, "400"@),
            description: "Click at target position"@,
            expected_outcome: "Element at position is activated"@,
        },
    ]
}

/// The plan that closes the active window.
pub open spec fn close_window_steps() -> Seq<StepView> {
    seq![
        step1(1, ActionType::WindowClose, "window_title"@, "active"@,
            "Close the active window"@, "Active window is closed"@),
    ]
}

/// The plan that searches for `query`.
pub open spec fn search_steps(query: Seq<char>) -> Seq<StepView> {
    seq![
        step1(1, ActionType::KeyboardCombo, "keys"@, "Win+S"@,
            "Open Windows search"@, "Windows search bar appears"@),
        step1(2, ActionType::KeyboardType, "text"@, query, "Type search query: "@ + query,
            "Search results appear"@),
        step1(3, ActionType::KeyboardPress, "key"@, "Enter"@,
            "Press Enter to execute search"@, "Top search result is opened"@),
    ]
}

/// The plan that hands the whole instruction to the system.
pub open spec fn generic_steps(instruction: Seq<char>) -> Seq<StepView> {
    seq![
        step1(1, ActionType::SystemLaunch, "instruction"@, instruction,
            "Process instruction: "@ + instruction, "Instruction processed successfully"@),
    ]
}

/// `fallback` where `s` is empty, `s` otherwise.
pub open spec fn or_default(s: Seq<char>, fallback: Seq<char>) -> Seq<char> {
    if s.len() == 0 { fallback } else { s }
}

/// The text to type: the instruction without the words `type`, `write` and
/// `escribe`, trimmed, or a greeting where nothing is left.
pub open spec fn typed_text(instruction: Seq<char>) -> Seq<char> {
    or_default(
        trim(remove_all(remove_all(remove_all(instruction, "type"@), "write"@), "escribe"@)),
        "Hello, world!"@,
    )
}

/// The search query: the instruction without the words `search`, `buscar`,
/// `find` and `for`, trimmed, or `example` where nothing is left.
pub open spec fn search_query(instruction: Seq<char>) -> Seq<char> {
    or_default(
        trim(
            remove_all(
                remove_all(remove_all(remove_all(instruction, "search"@), "buscar"@), "find"@),
                "for"@,
            ),
        ),
        "example"@,
    )
}

/// The steps that the keyword planner makes of an instruction: the first
/// keyword group that the instruction contains picks the plan.
pub open spec fn keyword_steps(instruction: Seq<char>) -> Seq<StepView> {
    let has = |w: Seq<char>| contains_seq(instruction, w);
    if has("notepad"@) {
        notepad_steps()
    } else if has("calculator"@) || has("calc"@) {
        calculator_steps()
    } else if has("type"@) || has("write"@) || has("escribe"@) {
        type_text_steps(typed_text(instruction))
    } else if has("click"@) || has("press"@) {
        click_steps()
    } else if has("close"@) || has("cerrar"@) {
        close_window_steps()
    } else if has("search"@) || has("buscar"@) || has("find"@) {
        search_steps(search_query(instruction))
    } else {
        generic_steps(instruction)
    }
}

/// The plan made for an instruction: the instruction as given, and the
/// keyword steps of its lower-case form.
pub open spec fn plan_for(instruction: Seq<char>) -> PlanView {
    PlanView { instruction, steps: keyword_steps(lowercase(instruction)) }
}

/// A step with one parameter.
fn single_param_step(
    id: u32,
    t: ActionType,
    key: &str,
    value: &str,
    description: String,
    outcome: &str,
) -> (s: PlanStep)
    ensures
        s@ == step1(id, t, key@, value@, description@, outcome@),
{
    let mut p = ActionParams::new();
    p.insert(String::from_str(key), String::from_str(value));
    PlanStep {
        id,
        action_type: t,
        parameters: p,
        description,
        expected_outcome: String::from_str(outcome),
    }
}

/// A left-click step at `(x, y)`.
fn click_step(id: u32, x: &str, y: &str, description: &str, outcome: &str) -> (s: PlanStep)
    ensures
        s@ == (StepView {
            id,
            action_type: ActionType::MouseClick,
            parameters: click_params(x@, y@),
            parameter_list: click_pairs(x@, y@),
            description: description@,
            expected_outcome: outcome@,
        }),
{
    proof {
        reveal_strlit("x");
        reveal_strlit("y");
        reveal_strlit("button");
        assert("x"@ != "y"@ && "button"@ != "x"@ && "button"@ != "y"@) by {
            assert("x"@[0] != "y"@[0]);
            assert("button"@.len() != "x"@.len());
        }
    }
    let mut p = ActionParams::new();
    p.insert(String::from_str("x"), String::from_str(x));
    assert(!p@.dom().contains("y"@));
    p.insert(String::from_str("y"), String::from_str(y));
    assert(!p@.dom().contains("button"@));
    p.insert(String::from_str("button"), String::from_str("left"));
    assert(p.pair_list() =~= click_pairs(x@, y@));
    PlanStep {
        id,
        action_type: ActionType::MouseClick,
        parameters: p,
        description: String::from_str(description),
        expected_outcome: String::from_str(outcome),
    }
}

/// `prefix` followed by `text`.
fn prefixed(prefix: &str, text: &[char]) -> (s: String)
    ensures
        s@ == prefix@ + text@,
{
    let mut s = String::from_str(prefix);
    let rest = string_from_chars(text);
    s.append(rest.as_str());
    s
}

fn plan_open_notepad() -> (v: Vec<PlanStep>)
    ensures
        steps_view(v@) == notepad_steps(),
{
    let mut v = Vec::new();
    v.push(single_param_step(1, ActionType::SystemLaunch, "application", "notepad.exe",
        String::from_str("Launch Notepad application"), "Notepad window appears on screen"));
    v.push(single_param_step(2, ActionType::WindowFocus, "window_title", "Untitled - Notepad",
        String::from_str("Focus the Notepad window"), "Notepad window is in foreground"));
    assert(steps_view(v@) =~= notepad_steps());
    v
}

fn plan_open_calculator() -> (v: Vec<PlanStep>)
    ensures
        steps_view(v@) == calculator_steps(),
{
    let mut v = Vec::new();
    v.push(single_param_step(1, ActionType::SystemLaunch, "application", "calc.exe",
        String::from_str("Launch Calculator application"), "Calculator window appears on screen"));
    v.push(single_param_step(2, ActionType::WindowFocus, "window_title", "Calculator",
        String::from_str("Focus the Calculator window"), "Calculator window is in foreground"));
    assert(steps_view(v@) =~= calculator_steps());
    v
}

/// The plan that clicks into a text area and types the text of the
/// instruction: the instruction without `type`, `write` and `escribe`, trimmed,
/// or a greeting where nothing is left.
pub fn plan_type_text(instruction: &str) -> (v: Vec<PlanStep>)
    ensures
        steps_view(v@) == type_text_steps(typed_text(instruction@)),
{
    proof {
        reveal_strlit("type");
        reveal_strlit("write");
        reveal_strlit("escribe");
    }
    let chars = chars_of(instruction);
    let a = remove_all_of(chars.as_slice(), "type");
    let b = remove_all_of(a.as_slice(), "write");
    let c = remove_all_of(b.as_slice(), "escribe");
    let t = trimmed(c.as_slice());
    let text = if t.len() == 0 {
        chars_of("Hello, world!")
    } else {
        t
    };
    let mut v = Vec::new();
    v.push(click_step(1, "400", "300", "Click on the target text area",
        "Text cursor appears in the target area"));
    let value = string_from_chars(text.as_slice());
    v.push(single_param_step(2, ActionType::KeyboardType, "text", value.as_str(),
        prefixed("Type: ", text.as_slice()), "Text appears in the target area"));
    assert(steps_view(v@) =~= type_text_steps(typed_text(instruction@)));
    v
}

fn plan_click() -> (v: Vec<PlanStep>)
    ensures
        steps_view(v@) == click_steps(),
{
    let mut v = Vec::new();
    v.push(click_step(1, "500", "400", "Click at target position", "Element at position is activated"));
    assert(steps_view(v@) =~= click_steps());
    v
}

fn plan_close_window() -> (v: Vec<PlanStep>)
    ensures
        steps_view(v@) == close_window_steps(),
{
    let mut v = Vec::new();
    v.push(single_param_step(1, ActionType::WindowClose, "window_title", "active",
        String::from_str("Close the active window"), "Active window is closed"));
    assert(steps_view(v@) =~= close_window_steps());
    v
}

/// The plan that searches for the query of the instruction: the instruction
/// without `search`, `buscar`, `find` and `for`, trimmed, or `example` where
/// nothing is left.
pub fn plan_search(instruction: &str) -> (v: Vec<PlanStep>)
    ensures
        steps_view(v@) == search_steps(search_query(instruction@)),
{
    proof {
        reveal_strlit("search");
        reveal_strlit("buscar");
        reveal_strlit("find");
        reveal_strlit("for");
    }
    let chars = chars_of(instruction);
    let a = remove_all_of(chars.as_slice(), "search");
    let b = remove_all_of(a.as_slice(), "buscar");
    let c = remove_all_of(b.as_slice(), "find");
    let d = remove_all_of(c.as_slice(), "for");
    let t = trimmed(d.as_slice());
    let query = if t.len() == 0 {
        chars_of("example")
    } else {
        t
    };
    let value = string_from_chars(query.as_slice());
    let mut v = Vec::new();
    v.push(single_param_step(1, ActionType::KeyboardCombo, "keys", "Win+S",
        String::from_str("Open Windows search"), "Windows search bar appears"));
    v.push(single_param_step(2, ActionType::KeyboardType, "text", value.as_str(),
        prefixed("Type search query: ", query.as_slice()), "Search results appear"));
    v.push(single_param_step(3, ActionType::KeyboardPress, "key", "Enter",
        String::from_str("Press Enter to execute search"), "Top search result is opened"));
    assert(steps_view(v@) =~= search_steps(search_query(instruction@)));
    v
}

fn plan_generic(instruction: &str) -> (v: Vec<PlanStep>)
    ensures
        steps_view(v@) == generic_steps(instruction@),
{
    let mut d = String::from_str("Process instruction: ");
    d.append(instruction);
    let mut v = Vec::new();
    v.push(single_param_step(1, ActionType::SystemLaunch, "instruction", instruction, d,
        "Instruction processed successfully"));
    assert(steps_view(v@) =~= generic_steps(instruction@));
    v
}

/// The steps that the keyword planner makes of an instruction that is
/// already in lower case.
pub fn match_instruction(instruction: &str) -> (v: Vec<PlanStep>)
    ensures
        steps_view(v@) == keyword_steps(instruction@),
{
    let t = chars_of(instruction);
    let s = t.as_slice();
    if contains(s, "notepad") {
        plan_open_notepad()
    } else if contains(s, "calculator") || contains(s, "calc") {
        plan_open_calculator()
    } else if contains(s, "type") || contains(s, "write") || contains(s, "escribe") {
        plan_type_text(instruction)
    } else if contains(s, "click") || contains(s, "press") {
        plan_click()
    } else if contains(s, "close") || contains(s, "cerrar") {
        plan_close_window()
    } else if contains(s, "search") || contains(s, "buscar") || contains(s, "find") {
        plan_search(instruction)
    } else {
        plan_generic(instruction)
    }
}

/// Creates a plan from a user instruction by keyword matching on its
/// lower-case form; planning always succeeds.
pub fn create_plan(instruction: &str) -> (r: LapisResult<Plan>)
    ensures
        r matches Ok(plan) && plan@ == plan_for(instruction@),
{
    let lower = to_lowercase(instruction);
    let steps = match_instruction(lower.as_str());
    Ok(Plan { instruction: String::from_str(instruction), steps })
}

/// Every plan keeps the instruction it was made for, has one to three
/// steps, and numbers them 1, 2, ... in order.
pub proof fn lemma_plan_shape(instruction: Seq<char>)
    ensures
        plan_for(instruction).instruction == instruction,
        1 <= plan_for(instruction).steps.len() <= 3,
        forall|i: int| 0 <= i < plan_for(instruction).steps.len() ==>
            #[trigger] plan_for(instruction).steps[i].id == i + 1,
{
}

/// An instruction that mentions `notepad` launches `notepad.exe` and focuses its window.
pub proof fn lemma_notepad_keyword(t: Seq<char>)
    requires
        contains_seq(t, "notepad"@),
    ensures
        keyword_steps(t).len() == 2,
        keyword_steps(t)[0].id == 1,
        keyword_steps(t)[0].action_type == ActionType::SystemLaunch,
        keyword_steps(t)[0].parameters == Map::<Seq<char>, Seq<char>>::empty().insert("application"@, "notepad.exe"@),
        keyword_steps(t)[0].parameter_list == seq![("application"@, "notepad.exe"@)],
        keyword_steps(t)[0].description == "Launch Notepad application"@,
        keyword_steps(t)[0].expected_outcome == "Notepad window appears on screen"@,
        keyword_steps(t)[1].id == 2,
        keyword_steps(t)[1].action_type == ActionType::WindowFocus,
        keyword_steps(t)[1].parameters == Map::<Seq<char>, Seq<char>>::empty().insert("window_title"@, "Untitled - Notepad"@),
        keyword_steps(t)[1].parameter_list == seq![("window_title"@, "Untitled - Notepad"@)],
        keyword_steps(t)[1].description == "Focus the Notepad window"@,
        keyword_steps(t)[1].expected_outcome == "Notepad window is in foreground"@,
{
}

/// Otherwise an instruction that mentions `calc` (or `calculator`) launches `calc.exe` and focuses its window.
pub proof fn lemma_calculator_keyword(t: Seq<char>)
    requires
        !contains_seq(t, "notepad"@),
        (contains_seq(t, "calculator"@) || contains_seq(t, "calc"@)),
    ensures
        keyword_steps(t).len() == 2,
        keyword_steps(t)[0].id == 1,
        keyword_steps(t)[0].action_type == ActionType::SystemLaunch,
        keyword_steps(t)[0].parameters == Map::<Seq<char>, Seq<char>>::empty().insert("application"@, "calc.exe"@),
        keyword_steps(t)[0].parameter_list == seq![("application"@, "calc.exe"@)],
        keyword_steps(t)[0].description == "Launch Calculator application"@,
        keyword_steps(t)[0].expected_outcome == "Calculator window appears on screen"@,
        keyword_steps(t)[1].id == 2,
        keyword_steps(t)[1].action_type == ActionType::WindowFocus,
        keyword_steps(t)[1].parameters == Map::<Seq<char>, Seq<char>>::empty().insert("window_title"@, "Calculator"@),
        keyword_steps(t)[1].parameter_list == seq![("window_title"@, "Calculator"@)],
        keyword_steps(t)[1].description == "Focus the Calculator window"@,
        keyword_steps(t)[1].expected_outcome == "Calculator window is in foreground"@,
{
}

/// Otherwise an instruction that mentions `type`, `write` or `escribe` clicks at (400, 300) and types the instruction with those words removed and the ends trimmed, or a greeting where nothing is left.
pub proof fn lemma_type_keyword(t: Seq<char>)
    requires
        !contains_seq(t, "notepad"@),
        !contains_seq(t, "calculator"@),
        !contains_seq(t, "calc"@),
        (contains_seq(t, "type"@) || contains_seq(t, "write"@) || contains_seq(t, "escribe"@)),
    ensures
        keyword_steps(t).len() == 2,
        keyword_steps(t)[0].id == 1,
        keyword_steps(t)[0].action_type == ActionType::MouseClick,
        keyword_steps(t)[0].parameters == Map::<Seq<char>, Seq<char>>::empty().insert("x"@, "400"@).insert("y"@, "300"@).insert("button"@, "left"@),
        keyword_steps(t)[0].parameter_list == seq![("x"@, "400"@), ("y"@, "300"@), ("button"@, "left"@)],
        keyword_steps(t)[0].description == "Click on the target text area"@,
        keyword_steps(t)[0].expected_outcome == "Text cursor appears in the target area"@,
        keyword_steps(t)[1].id == 2,
        keyword_steps(t)[1].action_type == ActionType::KeyboardType,
        keyword_steps(t)[1].parameters == Map::<Seq<char>, Seq<char>>::empty().insert("text"@, (if trim(remove_all(remove_all(remove_all(t, "type"@), "write"@), "escribe"@)).len() == 0 { "Hello, world!"@ } else { trim(remove_all(remove_all(remove_all(t, "type"@), "write"@), "escribe"@)) })),
        keyword_steps(t)[1].parameter_list == seq![("text"@, (if trim(remove_all(remove_all(remove_all(t, "type"@), "write"@), "escribe"@)).len() == 0 { "Hello, world!"@ } else { trim(remove_all(remove_all(remove_all(t, "type"@), "write"@), "escribe"@)) }))],
        keyword_steps(t)[1].description == "Type: "@ + (if trim(remove_all(remove_all(remove_all(t, "type"@), "write"@), "escribe"@)).len() == 0 { "Hello, world!"@ } else { trim(remove_all(remove_all(remove_all(t, "type"@), "write"@), "escribe"@)) }),
        keyword_steps(t)[1].expected_outcome == "Text appears in the target area"@,
{
}

/// Otherwise an instruction that mentions `click` or `press` clicks at (500, 400).
pub proof fn lemma_click_keyword(t: Seq<char>)
    requires
        !contains_seq(t, "notepad"@),
        !contains_seq(t, "calculator"@),
        !contains_seq(t, "calc"@),
        !contains_seq(t, "type"@),
        !contains_seq(t, "write"@),
        !contains_seq(t, "escribe"@),
        (contains_seq(t, "click"@) || contains_seq(t, "press"@)),
    ensures
        keyword_steps(t).len() == 1,
        keyword_steps(t)[0].id == 1,
        keyword_steps(t)[0].action_type == ActionType::MouseClick,
        keyword_steps(t)[0].parameters == Map::<Seq<char>, Seq<char>>::empty().insert("x"@, "500"@).insert("y"@, "400"@).insert("button"@, "left"@),
        keyword_steps(t)[0].parameter_list == seq![("x"@, "500"@), ("y"@, "400"@), ("button"@, "left"@)],
        keyword_steps(t)[0].description == "Click at target position"@,
        keyword_steps(t)[0].expected_outcome == "Element at position is activated"@,
{
}

/// Otherwise an instruction that mentions `close` or `cerrar` closes the active window.
pub proof fn lemma_close_keyword(t: Seq<char>)
    requires
        !contains_seq(t, "notepad"@),
        !contains_seq(t, "calculator"@),
        !contains_seq(t, "calc"@),
        !contains_seq(t, "type"@),
        !contains_seq(t, "write"@),
        !contains_seq(t, "escribe"@),
        !contains_seq(t, "click"@),
        !contains_seq(t, "press"@),
        (contains_seq(t, "close"@) || contains_seq(t, "cerrar"@)),
    ensures
        keyword_steps(t).len() == 1,
        keyword_steps(t)[0].id == 1,
        keyword_steps(t)[0].action_type == ActionType::WindowClose,
        keyword_steps(t)[0].parameters == Map::<Seq<char>, Seq<char>>::empty().insert("window_title"@, "active"@),
        keyword_steps(t)[0].parameter_list == seq![("window_title"@, "active"@)],
        keyword_steps(t)[0].description == "Close the active window"@,
        keyword_steps(t)[0].expected_outcome == "Active window is closed"@,
{
}

/// Otherwise an instruction that mentions `search`, `buscar` or `find` opens the search bar, types the instruction with `search`, `buscar`, `find` and `for` removed and the ends trimmed (or `example` where nothing is left), and presses Enter.
pub proof fn lemma_search_keyword(t: Seq<char>)
    requires
        !contains_seq(t, "notepad"@),
        !contains_seq(t, "calculator"@),
        !contains_seq(t, "calc"@),
        !contains_seq(t, "type"@),
        !contains_seq(t, "write"@),
        !contains_seq(t, "escribe"@),
        !contains_seq(t, "click"@),
        !contains_seq(t, "press"@),
        !contains_seq(t, "close"@),
        !contains_seq(t, "cerrar"@),
        (contains_seq(t, "search"@) || contains_seq(t, "buscar"@) || contains_seq(t, "find"@)),
    ensures
        keyword_steps(t).len() == 3,
        keyword_steps(t)[0].id == 1,
        keyword_steps(t)[0].action_type == ActionType::KeyboardCombo,
        keyword_steps(t)[0].parameters == Map::<Seq<char>, Seq<char>>::empty().insert("keys"@, "Win+S"@),
        keyword_steps(t)[0].parameter_list == seq![("keys"@, "Win+S"@)],
        keyword_steps(t)[0].description == "Open Windows search"@,
        keyword_steps(t)[0].expected_outcome == "Windows search bar appears"@,
        keyword_steps(t)[1].id == 2,
        keyword_steps(t)[1].action_type == ActionType::KeyboardType,
        keyword_steps(t)[1].parameters == Map::<Seq<char>, Seq<char>>::empty().insert("text"@, (if trim(remove_all(remove_all(remove_all(remove_all(t, "search"@), "buscar"@), "find"@), "for"@)).len() == 0 { "example"@ } else { trim(remove_all(remove_all(remove_all(remove_all(t, "search"@), "buscar"@), "find"@), "for"@)) })),
        keyword_steps(t)[1].parameter_list == seq![("text"@, (if trim(remove_all(remove_all(remove_all(remove_all(t, "search"@), "buscar"@), "find"@), "for"@)).len() == 0 { "example"@ } else { trim(remove_all(remove_all(remove_all(remove_all(t, "search"@), "buscar"@), "find"@), "for"@)) }))],
        keyword_steps(t)[1].description == "Type search query: "@ + (if trim(remove_all(remove_all(remove_all(remove_all(t, "search"@), "buscar"@), "find"@), "for"@)).len() == 0 { "example"@ } else { trim(remove_all(remove_all(remove_all(remove_all(t, "search"@), "buscar"@), "find"@), "for"@)) }),
        keyword_steps(t)[1].expected_outcome == "Search results appear"@,
        keyword_steps(t)[2].id == 3,
        keyword_steps(t)[2].action_type == ActionType::KeyboardPress,
        keyword_steps(t)[2].parameters == Map::<Seq<char>, Seq<char>>::empty().insert("key"@, "Enter"@),
        keyword_steps(t)[2].parameter_list == seq![("key"@, "Enter"@)],
        keyword_steps(t)[2].description == "Press Enter to execute search"@,
        keyword_steps(t)[2].expected_outcome == "Top search result is opened"@,
{
}

/// An instruction that mentions no keyword is handed whole to the system as one step.
pub proof fn lemma_no_keyword(t: Seq<char>)
    requires
        !contains_seq(t, "notepad"@),
        !contains_seq(t, "calculator"@),
        !contains_seq(t, "calc"@),
        !contains_seq(t, "type"@),
        !contains_seq(t, "write"@),
        !contains_seq(t, "escribe"@),
        !contains_seq(t, "click"@),
        !contains_seq(t, "press"@),
        !contains_seq(t, "close"@),
        !contains_seq(t, "cerrar"@),
        !contains_seq(t, "search"@),
        !contains_seq(t, "buscar"@),
        !contains_seq(t, "find"@),
    ensures
        keyword_steps(t).len() == 1,
        keyword_steps(t)[0].id == 1,
        keyword_steps(t)[0].action_type == ActionType::SystemLaunch,
        keyword_steps(t)[0].parameters == Map::<Seq<char>, Seq<char>>::empty().insert("instruction"@, t),
        keyword_steps(t)[0].parameter_list == seq![("instruction"@, t)],
        keyword_steps(t)[0].description == "Process instruction: "@ + t,
        keyword_steps(t)[0].expected_outcome == "Instruction processed successfully"@,
{
}

} // verus!
