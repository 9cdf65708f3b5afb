use vstd::prelude::*;
use vstd::string::*;
use crate::actions::{
    ActionOutcome, ActionResult, action_name, action_result_view, dispatch, dispatch_spec,
};
use crate::error::{ErrorView, LapisResult, error_text};
use crate::orchestrator::{AgentEffect, EffectView, effects_view, executor_log};
use crate::params::{ActionParams, pair_views};
use crate::planner::{PlanStep, StepView};
use crate::text::{decimal, push_decimal};

verus! {

/// The word for an execution mode in the log.
pub open spec fn mode_word(simulation: bool) -> Seq<char> {
    if simulation { "simulated"@ } else { "real"@ }
}

/// One parameter as `key=value`.
pub open spec fn pair_text(p: (Seq<char>, Seq<char>)) -> Seq<char> {
    p.0 + "="@ + p.1
}

/// The parameters as `key=value` items separated by `, `.
pub open spec fn pairs_body(l: Seq<(Seq<char>, Seq<char>)>) -> Seq<char>
    decreases l.len(),
{
    if l.len() == 0 {
        Seq::empty()
    } else if l.len() == 1 {
        pair_text(l[0])
    } else {
        pairs_body(l.drop_last()) + ", "@ + pair_text(l.last())
    }
}

/// The parameters in braces: `{key=value, ...}`.
pub open spec fn params_text(l: Seq<(Seq<char>, Seq<char>)>) -> Seq<char> {
    "{"@ + pairs_body(l) + "}"@
}

/// The log line written before a step is dispatched:
/// `[mode] step id: ActionType {key=value, ...} — description`.
pub open spec fn dispatch_line(step: StepView, simulation: bool) -> Seq<char> {
    "["@ + mode_word(simulation) + "] step "@ + decimal(step.id as nat) + ": "@
        + action_name(step.action_type) + " "@ + params_text(step.parameter_list) + " — "@
        + step.description
}

/// Appends the parameters in braces, in the order they were stored.
fn push_params(s: &mut String, params: &ActionParams)
    ensures
        final(s)@ == old(s)@ + params_text(params.pair_list()),
{
    let entries = params.entries();
    let ghost l = params.pair_list();
    s.append("{");
    let ghost start = s@;
    let mut i: usize = 0;
    while i < entries.len()
        invariant
            pair_views(entries@) == l,
            i <= entries@.len(),
            s@ == start + pairs_body(l.take(i as int)),
        decreases entries@.len() - i,
    {
        let ghost before = s@;
        assert(l.take(i + 1).drop_last() =~= l.take(i as int));
        assert(l.take(i + 1).last() == l[i as int]);
        if i > 0 {
            s.append(", ");
        }
        s.append(entries[i].0.as_str());
        s.append("=");
        s.append(entries[i].1.as_str());
        assert(s@ =~= start + pairs_body(l.take(i + 1)));
        i = i + 1;
    }
    assert(l.take(entries@.len() as int) =~= l);
    s.append("}");
}

/// The log line written after a step ran: `step id: result description`.
pub open spec fn result_line(step: StepView, outcome: ActionOutcome) -> Seq<char> {
    "step "@ + decimal(step.id as nat) + ": "@ + outcome.description
}

/// What executing a step gives: the dispatch of its action and parameters.
pub open spec fn execute_spec(step: StepView, simulation: bool) -> Result<ActionOutcome, ErrorView> {
    dispatch_spec(step.action_type, step.parameters, simulation)
}

/// The log lines of executing a step: the dispatch line, then the result
/// line where the step succeeds, or the error line where it fails, so that an
/// error is logged before it is returned.
pub open spec fn execution_logs(step: StepView, simulation: bool) -> Seq<EffectView> {
    let dispatched = executor_log("dispatch"@, dispatch_line(step, simulation));
    match execute_spec(step, simulation) {
        Ok(o) => seq![dispatched, executor_log("result"@, result_line(step, o))],
        Err(e) => seq![dispatched, executor_log("error"@, error_text(e))],
    }
}

/// A step's result together with the log lines its execution writes.
pub struct StepExecution {
    pub logs: Vec<AgentEffect>,
    pub result: LapisResult<ActionResult>,
}

/// The log line for a step about to be dispatched.
pub fn dispatch_log_line(step: &PlanStep, simulation: bool) -> (s: String)
    ensures
        s@ == dispatch_line(step@, simulation),
{
    let mut s = String::from_str("[");
    s.append(if simulation { "simulated" } else { "real" });
    s.append("] step ");
    push_decimal(&mut s, step.id as u64);
    s.append(": ");
    s.append(step.action_type.name());
    s.append(" ");
    push_params(&mut s, &step.parameters);
    s.append(" — ");
    s.append(step.description.as_str());
    s
}

/// The log line for a step that ran.
pub fn result_log_line(step: &PlanStep, result: &ActionResult) -> (s: String)
    ensures
        s@ == result_line(step@, result@),
{
    let mut s = String::from_str("step ");
    push_decimal(&mut s, step.id as u64);
    s.append(": ");
    s.append(result.description.as_str());
    s
}

/// Executes one plan step by dispatching its action to the matching handler.
pub fn execute_step(step: &PlanStep, simulation: bool) -> (r: LapisResult<ActionResult>)
    ensures
        action_result_view(r) == execute_spec(step@, simulation),
{
    dispatch(&step.action_type, &step.parameters, simulation)
}

/// Executing a step is exactly dispatching its action with its parameters.
pub proof fn lemma_execute_is_dispatch(step: StepView, simulation: bool)
    ensures
        execute_spec(step, simulation) == dispatch_spec(step.action_type, step.parameters, simulation),
{
}

/// Executes one plan step and hands back, with its result, the log lines
/// the execution writes: the dispatch line, then the result line or the
/// error line.
pub fn execute_step_logged(step: &PlanStep, simulation: bool) -> (r: StepExecution)
    ensures
        action_result_view(r.result) == execute_spec(step@, simulation),
        effects_view(r.logs@) == execution_logs(step@, simulation),
{
    let mut logs: Vec<AgentEffect> = Vec::new();
    logs.push(AgentEffect::Log {
        module: String::from_str("executor"),
        event: String::from_str("dispatch"),
        data: dispatch_log_line(step, simulation),
    });
    let result = execute_step(step, simulation);
    match &result {
        Ok(a) => {
            logs.push(AgentEffect::Log {
                module: String::from_str("executor"),
                event: String::from_str("result"),
                data: result_log_line(step, a),
            });
        },
        Err(e) => {
            logs.push(AgentEffect::Log {
                module: String::from_str("executor"),
                event: String::from_str("error"),
                data: e.describe(),
            });
        },
    }
    assert(effects_view(logs@) =~= execution_logs(step@, simulation));
    StepExecution { logs, result }
}

/// The parameter text lists the pairs in order: nothing for no pairs,
/// `key=value` for one, and each further pair after `, `.
pub proof fn lemma_params_text_order(l: Seq<(Seq<char>, Seq<char>)>, k: Seq<char>, v: Seq<char>)
    ensures
        params_text(Seq::empty()) == "{"@ + Seq::<char>::empty() + "}"@,
        params_text(seq![(k, v)]) == "{"@ + (k + "="@ + v) + "}"@,
        l.len() > 0 ==> pairs_body(l.push((k, v))) == pairs_body(l) + ", "@ + (k + "="@ + v),
{
    assert(seq![(k, v)].len() == 1);
    if l.len() > 0 {
        assert(l.push((k, v)).drop_last() =~= l);
    }
}

/// The dispatch line names the mode (`simulated` or `real`), the step's id,
/// its action, its parameters and its description, in that order.
pub proof fn lemma_dispatch_line_parts(step: StepView, simulation: bool)
    ensures
        dispatch_line(step, simulation) == "["@ + (if simulation { "simulated"@ } else { "real"@ }) + "] step "@
            + decimal(step.id as nat) + ": "@ + action_name(step.action_type) + " "@
            + ("{"@ + pairs_body(step.parameter_list) + "}"@) + " — "@ + step.description,
{
}

/// Executing a step logs exactly two lines, both from the executor: the
/// dispatch line first, then the result line (`step <id>: <description>`) on
/// success or the error's text on failure.
pub proof fn lemma_execution_logs_shape(step: StepView, simulation: bool)
    ensures
        execution_logs(step, simulation).len() == 2,
        (execution_logs(step, simulation)[0] == EffectView::Log {
            module: "executor"@,
            event: "dispatch"@,
            data: dispatch_line(step, simulation),
        }),
        (match execute_spec(step, simulation) {
            Ok(o) => execution_logs(step, simulation)[1] == EffectView::Log {
                module: "executor"@,
                event: "result"@,
                data: "step "@ + decimal(step.id as nat) + ": "@ + o.description,
            },
            Err(e) => execution_logs(step, simulation)[1] == EffectView::Log {
                module: "executor"@,
                event: "error"@,
                data: "["@ + crate::error::error_tag(e.0) + "] "@ + e.1,
            },
        }),
{
}

} // verus!
