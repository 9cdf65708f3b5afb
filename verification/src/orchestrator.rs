use vstd::prelude::*;
use vstd::string::*;
use crate::actions::{ActionOutcome, ActionResult, action_result_view, not_implemented_error, simulated_description, simulated_outcome};
use crate::config::AppConfig;
use crate::error::{ErrorView, LapisError, LapisResult, error_text};
use crate::executor::{
    dispatch_line, execute_spec, execute_step_logged, execution_logs, result_line,
};
use crate::planner::{Plan, PlanStep, StepView, create_plan, plan_for, steps_view};
use crate::text::{decimal, push_decimal};

verus! {

/// The stage a step has reached.
#[derive(Clone, Copy, Debug, PartialEq, Eq, Structural)]
pub enum StepStatus {
    Started,
    Completed,
    Failed,
}

/// A notification emitted when a step starts or completes.
#[derive(Clone, Debug)]
pub struct StepNotification {
    pub step_id: u32,
    pub total_steps: u32,
    pub description: String,
    pub status: StepStatus,
    pub result: Option<String>,
}

/// A notification as the specifications see it.
pub struct NotificationView {
    pub step_id: u32,
    pub total_steps: u32,
    pub description: Seq<char>,
    pub status: StepStatus,
    pub result: Option<Seq<char>>,
}

impl View for StepNotification {
    type V = NotificationView;

    open spec fn view(&self) -> NotificationView {
        NotificationView {
            step_id: self.step_id,
            total_steps: self.total_steps,
            description: self.description@,
            status: self.status,
            result: match self.result {
                Some(r) => Some(r@),
                None => None,
            },
        }
    }
}

/// Something that handling an instruction asks the caller to do, in order:
/// write a log line, record a step result, or push a notification.
#[derive(Clone, Debug)]
pub enum AgentEffect {
    /// A structured log event with text data.
    Log { module: String, event: String, data: String },
    /// The structured record of a step's result.
    StepResult { step_id: u32, success: bool, simulated: bool, description: String, verified: Option<bool> },
    /// A step notification for the client.
    Notify(StepNotification),
}

/// An effect as the specifications see it.
pub enum EffectView {
    Log { module: Seq<char>, event: Seq<char>, data: Seq<char> },
    StepResult { step_id: u32, success: bool, simulated: bool, description: Seq<char>, verified: Option<bool> },
    Notify(NotificationView),
}

impl View for AgentEffect {
    type V = EffectView;

    open spec fn view(&self) -> EffectView {
        match self {
            AgentEffect::Log { module, event, data } => EffectView::Log {
                module: module@,
                event: event@,
                data: data@,
            },
            AgentEffect::StepResult { step_id, success, simulated, description, verified } => EffectView::StepResult {
                step_id: *step_id,
                success: *success,
                simulated: *simulated,
                description: description@,
                verified: *verified,
            },
            AgentEffect::Notify(n) => EffectView::Notify(n@),
        }
    }
}

/// The views of a list of effects.
pub open spec fn effects_view(effects: Seq<AgentEffect>) -> Seq<EffectView> {
    effects.map_values(|e: AgentEffect| e@)
}

/// A log event of the orchestrator.
pub open spec fn orchestrator_log(event: Seq<char>, data: Seq<char>) -> EffectView {
    EffectView::Log { module: "orchestrator"@, event, data }
}

/// A log event of the executor.
pub open spec fn executor_log(event: Seq<char>, data: Seq<char>) -> EffectView {
    EffectView::Log { module: "executor"@, event, data }
}

/// The notification that a step has started.
pub open spec fn started(step: StepView, total: u32) -> NotificationView {
    NotificationView {
        step_id: step.id,
        total_steps: total,
        description: step.description,
        status: StepStatus::Started,
        result: None,
    }
}

/// The notification that a step has finished with the given outcome.
pub open spec fn finished(step: StepView, total: u32, outcome: ActionOutcome) -> NotificationView {
    NotificationView {
        step_id: step.id,
        total_steps: total,
        description: step.description,
        status: if outcome.success { StepStatus::Completed } else { StepStatus::Failed },
        result: Some(outcome.description),
    }
}

/// The structured record of a step's result; no step is visually verified.
pub open spec fn step_record(step: StepView, outcome: ActionOutcome) -> EffectView {
    EffectView::StepResult {
        step_id: step.id,
        success: outcome.success,
        simulated: outcome.simulated,
        description: outcome.description,
        verified: None,
    }
}

/// The effects of running the given steps in order, and the number of failed
/// steps or the error that stopped the run; an error is logged before the run
/// ends with it.
pub open spec fn run_steps(steps: Seq<StepView>, total: u32, simulation: bool) -> (Seq<EffectView>, Result<nat, ErrorView>)
    decreases steps.len(),
{
    if steps.len() == 0 {
        (Seq::empty(), Ok(0))
    } else {
        let (effects, outcome) = run_steps(steps.drop_last(), total, simulation);
        match outcome {
            Err(e) => (effects, Err(e)),
            Ok(failed) => {
                let s = steps.last();
                let begun = effects + seq![EffectView::Notify(started(s, total))] + execution_logs(s, simulation);
                match execute_spec(s, simulation) {
                    Err(e) => (begun, Err(e)),
                    Ok(o) => (
                        begun + seq![
                            EffectView::Notify(finished(s, total, o)),
                            step_record(s, o),
                        ],
                        Ok(failed + if o.success { 0nat } else { 1nat }),
                    ),
                }
            },
        }
    }
}

/// `true` or `false`.
pub open spec fn bool_text(b: bool) -> Seq<char> {
    if b { "true"@ } else { "false"@ }
}

/// `'` + s + `'`.
pub open spec fn single_quoted(s: Seq<char>) -> Seq<char> {
    "'"@ + s + "'"@
}

/// The summary of a completed instruction.
pub open spec fn summary_text(instruction: Seq<char>, total: nat, simulation: bool, failed: nat) -> Seq<char> {
    "Completed "@ + single_quoted(instruction) + " — "@ + decimal(total) + " steps via keyword (simulation="@
        + bool_text(simulation) + ", verified=0, failed="@ + decimal(failed) + ")"@
}

/// The data of the `plan_created` log event.
pub open spec fn plan_created_text(instruction: Seq<char>, total: nat) -> Seq<char> {
    decimal(total) + " steps via keyword for "@ + single_quoted(instruction)
}

/// Everything that handling an instruction does: the effects in order, and
/// the summary or the error it ends with.
pub open spec fn instruction_run(instruction: Seq<char>, simulation: bool) -> (Seq<EffectView>, Result<Seq<char>, ErrorView>) {
    let steps = plan_for(instruction).steps;
    let total = steps.len() as u32;
    let head = seq![
        orchestrator_log("received"@, instruction),
        orchestrator_log("plan_created"@, plan_created_text(instruction, total as nat)),
    ];
    if total == 0 {
        (head, Ok("No steps generated for "@ + single_quoted(instruction)))
    } else {
        let (effects, outcome) = run_steps(steps, total, simulation);
        match outcome {
            Err(e) => (head + effects, Err(e)),
            Ok(failed) => {
                let summary = summary_text(instruction, total as nat, simulation, failed);
                (head + effects + seq![orchestrator_log("completed"@, summary)], Ok(summary))
            },
        }
    }
}

/// The outcome of handling an instruction: the effects to carry out in order,
/// and the summary or the error it ended with.
pub struct InstructionRun {
    pub effects: Vec<AgentEffect>,
    pub outcome: LapisResult<String>,
}

/// The view of an instruction's outcome.
pub open spec fn outcome_view(r: LapisResult<String>) -> Result<Seq<char>, ErrorView> {
    match r {
        Ok(s) => Ok(s@),
        Err(e) => Err(e@),
    }
}

fn log_effect(module: &str, event: &str, data: String) -> (e: AgentEffect)
    ensures
        e@ == (EffectView::Log { module: module@, event: event@, data: data@ }),
{
    AgentEffect::Log { module: String::from_str(module), event: String::from_str(event), data }
}

fn quote_into(s: &mut String, text: &str)
    ensures
        final(s)@ == old(s)@ + single_quoted(text@),
{
    s.append("'");
    s.append(text);
    s.append("'");
}

/// Processes a user instruction end to end: plans it, executes each step in
/// the configured mode, and reports each step's start and completion.
/// The screen context is not used by the keyword planner.
pub fn handle_instruction(instruction: &str, config: &AppConfig, screen_context: Option<&str>) -> (r: InstructionRun)
    ensures
        effects_view(r.effects@) == instruction_run(instruction@, config.simulation_mode).0,
        outcome_view(r.outcome) == instruction_run(instruction@, config.simulation_mode).1,
{
    let simulation = config.simulation_mode;
    let mut effects: Vec<AgentEffect> = Vec::new();
    effects.push(log_effect("orchestrator", "received", String::from_str(instruction)));
    let plan = match create_plan(instruction) {
        Ok(p) => p,
        Err(e) => {
            effects.push(log_effect("orchestrator", "error", e.describe()));
            return InstructionRun { effects, outcome: Err(e) };
        },
    };
    let ghost steps = plan@.steps;
    let n = plan.steps.len();
    assert(n <= 3);
    let total = n as u32;
    let mut created = String::new();
    push_decimal(&mut created, total as u64);
    created.append(" steps via keyword for ");
    quote_into(&mut created, instruction);
    effects.push(log_effect("orchestrator", "plan_created", created));
    let ghost head = effects_view(effects@);
    assert(head =~= seq![
        orchestrator_log("received"@, instruction@),
        orchestrator_log("plan_created"@, plan_created_text(instruction@, total as nat)),
    ]);
    if n == 0 {
        let mut msg = String::from_str("No steps generated for ");
        quote_into(&mut msg, instruction);
        return InstructionRun { effects, outcome: Ok(msg) };
    }
    let mut failed: u32 = 0;
    let mut i: usize = 0;
    while i < n
        invariant
            n == plan.steps@.len(),
            n <= 3,
            total == n as u32,
            steps == steps_view(plan.steps@),
            steps == plan_for(instruction@).steps,
            simulation == config.simulation_mode,
            head == seq![
                orchestrator_log("received"@, instruction@),
                orchestrator_log("plan_created"@, plan_created_text(instruction@, total as nat)),
            ],
            i <= n,
            failed <= i,
            effects_view(effects@) == head + run_steps(steps.take(i as int), total, simulation).0,
            run_steps(steps.take(i as int), total, simulation).1 == Ok::<nat, ErrorView>(failed as nat),
        decreases n - i,
    {
        let step = &plan.steps[i];
        let ghost before = effects_view(effects@);
        let ghost prefix = steps.take(i as int);
        assert(steps.take(i + 1).drop_last() =~= prefix);
        assert(steps.take(i + 1).last() == step@);
        effects.push(AgentEffect::Notify(StepNotification {
            step_id: step.id,
            total_steps: total,
            description: step.description.clone(),
            status: StepStatus::Started,
            result: None,
        }));
        let ghost with_start = effects_view(effects@);
        assert(with_start =~= before + seq![EffectView::Notify(started(step@, total))]);
        let exec = execute_step_logged(step, simulation);
        let mut logs = exec.logs;
        effects.append(&mut logs);
        let ghost begun = before + seq![EffectView::Notify(started(step@, total))] + execution_logs(step@, simulation);
        assert(effects_view(effects@) =~= begun);
        let result = match exec.result {
            Ok(a) => a,
            Err(e) => {
                proof {
                    assert(execute_spec(step@, simulation) == Err::<ActionOutcome, ErrorView>(e@));
                    let next = steps.take(i + 1);
                    assert(next.len() > 0);
                    assert(run_steps(next, total, simulation) == (run_steps(prefix, total, simulation).0
                        + seq![EffectView::Notify(started(step@, total))] + execution_logs(step@, simulation),
                        Err::<nat, ErrorView>(e@)));
                    lemma_run_steps_stops(steps, (i + 1) as int, total, simulation);
                    assert(effects_view(effects@) =~= head + run_steps(steps, total, simulation).0);
                    assert(steps == plan_for(instruction@).steps);
                    assert(run_steps(steps, total, simulation).1 == Err::<nat, ErrorView>(e@));
                    assert(instruction_run(instruction@, simulation).1 == Err::<Seq<char>, ErrorView>(e@));
                }
                return InstructionRun { effects, outcome: Err(e) };
            },
        };
        let status = if result.success {
            StepStatus::Completed
        } else {
            failed = failed + 1;
            StepStatus::Failed
        };
        effects.push(AgentEffect::Notify(StepNotification {
            step_id: step.id,
            total_steps: total,
            description: step.description.clone(),
            status,
            result: Some(result.description.clone()),
        }));
        effects.push(AgentEffect::StepResult {
            step_id: step.id,
            success: result.success,
            simulated: result.simulated,
            description: result.description.clone(),
            verified: None,
        });
        proof {
            let o = result@;
            assert(execute_spec(step@, simulation) == Ok::<ActionOutcome, ErrorView>(o));
            let next = steps.take(i + 1);
            assert(next.len() > 0);
            assert(run_steps(next, total, simulation).0 == run_steps(prefix, total, simulation).0
                + seq![EffectView::Notify(started(step@, total))] + execution_logs(step@, simulation) + seq![
                EffectView::Notify(finished(step@, total, o)),
                step_record(step@, o),
            ]);
            let m = effects@.len() as int;
            assert(effects@[m - 2]@ == EffectView::Notify(finished(step@, total, o)));
            assert(effects@[m - 1]@ == step_record(step@, o));
            assert(effects_view(effects@) =~= begun + seq![
                EffectView::Notify(finished(step@, total, o)),
                step_record(step@, o),
            ]);
            assert(effects_view(effects@) =~= head + run_steps(next, total, simulation).0);
        }
        i = i + 1;
    }
    assert(steps.take(n as int) =~= steps);
    let mut summary = String::from_str("Completed ");
    quote_into(&mut summary, instruction);
    summary.append(" — ");
    push_decimal(&mut summary, total as u64);
    summary.append(" steps via keyword (simulation=");
    summary.append(if simulation { "true" } else { "false" });
    summary.append(", verified=0, failed=");
    push_decimal(&mut summary, failed as u64);
    summary.append(")");
    effects.push(log_effect("orchestrator", "completed", summary.clone()));
    assert(effects_view(effects@) =~= instruction_run(instruction@, simulation).0);
    InstructionRun { effects, outcome: Ok(summary) }
}

/// Once a run has stopped with an error, later steps add nothing to it.
proof fn lemma_run_steps_stops(steps: Seq<StepView>, k: int, total: u32, simulation: bool)
    requires
        0 <= k <= steps.len(),
        run_steps(steps.take(k), total, simulation).1 is Err,
    ensures
        run_steps(steps, total, simulation) == run_steps(steps.take(k), total, simulation),
    decreases steps.len() - k,
{
    if k < steps.len() {
        assert(steps.take(k + 1).drop_last() =~= steps.take(k));
        lemma_run_steps_stops(steps, k + 1, total, simulation);
    } else {
        assert(steps.take(k) =~= steps);
    }
}

/// The five effects of a step that runs in simulation: its start
/// notification, the dispatch and result log lines, its completion
/// notification and its result record.
pub open spec fn simulated_step_effects(s: StepView, total: u32) -> Seq<EffectView> {
    let o = simulated_outcome(s.action_type, s.parameters);
    seq![
        EffectView::Notify(started(s, total)),
        executor_log("dispatch"@, dispatch_line(s, true)),
        executor_log("result"@, result_line(s, o)),
        EffectView::Notify(finished(s, total, o)),
        step_record(s, o),
    ]
}

/// In simulation mode every step runs: no step fails, and each step
/// contributes its five effects in plan order.
pub proof fn lemma_simulated_steps(steps: Seq<StepView>, total: u32)
    ensures
        run_steps(steps, total, true).1 == Ok::<nat, ErrorView>(0),
        run_steps(steps, total, true).0.len() == 5 * steps.len(),
        forall|i: int| 0 <= i < steps.len() ==>
            #[trigger] run_steps(steps, total, true).0.subrange(5 * i, 5 * i + 5)
                == simulated_step_effects(steps[i], total),
    decreases steps.len(),
{
    if steps.len() > 0 {
        let prev = steps.drop_last();
        lemma_simulated_steps(prev, total);
        let e0 = run_steps(prev, total, true).0;
        let e = run_steps(steps, total, true).0;
        let last = steps.last();
        assert(e =~= e0 + simulated_step_effects(last, total));
        assert forall|i: int| 0 <= i < steps.len() implies
            #[trigger] e.subrange(5 * i, 5 * i + 5) == simulated_step_effects(steps[i], total) by {
            if i < prev.len() {
                assert(e.subrange(5 * i, 5 * i + 5) =~= e0.subrange(5 * i, 5 * i + 5));
                assert(prev[i] == steps[i]);
            } else {
                assert(e.subrange(5 * i, 5 * i + 5) =~= simulated_step_effects(last, total));
            }
        }
    }
}

/// In simulation mode an instruction always completes: every step of its
/// plan is started and then completed, each completion is logged with its
/// result, and the summary reports no failed step.
pub proof fn lemma_simulated_instruction(instruction: Seq<char>)
    ensures
        ({
            let steps = plan_for(instruction).steps;
            let n = steps.len();
            let run = instruction_run(instruction, true);
            &&& run.1 == Ok::<Seq<char>, ErrorView>(summary_text(instruction, n, true, 0))
            &&& run.0.len() == 5 * n + 3
            &&& run.0[0] == orchestrator_log("received"@, instruction)
            &&& run.0[5 * n + 2int] == orchestrator_log("completed"@, summary_text(instruction, n, true, 0))
            &&& forall|i: int| 0 <= i < n ==>
                #[trigger] run.0.subrange(2 + 5 * i, 7 + 5 * i) == simulated_step_effects(steps[i], n as u32)
            &&& forall|i: int| 0 <= i < n ==>
                ((#[trigger] run.0[5 + 5 * i]) matches EffectView::Notify(note) && note.status == StepStatus::Completed)
        }),
{
    let steps = plan_for(instruction).steps;
    let n = steps.len();
    crate::planner::lemma_plan_shape(instruction);
    let total = n as u32;
    assert(total as nat == n);
    lemma_simulated_steps(steps, total);
    let e = run_steps(steps, total, true).0;
    let head = seq![
        orchestrator_log("received"@, instruction),
        orchestrator_log("plan_created"@, plan_created_text(instruction, total as nat)),
    ];
    let summary = summary_text(instruction, n, true, 0);
    let all = head + e + seq![orchestrator_log("completed"@, summary)];
    assert(instruction_run(instruction, true).0 == all);
    assert forall|i: int| 0 <= i < n implies
        #[trigger] all.subrange(2 + 5 * i, 7 + 5 * i) == simulated_step_effects(steps[i], total) by {
        assert(all.subrange(2 + 5 * i, 7 + 5 * i) =~= e.subrange(5 * i, 5 * i + 5));
    }
    assert forall|i: int| 0 <= i < n implies
        ((#[trigger] all[5 + 5 * i]) matches EffectView::Notify(note) && note.status == StepStatus::Completed) by {
        assert(all.subrange(2 + 5 * i, 7 + 5 * i) == simulated_step_effects(steps[i], total));
        assert(all[5 + 5 * i] == all.subrange(2 + 5 * i, 7 + 5 * i)[3]);
    }
}

/// Outside simulation mode an instruction stops at its first step: the step
/// is announced, its dispatch logged, the error logged, and the run ends with
/// the error that real execution of its action is not implemented.
pub proof fn lemma_real_instruction_refused(instruction: Seq<char>)
    ensures
        ({
            let steps = plan_for(instruction).steps;
            let n = steps.len();
            let first = steps[0];
            let run = instruction_run(instruction, false);
            &&& run.1 == Err::<Seq<char>, ErrorView>(not_implemented_error(first.action_type))
            &&& run.0 == seq![
                orchestrator_log("received"@, instruction),
                orchestrator_log("plan_created"@, plan_created_text(instruction, n)),
                EffectView::Notify(started(first, n as u32)),
                executor_log("dispatch"@, dispatch_line(first, false)),
                executor_log("error"@, error_text(not_implemented_error(first.action_type))),
            ]
        }),
{
    let steps = plan_for(instruction).steps;
    crate::planner::lemma_plan_shape(instruction);
    let total = steps.len() as u32;
    let one = steps.take(1);
    assert(one.drop_last() =~= Seq::<StepView>::empty());
    assert(run_steps(one.drop_last(), total, false) == (Seq::<EffectView>::empty(), Ok::<nat, ErrorView>(0)));
    assert(one.last() == steps[0]);
    assert(execute_spec(steps[0], false) is Err);
    assert(run_steps(one, total, false).0 =~= seq![
        EffectView::Notify(started(steps[0], total)),
        executor_log("dispatch"@, dispatch_line(steps[0], false)),
        executor_log("error"@, error_text(not_implemented_error(steps[0].action_type))),
    ]);
    lemma_run_steps_stops(steps, 1, total, false);
}

/// In simulation mode each step of the plan is announced with its own id,
/// the plan's step count and its own description; its dispatch and result are
/// logged by the executor; its completion notification carries the same id,
/// count and description with the simulated result; and its record holds that
/// result. The summary names the instruction, the step count, the mode and
/// no failures.
pub proof fn lemma_step_notifications(instruction: Seq<char>)
    ensures
        ({
            let steps = plan_for(instruction).steps;
            let n = steps.len();
            let run = instruction_run(instruction, true);
            &&& run.1 == Ok::<Seq<char>, ErrorView>(
                "Completed "@ + ("'"@ + instruction + "'"@) + " — "@ + decimal(n)
                    + " steps via keyword (simulation="@ + "true"@ + ", verified=0, failed="@ + decimal(0)
                    + ")"@,
            )
            &&& forall|i: int| 0 <= i < n ==> {
                let st = steps[i];
                let desc = simulated_description(st.action_type, st.parameters);
                &&& #[trigger] run.0[2 + 5 * i] == EffectView::Notify(NotificationView {
                    step_id: st.id,
                    total_steps: n as u32,
                    description: st.description,
                    status: StepStatus::Started,
                    result: None,
                })
                &&& run.0[3 + 5 * i] == EffectView::Log {
                    module: "executor"@,
                    event: "dispatch"@,
                    data: dispatch_line(st, true),
                }
                &&& run.0[4 + 5 * i] == EffectView::Log {
                    module: "executor"@,
                    event: "result"@,
                    data: "step "@ + decimal(st.id as nat) + ": "@ + desc,
                }
                &&& run.0[5 + 5 * i] == EffectView::Notify(NotificationView {
                    step_id: st.id,
                    total_steps: n as u32,
                    description: st.description,
                    status: StepStatus::Completed,
                    result: Some(desc),
                })
                &&& run.0[6 + 5 * i] == EffectView::StepResult {
                    step_id: st.id,
                    success: true,
                    simulated: true,
                    description: desc,
                    verified: None,
                }
            }
        }),
{
    let steps = plan_for(instruction).steps;
    let n = steps.len();
    let run = instruction_run(instruction, true);
    lemma_simulated_instruction(instruction);
    crate::planner::lemma_plan_shape(instruction);
    assert forall|i: int| 0 <= i < n implies {
        let st = steps[i];
        let desc = simulated_description(st.action_type, st.parameters);
        &&& #[trigger] run.0[2 + 5 * i] == EffectView::Notify(NotificationView {
            step_id: st.id,
            total_steps: n as u32,
            description: st.description,
            status: StepStatus::Started,
            result: None,
        })
        &&& run.0[3 + 5 * i] == EffectView::Log { module: "executor"@, event: "dispatch"@, data: dispatch_line(st, true) }
        &&& run.0[4 + 5 * i] == EffectView::Log {
            module: "executor"@,
            event: "result"@,
            data: "step "@ + decimal(st.id as nat) + ": "@ + desc,
        }
        &&& run.0[5 + 5 * i] == EffectView::Notify(NotificationView {
            step_id: st.id,
            total_steps: n as u32,
            description: st.description,
            status: StepStatus::Completed,
            result: Some(desc),
        })
        &&& run.0[6 + 5 * i] == EffectView::StepResult {
            step_id: st.id,
            success: true,
            simulated: true,
            description: desc,
            verified: None,
        }
    } by {
        let block = run.0.subrange(2 + 5 * i, 7 + 5 * i);
        assert(block == simulated_step_effects(steps[i], n as u32));
        assert(run.0[2 + 5 * i] == block[0]);
        assert(run.0[3 + 5 * i] == block[1]);
        assert(run.0[4 + 5 * i] == block[2]);
        assert(run.0[5 + 5 * i] == block[3]);
        assert(run.0[6 + 5 * i] == block[4]);
    }
}

/// Outside simulation mode the first step is still announced with its own
/// id, the plan's step count and its own description.
pub proof fn lemma_real_start_notification(instruction: Seq<char>)
    ensures
        ({
            let steps = plan_for(instruction).steps;
            instruction_run(instruction, false).0[2] == EffectView::Notify(NotificationView {
                step_id: steps[0].id,
                total_steps: steps.len() as u32,
                description: steps[0].description,
                status: StepStatus::Started,
                result: None,
            })
        }),
{
    lemma_real_instruction_refused(instruction);
}

/// Handling an instruction first logs its receipt and then the size of its
/// plan, both as orchestrator events, in either mode; in simulation mode the
/// last effect logs the summary.
pub proof fn lemma_instruction_head_logs(instruction: Seq<char>, simulation: bool)
    ensures
        ({
            let n = plan_for(instruction).steps.len();
            let run = instruction_run(instruction, simulation);
            &&& run.0[0] == EffectView::Log { module: "orchestrator"@, event: "received"@, data: instruction }
            &&& run.0[1] == EffectView::Log {
                module: "orchestrator"@,
                event: "plan_created"@,
                data: decimal(n) + " steps via keyword for "@ + ("'"@ + instruction + "'"@),
            }
            &&& simulation ==> run.0.last() == EffectView::Log {
                module: "orchestrator"@,
                event: "completed"@,
                data: "Completed "@ + ("'"@ + instruction + "'"@) + " — "@ + decimal(n)
                    + " steps via keyword (simulation="@ + "true"@ + ", verified=0, failed="@ + decimal(0) + ")"@,
            }
        }),
{
    crate::planner::lemma_plan_shape(instruction);
    if simulation {
        lemma_simulated_instruction(instruction);
    } else {
        lemma_real_instruction_refused(instruction);
    }
}

} // verus!
