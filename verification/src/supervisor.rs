//! The workflow supervisor: the runtime workflow context, starting the
//! current step, and advancing on each task completion until the context
//! clears.

use vstd::prelude::*;
use vstd::string::StringExecFns;
use crate::workflows::StepKind;
use crate::workflows::WorkflowStep;

verus! {

/// One step as the UI runs it: the kind as a word, the agent or team name,
/// and the step prompt.
pub struct WorkflowStepRuntime {
    pub kind: String,
    pub id: String,
    pub prompt: Option<String>,
}

/// The runtime state tracking which step of a workflow is active.
pub struct WorkflowContext {
    pub name: String,
    pub steps: Vec<WorkflowStepRuntime>,
    pub index: usize,
}

impl WorkflowContext {
    /// An active context always points at a step.
    pub open spec fn wf(&self) -> bool {
        self.index < self.steps@.len()
    }
}

/// What the supervisor does: start a step's session, render a line, or
/// nothing.
#[derive(Debug)]
pub enum SupervisorAction {
    /// Switch to this agent or team, with the step prompt as initial input.
    Switch { name: String, initial_prompt: Option<String> },
    /// A step kind that is neither `agent` nor `team`: an informational line.
    Unsupported(String),
    /// The workflow finished: an informational line.
    Completed(String),
    /// Nothing to do.
    Idle,
}

/// The action that starts a given step.
pub open spec fn spec_step_action(step: WorkflowStepRuntime, r: SupervisorAction) -> bool {
    if step.kind@ == "agent"@ || step.kind@ == "team"@ {
        match r {
            SupervisorAction::Switch { name, initial_prompt } => name@ == step.id@
                && initial_prompt.deep_view() == step.prompt.deep_view(),
            _ => false,
        }
    } else {
        match r {
            SupervisorAction::Unsupported(msg) => msg@ == "Unsupported step kind: "@ + step.kind@,
            _ => false,
        }
    }
}

/// The runtime steps of a loaded workflow, each kind rendered as its word.
pub fn runtime_steps(steps: &Vec<WorkflowStep>) -> (r: Vec<WorkflowStepRuntime>)
    ensures
        r@.len() == steps@.len(),
        forall|i: int|
            0 <= i < steps@.len() ==> {
                &&& (#[trigger] r@[i]).kind@ == match steps@[i].kind {
                    StepKind::Agent => "agent"@,
                    StepKind::Team => "team"@,
                }
                &&& r@[i].id@ == steps@[i].id@
                &&& r@[i].prompt.deep_view() == steps@[i].prompt.deep_view()
            },
{
    let mut r: Vec<WorkflowStepRuntime> = Vec::new();
    let n = steps.len();
    let mut i: usize = 0;
    while i < n
        invariant
            i <= n,
            n == steps@.len(),
            r@.len() == i,
            forall|j: int|
                0 <= j < i ==> {
                    &&& (#[trigger] r@[j]).kind@ == match steps@[j].kind {
                        StepKind::Agent => "agent"@,
                        StepKind::Team => "team"@,
                    }
                    &&& r@[j].id@ == steps@[j].id@
                    &&& r@[j].prompt.deep_view() == steps@[j].prompt.deep_view()
                },
        decreases n - i,
    {
        let step = &steps[i];
        let kind = match step.kind {
            StepKind::Agent => String::from_str("agent"),
            StepKind::Team => String::from_str("team"),
        };
        let prompt = match &step.prompt {
            Some(p) => Some(p.clone()),
            None => None,
        };
        r.push(WorkflowStepRuntime { kind, id: step.id.clone(), prompt });
        i = i + 1;
    }
    r
}

/// Starts the step the context points at. Agent and team steps alike switch
/// to the named target with the step prompt.
pub fn start_current_step(ctx: &WorkflowContext) -> (r: SupervisorAction)
    ensures
        ctx.index >= ctx.steps@.len() ==> r is Idle,
        ctx.index < ctx.steps@.len() ==> spec_step_action(ctx.steps@[ctx.index as int], r),
{
    if ctx.index >= ctx.steps.len() {
        return SupervisorAction::Idle;
    }
    let step = &ctx.steps[ctx.index];
    let is_agent = crate::strutil::str_eq(step.kind.as_str(), "agent");
    let is_team = crate::strutil::str_eq(step.kind.as_str(), "team");
    if is_agent || is_team {
        let prompt = match &step.prompt {
            Some(p) => Some(p.clone()),
            None => None,
        };
        SupervisorAction::Switch { name: step.id.clone(), initial_prompt: prompt }
    } else {
        let mut msg = String::from_str("Unsupported step kind: ");
        msg.append(step.kind.as_str());
        SupervisorAction::Unsupported(msg)
    }
}

/// Advances the workflow on a task completion: the index increases by
/// exactly one; while steps remain the next step starts; the context clears
/// exactly when the index reaches the step count, with the completion line.
pub fn advance_workflow(ctx: &mut Option<WorkflowContext>) -> (r: SupervisorAction)
    requires
        ((*old(ctx)) matches Some(c) ==> c.wf()),
    ensures
        (*old(ctx)) is None ==> ((*final(ctx)) is None && r is Idle),
        (match *old(ctx) {
            Some(c) => {
                if c.index + 1 < c.steps@.len() {
                    match *final(ctx) {
                        Some(c2) => {
                            &&& c2.wf()
                            &&& c2.index == c.index + 1
                            &&& c2.steps == c.steps
                            &&& c2.name == c.name
                            &&& spec_step_action(c.steps@[c.index + 1], r)
                        },
                        None => false,
                    }
                } else {
                    &&& (*final(ctx)) is None
                    &&& (match r {
                        SupervisorAction::Completed(msg) => msg@ == "Workflow '"@ + c.name@
                            + "' completed"@,
                        _ => false,
                    })
                }
            },
            None => true,
        }),
{
    let current = ctx.take();
    match current {
        None => SupervisorAction::Idle,
        Some(mut c) => {
            let n = c.steps.len();
            proof {
                assert(c.index < n);
            }
            c.index = c.index + 1;
            if c.index < n {
                let action = start_current_step(&c);
                *ctx = Some(c);
                action
            } else {
                let mut msg = String::from_str("Workflow '");
                msg.append(c.name.as_str());
                msg.append("' completed");
                SupervisorAction::Completed(msg)
            }
        },
    }
}

/// The context after a number of advances, starting from an active context
/// with the given step count and index: the index, or nothing once cleared.
pub open spec fn spec_ctx_after(len: int, i: int, n: nat) -> Option<int>
    decreases n,
{
    if n == 0 {
        Some(i)
    } else {
        match spec_ctx_after(len, i, (n - 1) as nat) {
            None => None,
            Some(j) => if j + 1 < len {
                Some(j + 1)
            } else {
                None
            },
        }
    }
}

/// The context clears exactly once: over consecutive advances from an active
/// context at index `i` of `len` steps, the index increases by one each
/// time, and the context is cleared at the `(len - i)`-th advance and stays
/// cleared (further advances find no context and do nothing).
pub proof fn lemma_workflow_clears_once(len: int, i: int, n: nat)
    requires
        0 <= i < len,
    ensures
        i + n < len ==> spec_ctx_after(len, i, n) == Some(i + n),
        i + n >= len ==> spec_ctx_after(len, i, n) is None,
    decreases n,
{
    if n > 0 {
        lemma_workflow_clears_once(len, i, (n - 1) as nat);
    }
}

} // verus!
