//! Workflow definitions: the file schema, and materialization of the ordered
//! step list with referential validation against the step table.

use vstd::prelude::*;
use vstd::string::StringExecFns;
use crate::errors::LoadError;
use crate::paths::FsPath;
use crate::strmap::StrMap;
use crate::strutil::str_eq;

verus! {

/// Mathematical value of a step table entry.
pub struct WorkflowStepView {
    pub step_type: Seq<char>,
    pub id: Seq<char>,
    pub prompt: Option<Seq<char>>,
    pub max_turns: Option<int>,
}

/// One entry of a workflow file's step table.
pub struct WorkflowStepToml {
    /// `agent` or `team`; anything else fails validation.
    pub step_type: String,
    /// The agent or team name the step runs.
    pub id: String,
    pub prompt: Option<String>,
    pub max_turns: Option<usize>,
}

impl View for WorkflowStepToml {
    type V = WorkflowStepView;

    open spec fn view(&self) -> WorkflowStepView {
        WorkflowStepView {
            step_type: self.step_type@,
            id: self.id@,
            prompt: self.prompt.deep_view(),
            max_turns: match self.max_turns {
                Some(n) => Some(n as int),
                None => None,
            },
        }
    }
}

/// Workflow file schema (`workflows/<name>.toml`).
pub struct WorkflowToml {
    pub name: Option<String>,
    pub description: Option<String>,
    /// The ordered step keys; each must appear in the step table.
    pub steps: Vec<String>,
    /// The step table, keyed by step key.
    pub step: StrMap<WorkflowStepToml>,
}

/// What a step runs: a single agent, or a team.
#[derive(Clone, Copy, Debug, PartialEq, Eq, Structural)]
pub enum StepKind {
    Agent,
    Team,
}

/// One materialized workflow step.
#[derive(Debug)]
pub struct WorkflowStep {
    pub kind: StepKind,
    pub id: String,
    pub prompt: Option<String>,
    pub max_turns: Option<usize>,
}

/// A loaded workflow: its file, its name (the file stem when the file names
/// none), its description and its materialized steps in order.
#[derive(Debug)]
pub struct WorkflowDefinition {
    pub file: FsPath,
    pub name: String,
    pub description: Option<String>,
    pub steps: Vec<WorkflowStep>,
}

/// The kind a `type` value denotes, if any.
pub open spec fn step_kind_of(t: Seq<char>) -> Option<StepKind> {
    if t == "agent"@ {
        Some(StepKind::Agent)
    } else if t == "team"@ {
        Some(StepKind::Team)
    } else {
        None
    }
}

/// Validity of a workflow: every step key is bound by the table, and every
/// bound step's type denotes a kind.
pub open spec fn spec_steps_valid(
    keys: Seq<Seq<char>>,
    table: Map<Seq<char>, WorkflowStepView>,
) -> bool {
    forall|i: int|
        0 <= i < keys.len() ==> table.contains_key(#[trigger] keys[i]) && step_kind_of(
            table[keys[i]].step_type,
        ) is Some
}

/// A materialized step carries exactly what its table entry says.
pub open spec fn step_matches(s: WorkflowStep, t: WorkflowStepView) -> bool {
    &&& Some(s.kind) == step_kind_of(t.step_type)
    &&& s.id@ == t.id
    &&& s.prompt.deep_view() == t.prompt
    &&& match s.max_turns {
        Some(n) => t.max_turns == Some(n as int),
        None => t.max_turns is None,
    }
}

/// The file a workflow is defined in.
pub fn workflow_file_path(project_dir: &FsPath, name: &str) -> (r: FsPath)
    ensures
        r@.absolute == project_dir@.absolute,
        r@.parts == project_dir@.parts.push("workflows"@).push(name@ + ".toml"@),
{
    let mut file_name = String::from_str(name);
    file_name.append(".toml");
    project_dir.child("workflows").child(file_name.as_str())
}

/// Materializes the ordered steps of a workflow, validating each key against
/// the step table. Fails on the first key the table does not bind, and on
/// the first step whose `type` is neither `agent` nor `team`.
pub fn build_workflow_steps(keys: &Vec<String>, table: &StrMap<WorkflowStepToml>) -> (r: Result<
    Vec<WorkflowStep>,
    LoadError,
>)
    requires
        table.wf(),
    ensures
        r is Ok <==> spec_steps_valid(keys.deep_view(), table@),
        (r matches Ok(steps) ==> steps@.len() == keys@.len() && forall|i: int|
            0 <= i < steps@.len() ==> step_matches(#[trigger] steps@[i], table@[keys.deep_view()[i]])),
        (r matches Err(e) ==> exists|i: int|
            #![trigger keys.deep_view()[i]]
            0 <= i < keys@.len() && (forall|j: int|
                0 <= j < i ==> table@.contains_key(#[trigger] keys.deep_view()[j]) && step_kind_of(
                    table@[keys.deep_view()[j]].step_type,
                ) is Some) && match e {
                LoadError::UndefinedStep(k) => k@ == keys.deep_view()[i]
                    && !table@.contains_key(keys.deep_view()[i]),
                LoadError::UnsupportedStepType(kind, k) => k@ == keys.deep_view()[i]
                    && table@.contains_key(keys.deep_view()[i]) && kind@
                    == table@[keys.deep_view()[i]].step_type && step_kind_of(kind@) is None,
                _ => false,
            }),
{
    let mut steps: Vec<WorkflowStep> = Vec::new();
    let n = keys.len();
    let mut i: usize = 0;
    while i < n
        invariant
            table.wf(),
            i <= n,
            n == keys@.len(),
            steps@.len() == i,
            forall|j: int|
                0 <= j < i ==> table@.contains_key(#[trigger] keys.deep_view()[j]) && step_kind_of(
                    table@[keys.deep_view()[j]].step_type,
                ) is Some,
            forall|j: int|
                0 <= j < i ==> step_matches(#[trigger] steps@[j], table@[keys.deep_view()[j]]),
        decreases n - i,
    {
        let key = &keys[i];
        proof {
            assert(keys.deep_view()[i as int] == keys@[i as int]@);
        }
        match table.get(key.as_str()) {
            None => {
                proof {
                    assert(!table@.contains_key(keys.deep_view()[i as int]));
                }
                return Err(LoadError::UndefinedStep(key.clone()));
            },
            Some(st) => {
                proof {
                    assert(table@.contains_key(keys.deep_view()[i as int]));
                    assert(st@ == table@[keys.deep_view()[i as int]]);
                }
                let kind = if str_eq(st.step_type.as_str(), "agent") {
                    StepKind::Agent
                } else if str_eq(st.step_type.as_str(), "team") {
                    StepKind::Team
                } else {
                    proof {
                        assert(step_kind_of(table@[keys.deep_view()[i as int]].step_type)
                            is None);
                    }
                    return Err(
                        LoadError::UnsupportedStepType(st.step_type.clone(), key.clone()),
                    );
                };
                let prompt = match &st.prompt {
                    Some(p) => Some(p.clone()),
                    None => None,
                };
                let step = WorkflowStep { kind, id: st.id.clone(), prompt, max_turns: st.max_turns };
                proof {
                    assert(step.prompt.deep_view() == st@.prompt);
                    assert(step_matches(step, table@[keys.deep_view()[i as int]]));
                }
                steps.push(step);
            },
        }
        i = i + 1;
    }
    Ok(steps)
}

/// Assembles a loaded workflow from its file, its stem name and its parsed
/// contents, materializing and validating its steps.
pub fn load_workflow(file: FsPath, name: &str, wf: WorkflowToml) -> (r: Result<
    WorkflowDefinition,
    LoadError,
>)
    requires
        wf.step.wf(),
    ensures
        r is Ok <==> spec_steps_valid(wf.steps.deep_view(), wf.step@),
        (r matches Ok(d) ==> {
            &&& d.file == file
            &&& d.name@ == match wf.name {
                Some(given) => given@,
                None => name@,
            }
            &&& d.description == wf.description
            &&& d.steps@.len() == wf.steps@.len()
            &&& forall|i: int|
                0 <= i < d.steps@.len() ==> step_matches(
                    #[trigger] d.steps@[i],
                    wf.step@[wf.steps.deep_view()[i]],
                )
        }),
{
    let steps = match build_workflow_steps(&wf.steps, &wf.step) {
        Ok(steps) => steps,
        Err(e) => {
            return Err(e);
        },
    };
    let wf_name = match wf.name {
        Some(given) => given,
        None => String::from_str(name),
    };
    Ok(WorkflowDefinition { file, name: wf_name, description: wf.description, steps })
}

} // verus!
