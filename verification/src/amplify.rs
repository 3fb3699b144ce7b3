//! What the hosting service reports of apps, branches and jobs, as plain
//! values, and the choices made on them.

use crate::text::same_text;
use vstd::prelude::*;

verus! {

/// Summary of an app.
#[derive(Clone, Debug, PartialEq, Eq)]
pub struct AppSummary {
    pub app_id: String,
    pub name: String,
    pub repository: Option<String>,
    pub default_domain: String,
}

/// Summary of a branch.
#[derive(Clone, Debug, PartialEq, Eq)]
pub struct BranchSummary {
    pub branch_name: String,
    pub display_name: String,
    pub stage: String,
}

/// Summary of a job.
#[derive(Clone, Debug, PartialEq, Eq)]
pub struct JobSummary {
    pub job_id: String,
    pub status: String,
    pub start_time: Option<String>,
    pub end_time: Option<String>,
}

/// An environment variable of a branch.
#[derive(Clone, Debug, PartialEq, Eq)]
pub struct EnvVariable {
    pub name: String,
    pub value: String,
}

/// The job that a request to start a build made.
#[derive(Clone, Debug, PartialEq, Eq)]
pub struct StartJobResult {
    pub job_id: String,
    pub status: String,
}

/// The job that a request to stop a build stopped.
#[derive(Clone, Debug, PartialEq, Eq)]
pub struct StopJobResult {
    pub job_id: String,
    pub status: String,
}

/// One step of a job, with the locations of its log and of its artifacts
/// where it has them.
#[derive(Clone, Debug, PartialEq, Eq)]
pub struct JobStep {
    pub step_name: String,
    pub log_url: Option<String>,
    pub artifacts_url: Option<String>,
}

/// Where the log of one step can be fetched.
#[derive(Clone, Debug, PartialEq, Eq)]
pub struct LogArtifactRef {
    pub step_name: String,
    pub location: String,
}

/// What a `LogArtifactRef` holds, as character sequences.
pub ghost struct ArtifactRefView {
    pub step_name: Seq<char>,
    pub location: Seq<char>,
}

impl View for LogArtifactRef {
    type V = ArtifactRefView;

    open spec fn view(&self) -> ArtifactRefView {
        ArtifactRefView { step_name: self.step_name@, location: self.location@ }
    }
}

/// The status of a job that failed.
pub const FAILED: &'static str = "FAILED";

/// Whether a job failed.
pub open spec fn has_failed(job: JobSummary) -> bool {
    job.status@ == FAILED@
}

/// Finds the first failed job of a list, which the service gives latest
/// first.
pub fn first_failed_job(jobs: &Vec<JobSummary>) -> (found: Option<&JobSummary>)
    ensures
        match found {
            Some(job) => exists|k: int|
                0 <= k < jobs@.len() && *job == jobs@[k] && has_failed(jobs@[k]) && forall|j: int|
                    0 <= j < k ==> !has_failed(#[trigger] jobs@[j]),
            None => forall|j: int| 0 <= j < jobs@.len() ==> !has_failed(#[trigger] jobs@[j]),
        },
{
    let mut k: usize = 0;
    while k < jobs.len()
        invariant
            k <= jobs@.len(),
            forall|j: int| 0 <= j < k ==> !has_failed(#[trigger] jobs@[j]),
        decreases jobs@.len() - k,
    {
        if same_text(jobs[k].status.as_str(), FAILED) {
            return Some(&jobs[k]);
        }
        k += 1;
    }
    None
}

/// The reference to a step's log, where the step has one.
pub open spec fn log_ref_of(step: JobStep) -> Option<ArtifactRefView> {
    match step.log_url {
        Some(url) => Some(ArtifactRefView { step_name: step.step_name@, location: url@ }),
        None => None,
    }
}

/// The reference to a step's artifacts, where the step has some.
pub open spec fn artifact_ref_of(step: JobStep) -> Option<ArtifactRefView> {
    match step.artifacts_url {
        Some(url) => Some(ArtifactRefView { step_name: step.step_name@, location: url@ }),
        None => None,
    }
}

/// The views of a list of references.
pub open spec fn ref_views(refs: Seq<LogArtifactRef>) -> Seq<ArtifactRefView> {
    refs.map_values(|r: LogArtifactRef| r@)
}

/// Lists the logs of a job's steps, in the order of the steps; a step
/// without a log is left out.
pub fn log_refs(steps: &Vec<JobStep>) -> (refs: Vec<LogArtifactRef>)
    ensures
        ref_views(refs@) == steps@.filter_map(|step: JobStep| log_ref_of(step)),
{
    let mut refs: Vec<LogArtifactRef> = Vec::new();
    let ghost pick = |step: JobStep| log_ref_of(step);
    let mut k: usize = 0;
    assert(steps@.take(0) =~= Seq::<JobStep>::empty());
    assert(ref_views(refs@) =~= steps@.take(0).filter_map(pick)) by {
        reveal(Seq::filter_map);
    }
    while k < steps.len()
        invariant
            k <= steps@.len(),
            pick == (|step: JobStep| log_ref_of(step)),
            ref_views(refs@) == steps@.take(k as int).filter_map(pick),
        decreases steps@.len() - k,
    {
        let ghost before = ref_views(refs@);
        proof {
            steps@.lemma_filter_map_take_succ(pick, k as int);
        }
        match &steps[k].log_url {
            Some(url) => {
                let found = LogArtifactRef {
                    step_name: steps[k].step_name.clone(),
                    location: url.clone(),
                };
                refs.push(found);
                assert(ref_views(refs@) =~= before.push(found@));
            },
            None => {},
        }
        k += 1;
    }
    assert(steps@.take(steps@.len() as int) =~= steps@);
    refs
}

/// Lists the artifacts of a job's steps, in the order of the steps; a
/// step without artifacts is left out.
pub fn artifact_refs(steps: &Vec<JobStep>) -> (refs: Vec<LogArtifactRef>)
    ensures
        ref_views(refs@) == steps@.filter_map(|step: JobStep| artifact_ref_of(step)),
{
    let mut refs: Vec<LogArtifactRef> = Vec::new();
    let ghost pick = |step: JobStep| artifact_ref_of(step);
    let mut k: usize = 0;
    assert(steps@.take(0) =~= Seq::<JobStep>::empty());
    assert(ref_views(refs@) =~= steps@.take(0).filter_map(pick)) by {
        reveal(Seq::filter_map);
    }
    while k < steps.len()
        invariant
            k <= steps@.len(),
            pick == (|step: JobStep| artifact_ref_of(step)),
            ref_views(refs@) == steps@.take(k as int).filter_map(pick),
        decreases steps@.len() - k,
    {
        let ghost before = ref_views(refs@);
        proof {
            steps@.lemma_filter_map_take_succ(pick, k as int);
        }
        match &steps[k].artifacts_url {
            Some(url) => {
                let found = LogArtifactRef {
                    step_name: steps[k].step_name.clone(),
                    location: url.clone(),
                };
                refs.push(found);
                assert(ref_views(refs@) =~= before.push(found@));
            },
            None => {},
        }
        k += 1;
    }
    assert(steps@.take(steps@.len() as int) =~= steps@);
    refs
}

/// The predicate "has another name than this".
pub open spec fn named_otherwise(name: Seq<char>) -> spec_fn(EnvVariable) -> bool {
    |variable: EnvVariable| variable.name@ != name
}

/// The names and values of a list of variables.
pub open spec fn variable_views(variables: Seq<EnvVariable>) -> Seq<(Seq<char>, Seq<char>)> {
    variables.map_values(|variable: EnvVariable| (variable.name@, variable.value@))
}

/// The variables of a branch without the one of the given name.
pub fn without_variable(existing: &Vec<EnvVariable>, name: &str) -> (kept: Vec<EnvVariable>)
    ensures
        kept@ == existing@.filter(named_otherwise(name@)),
{
    let ghost others = named_otherwise(name@);
    let mut kept: Vec<EnvVariable> = Vec::new();
    let mut k: usize = 0;
    assert(existing@.take(0).filter(others) =~= Seq::<EnvVariable>::empty()) by {
        assert(existing@.take(0) =~= Seq::<EnvVariable>::empty());
        reveal(Seq::filter);
    }
    while k < existing.len()
        invariant
            k <= existing@.len(),
            others == named_otherwise(name@),
            kept@ == existing@.take(k as int).filter(others),
        decreases existing@.len() - k,
    {
        proof {
            assert(existing@.take(k + 1) =~= existing@.take(k as int).push(existing@[k as int]));
            existing@.take(k as int).lemma_filter_push(existing@[k as int], others);
        }
        if !same_text(existing[k].name.as_str(), name) {
            kept.push(
                EnvVariable { name: existing[k].name.clone(), value: existing[k].value.clone() },
            );
        }
        k += 1;
    }
    assert(existing@.take(existing@.len() as int) =~= existing@);
    kept
}

/// The variables of a branch with one set to a value: the others as they
/// were, then the one that was set.
pub fn with_variable(existing: &Vec<EnvVariable>, name: &str, value: &str) -> (set: Vec<
    EnvVariable,
>)
    ensures
        variable_views(set@) == variable_views(existing@.filter(named_otherwise(name@))).push(
            (name@, value@),
        ),
{
    let mut set = without_variable(existing, name);
    let ghost before = variable_views(set@);
    set.push(EnvVariable { name: name.to_string(), value: value.to_string() });
    assert(variable_views(set@) =~= before.push((name@, value@)));
    set
}

} // verus!
