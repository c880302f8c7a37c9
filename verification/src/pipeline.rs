//! The engine's declarative description of a configured pipeline, as the
//! configuration endpoint returns it: an ordered list of resources and an
//! ordered list of jobs whose plan steps may pull a resource or install a
//! pipeline. Read-only to the broker.

use vstd::prelude::*;
use crate::errors::ErrorKind;
use crate::json::{Json, json_parse, json_view, parse_json, get_str_field, get_field,
    get_array_field, json_is_null, json_is_object, json_as_str, obj_field, str_field};

verus! {

/// One step of a job's plan; each part is optional.
#[derive(Debug, Clone, PartialEq, Eq)]
pub struct PlanStep {
    pub get: Option<String>,
    pub version: Option<String>,
    pub file: Option<String>,
    pub set_pipeline: Option<String>,
}

/// One job of a configured pipeline, with its plan in order.
#[derive(Debug, Clone, PartialEq, Eq)]
pub struct PipelineJob {
    pub name: String,
    pub plan: Vec<PlanStep>,
}

/// Where a resource is fetched from.
#[derive(Debug, Clone, PartialEq, Eq)]
pub struct Source {
    pub branch: String,
    pub uri: String,
}

/// One resource of a configured pipeline.
#[derive(Debug, Clone, PartialEq, Eq)]
pub struct Resource {
    pub name: String,
    pub kind: String,
    pub source: Source,
    pub icon: String,
}

/// The resources and jobs of a configured pipeline, in order.
#[derive(Debug, Clone, PartialEq, Eq)]
pub struct Config {
    pub resources: Vec<Resource>,
    pub jobs: Vec<PipelineJob>,
}

/// The engine's reply for a configured pipeline.
#[derive(Debug, Clone, PartialEq, Eq)]
pub struct PipelineConfiguration {
    pub config: Config,
}

/// An optional string field is acceptable when it is absent, null, or a
/// string — anything else is a decode failure.
pub open spec fn opt_str_field_ok(j: Json, key: Seq<char>) -> bool {
    match obj_field(j, key) {
        None => true,
        Some(Json::Null) => true,
        Some(Json::Str(s)) => true,
        Some(f) => false,
    }
}

/// The text of an optional string field: present exactly when the field
/// is there and is a string.
pub open spec fn opt_str_field(j: Json, key: Seq<char>) -> Option<Seq<char>> {
    match obj_field(j, key) {
        Some(Json::Str(s)) => Some(s),
        _ => None,
    }
}

/// `o` is the reading of the optional text `s`.
pub open spec fn opt_str_matches(o: Option<String>, s: Option<Seq<char>>) -> bool {
    match s {
        Some(t) => o matches Some(x) && x@ == t,
        None => o is None,
    }
}

/// Read an optional string field: absent and null both give `None`; any
/// present non-string value is refused.
fn get_opt_str_field(v: &serde_json::Value, key: &str) -> (r: Result<Option<String>, ErrorKind>)
    ensures
        opt_str_field_ok(json_view(*v), key@) ==> (r matches Ok(o) && opt_str_matches(
            o,
            opt_str_field(json_view(*v), key@),
        )),
        !opt_str_field_ok(json_view(*v), key@) ==> r == Err::<Option<String>, ErrorKind>(
            ErrorKind::Decode,
        ),
{
    match get_field(v, key) {
        None => Ok(None),
        Some(f) => {
            if json_is_null(f) {
                Ok(None)
            } else {
                match json_as_str(f) {
                    Some(s) => Ok(Some(s.to_owned())),
                    None => Err(ErrorKind::Decode),
                }
            }
        },
    }
}

/// The document `j` is a plan step: an object whose four optional parts,
/// where present, are strings or null.
pub open spec fn plan_step_decodes(j: Json) -> bool {
    &&& j is Obj
    &&& opt_str_field_ok(j, "get"@)
    &&& opt_str_field_ok(j, "version"@)
    &&& opt_str_field_ok(j, "file"@)
    &&& opt_str_field_ok(j, "set_pipeline"@)
}

/// `p` is the plan step that the document `j` describes.
pub open spec fn plan_step_matches(p: PlanStep, j: Json) -> bool {
    &&& opt_str_matches(p.get, opt_str_field(j, "get"@))
    &&& opt_str_matches(p.version, opt_str_field(j, "version"@))
    &&& opt_str_matches(p.file, opt_str_field(j, "file"@))
    &&& opt_str_matches(p.set_pipeline, opt_str_field(j, "set_pipeline"@))
}

/// Decode one plan step.
fn plan_step_from_value(v: &serde_json::Value) -> (r: Result<PlanStep, ErrorKind>)
    ensures
        plan_step_decodes(json_view(*v)) ==> (r matches Ok(p) && plan_step_matches(
            p,
            json_view(*v),
        )),
        !plan_step_decodes(json_view(*v)) ==> r == Err::<PlanStep, ErrorKind>(ErrorKind::Decode),
{
    if !json_is_object(v) {
        return Err(ErrorKind::Decode);
    }
    let get = match get_opt_str_field(v, "get") {
        Ok(o) => o,
        Err(e) => {
            return Err(e);
        },
    };
    let version = match get_opt_str_field(v, "version") {
        Ok(o) => o,
        Err(e) => {
            return Err(e);
        },
    };
    let file = match get_opt_str_field(v, "file") {
        Ok(o) => o,
        Err(e) => {
            return Err(e);
        },
    };
    let set_pipeline = match get_opt_str_field(v, "set_pipeline") {
        Ok(o) => o,
        Err(e) => {
            return Err(e);
        },
    };
    Ok(PlanStep { get, version, file, set_pipeline })
}

/// The document `j` is a pipeline job: a name and an array of plan steps.
pub open spec fn pipeline_job_decodes(j: Json) -> bool {
    &&& str_field(j, "name"@) is Some
    &&& obj_field(j, "plan"@) matches Some(Json::Arr(steps)) && (forall|i: int|
        0 <= i < steps.len() ==> plan_step_decodes(#[trigger] steps[i]))
}

/// `job` is the pipeline job that the document `j` describes.
pub open spec fn pipeline_job_matches(job: PipelineJob, j: Json) -> bool {
    &&& Some(job.name@) == str_field(j, "name"@)
    &&& obj_field(j, "plan"@) matches Some(Json::Arr(steps)) && job.plan@.len() == steps.len()
        && (forall|i: int|
        0 <= i < steps.len() ==> plan_step_matches(#[trigger] job.plan@[i], steps[i]))
}

/// Decode one pipeline job with its plan.
fn pipeline_job_from_value(v: &serde_json::Value) -> (r: Result<PipelineJob, ErrorKind>)
    ensures
        pipeline_job_decodes(json_view(*v)) ==> (r matches Ok(job) && pipeline_job_matches(
            job,
            json_view(*v),
        )),
        !pipeline_job_decodes(json_view(*v)) ==> r == Err::<PipelineJob, ErrorKind>(
            ErrorKind::Decode,
        ),
{
    let name = match get_str_field(v, "name") {
        Some(s) => s,
        None => {
            return Err(ErrorKind::Decode);
        },
    };
    let steps = match get_array_field(v, "plan") {
        Some(a) => a,
        None => {
            return Err(ErrorKind::Decode);
        },
    };
    let ghost model = obj_field(json_view(*v), "plan"@)->Some_0->Arr_0;
    let mut plan: Vec<PlanStep> = Vec::new();
    let mut i: usize = 0;
    while i < steps.len()
        invariant
            obj_field(json_view(*v), "plan"@) == Some(Json::Arr(model)),
            steps@.len() == model.len(),
            forall|k: int| 0 <= k < model.len() ==> json_view(#[trigger] steps@[k]) == model[k],
            i <= model.len(),
            plan@.len() == i,
            forall|k: int| 0 <= k < i ==> plan_step_decodes(#[trigger] model[k]),
            forall|k: int| 0 <= k < i ==> plan_step_matches(#[trigger] plan@[k], model[k]),
        decreases steps@.len() - i,
    {
        proof {
            assert(json_view(steps@[i as int]) == model[i as int]);
        }
        match plan_step_from_value(&steps[i]) {
            Ok(step) => {
                let ghost prev = plan@;
                plan.push(step);
                proof {
                    assert forall|k: int|
                        0 <= k < i + 1 implies plan_step_matches(
                        #[trigger] plan@[k],
                        model[k],
                    ) by {
                        if k < i {
                            assert(plan@[k] == prev[k]);
                        }
                    }
                }
            },
            Err(e) => {
                proof {
                    assert(!plan_step_decodes(model[i as int]));
                    if pipeline_job_decodes(json_view(*v)) {
                        assert(obj_field(json_view(*v), "plan"@) matches Some(Json::Arr(ss))
                            && plan_step_decodes(ss[i as int]));
                        assert(false);
                    }
                }
                return Err(e);
            },
        }
        i += 1;
    }
    Ok(PipelineJob { name, plan })
}

/// The document `j` is a resource source: its branch and URI as strings.
pub open spec fn source_decodes(j: Json) -> bool {
    &&& str_field(j, "branch"@) is Some
    &&& str_field(j, "uri"@) is Some
}

/// `s` is the source that the document `j` describes.
pub open spec fn source_matches(s: Source, j: Json) -> bool {
    &&& Some(s.branch@) == str_field(j, "branch"@)
    &&& Some(s.uri@) == str_field(j, "uri"@)
}

/// The document `j` is a resource: name, type and icon as strings, and a
/// source.
pub open spec fn resource_decodes(j: Json) -> bool {
    &&& str_field(j, "name"@) is Some
    &&& str_field(j, "type"@) is Some
    &&& obj_field(j, "source"@) matches Some(src) && source_decodes(src)
    &&& str_field(j, "icon"@) is Some
}

/// `r` is the resource that the document `j` describes.
pub open spec fn resource_matches(r: Resource, j: Json) -> bool {
    &&& Some(r.name@) == str_field(j, "name"@)
    &&& Some(r.kind@) == str_field(j, "type"@)
    &&& obj_field(j, "source"@) matches Some(src) && source_matches(r.source, src)
    &&& Some(r.icon@) == str_field(j, "icon"@)
}

/// Decode one resource.
fn resource_from_value(v: &serde_json::Value) -> (r: Result<Resource, ErrorKind>)
    ensures
        resource_decodes(json_view(*v)) ==> (r matches Ok(res) && resource_matches(
            res,
            json_view(*v),
        )),
        !resource_decodes(json_view(*v)) ==> r == Err::<Resource, ErrorKind>(ErrorKind::Decode),
{
    let name = match get_str_field(v, "name") {
        Some(s) => s,
        None => {
            return Err(ErrorKind::Decode);
        },
    };
    let kind = match get_str_field(v, "type") {
        Some(s) => s,
        None => {
            return Err(ErrorKind::Decode);
        },
    };
    let source_value = match get_field(v, "source") {
        Some(f) => f,
        None => {
            return Err(ErrorKind::Decode);
        },
    };
    let branch = match get_str_field(source_value, "branch") {
        Some(s) => s,
        None => {
            return Err(ErrorKind::Decode);
        },
    };
    let uri = match get_str_field(source_value, "uri") {
        Some(s) => s,
        None => {
            return Err(ErrorKind::Decode);
        },
    };
    let icon = match get_str_field(v, "icon") {
        Some(s) => s,
        None => {
            return Err(ErrorKind::Decode);
        },
    };
    Ok(Resource { name, kind, source: Source { branch, uri }, icon })
}

/// The document `j` is a pipeline config: an array of resources and an
/// array of jobs.
pub open spec fn config_decodes(j: Json) -> bool {
    &&& obj_field(j, "resources"@) matches Some(Json::Arr(resources)) && (forall|i: int|
        0 <= i < resources.len() ==> resource_decodes(#[trigger] resources[i]))
    &&& obj_field(j, "jobs"@) matches Some(Json::Arr(jobs)) && (forall|i: int|
        0 <= i < jobs.len() ==> pipeline_job_decodes(#[trigger] jobs[i]))
}

/// `c` is the config that the document `j` describes.
pub open spec fn config_matches(c: Config, j: Json) -> bool {
    &&& obj_field(j, "resources"@) matches Some(Json::Arr(resources)) && c.resources@.len()
        == resources.len() && (forall|i: int|
        0 <= i < resources.len() ==> resource_matches(#[trigger] c.resources@[i], resources[i]))
    &&& obj_field(j, "jobs"@) matches Some(Json::Arr(jobs)) && c.jobs@.len() == jobs.len() && (
    forall|i: int| 0 <= i < jobs.len() ==> pipeline_job_matches(#[trigger] c.jobs@[i], jobs[i]))
}

/// Decode the config: both arrays, each element in order.
fn config_from_value(v: &serde_json::Value) -> (r: Result<Config, ErrorKind>)
    ensures
        config_decodes(json_view(*v)) ==> (r matches Ok(c) && config_matches(c, json_view(*v))),
        !config_decodes(json_view(*v)) ==> r == Err::<Config, ErrorKind>(ErrorKind::Decode),
{
    let resource_values = match get_array_field(v, "resources") {
        Some(a) => a,
        None => {
            return Err(ErrorKind::Decode);
        },
    };
    let ghost resources_model = obj_field(json_view(*v), "resources"@)->Some_0->Arr_0;
    let mut resources: Vec<Resource> = Vec::new();
    let mut i: usize = 0;
    while i < resource_values.len()
        invariant
            obj_field(json_view(*v), "resources"@) == Some(Json::Arr(resources_model)),
            resource_values@.len() == resources_model.len(),
            forall|k: int|
                0 <= k < resources_model.len() ==> json_view(#[trigger] resource_values@[k])
                    == resources_model[k],
            i <= resources_model.len(),
            resources@.len() == i,
            forall|k: int| 0 <= k < i ==> resource_decodes(#[trigger] resources_model[k]),
            forall|k: int|
                0 <= k < i ==> resource_matches(#[trigger] resources@[k], resources_model[k]),
        decreases resource_values@.len() - i,
    {
        proof {
            assert(json_view(resource_values@[i as int]) == resources_model[i as int]);
        }
        match resource_from_value(&resource_values[i]) {
            Ok(res) => {
                let ghost prev = resources@;
                resources.push(res);
                proof {
                    assert forall|k: int|
                        0 <= k < i + 1 implies resource_matches(
                        #[trigger] resources@[k],
                        resources_model[k],
                    ) by {
                        if k < i {
                            assert(resources@[k] == prev[k]);
                        }
                    }
                }
            },
            Err(e) => {
                proof {
                    assert(!resource_decodes(resources_model[i as int]));
                    if config_decodes(json_view(*v)) {
                        assert(obj_field(json_view(*v), "resources"@) matches Some(Json::Arr(rs))
                            && resource_decodes(rs[i as int]));
                        assert(false);
                    }
                }
                return Err(e);
            },
        }
        i += 1;
    }
    let job_values = match get_array_field(v, "jobs") {
        Some(a) => a,
        None => {
            return Err(ErrorKind::Decode);
        },
    };
    let ghost jobs_model = obj_field(json_view(*v), "jobs"@)->Some_0->Arr_0;
    let mut jobs: Vec<PipelineJob> = Vec::new();
    let mut k: usize = 0;
    while k < job_values.len()
        invariant
            obj_field(json_view(*v), "jobs"@) == Some(Json::Arr(jobs_model)),
            job_values@.len() == jobs_model.len(),
            forall|m: int|
                0 <= m < jobs_model.len() ==> json_view(#[trigger] job_values@[m])
                    == jobs_model[m],
            k <= jobs_model.len(),
            jobs@.len() == k,
            forall|m: int| 0 <= m < k ==> pipeline_job_decodes(#[trigger] jobs_model[m]),
            forall|m: int| 0 <= m < k ==> pipeline_job_matches(#[trigger] jobs@[m], jobs_model[m]),
        decreases job_values@.len() - k,
    {
        proof {
            assert(json_view(job_values@[k as int]) == jobs_model[k as int]);
        }
        match pipeline_job_from_value(&job_values[k]) {
            Ok(job) => {
                let ghost prev = jobs@;
                jobs.push(job);
                proof {
                    assert forall|m: int|
                        0 <= m < k + 1 implies pipeline_job_matches(
                        #[trigger] jobs@[m],
                        jobs_model[m],
                    ) by {
                        if m < k {
                            assert(jobs@[m] == prev[m]);
                        }
                    }
                }
            },
            Err(e) => {
                proof {
                    assert(!pipeline_job_decodes(jobs_model[k as int]));
                    if config_decodes(json_view(*v)) {
                        assert(obj_field(json_view(*v), "jobs"@) matches Some(Json::Arr(js))
                            && pipeline_job_decodes(js[k as int]));
                        assert(false);
                    }
                }
                return Err(e);
            },
        }
        k += 1;
    }
    Ok(Config { resources, jobs })
}

/// The text parses as a pipeline-configuration reply: an object whose
/// `config` field is a config.
pub open spec fn body_pipeline_configuration_decodes(body: Seq<char>) -> bool {
    json_parse(body) matches Some(j) && (obj_field(j, "config"@) matches Some(c)
        && config_decodes(c))
}

/// `p` is the pipeline configuration that the text describes.
pub open spec fn pipeline_configuration_matches(p: PipelineConfiguration, body: Seq<char>) -> bool {
    obj_field(json_parse(body)->Some_0, "config"@) matches Some(c) && config_matches(p.config, c)
}

/// Decode the configuration endpoint's reply text.
pub fn pipeline_configuration_from_json(s: &str) -> (r: Result<PipelineConfiguration, ErrorKind>)
    ensures
        body_pipeline_configuration_decodes(s@) ==> (r matches Ok(p)
            && pipeline_configuration_matches(p, s@)),
        !body_pipeline_configuration_decodes(s@) ==> r == Err::<PipelineConfiguration, ErrorKind>(
            ErrorKind::Decode,
        ),
{
    let v = match parse_json(s) {
        Some(v) => v,
        None => {
            return Err(ErrorKind::Decode);
        },
    };
    let config_value = match get_field(&v, "config") {
        Some(f) => f,
        None => {
            return Err(ErrorKind::Decode);
        },
    };
    match config_from_value(config_value) {
        Ok(config) => Ok(PipelineConfiguration { config }),
        Err(e) => Err(e),
    }
}

} // verus!
