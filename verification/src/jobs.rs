//! The engine's job handles and their decoding: the handle returned when a
//! build is triggered, the extended handle returned for the configuration
//! build, and the listing of a pipeline's jobs.

use vstd::prelude::*;
use crate::errors::ErrorKind;
use crate::json::{Json, json_parse, json_view, parse_json, get_str_field, get_u64_field,
    json_as_array, str_field, u64_field};

verus! {

/// A server-assigned job handle.
#[derive(Debug, Clone, PartialEq, Eq)]
pub struct PipelineConfigurationJob {
    pub id: u64,
    pub name: String,
    pub pipeline_id: u64,
    pub pipeline_name: String,
    pub team_name: String,
}

/// The extended handle the engine returns for a triggered configuration
/// build.
#[derive(Debug, Clone, PartialEq, Eq)]
pub struct PipelineConfigurationJobExtended {
    pub id: u64,
    pub name: String,
    pub pipeline_id: u64,
    pub pipeline_name: String,
    pub team_name: String,
    pub status: String,
    pub api_url: String,
    pub job_name: String,
    pub created_by: String,
}

/// The document `j` has all five handle fields, with the right shapes.
pub open spec fn job_decodes(j: Json) -> bool {
    &&& u64_field(j, "id"@) is Some
    &&& str_field(j, "name"@) is Some
    &&& u64_field(j, "pipeline_id"@) is Some
    &&& str_field(j, "pipeline_name"@) is Some
    &&& str_field(j, "team_name"@) is Some
}

/// `job` is the handle that the document `j` describes.
pub open spec fn job_matches(job: PipelineConfigurationJob, j: Json) -> bool {
    &&& Some(job.id) == u64_field(j, "id"@)
    &&& Some(job.name@) == str_field(j, "name"@)
    &&& Some(job.pipeline_id) == u64_field(j, "pipeline_id"@)
    &&& Some(job.pipeline_name@) == str_field(j, "pipeline_name"@)
    &&& Some(job.team_name@) == str_field(j, "team_name"@)
}

/// The document `j` has all nine extended fields, with the right shapes.
pub open spec fn extended_decodes(j: Json) -> bool {
    &&& job_decodes(j)
    &&& str_field(j, "status"@) is Some
    &&& str_field(j, "api_url"@) is Some
    &&& str_field(j, "job_name"@) is Some
    &&& str_field(j, "created_by"@) is Some
}

/// `job` is the extended handle that the document `j` describes.
pub open spec fn extended_matches(job: PipelineConfigurationJobExtended, j: Json) -> bool {
    &&& Some(job.id) == u64_field(j, "id"@)
    &&& Some(job.name@) == str_field(j, "name"@)
    &&& Some(job.pipeline_id) == u64_field(j, "pipeline_id"@)
    &&& Some(job.pipeline_name@) == str_field(j, "pipeline_name"@)
    &&& Some(job.team_name@) == str_field(j, "team_name"@)
    &&& Some(job.status@) == str_field(j, "status"@)
    &&& Some(job.api_url@) == str_field(j, "api_url"@)
    &&& Some(job.job_name@) == str_field(j, "job_name"@)
    &&& Some(job.created_by@) == str_field(j, "created_by"@)
}

/// The document `j` is an array whose every element is a job handle.
pub open spec fn jobs_list_decodes(j: Json) -> bool {
    j matches Json::Arr(elems) && forall|i: int|
        0 <= i < elems.len() ==> job_decodes(#[trigger] elems[i])
}

/// The text parses as a job-handle array.
pub open spec fn body_jobs_decode(body: Seq<char>) -> bool {
    json_parse(body) matches Some(j) && jobs_list_decodes(j)
}

/// The job names listed in the text, in document order, when it parses as
/// a job-handle array.
pub open spec fn body_job_names(body: Seq<char>) -> Seq<Seq<char>> {
    let elems = json_parse(body)->Some_0->Arr_0;
    Seq::new(elems.len(), |i: int| str_field(elems[i], "name"@)->Some_0)
}

/// The text parses as a single job handle.
pub open spec fn body_job_decodes(body: Seq<char>) -> bool {
    json_parse(body) matches Some(j) && job_decodes(j)
}

/// The text parses as an extended job handle.
pub open spec fn body_extended_decodes(body: Seq<char>) -> bool {
    json_parse(body) matches Some(j) && extended_decodes(j)
}

/// Decode one job handle from an already parsed document.
pub(crate) fn job_from_value(v: &serde_json::Value) -> (r: Result<
    PipelineConfigurationJob,
    ErrorKind,
>)
    ensures
        job_decodes(json_view(*v)) ==> (r matches Ok(job) && job_matches(job, json_view(*v))),
        !job_decodes(json_view(*v)) ==> r == Err::<PipelineConfigurationJob, ErrorKind>(
            ErrorKind::Decode,
        ),
{
    let id = match get_u64_field(v, "id") {
        Some(n) => n,
        None => {
            return Err(ErrorKind::Decode);
        },
    };
    let name = match get_str_field(v, "name") {
        Some(s) => s,
        None => {
            return Err(ErrorKind::Decode);
        },
    };
    let pipeline_id = match get_u64_field(v, "pipeline_id") {
        Some(n) => n,
        None => {
            return Err(ErrorKind::Decode);
        },
    };
    let pipeline_name = match get_str_field(v, "pipeline_name") {
        Some(s) => s,
        None => {
            return Err(ErrorKind::Decode);
        },
    };
    let team_name = match get_str_field(v, "team_name") {
        Some(s) => s,
        None => {
            return Err(ErrorKind::Decode);
        },
    };
    Ok(PipelineConfigurationJob { id, name, pipeline_id, pipeline_name, team_name })
}

/// Decode one job handle from a reply text.
pub fn job_from_json(s: &str) -> (r: Result<PipelineConfigurationJob, ErrorKind>)
    ensures
        body_job_decodes(s@) ==> (r matches Ok(job) && job_matches(job, json_parse(s@)->Some_0)),
        !body_job_decodes(s@) ==> r == Err::<PipelineConfigurationJob, ErrorKind>(
            ErrorKind::Decode,
        ),
{
    match parse_json(s) {
        Some(v) => job_from_value(&v),
        None => Err(ErrorKind::Decode),
    }
}

/// Decode an extended job handle from a reply text.
pub fn extended_from_json(s: &str) -> (r: Result<PipelineConfigurationJobExtended, ErrorKind>)
    ensures
        body_extended_decodes(s@) ==> (r matches Ok(job) && extended_matches(
            job,
            json_parse(s@)->Some_0,
        )),
        !body_extended_decodes(s@) ==> r == Err::<PipelineConfigurationJobExtended, ErrorKind>(
            ErrorKind::Decode,
        ),
{
    let v = match parse_json(s) {
        Some(v) => v,
        None => {
            return Err(ErrorKind::Decode);
        },
    };
    let id = match get_u64_field(&v, "id") {
        Some(n) => n,
        None => {
            return Err(ErrorKind::Decode);
        },
    };
    let name = match get_str_field(&v, "name") {
        Some(s) => s,
        None => {
            return Err(ErrorKind::Decode);
        },
    };
    let pipeline_id = match get_u64_field(&v, "pipeline_id") {
        Some(n) => n,
        None => {
            return Err(ErrorKind::Decode);
        },
    };
    let pipeline_name = match get_str_field(&v, "pipeline_name") {
        Some(s) => s,
        None => {
            return Err(ErrorKind::Decode);
        },
    };
    let team_name = match get_str_field(&v, "team_name") {
        Some(s) => s,
        None => {
            return Err(ErrorKind::Decode);
        },
    };
    let status = match get_str_field(&v, "status") {
        Some(s) => s,
        None => {
            return Err(ErrorKind::Decode);
        },
    };
    let api_url = match get_str_field(&v, "api_url") {
        Some(s) => s,
        None => {
            return Err(ErrorKind::Decode);
        },
    };
    let job_name = match get_str_field(&v, "job_name") {
        Some(s) => s,
        None => {
            return Err(ErrorKind::Decode);
        },
    };
    let created_by = match get_str_field(&v, "created_by") {
        Some(s) => s,
        None => {
            return Err(ErrorKind::Decode);
        },
    };
    Ok(
        PipelineConfigurationJobExtended {
            id,
            name,
            pipeline_id,
            pipeline_name,
            team_name,
            status,
            api_url,
            job_name,
            created_by,
        },
    )
}

/// Decode a job-handle array from a reply text.
pub fn jobs_from_json(s: &str) -> (r: Result<Vec<PipelineConfigurationJob>, ErrorKind>)
    ensures
        body_jobs_decode(s@) ==> (r matches Ok(jobs) && jobs@.len() == body_job_names(s@).len()
            && (forall|i: int|
            0 <= i < jobs@.len() ==> job_matches(
                #[trigger] jobs@[i],
                json_parse(s@)->Some_0->Arr_0[i],
            )) && (forall|i: int|
            0 <= i < jobs@.len() ==> #[trigger] jobs@[i].name@ == body_job_names(s@)[i])),
        !body_jobs_decode(s@) ==> r == Err::<Vec<PipelineConfigurationJob>, ErrorKind>(
            ErrorKind::Decode,
        ),
{
    let v = match parse_json(s) {
        Some(v) => v,
        None => {
            return Err(ErrorKind::Decode);
        },
    };
    let elems = match json_as_array(&v) {
        Some(a) => a,
        None => {
            return Err(ErrorKind::Decode);
        },
    };
    let ghost doc = json_view(v);
    let ghost model = json_view(v)->Arr_0;
    let mut jobs: Vec<PipelineConfigurationJob> = Vec::new();
    let mut i: usize = 0;
    while i < elems.len()
        invariant
            json_parse(s@) == Some(doc),
            doc == Json::Arr(model),
            elems@.len() == model.len(),
            forall|k: int| 0 <= k < model.len() ==> json_view(#[trigger] elems@[k]) == model[k],
            i <= model.len(),
            jobs@.len() == i,
            forall|k: int| 0 <= k < i ==> job_decodes(#[trigger] model[k]),
            forall|k: int| 0 <= k < i ==> job_matches(#[trigger] jobs@[k], model[k]),
        decreases elems@.len() - i,
    {
        proof {
            assert(json_view(elems@[i as int]) == model[i as int]);
        }
        match job_from_value(&elems[i]) {
            Ok(job) => {
                proof {
                    assert(job_decodes(model[i as int]) && job_matches(job, model[i as int]));
                }
                let ghost prev = jobs@;
                jobs.push(job);
                proof {
                    assert forall|k: int|
                        0 <= k < i + 1 implies job_matches(#[trigger] jobs@[k], model[k]) by {
                        if k < i {
                            assert(jobs@[k] == prev[k]);
                        } else {
                            assert(jobs@[k] == job);
                        }
                    }
                }
            },
            Err(e) => {
                proof {
                    assert(!job_decodes(model[i as int]));
                    if body_jobs_decode(s@) {
                        assert(jobs_list_decodes(doc));
                        assert(doc matches Json::Arr(elems2) && job_decodes(elems2[i as int]));
                        assert(false);
                    }
                }
                return Err(e);
            },
        }
        i += 1;
    }
    proof {
        assert(jobs_list_decodes(doc));
        assert(body_jobs_decode(s@));
    }
    Ok(jobs)
}

/// The names of a list of job handles, in order.
pub fn job_names(jobs: &Vec<PipelineConfigurationJob>) -> (r: Vec<String>)
    ensures
        r@.len() == jobs@.len(),
        forall|i: int| 0 <= i < jobs@.len() ==> #[trigger] r@[i]@ == jobs@[i].name@,
{
    let mut out: Vec<String> = Vec::new();
    let mut i: usize = 0;
    while i < jobs.len()
        invariant
            i <= jobs@.len(),
            out@.len() == i,
            forall|k: int| 0 <= k < i ==> #[trigger] out@[k]@ == jobs@[k].name@,
        decreases jobs@.len() - i,
    {
        out.push(jobs[i].name.clone());
        i += 1;
    }
    out
}

} // verus!
