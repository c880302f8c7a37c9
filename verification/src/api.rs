//! The CI engine client state and the exact requests the driver sends: the
//! password-grant token request, the pipeline-configuration upsert with its
//! templated YAML, unpause, trigger, job listing and job trigger. Every
//! authenticated request carries `Authorization: Bearer <token>` when a
//! token is held, and is refused with `NoToken` when none is.

use vstd::prelude::*;
use crate::ci::CIJob;
use crate::errors::ErrorKind;
use crate::http::{HttpRequest, Method};
use crate::json::json_parse;
use crate::token::{Token, token_decodes, token_matches, token_from_json};

verus! {

/// The view of a header list: each name and value as text.
pub open spec fn header_views(headers: Seq<(String, String)>) -> Seq<(Seq<char>, Seq<char>)> {
    headers.map_values(|h: (String, String)| (h.0@, h.1@))
}

/// The value of the bearer authorization header for a given access token.
pub open spec fn bearer_value(tok: Seq<char>) -> Seq<char> {
    "Bearer "@ + tok
}

/// The token endpoint.
pub open spec fn token_url(base: Seq<char>) -> Seq<char> {
    base + "/sky/issuer/token"@
}

/// The configuration-pipeline upsert endpoint for a project.
pub open spec fn config_url(base: Seq<char>, pid: Seq<char>) -> Seq<char> {
    base + "/api/v1/teams/main/pipelines/"@ + pid + "-configure/config"@
}

/// The configuration-pipeline unpause endpoint for a project.
pub open spec fn unpause_url(base: Seq<char>, pid: Seq<char>) -> Seq<char> {
    base + "/api/v1/teams/main/pipelines/"@ + pid + "-configure/unpause"@
}

/// The endpoint that triggers the configuration build for a project.
pub open spec fn trigger_configuration_url(base: Seq<char>, pid: Seq<char>) -> Seq<char> {
    base + "/api/v1/teams/main/pipelines/"@ + pid + "-configure/jobs/configure-pipeline/builds"@
}

/// The endpoint that lists the downstream pipeline's jobs.
pub open spec fn jobs_url(base: Seq<char>, pid: Seq<char>) -> Seq<char> {
    base + "/api/v1/teams/main/pipelines/"@ + pid + "/jobs"@
}

/// The endpoint that triggers one downstream job.
pub open spec fn job_builds_url(base: Seq<char>, pid: Seq<char>, job: Seq<char>) -> Seq<char> {
    base + "/api/v1/teams/main/pipelines/"@ + pid + "/jobs/"@ + job + "/builds"@
}

/// The password-grant form body, with the fixed scope list.
pub open spec fn token_request_body(user: Seq<char>, pass: Seq<char>) -> Seq<char> {
    "grant_type=password&username="@ + user + "&password="@ + pass
        + "&scope=openid%20profile%20email%20federated:id%20groups"@
}

/// The configuration-pipeline YAML, templated from the job: one
/// `configure-pipeline` job that pulls the patch branch pinned to its head
/// commit and installs the repository's in-tree pipeline, and one git
/// resource pointing at the job's fetch URL.
pub open spec fn pipeline_yaml(job: CIJob) -> Seq<char> {
    "jobs:\n- name: configure-pipeline\n  plan:\n  - get: "@ + job.project_name@
        + "\n    version: "@ + job.patch_head@ + "\n    trigger: false\n  - set_pipeline: "@
        + job.project_id@ + "\n    file: "@ + job.project_name@
        + "/.concourse/config.yaml\nresources:\n- name: "@ + job.project_name@
        + "\n  type: git\n  icon: git\n  source:\n    uri: "@ + job.git_uri@
        + "\n    branch: "@ + job.patch_branch@ + "\n"@
}

/// The exact password-grant token request for a client's configuration.
pub open spec fn is_token_request(req: HttpRequest, api: ConcourseAPI) -> bool {
    &&& req.method is Post
    &&& req.url@ == token_url(api.concourse_uri@)
    &&& header_views(req.headers@) == seq![
        ("Authorization"@, "Basic Zmx5OlpteDU="@),
        ("Content-Type"@, "application/x-www-form-urlencoded"@),
    ]
    &&& req.body@ == token_request_body(api.ci_user@, api.ci_pass@)
}

/// The exact configuration-pipeline upsert request for a job, under the
/// client's held token.
pub open spec fn is_create_pipeline_request(req: HttpRequest, api: ConcourseAPI, job: CIJob) -> bool {
    &&& req.method is Put
    &&& req.url@ == config_url(api.concourse_uri@, job.project_id@)
    &&& header_views(req.headers@) == seq![
        ("Authorization"@, bearer_value(api.spec_access_token())),
        ("Content-Type"@, "application/x-yaml"@),
        ("X-Concourse-Config-Version"@, "1"@),
    ]
    &&& req.body@ == pipeline_yaml(job)
}

/// A bare authenticated request: the bearer header alone, an empty body.
pub open spec fn is_bare_authenticated(req: HttpRequest, api: ConcourseAPI) -> bool {
    &&& header_views(req.headers@) == seq![("Authorization"@, bearer_value(api.spec_access_token()))]
    &&& req.body@.len() == 0
}

/// The exact unpause request for a project.
pub open spec fn is_unpause_request(req: HttpRequest, api: ConcourseAPI, pid: Seq<char>) -> bool {
    &&& req.method is Put
    &&& req.url@ == unpause_url(api.concourse_uri@, pid)
    &&& is_bare_authenticated(req, api)
}

/// The exact pipeline-description GET for a project.
pub open spec fn is_get_pipeline_request(req: HttpRequest, api: ConcourseAPI, pid: Seq<char>) -> bool {
    &&& req.method is Get
    &&& req.url@ == config_url(api.concourse_uri@, pid)
    &&& is_bare_authenticated(req, api)
}

/// The exact configuration-build trigger request for a project.
pub open spec fn is_trigger_configuration_request(
    req: HttpRequest,
    api: ConcourseAPI,
    pid: Seq<char>,
) -> bool {
    &&& req.method is Post
    &&& req.url@ == trigger_configuration_url(api.concourse_uri@, pid)
    &&& is_bare_authenticated(req, api)
}

/// The exact job-listing request for a project.
pub open spec fn is_jobs_request(req: HttpRequest, api: ConcourseAPI, pid: Seq<char>) -> bool {
    &&& req.method is Get
    &&& req.url@ == jobs_url(api.concourse_uri@, pid)
    &&& is_bare_authenticated(req, api)
}

/// The exact downstream-job trigger request.
pub open spec fn is_trigger_job_request(
    req: HttpRequest,
    api: ConcourseAPI,
    pid: Seq<char>,
    job_name: Seq<char>,
) -> bool {
    &&& req.method is Post
    &&& req.url@ == job_builds_url(api.concourse_uri@, pid, job_name)
    &&& is_bare_authenticated(req, api)
}

/// A request of the setup half of a session: token, upsert or unpause.
pub open spec fn is_setup_request(req: HttpRequest, api: ConcourseAPI, job: CIJob) -> bool {
    ||| is_token_request(req, api)
    ||| is_create_pipeline_request(req, api, job)
    ||| is_unpause_request(req, api, job.project_id@)
}

/// A request of the run half of a session: trigger, list, or fan-out.
pub open spec fn is_run_request(req: HttpRequest, api: ConcourseAPI, job: CIJob) -> bool {
    ||| is_trigger_configuration_request(req, api, job.project_id@)
    ||| is_jobs_request(req, api, job.project_id@)
    ||| exists|name: Seq<char>| is_trigger_job_request(req, api, job.project_id@, name)
}

/// Client state for the CI engine: base URL, the password-grant
/// credentials, and the cached token. Cloning gives an independent client
/// with its own token cache.
#[derive(Debug, Clone)]
pub struct ConcourseAPI {
    pub concourse_uri: String,
    pub ci_user: String,
    pub ci_pass: String,
    pub token: Option<Token>,
}

/// The bearer authorization header for a token.
fn auth_header(token: &Token) -> (h: (String, String))
    ensures
        h.0@ == "Authorization"@,
        h.1@ == bearer_value(token.access_token@),
{
    let mut v = String::new();
    v.append("Bearer ");
    v.append(token.access_token.as_str());
    (String::from_str("Authorization"), v)
}

impl ConcourseAPI {
    /// Is a token currently held?
    pub open spec fn has_token(&self) -> bool {
        self.token is Some
    }

    /// The access token held, when one is.
    pub open spec fn spec_access_token(&self) -> Seq<char> {
        self.token->Some_0.access_token@
    }

    /// The client's configuration is untouched: only the token cache may
    /// differ from `other`.
    pub open spec fn same_config(&self, other: &ConcourseAPI) -> bool {
        &&& self.concourse_uri == other.concourse_uri
        &&& self.ci_user == other.ci_user
        &&& self.ci_pass == other.ci_pass
    }

    /// A fresh client: no token held yet.
    pub fn new(concourse_uri: String, ci_user: String, ci_pass: String) -> (r: ConcourseAPI)
        ensures
            r.concourse_uri == concourse_uri,
            r.ci_user == ci_user,
            r.ci_pass == ci_pass,
            !r.has_token(),
    {
        ConcourseAPI { concourse_uri, ci_user, ci_pass, token: None }
    }

    /// The password-grant token request: fixed client credentials in basic
    /// auth, the user's credentials and the fixed scope list in the form
    /// body.
    pub fn token_request(&self) -> (r: HttpRequest)
        ensures
            is_token_request(r, *self),
    {
        let mut url = String::new();
        url.append(self.concourse_uri.as_str());
        url.append("/sky/issuer/token");
        let mut body = String::new();
        body.append("grant_type=password&username=");
        body.append(self.ci_user.as_str());
        body.append("&password=");
        body.append(self.ci_pass.as_str());
        body.append("&scope=openid%20profile%20email%20federated:id%20groups");
        let headers: Vec<(String, String)> = vec![
            (String::from_str("Authorization"), String::from_str("Basic Zmx5OlpteDU=")),
            (String::from_str("Content-Type"), String::from_str(
                "application/x-www-form-urlencoded",
            )),
        ];
        proof {
            assert(url@ =~= token_url(self.concourse_uri@));
            assert(body@ =~= token_request_body(self.ci_user@, self.ci_pass@));
            assert(header_views(headers@) =~~= seq![
                ("Authorization"@, "Basic Zmx5OlpteDU="@),
                ("Content-Type"@, "application/x-www-form-urlencoded"@),
            ]);
        }
        HttpRequest { method: Method::Post, url, headers, body }
    }

    /// Decode the token endpoint's reply and cache the token. On a decode
    /// failure the cache is left as it was.
    pub fn accept_token(&mut self, body: &str) -> (r: Result<Token, ErrorKind>)
        ensures
            final(self).same_config(old(self)),
            match json_parse(body@) {
                Some(j) => {
                    if token_decodes(j) {
                        &&& r matches Ok(t) && token_matches(t, j)
                        &&& final(self).token matches Some(t2) && r matches Ok(t) && t2 == t
                    } else {
                        r == Err::<Token, ErrorKind>(ErrorKind::Decode) && final(self).token
                            == old(self).token
                    }
                },
                None => r == Err::<Token, ErrorKind>(ErrorKind::Decode) && final(self).token
                    == old(self).token,
            },
    {
        match token_from_json(body) {
            Ok(token) => {
                self.token = Some(token.clone());
                Ok(token)
            },
            Err(e) => Err(e),
        }
    }

    /// The configuration-pipeline upsert: a PUT of the templated YAML,
    /// versioned, as YAML content.
    pub fn create_pipeline_request(&self, job: &CIJob) -> (r: Result<HttpRequest, ErrorKind>)
        ensures
            match self.token {
                Some(t) => r matches Ok(req) && is_create_pipeline_request(req, *self, *job),
                None => r == Err::<HttpRequest, ErrorKind>(ErrorKind::NoToken),
            },
    {
        let token = match &self.token {
            Some(t) => t,
            None => {
                return Err(ErrorKind::NoToken);
            },
        };
        let mut url = String::new();
        url.append(self.concourse_uri.as_str());
        url.append("/api/v1/teams/main/pipelines/");
        url.append(job.project_id.as_str());
        url.append("-configure/config");
        let mut body = String::new();
        body.append("jobs:\n- name: configure-pipeline\n  plan:\n  - get: ");
        body.append(job.project_name.as_str());
        body.append("\n    version: ");
        body.append(job.patch_head.as_str());
        body.append("\n    trigger: false\n  - set_pipeline: ");
        body.append(job.project_id.as_str());
        body.append("\n    file: ");
        body.append(job.project_name.as_str());
        body.append("/.concourse/config.yaml\nresources:\n- name: ");
        body.append(job.project_name.as_str());
        body.append("\n  type: git\n  icon: git\n  source:\n    uri: ");
        body.append(job.git_uri.as_str());
        body.append("\n    branch: ");
        body.append(job.patch_branch.as_str());
        body.append("\n");
        let headers: Vec<(String, String)> = vec![
            auth_header(token),
            (String::from_str("Content-Type"), String::from_str("application/x-yaml")),
            (String::from_str("X-Concourse-Config-Version"), String::from_str("1")),
        ];
        proof {
            assert(url@ =~= config_url(self.concourse_uri@, job.project_id@));
            assert(body@ =~= pipeline_yaml(*job));
            assert(header_views(headers@) =~~= seq![
                ("Authorization"@, bearer_value(self.spec_access_token())),
                ("Content-Type"@, "application/x-yaml"@),
                ("X-Concourse-Config-Version"@, "1"@),
            ]);
        }
        Ok(HttpRequest { method: Method::Put, url, headers, body })
    }

    /// The configuration-pipeline activation: a bare authenticated PUT.
    pub fn unpause_pipeline_request(&self, project_id: &String) -> (r: Result<
        HttpRequest,
        ErrorKind,
    >)
        ensures
            match self.token {
                Some(t) => r matches Ok(req) && is_unpause_request(req, *self, project_id@),
                None => r == Err::<HttpRequest, ErrorKind>(ErrorKind::NoToken),
            },
    {
        let token = match &self.token {
            Some(t) => t,
            None => {
                return Err(ErrorKind::NoToken);
            },
        };
        let mut url = String::new();
        url.append(self.concourse_uri.as_str());
        url.append("/api/v1/teams/main/pipelines/");
        url.append(project_id.as_str());
        url.append("-configure/unpause");
        let headers: Vec<(String, String)> = vec![auth_header(token)];
        proof {
            assert(url@ =~= unpause_url(self.concourse_uri@, project_id@));
            assert(header_views(headers@) =~~= seq![
                ("Authorization"@, bearer_value(self.spec_access_token())),
            ]);
        }
        Ok(HttpRequest { method: Method::Put, url, headers, body: String::new() })
    }

    /// The configured pipeline's current description: a bare authenticated
    /// GET of the configuration endpoint.
    pub fn get_pipeline_request(&self, project_id: &String) -> (r: Result<HttpRequest, ErrorKind>)
        ensures
            match self.token {
                Some(t) => r matches Ok(req) && is_get_pipeline_request(req, *self, project_id@),
                None => r == Err::<HttpRequest, ErrorKind>(ErrorKind::NoToken),
            },
    {
        let token = match &self.token {
            Some(t) => t,
            None => {
                return Err(ErrorKind::NoToken);
            },
        };
        let mut url = String::new();
        url.append(self.concourse_uri.as_str());
        url.append("/api/v1/teams/main/pipelines/");
        url.append(project_id.as_str());
        url.append("-configure/config");
        let headers: Vec<(String, String)> = vec![auth_header(token)];
        proof {
            assert(url@ =~= config_url(self.concourse_uri@, project_id@));
            assert(header_views(headers@) =~~= seq![
                ("Authorization"@, bearer_value(self.spec_access_token())),
            ]);
        }
        Ok(HttpRequest { method: Method::Get, url, headers, body: String::new() })
    }

    /// Trigger the configuration build: a bare authenticated POST.
    pub fn trigger_pipeline_configuration_request(&self, project_id: &String) -> (r: Result<
        HttpRequest,
        ErrorKind,
    >)
        ensures
            match self.token {
                Some(t) => r matches Ok(req) && is_trigger_configuration_request(
                    req,
                    *self,
                    project_id@,
                ),
                None => r == Err::<HttpRequest, ErrorKind>(ErrorKind::NoToken),
            },
    {
        let token = match &self.token {
            Some(t) => t,
            None => {
                return Err(ErrorKind::NoToken);
            },
        };
        let mut url = String::new();
        url.append(self.concourse_uri.as_str());
        url.append("/api/v1/teams/main/pipelines/");
        url.append(project_id.as_str());
        url.append("-configure/jobs/configure-pipeline/builds");
        let headers: Vec<(String, String)> = vec![auth_header(token)];
        proof {
            assert(url@ =~= trigger_configuration_url(self.concourse_uri@, project_id@));
            assert(header_views(headers@) =~~= seq![
                ("Authorization"@, bearer_value(self.spec_access_token())),
            ]);
        }
        Ok(HttpRequest { method: Method::Post, url, headers, body: String::new() })
    }

    /// List the downstream pipeline's jobs: a bare authenticated GET.
    pub fn get_pipeline_jobs_request(&self, project_id: &String) -> (r: Result<
        HttpRequest,
        ErrorKind,
    >)
        ensures
            match self.token {
                Some(t) => r matches Ok(req) && is_jobs_request(req, *self, project_id@),
                None => r == Err::<HttpRequest, ErrorKind>(ErrorKind::NoToken),
            },
    {
        let token = match &self.token {
            Some(t) => t,
            None => {
                return Err(ErrorKind::NoToken);
            },
        };
        let mut url = String::new();
        url.append(self.concourse_uri.as_str());
        url.append("/api/v1/teams/main/pipelines/");
        url.append(project_id.as_str());
        url.append("/jobs");
        let headers: Vec<(String, String)> = vec![auth_header(token)];
        proof {
            assert(url@ =~= jobs_url(self.concourse_uri@, project_id@));
            assert(header_views(headers@) =~~= seq![
                ("Authorization"@, bearer_value(self.spec_access_token())),
            ]);
        }
        Ok(HttpRequest { method: Method::Get, url, headers, body: String::new() })
    }

    /// Trigger one downstream job by name: a bare authenticated POST.
    pub fn trigger_job_request(&self, project_id: &String, job_name: &String) -> (r: Result<
        HttpRequest,
        ErrorKind,
    >)
        ensures
            match self.token {
                Some(t) => r matches Ok(req) && is_trigger_job_request(
                    req,
                    *self,
                    project_id@,
                    job_name@,
                ),
                None => r == Err::<HttpRequest, ErrorKind>(ErrorKind::NoToken),
            },
    {
        let token = match &self.token {
            Some(t) => t,
            None => {
                return Err(ErrorKind::NoToken);
            },
        };
        let mut url = String::new();
        url.append(self.concourse_uri.as_str());
        url.append("/api/v1/teams/main/pipelines/");
        url.append(project_id.as_str());
        url.append("/jobs/");
        url.append(job_name.as_str());
        url.append("/builds");
        let headers: Vec<(String, String)> = vec![auth_header(token)];
        proof {
            assert(url@ =~= job_builds_url(self.concourse_uri@, project_id@, job_name@));
            assert(header_views(headers@) =~~= seq![
                ("Authorization"@, bearer_value(self.spec_access_token())),
            ]);
        }
        Ok(HttpRequest { method: Method::Post, url, headers, body: String::new() })
    }
}

} // verus!
