//! End-to-end scenarios: the event filter ignoring non-patch refs, the job
//! built for a created patch, a full setup conversation with the engine, a
//! mid-setup engine failure, the run half fanning out over the listed
//! jobs, and a worker surviving a failed job.

use std::cell::RefCell;
use std::rc::Rc;

use ci_broker::api::ConcourseAPI;
use ci_broker::ci::{CI, CIJob};
use ci_broker::driver::{JobAction, JobPhase, JobSession, StepOutcome};
use ci_broker::errors::ErrorKind;
use ci_broker::http::{HttpResponse, Method};
use ci_broker::ingest::{job_for_patch, patch_ids_of_event, NodeEvent, RefUpdate};
use ci_broker::worker::{QueueEvent, Worker};

fn sample_job() -> CIJob {
    job_for_patch("R1", "abc123", "deadbeef").unwrap()
}

fn ok(body: &str) -> StepOutcome {
    StepOutcome::Responded(HttpResponse { status: 200, body: body.to_string() })
}

const TOKEN_BODY: &str = r#"{
    "access_token": "tok123",
    "expires_in": 3600,
    "id_token": "id",
    "token_type": "bearer"
}"#;

const EXTENDED_BODY: &str = r#"{
    "id": 1,
    "name": "configure-pipeline",
    "pipeline_id": 2,
    "pipeline_name": "R1-configure",
    "team_name": "main",
    "status": "started",
    "api_url": "/api/v1/builds/1",
    "job_name": "configure-pipeline",
    "created_by": "user"
}"#;

const JOB_BODY: &str = r#"{
    "id": 10,
    "name": "build",
    "pipeline_id": 3,
    "pipeline_name": "R1",
    "team_name": "main"
}"#;

const JOBS_BODY: &str = r#"[
    { "id": 10, "name": "build", "pipeline_id": 3, "pipeline_name": "R1", "team_name": "main" },
    { "id": 11, "name": "test", "pipeline_id": 3, "pipeline_name": "R1", "team_name": "main" }
]"#;

fn send_request(action: JobAction) -> ci_broker::http::HttpRequest {
    match action {
        JobAction::Send(req) => req,
        other => panic!("expected a request to send, got {:?}", other),
    }
}

fn poll_request(action: JobAction) -> ci_broker::http::HttpRequest {
    match action {
        JobAction::Poll(req) => req,
        other => panic!("expected a poll request, got {:?}", other),
    }
}

/// Walk a fresh session through its setup half against a stubbed engine
/// that answers 200 to everything, checking each request on the way, and
/// hand back the session and client poised at the first run step.
fn run_setup() -> (JobSession, ConcourseAPI) {
    let mut api = ConcourseAPI::new(
        "http://localhost:8080".to_string(),
        "user".to_string(),
        "pass".to_string(),
    );
    let job = sample_job();
    let mut session = JobSession::start(job, &api);

    let req = send_request(session.current_action(&api));
    assert_eq!(req.method, Method::Post);
    assert_eq!(req.url, "http://localhost:8080/sky/issuer/token");
    assert_eq!(
        req.headers[0],
        ("Authorization".to_string(), "Basic Zmx5OlpteDU=".to_string())
    );
    assert_eq!(
        req.body,
        "grant_type=password&username=user&password=pass&scope=openid%20profile%20email%20federated:id%20groups"
    );
    session = session.advance(&mut api, ok(TOKEN_BODY));
    assert!(matches!(session.phase, JobPhase::CreatePipeline));

    let req = send_request(session.current_action(&api));
    assert_eq!(req.method, Method::Put);
    assert_eq!(
        req.url,
        "http://localhost:8080/api/v1/teams/main/pipelines/R1-configure/config"
    );
    assert_eq!(
        req.headers[0],
        ("Authorization".to_string(), "Bearer tok123".to_string())
    );
    assert_eq!(
        req.headers[1],
        ("Content-Type".to_string(), "application/x-yaml".to_string())
    );
    assert_eq!(
        req.headers[2],
        ("X-Concourse-Config-Version".to_string(), "1".to_string())
    );
    let expected_yaml = "jobs:\n- name: configure-pipeline\n  plan:\n  - get: R1\n    version: deadbeef\n    trigger: false\n  - set_pipeline: R1\n    file: R1/.concourse/config.yaml\nresources:\n- name: R1\n  type: git\n  icon: git\n  source:\n    uri: https://seed.radicle.xyz/R1.git\n    branch: abc123\n";
    assert_eq!(req.body, expected_yaml);
    session = session.advance(&mut api, ok(""));
    assert!(matches!(session.phase, JobPhase::Unpause));

    let req = send_request(session.current_action(&api));
    assert_eq!(req.method, Method::Put);
    assert_eq!(
        req.url,
        "http://localhost:8080/api/v1/teams/main/pipelines/R1-configure/unpause"
    );
    assert_eq!(
        req.headers[0],
        ("Authorization".to_string(), "Bearer tok123".to_string())
    );
    (session, api)
}

#[test]
fn non_patch_ref_is_ignored() {
    let event = NodeEvent::RefsFetched {
        rid: "R1".to_string(),
        updated: vec![RefUpdate::Updated { name: "refs/heads/main".to_string() }],
    };
    let ids = patch_ids_of_event(&event);
    assert!(ids.is_empty());
}

#[test]
fn patch_created_yields_exactly_one_job() {
    let event = NodeEvent::RefsFetched {
        rid: "R1".to_string(),
        updated: vec![RefUpdate::Created { name: "xyz.radicle.patch/abc123".to_string() }],
    };
    let ids = patch_ids_of_event(&event);
    assert_eq!(ids, vec!["abc123".to_string()]);

    let job = job_for_patch("R1", &ids[0], "deadbeef").unwrap();
    assert_eq!(job.project_name, "R1");
    assert_eq!(job.patch_branch, "abc123");
    assert_eq!(job.patch_head, "deadbeef");
    assert_eq!(job.project_id, "R1");
    assert_eq!(job.git_uri, "https://seed.radicle.xyz/R1.git");
}

#[test]
fn successful_setup_issues_token_config_unpause() {
    let (mut session, mut api) = run_setup();
    session = session.advance(&mut api, ok(""));
    assert!(matches!(session.phase, JobPhase::TriggerConfiguration));
}

#[test]
fn engine_500_on_unpause_freezes_the_session_with_the_body() {
    let (mut session, mut api) = run_setup();
    session = session.advance(
        &mut api,
        StepOutcome::Responded(HttpResponse { status: 500, body: "boom".to_string() }),
    );
    match &session.phase {
        JobPhase::Failed(ErrorKind::RemoteError(body)) => assert_eq!(body, "boom"),
        other => panic!("expected a remote error, got {:?}", other),
    }
    // neither the configuration trigger nor any job trigger is requested
    match session.current_action(&api) {
        JobAction::Finished(Err(ErrorKind::RemoteError(body))) => assert_eq!(body, "boom"),
        other => panic!("expected the session to be over, got {:?}", other),
    }
    // and no outcome revives it
    session = session.advance(&mut api, ok(JOBS_BODY));
    assert!(matches!(
        session.phase,
        JobPhase::Failed(ErrorKind::RemoteError(_))
    ));
}

#[test]
fn run_fans_out_over_the_listed_jobs() {
    let (mut session, mut api) = run_setup();
    session = session.advance(&mut api, ok(""));

    let req = send_request(session.current_action(&api));
    assert_eq!(req.method, Method::Post);
    assert_eq!(
        req.url,
        "http://localhost:8080/api/v1/teams/main/pipelines/R1-configure/jobs/configure-pipeline/builds"
    );
    session = session.advance(&mut api, ok(EXTENDED_BODY));
    assert!(matches!(session.phase, JobPhase::AwaitJobs { .. }));

    let req = poll_request(session.current_action(&api));
    assert_eq!(req.method, Method::Get);
    assert_eq!(
        req.url,
        "http://localhost:8080/api/v1/teams/main/pipelines/R1/jobs"
    );
    session = session.advance(&mut api, ok(JOBS_BODY));
    assert!(matches!(session.phase, JobPhase::TriggerJob { .. }));

    let req = send_request(session.current_action(&api));
    assert_eq!(req.method, Method::Post);
    assert_eq!(
        req.url,
        "http://localhost:8080/api/v1/teams/main/pipelines/R1/jobs/build/builds"
    );
    session = session.advance(&mut api, ok(JOB_BODY));

    let req = send_request(session.current_action(&api));
    assert_eq!(
        req.url,
        "http://localhost:8080/api/v1/teams/main/pipelines/R1/jobs/test/builds"
    );
    session = session.advance(&mut api, ok(JOB_BODY));
    assert!(matches!(session.phase, JobPhase::Done));
    assert!(matches!(
        session.current_action(&api),
        JobAction::Finished(Ok(()))
    ));
}

#[test]
fn empty_job_list_polls_again() {
    let (mut session, mut api) = run_setup();
    session = session.advance(&mut api, ok(""));
    session = session.advance(&mut api, ok(EXTENDED_BODY));
    let polls_before = match &session.phase {
        JobPhase::AwaitJobs { polls_left } => *polls_left,
        other => panic!("expected the poll phase, got {:?}", other),
    };
    session = session.advance(&mut api, ok("[]"));
    match &session.phase {
        JobPhase::AwaitJobs { polls_left } => assert_eq!(*polls_left, polls_before - 1),
        other => panic!("expected the poll phase again, got {:?}", other),
    }
}

#[test]
fn a_transport_failure_freezes_the_session() {
    let (mut session, mut api) = run_setup();
    session = session.advance(&mut api, StepOutcome::TransportFailed);
    assert!(matches!(session.phase, JobPhase::Failed(ErrorKind::Transport)));
}

#[test]
fn exhausted_poll_budget_times_out() {
    let api = ConcourseAPI::new("u".to_string(), "a".to_string(), "b".to_string());
    let mut api = api;
    let mut session = JobSession { job: sample_job(), phase: JobPhase::AwaitJobs { polls_left: 0 } };
    session = session.advance(&mut api, ok("[]"));
    assert!(matches!(session.phase, JobPhase::Failed(ErrorKind::Timeout)));
}

#[derive(Clone)]
struct StubCI {
    fail_first_setup: bool,
    setups_seen: Rc<RefCell<u32>>,
    log: Rc<RefCell<Vec<String>>>,
}

impl StubCI {
    fn new(fail_first_setup: bool) -> StubCI {
        StubCI {
            fail_first_setup,
            setups_seen: Rc::new(RefCell::new(0)),
            log: Rc::new(RefCell::new(Vec::new())),
        }
    }
}

impl CI for StubCI {
    fn setup(&mut self, job: CIJob) -> Result<(), ErrorKind> {
        let mut n = self.setups_seen.borrow_mut();
        *n += 1;
        self.log.borrow_mut().push(format!("setup {}", job.patch_branch));
        if self.fail_first_setup && *n == 1 {
            Err(ErrorKind::Transport)
        } else {
            Ok(())
        }
    }

    fn run_pipeline(&self, project_id: &String) -> Result<(), ErrorKind> {
        self.log.borrow_mut().push(format!("run {}", project_id));
        Ok(())
    }
}

#[test]
fn worker_survives_a_failed_job() {
    let stub = StubCI::new(true);
    let log = stub.log.clone();
    let mut worker = Worker::new(0, stub);

    let job1 = job_for_patch("R1", "patch1", "aa11").unwrap();
    let job2 = job_for_patch("R1", "patch2", "bb22").unwrap();

    assert!(worker.handle(QueueEvent::Job(job1)));
    assert!(worker.handle(QueueEvent::Job(job2)));
    assert!(!worker.handle(QueueEvent::Closed));

    // the first job fails in setup and is never run; the second is
    // processed normally, setup before run
    assert_eq!(
        *log.borrow(),
        vec![
            "setup patch1".to_string(),
            "setup patch2".to_string(),
            "run R1".to_string(),
        ]
    );
}
