//! The per-job session: a state machine that walks one job through the
//! engine — acquire a token if none is held, upsert the configuration
//! pipeline, unpause it, trigger the configuration build, poll for the
//! downstream pipeline's jobs, and trigger each of them in list order.
//!
//! Every step is a decision from the current phase and the outcome of the
//! last HTTP exchange to the next phase and the next request; the
//! surrounding process sends the requests and hands back the outcomes. The
//! lemmas at the bottom pin the session's ordering down: phases only move
//! forward, run-side requests are issued only after the unpause succeeded,
//! any error status freezes the session with exactly the response body,
//! and a frozen session never issues another request.

use vstd::prelude::*;
use crate::api::{ConcourseAPI, is_token_request, is_create_pipeline_request, is_unpause_request,
    is_trigger_configuration_request, is_jobs_request, is_trigger_job_request};
use crate::ci::CIJob;
use crate::errors::ErrorKind;
use crate::http::{HttpRequest, HttpResponse, is_error_status};
use crate::jobs::{jobs_from_json, extended_from_json, job_from_json, job_names, body_jobs_decode,
    body_job_names, body_job_decodes, body_extended_decodes};
use crate::json::json_parse;
use crate::token::{body_token_decodes, token_matches};

verus! {

/// How many times the job listing is polled before the session gives up.
pub const POLL_LIMIT: u32 = 30;

/// What the surrounding process reports back for one request.
#[derive(Debug)]
pub enum StepOutcome {
    /// The HTTP exchange itself failed.
    TransportFailed,
    /// The engine answered.
    Responded(HttpResponse),
}

/// Where a session stands.
#[derive(Debug)]
pub enum JobPhase {
    GetToken,
    CreatePipeline,
    Unpause,
    TriggerConfiguration,
    AwaitJobs { polls_left: u32 },
    TriggerJob { names: Vec<String>, next: usize },
    Done,
    Failed(ErrorKind),
}

/// What the session asks the surrounding process to do next.
#[derive(Debug)]
pub enum JobAction {
    /// Send this request and report the outcome.
    Send(HttpRequest),
    /// Wait one poll interval, then send this request and report the
    /// outcome.
    Poll(HttpRequest),
    /// The session is over, with this result.
    Finished(Result<(), ErrorKind>),
}

/// The mathematical picture of a failure kind.
pub enum ErrModel {
    NoToken,
    Transport,
    RemoteError(Seq<char>),
    Decode,
    Timeout,
    IngestError,
    SendError,
}

/// The mathematical picture of a phase.
pub enum PhaseModel {
    GetToken,
    CreatePipeline,
    Unpause,
    TriggerConfiguration,
    AwaitJobs { polls_left: u32 },
    TriggerJob { names: Seq<Seq<char>>, next: int },
    Done,
    Failed(ErrModel),
}

/// The mathematical picture of a step outcome.
pub enum OutcomeModel {
    Transport,
    Resp { status: u16, body: Seq<char> },
}

pub open spec fn err_view(e: ErrorKind) -> ErrModel {
    match e {
        ErrorKind::NoToken => ErrModel::NoToken,
        ErrorKind::Transport => ErrModel::Transport,
        ErrorKind::RemoteError(body) => ErrModel::RemoteError(body@),
        ErrorKind::Decode => ErrModel::Decode,
        ErrorKind::Timeout => ErrModel::Timeout,
        ErrorKind::IngestError => ErrModel::IngestError,
        ErrorKind::SendError => ErrModel::SendError,
    }
}

pub open spec fn phase_view(p: JobPhase) -> PhaseModel {
    match p {
        JobPhase::GetToken => PhaseModel::GetToken,
        JobPhase::CreatePipeline => PhaseModel::CreatePipeline,
        JobPhase::Unpause => PhaseModel::Unpause,
        JobPhase::TriggerConfiguration => PhaseModel::TriggerConfiguration,
        JobPhase::AwaitJobs { polls_left } => PhaseModel::AwaitJobs { polls_left },
        JobPhase::TriggerJob { names, next } => PhaseModel::TriggerJob {
            names: names@.map_values(|s: String| s@),
            next: next as int,
        },
        JobPhase::Done => PhaseModel::Done,
        JobPhase::Failed(e) => PhaseModel::Failed(err_view(e)),
    }
}

pub open spec fn outcome_view(o: StepOutcome) -> OutcomeModel {
    match o {
        StepOutcome::TransportFailed => OutcomeModel::Transport,
        StepOutcome::Responded(resp) => OutcomeModel::Resp {
            status: resp.status,
            body: resp.body@,
        },
    }
}

/// The session's transition function: given where it stands and what came
/// back, where it stands next. An error status freezes the session with
/// the exact response body; a transport failure freezes it with
/// `Transport`; a malformed reply where one must be decoded freezes it
/// with `Decode`. The setup half runs token, upsert, unpause in order; the
/// run half triggers the configuration build, polls the job listing
/// within the poll budget, and fans out over the listed jobs in order.
pub open spec fn spec_advance(p: PhaseModel, o: OutcomeModel) -> PhaseModel {
    match p {
        PhaseModel::GetToken => match o {
            OutcomeModel::Transport => PhaseModel::Failed(ErrModel::Transport),
            OutcomeModel::Resp { status, body } => {
                if is_error_status(status) {
                    PhaseModel::Failed(ErrModel::RemoteError(body))
                } else if body_token_decodes(body) {
                    PhaseModel::CreatePipeline
                } else {
                    PhaseModel::Failed(ErrModel::Decode)
                }
            },
        },
        PhaseModel::CreatePipeline => match o {
            OutcomeModel::Transport => PhaseModel::Failed(ErrModel::Transport),
            OutcomeModel::Resp { status, body } => {
                if is_error_status(status) {
                    PhaseModel::Failed(ErrModel::RemoteError(body))
                } else {
                    PhaseModel::Unpause
                }
            },
        },
        PhaseModel::Unpause => match o {
            OutcomeModel::Transport => PhaseModel::Failed(ErrModel::Transport),
            OutcomeModel::Resp { status, body } => {
                if is_error_status(status) {
                    PhaseModel::Failed(ErrModel::RemoteError(body))
                } else {
                    PhaseModel::TriggerConfiguration
                }
            },
        },
        PhaseModel::TriggerConfiguration => match o {
            OutcomeModel::Transport => PhaseModel::Failed(ErrModel::Transport),
            OutcomeModel::Resp { status, body } => {
                if is_error_status(status) {
                    PhaseModel::Failed(ErrModel::RemoteError(body))
                } else if body_extended_decodes(body) {
                    PhaseModel::AwaitJobs { polls_left: POLL_LIMIT }
                } else {
                    PhaseModel::Failed(ErrModel::Decode)
                }
            },
        },
        PhaseModel::AwaitJobs { polls_left } => match o {
            OutcomeModel::Transport => PhaseModel::Failed(ErrModel::Transport),
            OutcomeModel::Resp { status, body } => {
                if is_error_status(status) {
                    PhaseModel::Failed(ErrModel::RemoteError(body))
                } else if !body_jobs_decode(body) {
                    PhaseModel::Failed(ErrModel::Decode)
                } else if body_job_names(body).len() > 0 {
                    PhaseModel::TriggerJob { names: body_job_names(body), next: 0 }
                } else if polls_left > 0 {
                    PhaseModel::AwaitJobs { polls_left: (polls_left - 1) as u32 }
                } else {
                    PhaseModel::Failed(ErrModel::Timeout)
                }
            },
        },
        PhaseModel::TriggerJob { names, next } => match o {
            OutcomeModel::Transport => PhaseModel::Failed(ErrModel::Transport),
            OutcomeModel::Resp { status, body } => {
                if is_error_status(status) {
                    PhaseModel::Failed(ErrModel::RemoteError(body))
                } else if !body_job_decodes(body) {
                    PhaseModel::Failed(ErrModel::Decode)
                } else if next + 1 < names.len() {
                    PhaseModel::TriggerJob { names, next: next + 1 }
                } else {
                    PhaseModel::Done
                }
            },
        },
        PhaseModel::Done => PhaseModel::Done,
        PhaseModel::Failed(e) => PhaseModel::Failed(e),
    }
}

/// One job's walk through the engine.
#[derive(Debug)]
pub struct JobSession {
    pub job: CIJob,
    pub phase: JobPhase,
}

impl JobSession {
    /// Open a session for one job: the setup half starts at the token step
    /// when no token is cached, and skips straight to the upsert when one
    /// is.
    pub fn start(job: CIJob, api: &ConcourseAPI) -> (s: JobSession)
        ensures
            s.job == job,
            phase_view(s.phase) == if api.has_token() {
                PhaseModel::CreatePipeline
            } else {
                PhaseModel::GetToken
            },
    {
        let phase = if api.token.is_some() {
            JobPhase::CreatePipeline
        } else {
            JobPhase::GetToken
        };
        JobSession { job, phase }
    }

    /// The request the session wants sent next — or its final result. In
    /// an authenticated phase with no token held, the session ends with
    /// `NoToken`. In the poll phase the request is to be sent after one
    /// poll interval.
    pub fn current_action(&self, api: &ConcourseAPI) -> (a: JobAction)
        ensures
            match phase_view(self.phase) {
                PhaseModel::GetToken => a matches JobAction::Send(req) && is_token_request(
                    req,
                    *api,
                ),
                PhaseModel::CreatePipeline => if api.has_token() {
                    a matches JobAction::Send(req) && is_create_pipeline_request(
                        req,
                        *api,
                        self.job,
                    )
                } else {
                    a matches JobAction::Finished(r) && r == Err::<(), ErrorKind>(
                        ErrorKind::NoToken,
                    )
                },
                PhaseModel::Unpause => if api.has_token() {
                    a matches JobAction::Send(req) && is_unpause_request(
                        req,
                        *api,
                        self.job.project_id@,
                    )
                } else {
                    a matches JobAction::Finished(r) && r == Err::<(), ErrorKind>(
                        ErrorKind::NoToken,
                    )
                },
                PhaseModel::TriggerConfiguration => if api.has_token() {
                    a matches JobAction::Send(req) && is_trigger_configuration_request(
                        req,
                        *api,
                        self.job.project_id@,
                    )
                } else {
                    a matches JobAction::Finished(r) && r == Err::<(), ErrorKind>(
                        ErrorKind::NoToken,
                    )
                },
                PhaseModel::AwaitJobs { .. } => if api.has_token() {
                    a matches JobAction::Poll(req) && is_jobs_request(
                        req,
                        *api,
                        self.job.project_id@,
                    )
                } else {
                    a matches JobAction::Finished(r) && r == Err::<(), ErrorKind>(
                        ErrorKind::NoToken,
                    )
                },
                PhaseModel::TriggerJob { names, next } => if 0 <= next < names.len() {
                    if api.has_token() {
                        a matches JobAction::Send(req) && is_trigger_job_request(
                            req,
                            *api,
                            self.job.project_id@,
                            names[next],
                        )
                    } else {
                        a matches JobAction::Finished(r) && r == Err::<(), ErrorKind>(
                            ErrorKind::NoToken,
                        )
                    }
                } else {
                    a matches JobAction::Finished(r) && r is Ok
                },
                PhaseModel::Done => a matches JobAction::Finished(r) && r is Ok,
                PhaseModel::Failed(e) => a matches JobAction::Finished(r) && (r matches Err(e2)
                    && err_view(e2) == e),
            },
    {
        match &self.phase {
            JobPhase::GetToken => JobAction::Send(api.token_request()),
            JobPhase::CreatePipeline => match api.create_pipeline_request(&self.job) {
                Ok(req) => JobAction::Send(req),
                Err(e) => JobAction::Finished(Err(e)),
            },
            JobPhase::Unpause => match api.unpause_pipeline_request(&self.job.project_id) {
                Ok(req) => JobAction::Send(req),
                Err(e) => JobAction::Finished(Err(e)),
            },
            JobPhase::TriggerConfiguration => match api.trigger_pipeline_configuration_request(
                &self.job.project_id,
            ) {
                Ok(req) => JobAction::Send(req),
                Err(e) => JobAction::Finished(Err(e)),
            },
            JobPhase::AwaitJobs { polls_left: _ } => match api.get_pipeline_jobs_request(
                &self.job.project_id,
            ) {
                Ok(req) => JobAction::Poll(req),
                Err(e) => JobAction::Finished(Err(e)),
            },
            JobPhase::TriggerJob { names, next } => {
                if *next < names.len() {
                    match api.trigger_job_request(&self.job.project_id, &names[*next]) {
                        Ok(req) => JobAction::Send(req),
                        Err(e) => JobAction::Finished(Err(e)),
                    }
                } else {
                    JobAction::Finished(Ok(()))
                }
            },
            JobPhase::Done => JobAction::Finished(Ok(())),
            JobPhase::Failed(e) => JobAction::Finished(Err(e.clone())),
        }
    }

    /// Take one step: fold the outcome of the last request into the
    /// session. The next phase is exactly `spec_advance` of the current
    /// one; the client's configuration is untouched, and its token cache
    /// changes only when the token step decodes a fresh token.
    pub fn advance(self, api: &mut ConcourseAPI, outcome: StepOutcome) -> (r: JobSession)
        ensures
            r.job == self.job,
            phase_view(r.phase) == spec_advance(phase_view(self.phase), outcome_view(outcome)),
            final(api).same_config(old(api)),
            match (phase_view(self.phase), outcome_view(outcome)) {
                (PhaseModel::GetToken, OutcomeModel::Resp { status, body }) => {
                    if !is_error_status(status) && body_token_decodes(body) {
                        final(api).token matches Some(t) && token_matches(
                            t,
                            json_parse(body)->Some_0,
                        )
                    } else {
                        final(api).token == old(api).token
                    }
                },
                _ => final(api).token == old(api).token,
            },
    {
        let JobSession { job, phase } = self;
        let new_phase = match phase {
            JobPhase::GetToken => match outcome {
                StepOutcome::TransportFailed => JobPhase::Failed(ErrorKind::Transport),
                StepOutcome::Responded(resp) => {
                    if 400 <= resp.status && resp.status < 600 {
                        JobPhase::Failed(ErrorKind::RemoteError(resp.body))
                    } else {
                        match api.accept_token(resp.body.as_str()) {
                            Ok(_) => JobPhase::CreatePipeline,
                            Err(e) => JobPhase::Failed(e),
                        }
                    }
                },
            },
            JobPhase::CreatePipeline => match outcome {
                StepOutcome::TransportFailed => JobPhase::Failed(ErrorKind::Transport),
                StepOutcome::Responded(resp) => {
                    if 400 <= resp.status && resp.status < 600 {
                        JobPhase::Failed(ErrorKind::RemoteError(resp.body))
                    } else {
                        JobPhase::Unpause
                    }
                },
            },
            JobPhase::Unpause => match outcome {
                StepOutcome::TransportFailed => JobPhase::Failed(ErrorKind::Transport),
                StepOutcome::Responded(resp) => {
                    if 400 <= resp.status && resp.status < 600 {
                        JobPhase::Failed(ErrorKind::RemoteError(resp.body))
                    } else {
                        JobPhase::TriggerConfiguration
                    }
                },
            },
            JobPhase::TriggerConfiguration => match outcome {
                StepOutcome::TransportFailed => JobPhase::Failed(ErrorKind::Transport),
                StepOutcome::Responded(resp) => {
                    if 400 <= resp.status && resp.status < 600 {
                        JobPhase::Failed(ErrorKind::RemoteError(resp.body))
                    } else {
                        match extended_from_json(resp.body.as_str()) {
                            Ok(_) => JobPhase::AwaitJobs { polls_left: POLL_LIMIT },
                            Err(e) => JobPhase::Failed(e),
                        }
                    }
                },
            },
            JobPhase::AwaitJobs { polls_left } => match outcome {
                StepOutcome::TransportFailed => JobPhase::Failed(ErrorKind::Transport),
                StepOutcome::Responded(resp) => {
                    if 400 <= resp.status && resp.status < 600 {
                        JobPhase::Failed(ErrorKind::RemoteError(resp.body))
                    } else {
                        match jobs_from_json(resp.body.as_str()) {
                            Ok(jobs) => {
                                if jobs.len() > 0 {
                                    let names = job_names(&jobs);
                                    proof {
                                        assert(names@.map_values(|s: String| s@) =~= body_job_names(
                                            resp.body@,
                                        ));
                                    }
                                    JobPhase::TriggerJob { names, next: 0 }
                                } else if polls_left > 0 {
                                    JobPhase::AwaitJobs { polls_left: polls_left - 1 }
                                } else {
                                    JobPhase::Failed(ErrorKind::Timeout)
                                }
                            },
                            Err(e) => JobPhase::Failed(e),
                        }
                    }
                },
            },
            JobPhase::TriggerJob { names, next } => match outcome {
                StepOutcome::TransportFailed => JobPhase::Failed(ErrorKind::Transport),
                StepOutcome::Responded(resp) => {
                    if 400 <= resp.status && resp.status < 600 {
                        JobPhase::Failed(ErrorKind::RemoteError(resp.body))
                    } else {
                        match job_from_json(resp.body.as_str()) {
                            Ok(_) => {
                                if next < names.len() && names.len() - next > 1 {
                                    JobPhase::TriggerJob { names, next: next + 1 }
                                } else {
                                    JobPhase::Done
                                }
                            },
                            Err(e) => JobPhase::Failed(e),
                        }
                    }
                },
            },
            JobPhase::Done => JobPhase::Done,
            JobPhase::Failed(e) => JobPhase::Failed(e),
        };
        JobSession { job, phase: new_phase }
    }
}

/// How far along a phase is. Setup phases rank below run phases; the
/// terminal phases rank above everything.
pub open spec fn phase_rank(p: PhaseModel) -> int {
    match p {
        PhaseModel::GetToken => 0,
        PhaseModel::CreatePipeline => 1,
        PhaseModel::Unpause => 2,
        PhaseModel::TriggerConfiguration => 3,
        PhaseModel::AwaitJobs { .. } => 4,
        PhaseModel::TriggerJob { .. } => 5,
        PhaseModel::Done => 6,
        PhaseModel::Failed(_) => 6,
    }
}

/// The setup half: token, upsert, unpause.
pub open spec fn is_setup_phase(p: PhaseModel) -> bool {
    phase_rank(p) <= 2
}

/// The run half: trigger, poll, fan-out.
pub open spec fn is_run_phase(p: PhaseModel) -> bool {
    3 <= phase_rank(p) <= 5
}

/// A session that is over, one way or the other.
pub open spec fn is_terminal(p: PhaseModel) -> bool {
    p is Done || p is Failed
}

/// Ordering within a job: phases only move forward. A step either strictly
/// raises the rank, or stays within the poll phase with a smaller budget,
/// or stays within the fan-out phase with the same names and the next
/// index — so no step of a session is ever repeated, and in particular the
/// upsert of the configuration pipeline is issued at most once per
/// session.
pub proof fn lemma_rank_monotone(p: PhaseModel, o: OutcomeModel)
    ensures
        phase_rank(spec_advance(p, o)) >= phase_rank(p),
        phase_rank(spec_advance(p, o)) == phase_rank(p) && !is_terminal(p) ==> {
            ||| (p matches PhaseModel::AwaitJobs { polls_left: b0 } && spec_advance(p, o) matches
                PhaseModel::AwaitJobs { polls_left: b1 } && b1 < b0)
            ||| (p matches PhaseModel::TriggerJob { names: n0, next: i0 } && spec_advance(p, o)
                matches PhaseModel::TriggerJob { names: n1, next: i1 } && n1 == n0 && i1 == i0 + 1
                && i1 < n0.len())
        },
{
}

/// Setup completes before any run step: the only way from the setup half
/// into the run half is a success answer to the unpause request. In
/// particular, after an error in any setup step the session is frozen and
/// no run step is ever reached.
pub proof fn lemma_setup_completes_before_run(p: PhaseModel, o: OutcomeModel)
    ensures
        is_setup_phase(p) && is_run_phase(spec_advance(p, o)) ==> {
            &&& p is Unpause
            &&& o matches OutcomeModel::Resp { status, .. } && !is_error_status(status)
        },
{
}

/// A finished session stays finished: no outcome moves it, so a worker
/// that saw a session fail issues no further request for it.
pub proof fn lemma_terminal_stays(p: PhaseModel, o: OutcomeModel)
    ensures
        is_terminal(p) ==> spec_advance(p, o) == p,
{
}

/// The error-body policy, session-wide: an error status in any live phase
/// freezes the session with exactly the response body.
pub proof fn lemma_error_body_carried(p: PhaseModel, o: OutcomeModel)
    ensures
        !is_terminal(p) && (o matches OutcomeModel::Resp { status, body } && is_error_status(
            status,
        )) ==> spec_advance(p, o) == PhaseModel::Failed(
            ErrModel::RemoteError(o->Resp_body),
        ),
{
}

/// A transport failure in any live phase freezes the session with
/// `Transport`.
pub proof fn lemma_transport_fails(p: PhaseModel)
    ensures
        !is_terminal(p) ==> spec_advance(p, OutcomeModel::Transport) == PhaseModel::Failed(
            ErrModel::Transport,
        ),
{
}

/// Where a session standing at `p` ends up after folding in a whole
/// sequence of outcomes, one at a time.
pub open spec fn run_trace(p: PhaseModel, os: Seq<OutcomeModel>) -> PhaseModel
    decreases os.len(),
{
    if os.len() == 0 {
        p
    } else {
        run_trace(spec_advance(p, os[0]), os.drop_first())
    }
}

/// Folding a concatenation is folding one part after the other.
pub proof fn lemma_run_trace_append(p: PhaseModel, a: Seq<OutcomeModel>, b: Seq<OutcomeModel>)
    ensures
        run_trace(p, a + b) == run_trace(run_trace(p, a), b),
    decreases a.len(),
{
    if a.len() == 0 {
        assert(a + b =~= b);
    } else {
        assert((a + b)[0] == a[0]);
        assert((a + b).drop_first() =~= a.drop_first() + b);
        lemma_run_trace_append(spec_advance(p, a[0]), a.drop_first(), b);
    }
}

/// Across any whole session: the rank never falls.
pub proof fn lemma_trace_rank_monotone(p: PhaseModel, os: Seq<OutcomeModel>)
    ensures
        phase_rank(run_trace(p, os)) >= phase_rank(p),
    decreases os.len(),
{
    if os.len() > 0 {
        lemma_rank_monotone(p, os[0]);
        lemma_trace_rank_monotone(spec_advance(p, os[0]), os.drop_first());
    }
}

/// A finished session stays finished through any further outcomes.
pub proof fn lemma_trace_terminal_stays(p: PhaseModel, os: Seq<OutcomeModel>)
    ensures
        is_terminal(p) ==> run_trace(p, os) == p,
    decreases os.len(),
{
    if os.len() > 0 && is_terminal(p) {
        lemma_terminal_stays(p, os[0]);
        lemma_trace_terminal_stays(p, os.drop_first());
    }
}

/// Setup completes before any run step, across a whole session: a session
/// that starts in its setup half and is ever seen in its run half passed
/// through the unpause step and received a success answer to it. No error
/// or transport failure along the setup half ever leads to a run step.
pub proof fn lemma_trace_setup_before_run(p: PhaseModel, os: Seq<OutcomeModel>)
    requires
        is_setup_phase(p),
        is_run_phase(run_trace(p, os)),
    ensures
        exists|i: int|
            0 <= i < os.len() && run_trace(p, #[trigger] os.take(i)) is Unpause && (os[i] matches
                OutcomeModel::Resp { status, .. } && !is_error_status(status)),
    decreases os.len(),
{
    let q = spec_advance(p, os[0]);
    if is_run_phase(q) {
        lemma_setup_completes_before_run(p, os[0]);
        assert(os.take(0) =~= Seq::<OutcomeModel>::empty());
        assert(run_trace(p, os.take(0)) is Unpause);
        assert(0 < os.len() && run_trace(p, os.take(0)) is Unpause && (os[0] matches
            OutcomeModel::Resp { status, .. } && !is_error_status(status)));
    } else if is_setup_phase(q) {
        lemma_trace_setup_before_run(q, os.drop_first());
        let i = choose|i: int|
            0 <= i < os.drop_first().len() && run_trace(q, #[trigger] os.drop_first().take(i))
                is Unpause && (os.drop_first()[i] matches OutcomeModel::Resp { status, .. }
                && !is_error_status(status));
        assert(os.take(i + 1) =~= seq![os[0]] + os.drop_first().take(i));
        assert(seq![os[0]].drop_first() =~= Seq::<OutcomeModel>::empty());
        assert(run_trace(q, Seq::<OutcomeModel>::empty()) == q);
        assert(run_trace(p, seq![os[0]]) == run_trace(q, seq![os[0]].drop_first()));
        assert(run_trace(p, seq![os[0]]) == q);
        lemma_run_trace_append(p, seq![os[0]], os.drop_first().take(i));
        assert(run_trace(p, os.take(i + 1)) is Unpause);
        assert(os[i + 1] == os.drop_first()[i]);
    } else {
        // the first step left the setup half for a terminal phase, and a
        // terminal session never reaches the run half
        lemma_rank_monotone(p, os[0]);
        assert(is_terminal(q));
        lemma_trace_terminal_stays(q, os.drop_first());
        assert(false);
    }
}

/// The upsert of the configuration pipeline is issued at most once per
/// session: once the session has stood at the upsert step and taken any
/// step, it never stands there again.
pub proof fn lemma_upsert_at_most_once(
    p: PhaseModel,
    os: Seq<OutcomeModel>,
    i: int,
    j: int,
)
    requires
        0 <= i < j <= os.len(),
        run_trace(p, os.take(i)) is CreatePipeline,
    ensures
        !(run_trace(p, os.take(j)) is CreatePipeline),
{
    let before = run_trace(p, os.take(i));
    lemma_rank_monotone(before, os[i]);
    let after = spec_advance(before, os[i]);
    assert(phase_rank(after) >= 2);
    assert(os.take(i + 1) =~= os.take(i) + seq![os[i]]);
    lemma_run_trace_append(p, os.take(i), seq![os[i]]);
    assert(seq![os[i]].drop_first() =~= Seq::<OutcomeModel>::empty());
    assert(run_trace(after, Seq::<OutcomeModel>::empty()) == after);
    assert(run_trace(before, seq![os[i]]) == run_trace(after, seq![os[i]].drop_first()));
    assert(run_trace(p, os.take(i + 1)) == after);
    assert(os.take(j) =~= os.take(i + 1) + os.subrange(i + 1, j));
    lemma_run_trace_append(p, os.take(i + 1), os.subrange(i + 1, j));
    lemma_trace_rank_monotone(after, os.subrange(i + 1, j));
    assert(phase_rank(run_trace(p, os.take(j))) >= 2);
}

} // verus!
