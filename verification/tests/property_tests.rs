//! The broker's stated behaviours on concrete values: token attachment,
//! the error-body policy, the filter on ref names, the job invariant, the
//! reply decoders, and the string helpers underneath them.

use ci_broker::api::ConcourseAPI;
use ci_broker::errors::{ErrorKind, ResponseError};
use ci_broker::http::{bounded_prefix, response_to_result, HttpResponse, Method};
use ci_broker::ingest::{hex_text, job_for_patch, patch_ids_of_event, patch_ids_of_updates,
    patch_ref, NodeEvent, RefUpdate};
use ci_broker::jobs::{extended_from_json, job_from_json, jobs_from_json};
use ci_broker::strutil::{contains_str, last_segment, str_eq};
use ci_broker::token::token_from_json;

fn api_with_token() -> ConcourseAPI {
    let mut api = ConcourseAPI::new("http://e".to_string(), "u".to_string(), "p".to_string());
    let body = r#"{ "access_token": "tok", "expires_in": 1, "id_token": "i", "token_type": "bearer" }"#;
    api.accept_token(body).unwrap();
    api
}

#[test]
fn authenticated_requests_carry_the_bearer_token() {
    let api = api_with_token();
    let job = job_for_patch("R1", "p", "ab").unwrap();
    let pid = "R1".to_string();
    let name = "build".to_string();
    let bearer = ("Authorization".to_string(), "Bearer tok".to_string());
    assert_eq!(api.create_pipeline_request(&job).unwrap().headers[0], bearer);
    assert_eq!(api.unpause_pipeline_request(&pid).unwrap().headers[0], bearer);
    assert_eq!(api.get_pipeline_request(&pid).unwrap().headers[0], bearer);
    assert_eq!(
        api.trigger_pipeline_configuration_request(&pid).unwrap().headers[0],
        bearer
    );
    assert_eq!(api.get_pipeline_jobs_request(&pid).unwrap().headers[0], bearer);
    assert_eq!(api.trigger_job_request(&pid, &name).unwrap().headers[0], bearer);
}

#[test]
fn authenticated_requests_without_a_token_are_refused() {
    let api = ConcourseAPI::new("http://e".to_string(), "u".to_string(), "p".to_string());
    let job = job_for_patch("R1", "p", "ab").unwrap();
    let pid = "R1".to_string();
    let name = "build".to_string();
    assert_eq!(api.create_pipeline_request(&job).unwrap_err(), ErrorKind::NoToken);
    assert_eq!(api.unpause_pipeline_request(&pid).unwrap_err(), ErrorKind::NoToken);
    assert_eq!(api.get_pipeline_request(&pid).unwrap_err(), ErrorKind::NoToken);
    assert_eq!(
        api.trigger_pipeline_configuration_request(&pid).unwrap_err(),
        ErrorKind::NoToken
    );
    assert_eq!(api.get_pipeline_jobs_request(&pid).unwrap_err(), ErrorKind::NoToken);
    assert_eq!(api.trigger_job_request(&pid, &name).unwrap_err(), ErrorKind::NoToken);
}

#[test]
fn the_token_request_needs_no_token() {
    let api = ConcourseAPI::new("http://e".to_string(), "u".to_string(), "p".to_string());
    let req = api.token_request();
    assert_eq!(req.method, Method::Post);
    assert_eq!(req.url, "http://e/sky/issuer/token");
}

#[test]
fn error_statuses_carry_the_exact_body() {
    for status in [400u16, 404, 500, 599] {
        let resp = HttpResponse { status, body: "the exact body".to_string() };
        assert_eq!(
            response_to_result(resp),
            Err(ErrorKind::RemoteError("the exact body".to_string()))
        );
    }
    for status in [200u16, 201, 204, 302, 399] {
        let resp = HttpResponse { status, body: "payload".to_string() };
        assert_eq!(response_to_result(resp), Ok("payload".to_string()));
    }
}

#[test]
fn the_error_body_read_is_bounded_by_the_declared_length() {
    let bytes = vec![1u8, 2, 3, 4, 5];
    assert_eq!(bounded_prefix(&bytes, 3), vec![1u8, 2, 3]);
    assert_eq!(bounded_prefix(&bytes, 5), bytes);
    assert_eq!(bounded_prefix(&bytes, 9), bytes);
    assert_eq!(bounded_prefix(&bytes, 0), Vec::<u8>::new());
}

#[test]
fn the_filter_takes_created_and_updated_patch_refs_only() {
    let updates = vec![
        RefUpdate::Updated { name: "refs/heads/main".to_string() },
        RefUpdate::Updated { name: "refs/cobs/xyz.radicle.patch/aaa".to_string() },
        RefUpdate::Created { name: "refs/cobs/xyz.radicle.patch/bbb".to_string() },
        RefUpdate::Deleted { name: "refs/cobs/xyz.radicle.patch/ccc".to_string() },
        RefUpdate::Skipped { name: "refs/cobs/xyz.radicle.patch/ddd".to_string() },
        RefUpdate::Created { name: "refs/cobs/xyz.radicle.id/eee".to_string() },
    ];
    let ids = patch_ids_of_updates(&updates);
    assert_eq!(ids, vec!["aaa".to_string(), "bbb".to_string()]);
}

#[test]
fn events_other_than_fetches_yield_nothing() {
    assert!(patch_ids_of_event(&NodeEvent::Other).is_empty());
}

#[test]
fn the_job_invariant_rejects_bad_inputs() {
    assert!(job_for_patch("", "p", "ab").is_none());
    assert!(job_for_patch("R1", "", "ab").is_none());
    assert!(job_for_patch("R1", "p", "").is_none());
    assert!(job_for_patch("R1", "p", "not hex!").is_none());
    let job = job_for_patch("R1", "p", "0123456789abcdefABCDEF").unwrap();
    assert_eq!(job.git_uri, "https://seed.radicle.xyz/R1.git");
}

#[test]
fn hex_text_accepts_hex_digits_only() {
    assert!(hex_text("deadbeef"));
    assert!(hex_text("DEADBEEF0123"));
    assert!(!hex_text(""));
    assert!(!hex_text("deadbeeg"));
    assert!(!hex_text("dead beef"));
}

#[test]
fn patch_ref_looks_for_the_marker_anywhere() {
    assert!(patch_ref("xyz.radicle.patch"));
    assert!(patch_ref("refs/cobs/xyz.radicle.patch/123"));
    assert!(!patch_ref("refs/heads/main"));
    assert!(!patch_ref("xyz.radicle.patc"));
    assert!(!patch_ref(""));
}

#[test]
fn string_helpers_behave() {
    assert!(contains_str("hello world", "o w"));
    assert!(contains_str("abc", ""));
    assert!(!contains_str("", "a"));
    assert!(!contains_str("abc", "abcd"));
    assert_eq!(last_segment("a/b/c"), "c");
    assert_eq!(last_segment("abc"), "abc");
    assert_eq!(last_segment("abc/"), "");
    assert_eq!(last_segment(""), "");
    assert!(str_eq("same", "same"));
    assert!(!str_eq("same", "sam"));
}

#[test]
fn a_jobs_listing_decodes_in_order() {
    let body = r#"[
        { "id": 1, "name": "one", "pipeline_id": 9, "pipeline_name": "p", "team_name": "main" },
        { "id": 2, "name": "two", "pipeline_id": 9, "pipeline_name": "p", "team_name": "main" }
    ]"#;
    let jobs = jobs_from_json(body).unwrap();
    assert_eq!(jobs.len(), 2);
    assert_eq!(jobs[0].id, 1);
    assert_eq!(jobs[0].name, "one");
    assert_eq!(jobs[1].name, "two");
    assert_eq!(jobs[1].pipeline_name, "p");

    assert_eq!(jobs_from_json("[]").unwrap(), vec![]);
    assert_eq!(
        jobs_from_json(r#"[ { "id": 1 } ]"#).unwrap_err(),
        ErrorKind::Decode
    );
    assert_eq!(jobs_from_json("{}").unwrap_err(), ErrorKind::Decode);
    assert_eq!(jobs_from_json("nope").unwrap_err(), ErrorKind::Decode);
}

#[test]
fn a_single_job_handle_decodes() {
    let body =
        r#"{ "id": 7, "name": "n", "pipeline_id": 8, "pipeline_name": "p", "team_name": "t" }"#;
    let job = job_from_json(body).unwrap();
    assert_eq!(job.id, 7);
    assert_eq!(job.team_name, "t");
    // the id must be an unsigned integer
    assert_eq!(
        job_from_json(
            r#"{ "id": -7, "name": "n", "pipeline_id": 8, "pipeline_name": "p", "team_name": "t" }"#
        )
        .unwrap_err(),
        ErrorKind::Decode
    );
}

#[test]
fn an_extended_job_handle_needs_all_nine_fields() {
    let body = r#"{
        "id": 7, "name": "n", "pipeline_id": 8, "pipeline_name": "p", "team_name": "t",
        "status": "started", "api_url": "/b/7", "job_name": "n", "created_by": "me"
    }"#;
    let job = extended_from_json(body).unwrap();
    assert_eq!(job.status, "started");
    assert_eq!(job.created_by, "me");
    let short =
        r#"{ "id": 7, "name": "n", "pipeline_id": 8, "pipeline_name": "p", "team_name": "t" }"#;
    assert_eq!(extended_from_json(short).unwrap_err(), ErrorKind::Decode);
}

#[test]
fn a_token_reply_round_trips_through_the_decoder() {
    // would fail if the parser handed its input back unchanged
    let body = r#"{ "access_token": "abc", "expires_in": 60, "id_token": "xyz", "token_type": "bearer" }"#;
    let token = token_from_json(body).unwrap();
    assert_eq!(token.access_token, "abc");
    assert_eq!(token.expires_in, 60);
    assert_eq!(token.id_token, "xyz");
}

#[test]
fn a_response_error_wraps_one_body() {
    let e = ResponseError::from_body("boom".to_string());
    assert_eq!(e.errors, vec!["boom".to_string()]);
    assert!(e.warnings.is_none());
}
