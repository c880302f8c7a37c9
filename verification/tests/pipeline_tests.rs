//! Decoding the engine's pipeline description: both ordered lists, the
//! optional plan-step parts, and the rule that a present non-string part
//! is refused while an absent or null one is simply missing.

use ci_broker::errors::ErrorKind;
use ci_broker::pipeline::pipeline_configuration_from_json;

const CONFIG_BODY: &str = r#"{
    "config": {
        "resources": [
            {
                "name": "R1",
                "type": "git",
                "icon": "git",
                "source": { "branch": "abc123", "uri": "https://seed.radicle.xyz/R1.git" }
            }
        ],
        "jobs": [
            {
                "name": "configure-pipeline",
                "plan": [
                    { "get": "R1", "version": "deadbeef" },
                    { "set_pipeline": "R1", "file": "R1/.concourse/config.yaml", "get": null }
                ]
            }
        ]
    }
}"#;

#[test]
fn a_pipeline_configuration_decodes_in_full() {
    let config = pipeline_configuration_from_json(CONFIG_BODY).unwrap().config;

    assert_eq!(config.resources.len(), 1);
    let resource = &config.resources[0];
    assert_eq!(resource.name, "R1");
    assert_eq!(resource.kind, "git");
    assert_eq!(resource.icon, "git");
    assert_eq!(resource.source.branch, "abc123");
    assert_eq!(resource.source.uri, "https://seed.radicle.xyz/R1.git");

    assert_eq!(config.jobs.len(), 1);
    let job = &config.jobs[0];
    assert_eq!(job.name, "configure-pipeline");
    assert_eq!(job.plan.len(), 2);
    assert_eq!(job.plan[0].get, Some("R1".to_string()));
    assert_eq!(job.plan[0].version, Some("deadbeef".to_string()));
    assert_eq!(job.plan[0].file, None);
    assert_eq!(job.plan[0].set_pipeline, None);
    assert_eq!(job.plan[1].set_pipeline, Some("R1".to_string()));
    assert_eq!(job.plan[1].file, Some("R1/.concourse/config.yaml".to_string()));
    // a null part reads the same as an absent one
    assert_eq!(job.plan[1].get, None);
}

#[test]
fn empty_lists_are_a_valid_configuration() {
    let body = r#"{ "config": { "resources": [], "jobs": [] } }"#;
    let config = pipeline_configuration_from_json(body).unwrap().config;
    assert!(config.resources.is_empty());
    assert!(config.jobs.is_empty());
}

#[test]
fn a_non_string_plan_part_is_refused() {
    let body = r#"{
        "config": {
            "resources": [],
            "jobs": [ { "name": "j", "plan": [ { "get": 5 } ] } ]
        }
    }"#;
    assert_eq!(
        pipeline_configuration_from_json(body).unwrap_err(),
        ErrorKind::Decode
    );
}

#[test]
fn a_configuration_needs_both_lists() {
    let no_jobs = r#"{ "config": { "resources": [] } }"#;
    assert_eq!(
        pipeline_configuration_from_json(no_jobs).unwrap_err(),
        ErrorKind::Decode
    );
    let no_config = r#"{ "resources": [], "jobs": [] }"#;
    assert_eq!(
        pipeline_configuration_from_json(no_config).unwrap_err(),
        ErrorKind::Decode
    );
    assert_eq!(
        pipeline_configuration_from_json("[]").unwrap_err(),
        ErrorKind::Decode
    );
}
