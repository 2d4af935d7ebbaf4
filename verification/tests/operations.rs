use sindri_prover::adapter::{CloudProver, CloudProverConfig};
use sindri_prover::messages::{GetVkRequest, ProveRequest, QueryTaskRequest};
use sindri_prover::ops::{
    http_outcome, prove_finish, prove_prepare, query_task_finish, query_task_prepare,
    reprocess_prove_input, GetVksSession,
};
use sindri_prover::routes::CircuitType;
use sindri_prover::status::TaskStatus;

fn prover() -> CloudProver {
    CloudProver::new(CloudProverConfig {
        base_url: "https://example.com".to_string(),
        api_key: "test-key".to_string(),
        retry_count: 3,
        retry_wait_time_sec: 8,
        connection_timeout_sec: 60,
    })
    .expect("base url must parse")
}

fn circuit_detail_body(raw: &[u8]) -> String {
    let wire = base64::encode_config(raw, base64::URL_SAFE_NO_PAD);
    format!(
        "{{\"verification_key\": {{\"verification_key\": \"{}\"}}}}",
        wire
    )
}

#[test]
fn get_vks_version_mismatch_makes_no_call() {
    let p = prover();
    let req = GetVkRequest {
        circuit_types: vec![CircuitType::Chunk, CircuitType::Batch, CircuitType::Bundle],
        circuit_version: "v0.0.1".to_string(),
    };
    let session = GetVksSession::start(&p, req);
    let mut calls: usize = 0;
    if session.next_route().is_some() {
        calls += 1;
    }
    assert_eq!(calls, 0);
    let resp = session.response();
    assert!(resp.vks.is_empty());
    let err = resp.error.expect("mismatch must set an error");
    assert!(!err.is_empty());
    assert_eq!(err, "circuit version mismatch");
}

#[test]
fn get_vks_stops_at_second_failure_keeping_first_key() {
    let p = prover();
    let req = GetVkRequest {
        circuit_types: vec![CircuitType::Chunk, CircuitType::Batch, CircuitType::Bundle],
        circuit_version: "v0.13.1".to_string(),
    };
    let mut session = GetVksSession::start(&p, req);
    let raw: Vec<u8> = vec![1, 2, 3, 4];
    let mut calls: usize = 0;

    let r1 = session.next_route();
    assert!(r1.expect("first call expected").contains("chunk_prover"));
    calls += 1;
    session.on_outcome(Ok(circuit_detail_body(&raw)));

    let r2 = session.next_route();
    assert!(r2.expect("second call expected").contains("batch_prover"));
    calls += 1;
    session.on_outcome(Err("connection reset by peer".to_string()));

    assert!(session.next_route().is_none());
    assert_eq!(calls, 2);

    let resp = session.response();
    assert_eq!(resp.vks.len(), 1);
    assert_eq!(resp.vks[0], base64::encode_config(&raw, base64::STANDARD));
    let err = resp.error.expect("failure must be reported");
    assert!(!err.is_empty());
}

#[test]
fn get_vks_deduplicates_keys_in_first_appearance_order() {
    let p = prover();
    let req = GetVkRequest {
        circuit_types: vec![CircuitType::Chunk, CircuitType::Batch, CircuitType::Bundle],
        circuit_version: "v0.13.1".to_string(),
    };
    let mut session = GetVksSession::start(&p, req);
    let first: Vec<u8> = vec![9, 9, 9];
    let second: Vec<u8> = vec![7];
    session.on_outcome(Ok(circuit_detail_body(&first)));
    session.on_outcome(Ok(circuit_detail_body(&second)));
    session.on_outcome(Ok(circuit_detail_body(&first)));
    assert!(session.next_route().is_none());
    let resp = session.response();
    assert!(resp.error.is_none());
    assert_eq!(
        resp.vks,
        vec![
            base64::encode_config(&first, base64::STANDARD),
            base64::encode_config(&second, base64::STANDARD),
        ]
    );
}

#[test]
fn get_vks_undecodable_body_stops_collection() {
    let p = prover();
    let req = GetVkRequest {
        circuit_types: vec![CircuitType::Chunk],
        circuit_version: "v0.13.1".to_string(),
    };
    let mut session = GetVksSession::start(&p, req);
    session.on_outcome(Ok("{\"unexpected\": true}".to_string()));
    let resp = session.response();
    assert!(resp.vks.is_empty());
    assert!(resp.error.is_some());
}

fn prove_request(kind: CircuitType, version: &str, input: &str) -> ProveRequest {
    ProveRequest {
        circuit_type: kind,
        circuit_version: version.to_string(),
        hard_fork_name: "euclid".to_string(),
        input: input.to_string(),
    }
}

#[test]
fn prove_version_mismatch_returns_populated_failure() {
    let p = prover();
    let req = prove_request(CircuitType::Chunk, "v9.9.9", "{\"task\": 1}");
    let resp = prove_prepare(&p, &req).expect_err("mismatch must fail");
    assert_eq!(resp.task_id, "");
    assert_eq!(resp.circuit_type, CircuitType::Chunk);
    assert_eq!(resp.circuit_version, "v9.9.9");
    assert_eq!(resp.hard_fork_name, "euclid");
    assert_eq!(resp.status, TaskStatus::Failed);
    assert_eq!(resp.created_at, 0);
    assert_eq!(resp.started_at, None);
    assert_eq!(resp.finished_at, None);
    assert_eq!(resp.compute_time_ms, None);
    assert_eq!(resp.input.as_deref(), Some("{\"task\": 1}"));
    assert_eq!(resp.proof, None);
    assert_eq!(resp.vk, None);
    assert_eq!(resp.error.as_deref(), Some("circuit version mismatch"));
}

#[test]
fn prove_bundle_submits_inner_proof_array() {
    let req = prove_request(
        CircuitType::Bundle,
        "v0.13.1",
        "{\"batch_proofs\": [{\"a\": 1}, {\"b\": 2}], \"other\": true}",
    );
    let inner = reprocess_prove_input(&req).expect("bundle envelope must strip");
    assert_eq!(inner, "[{\"a\":1},{\"b\":2}]");

    let p = prover();
    let prepared = prove_prepare(&p, &req).expect("prepare must succeed");
    assert_eq!(
        prepared.body,
        "{\"perform_verify\":true,\"proof_input\":\"[{\\\"a\\\":1},{\\\"b\\\":2}]\"}"
    );
    assert!(prepared.url.ends_with("circuit/scroll-tech/bundle_prover:v0.13.1/prove"));
}

#[test]
fn prove_non_bundle_input_passes_through() {
    let req = prove_request(CircuitType::Chunk, "v0.13.1", "{\"chunk\": [1, 2]}");
    let inner = reprocess_prove_input(&req).expect("pass-through must succeed");
    assert_eq!(inner, "{\"chunk\": [1, 2]}");
}

#[test]
fn prove_bundle_without_envelope_fails_like_version_mismatch() {
    let p = prover();
    let req = prove_request(CircuitType::Bundle, "v0.13.1", "{\"proofs\": []}");
    let resp = prove_prepare(&p, &req).expect_err("missing envelope must fail");
    assert_eq!(resp.status, TaskStatus::Failed);
    assert!(resp.error.is_some());
    assert_eq!(resp.input.as_deref(), Some("{\"proofs\": []}"));
}

#[test]
fn prove_success_maps_fields_and_timestamps() {
    let req = prove_request(CircuitType::Chunk, "v0.13.1", "{\"chunk\": 1}");
    let body = "{\"proof_id\": \"task-1\", \"status\": \"Ready\", \"date_created\": \"2024-01-02T03:04:05.250Z\", \"queue_time_sec\": 1.5, \"compute_time_sec\": 2.25, \"proof\": {\"x\": 1}, \"verification_key\": {\"verification_key\": \"vk-text\"}, \"error\": null}";
    let resp = prove_finish(&req, Ok(body.to_string()));
    assert_eq!(resp.task_id, "task-1");
    assert_eq!(resp.circuit_type, CircuitType::Chunk);
    assert_eq!(resp.circuit_version, "v0.13.1");
    assert_eq!(resp.hard_fork_name, "euclid");
    assert_eq!(resp.status, TaskStatus::Success);
    assert_eq!(resp.created_at, 1_704_164_645_250);
    assert_eq!(resp.started_at, Some(1_704_164_646_750));
    assert_eq!(resp.finished_at, Some(1_704_164_649_000));
    assert_eq!(resp.compute_time_ms, Some(2250));
    assert_eq!(resp.input.as_deref(), Some("{\"chunk\": 1}"));
    assert_eq!(resp.proof.as_deref(), Some("{\"x\":1}"));
    assert_eq!(resp.vk.as_deref(), Some("vk-text"));
    assert_eq!(resp.error, None);
}

#[test]
fn prove_success_carries_backend_task_error() {
    let req = prove_request(CircuitType::Chunk, "v0.13.1", "{}");
    let body = "{\"proof_id\": \"task-2\", \"status\": \"Failed\", \"date_created\": \"2024-01-02T03:04:05Z\", \"error\": \"proof computation failed\"}";
    let resp = prove_finish(&req, Ok(body.to_string()));
    assert_eq!(resp.task_id, "task-2");
    assert_eq!(resp.status, TaskStatus::Failed);
    assert_eq!(resp.created_at, 1_704_164_645_000);
    assert_eq!(resp.started_at, None);
    assert_eq!(resp.finished_at, None);
    // absent proof field serializes as the JSON null text, as the wrapped
    // optional does upstream
    assert_eq!(resp.proof.as_deref(), Some("null"));
    assert_eq!(resp.vk, None);
    assert_eq!(resp.error.as_deref(), Some("proof computation failed"));
}

#[test]
fn prove_transport_failure_returns_populated_failure() {
    let req = prove_request(CircuitType::Batch, "v0.13.1", "{\"b\": 2}");
    let resp = prove_finish(&req, Err("connection timed out".to_string()));
    assert_eq!(resp.task_id, "");
    assert_eq!(resp.status, TaskStatus::Failed);
    assert_eq!(resp.created_at, 0);
    assert_eq!(
        resp.error.as_deref(),
        Some("Failed to request proof: connection timed out")
    );
    assert_eq!(resp.input.as_deref(), Some("{\"b\": 2}"));
}

#[test]
fn prove_undecodable_body_returns_populated_failure() {
    let req = prove_request(CircuitType::Chunk, "v0.13.1", "{}");
    let resp = prove_finish(&req, Ok("{\"status\": \"Ready\"}".to_string()));
    assert_eq!(resp.status, TaskStatus::Failed);
    assert!(resp.error.is_some());
}

#[test]
fn query_task_builds_detail_route_with_includes() {
    let p = prover();
    let req = QueryTaskRequest {
        task_id: "task-9".to_string(),
    };
    let url = query_task_prepare(&p, &req);
    assert_eq!(
        url,
        "https://example.com/api/v1/proof/task-9/detail?include_proof=true&include_public=true&include_verification_key=true"
    );
}

#[test]
fn query_task_non_2xx_keeps_task_id_and_defaults_to_queued() {
    let req = QueryTaskRequest {
        task_id: "task-9".to_string(),
    };
    let outcome = http_outcome("detail", 500, "server error".to_string());
    assert!(outcome.is_err());
    let resp = query_task_finish(&req, outcome);
    assert_eq!(resp.task_id, "task-9");
    assert_eq!(resp.circuit_type, CircuitType::Undefined);
    assert_eq!(resp.circuit_version, "");
    assert_eq!(resp.hard_fork_name, "");
    assert_eq!(resp.status, TaskStatus::Queued);
    assert_eq!(resp.created_at, 0);
    assert_eq!(resp.started_at, None);
    assert_eq!(resp.finished_at, None);
    assert_eq!(resp.input, None);
    assert_eq!(resp.proof, None);
    assert_eq!(resp.vk, None);
    let err = resp.error.expect("failure must be reported");
    assert!(!err.is_empty());
    assert!(err.starts_with("Failed to query proof: "));
}

#[test]
fn query_task_success_maps_fields() {
    let req = QueryTaskRequest {
        task_id: "task-9".to_string(),
    };
    let body = "{\"proof_id\": \"task-9\", \"status\": \"In Progress\", \"date_created\": \"2024-01-02T03:04:05Z\", \"queue_time_sec\": 2}";
    let resp = query_task_finish(&req, Ok(body.to_string()));
    assert_eq!(resp.task_id, "task-9");
    assert_eq!(resp.status, TaskStatus::Proving);
    assert_eq!(resp.circuit_type, CircuitType::Undefined);
    assert_eq!(resp.circuit_version, "");
    assert_eq!(resp.created_at, 1_704_164_645_000);
    assert_eq!(resp.started_at, Some(1_704_164_647_000));
    assert_eq!(resp.finished_at, None);
    assert_eq!(resp.input, None);
    assert_eq!(resp.proof.as_deref(), Some("null"));
    assert_eq!(resp.error, None);
}

#[test]
fn http_outcome_accepts_exactly_200_to_202() {
    assert!(http_outcome("detail", 199, String::new()).is_err());
    assert_eq!(
        http_outcome("detail", 200, "a".to_string()),
        Ok("a".to_string())
    );
    assert_eq!(
        http_outcome("detail", 202, "b".to_string()),
        Ok("b".to_string())
    );
    let err = http_outcome("detail", 203, String::new()).expect_err("203 fails");
    assert!(err.contains("203"));
    let err = http_outcome("prove", 500, String::new()).expect_err("500 fails");
    assert!(err.contains("status not ok"));
    assert!(err.contains("prove"));
}
