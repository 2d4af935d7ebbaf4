use sindri_prover::decode::decode_proof_info;
use sindri_prover::messages::QueryTaskRequest;
use sindri_prover::ops::query_task_finish;
use sindri_prover::status::SindriTaskStatus;
use sindri_prover::timeparse::{derive_timestamps, parse_rfc3339_ms, parse_secs_to_ms};

#[test]
fn decode_reads_all_fields() {
    let body = "{\"proof_id\": \"p-1\", \"status\": \"Queued\", \"date_created\": \"2024-01-02T03:04:05Z\", \"queue_time_sec\": 0.125, \"compute_time_sec\": 3, \"proof\": [1, 2], \"verification_key\": {\"verification_key\": \"kk\"}, \"error\": \"late\"}";
    let info = decode_proof_info(body).expect("body must decode");
    assert_eq!(info.proof_id, "p-1");
    assert_eq!(info.status, SindriTaskStatus::Queued);
    assert_eq!(info.date_created, "2024-01-02T03:04:05Z");
    assert_eq!(info.queue_time_ms, Some(125));
    assert_eq!(info.compute_time_ms, Some(3000));
    assert_eq!(info.proof.as_deref(), Some("[1,2]"));
    assert_eq!(
        info.verification_key.expect("key expected").verification_key,
        "kk"
    );
    assert_eq!(info.error.as_deref(), Some("late"));
}

#[test]
fn decode_treats_null_error_as_absent() {
    let body = "{\"proof_id\": \"p-2\", \"status\": \"In Progress\", \"date_created\": \"2024-01-02T03:04:05Z\", \"error\": null}";
    let info = decode_proof_info(body).expect("body must decode");
    assert_eq!(info.status, SindriTaskStatus::Proving);
    assert_eq!(info.error, None);
    assert_eq!(info.proof, None);
    assert_eq!(info.queue_time_ms, None);
}

#[test]
fn decode_rejects_missing_required_fields() {
    assert!(decode_proof_info("not json at all").is_err());
    assert!(decode_proof_info("{}").is_err());
    assert!(decode_proof_info("{\"proof_id\": \"x\", \"status\": \"Ready\"}").is_err());
    let unknown_status = "{\"proof_id\": \"x\", \"status\": \"Exploded\", \"date_created\": \"2024-01-02T03:04:05Z\"}";
    assert!(decode_proof_info(unknown_status).is_err());
}

#[test]
fn deeply_nested_body_fails_decode_without_crash() {
    let depth = 100_000;
    let mut body = String::with_capacity(2 * depth + 2);
    for _ in 0..depth {
        body.push('[');
    }
    body.push('1');
    for _ in 0..depth {
        body.push(']');
    }
    let r = decode_proof_info(&body);
    assert!(r.is_err());
}

#[test]
fn deeply_nested_proof_field_decodes_without_crash() {
    let depth = 100_000;
    let mut proof = String::with_capacity(2 * depth + 8);
    for _ in 0..depth {
        proof.push('[');
    }
    proof.push('7');
    for _ in 0..depth {
        proof.push(']');
    }
    let body = format!(
        "{{\"proof_id\": \"deep\", \"status\": \"Ready\", \"date_created\": \"2024-01-02T03:04:05Z\", \"proof\": {}}}",
        proof
    );
    let info = decode_proof_info(&body).expect("deep body must decode");
    assert_eq!(info.proof.expect("proof text expected"), proof);
}

#[test]
fn deeply_nested_query_outcome_never_faults() {
    let depth = 100_000;
    let mut body = String::with_capacity(2 * depth);
    for _ in 0..depth {
        body.push('[');
    }
    for _ in 0..depth {
        body.push(']');
    }
    let req = QueryTaskRequest {
        task_id: "t".to_string(),
    };
    let resp = query_task_finish(&req, Ok(body));
    assert_eq!(resp.task_id, "t");
    assert!(resp.error.is_some());
}

#[test]
fn rfc3339_parse_has_exact_epoch_values() {
    assert_eq!(parse_rfc3339_ms("1970-01-01T00:00:00Z"), Some(0));
    assert_eq!(parse_rfc3339_ms("1970-01-01T00:00:00.001Z"), Some(1));
    assert_eq!(
        parse_rfc3339_ms("2024-01-02T03:04:05Z"),
        Some(1_704_164_645_000)
    );
    assert_eq!(
        parse_rfc3339_ms("2024-01-02T03:04:05.250Z"),
        Some(1_704_164_645_250)
    );
    // leap day of a leap year
    assert_eq!(
        parse_rfc3339_ms("2024-02-29T00:00:00Z"),
        Some(1_709_164_800_000)
    );
}

#[test]
fn rfc3339_parse_rejects_other_forms() {
    assert_eq!(parse_rfc3339_ms(""), None);
    assert_eq!(parse_rfc3339_ms("2024-01-02 03:04:05Z"), None);
    assert_eq!(parse_rfc3339_ms("2024-01-02T03:04:05"), None);
    assert_eq!(parse_rfc3339_ms("2024-01-02T03:04:05+00:00"), None);
    assert_eq!(parse_rfc3339_ms("2024-13-02T03:04:05Z"), None);
    assert_eq!(parse_rfc3339_ms("2024-00-02T03:04:05Z"), None);
    assert_eq!(parse_rfc3339_ms("2024-01-02T24:04:05Z"), None);
    assert_eq!(parse_rfc3339_ms("1899-01-02T03:04:05Z"), None);
    assert_eq!(parse_rfc3339_ms("2024-01-02T03:04:05.Z"), None);
}

#[test]
fn seconds_parse_scales_to_milliseconds() {
    assert_eq!(parse_secs_to_ms("0"), Some(0));
    assert_eq!(parse_secs_to_ms("12"), Some(12_000));
    assert_eq!(parse_secs_to_ms("1.5"), Some(1_500));
    assert_eq!(parse_secs_to_ms("0.125"), Some(125));
    assert_eq!(parse_secs_to_ms("2.25"), Some(2_250));
    assert_eq!(parse_secs_to_ms("12.3456"), Some(12_345));
    assert_eq!(parse_secs_to_ms("12.0"), Some(12_000));
}

#[test]
fn seconds_parse_rejects_non_decimals() {
    assert_eq!(parse_secs_to_ms(""), None);
    assert_eq!(parse_secs_to_ms("-1"), None);
    assert_eq!(parse_secs_to_ms("1e-05"), None);
    assert_eq!(parse_secs_to_ms(".5"), None);
    assert_eq!(parse_secs_to_ms("5."), None);
    assert_eq!(parse_secs_to_ms("1.2.3"), None);
    assert_eq!(parse_secs_to_ms("999999999999999999999"), None);
}

#[test]
fn timestamp_derivation_propagates_absence() {
    assert_eq!(
        derive_timestamps(Some(100), Some(5), Some(7)),
        (100, Some(105), Some(112))
    );
    assert_eq!(derive_timestamps(Some(100), None, Some(7)), (100, None, None));
    assert_eq!(derive_timestamps(Some(100), Some(5), None), (100, Some(105), None));
    assert_eq!(derive_timestamps(None, Some(5), Some(7)), (0, None, None));
}
