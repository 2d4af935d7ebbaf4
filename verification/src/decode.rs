use vstd::prelude::*;
use crate::jsonio::{
    dispose_json, json_as_str, json_canon, json_field, json_field_canon, json_str_content,
    json_to_text, parse_json,
};
use crate::messages::SindriProofInfoResponse;
use crate::status::{parse_sindri_status, spec_parse_status};
use crate::timeparse::{parse_secs_to_ms, spec_secs_text_ms};
use crate::vk::VerificationKey;

verus! {

/// The string content of the named field of the object whose canonical text
/// is `doc`, where that field holds a JSON string.
pub open spec fn spec_field_str(doc: Seq<char>, key: Seq<char>) -> Option<Seq<char>> {
    match json_field_canon(doc, key) {
        Some(t) => json_str_content(t),
        None => None,
    }
}

/// The named field of `doc` read as decimal seconds and scaled to
/// milliseconds, where the field is present and of that shape.
pub open spec fn spec_field_ms(doc: Seq<char>, key: Seq<char>) -> Option<int> {
    match json_field_canon(doc, key) {
        Some(t) => spec_secs_text_ms(t),
        None => None,
    }
}

/// The key material nested under `verification_key.verification_key` in the
/// object whose canonical text is `doc`.
pub open spec fn spec_vk_str(doc: Seq<char>) -> Option<Seq<char>> {
    match json_field_canon(doc, "verification_key"@) {
        Some(t) => spec_field_str(t, "verification_key"@),
        None => None,
    }
}

/// A proof-detail body decodes when it is JSON carrying a string `proof_id`,
/// a recognised string `status`, and a string `date_created`; every other
/// field is optional.
pub open spec fn spec_proof_info_decodable(body: Seq<char>) -> bool {
    &&& json_canon(body) is Some
    &&& spec_field_str(json_canon(body).unwrap(), "proof_id"@) is Some
    &&& (match spec_field_str(json_canon(body).unwrap(), "status"@) {
        Some(t) => spec_parse_status(t) is Some,
        None => false,
    })
    &&& spec_field_str(json_canon(body).unwrap(), "date_created"@) is Some
}

/// How a decoded record relates to the body it was read from, field by field.
pub open spec fn spec_proof_info_matches(body: Seq<char>, info: SindriProofInfoResponse) -> bool {
    let doc = json_canon(body).unwrap();
    &&& json_canon(body) is Some
    &&& Some(info.proof_id@) == spec_field_str(doc, "proof_id"@)
    &&& (match spec_field_str(doc, "status"@) {
        Some(t) => spec_parse_status(t) == Some(info.status),
        None => false,
    })
    &&& Some(info.date_created@) == spec_field_str(doc, "date_created"@)
    &&& (match info.queue_time_ms {
        Some(v) => spec_field_ms(doc, "queue_time_sec"@) == Some(v as int),
        None => spec_field_ms(doc, "queue_time_sec"@) is None,
    })
    &&& (match info.compute_time_ms {
        Some(v) => spec_field_ms(doc, "compute_time_sec"@) == Some(v as int),
        None => spec_field_ms(doc, "compute_time_sec"@) is None,
    })
    &&& (match info.proof {
        Some(t) => json_field_canon(doc, "proof"@) == Some(t@),
        None => json_field_canon(doc, "proof"@) is None,
    })
    &&& (match info.verification_key {
        Some(k) => spec_vk_str(doc) == Some(k.verification_key@),
        None => spec_vk_str(doc) is None,
    })
    &&& (match info.error {
        Some(e) => spec_field_str(doc, "error"@) == Some(e@),
        None => spec_field_str(doc, "error"@) is None,
    })
}

/// Decode a proof-detail body into the fields the adapter reads. The decode
/// fails exactly where the body is not JSON or a required field is missing
/// or malformed; a deeply nested body is parsed and disposed of on the heap,
/// so it can fail the decode but not exhaust the call stack.
pub fn decode_proof_info(body: &str) -> (r: Result<SindriProofInfoResponse, String>)
    ensures
        r matches Ok(info) ==> spec_proof_info_matches(body@, info),
        r is Err <==> !spec_proof_info_decodable(body@),
{
    let v = match parse_json(body) {
        Ok(v) => v,
        Err(e) => {
            return Err(e);
        },
    };
    let proof_id: Option<String> = match json_field(&v, "proof_id") {
        Some(f) => json_as_str(f),
        None => None,
    };
    let status_text: Option<String> = match json_field(&v, "status") {
        Some(f) => json_as_str(f),
        None => None,
    };
    let date_created: Option<String> = match json_field(&v, "date_created") {
        Some(f) => json_as_str(f),
        None => None,
    };
    let queue_time_ms: Option<u64> = match json_field(&v, "queue_time_sec") {
        Some(f) => {
            let t = json_to_text(f);
            parse_secs_to_ms(t.as_str())
        },
        None => None,
    };
    let compute_time_ms: Option<u64> = match json_field(&v, "compute_time_sec") {
        Some(f) => {
            let t = json_to_text(f);
            parse_secs_to_ms(t.as_str())
        },
        None => None,
    };
    let proof: Option<String> = match json_field(&v, "proof") {
        Some(f) => Some(json_to_text(f)),
        None => None,
    };
    let verification_key: Option<VerificationKey> = match json_field(&v, "verification_key") {
        Some(f) => match json_field(f, "verification_key") {
            Some(g) => match json_as_str(g) {
                Some(s) => Some(VerificationKey { verification_key: s }),
                None => None,
            },
            None => None,
        },
        None => None,
    };
    let error: Option<String> = match json_field(&v, "error") {
        Some(f) => json_as_str(f),
        None => None,
    };
    dispose_json(v);
    let proof_id = match proof_id {
        Some(p) => p,
        None => {
            return Err("proof detail body lacks a string proof_id".to_owned());
        },
    };
    let status = match status_text {
        Some(t) => match parse_sindri_status(&t) {
            Some(s) => s,
            None => {
                return Err("proof detail body carries an unknown status".to_owned());
            },
        },
        None => {
            return Err("proof detail body lacks a string status".to_owned());
        },
    };
    let date_created = match date_created {
        Some(d) => d,
        None => {
            return Err("proof detail body lacks a string date_created".to_owned());
        },
    };
    Ok(
        SindriProofInfoResponse {
            proof_id,
            status,
            date_created,
            queue_time_ms,
            compute_time_ms,
            proof,
            verification_key,
            error,
        },
    )
}

} // verus!
