use vstd::prelude::*;
use vstd::string::*;
use crate::adapter::CloudProver;
use crate::decode::{
    decode_proof_info, spec_field_ms, spec_field_str, spec_proof_info_decodable, spec_vk_str,
};
use crate::jsonio::{
    dispose_json, json_as_str, json_canon, json_field, json_field_canon, json_obj2, json_obj2_text,
    json_to_text, parse_json,
};
use crate::messages::{
    GetVkRequest, GetVkResponse, ProveRequest, ProveResponse, QueryTaskRequest, QueryTaskResponse,
};
use crate::routes::{
    build_route, spec_circuit_version, spec_params_view, spec_route, this_circuit_version,
    CircuitType, MethodClass,
};
use crate::status::{spec_parse_status, spec_status_map, TaskStatus};
use crate::timeparse::{derive_timestamps, parse_rfc3339_ms, spec_rfc3339_ms, spec_rfc3339_valid};
use crate::vk::{reformat_vk, spec_reformat_vk};

verus! {

/// A backend HTTP status is successful exactly in the inclusive 200..=202
/// range.
pub open spec fn spec_status_ok(code: u16) -> bool {
    200 <= code <= 202
}

/// Relies on u16's Display implementation: the decimal digits of the value.
#[verifier::external_body]
fn u16_to_string(v: u16) -> (r: String)
    ensures
        r@.len() > 0,
{
    v.to_string()
}

/// Classify one HTTP exchange by its status code: a status in 200..=202
/// hands the body on; any other status becomes a transport error naming the
/// method and the code.
pub fn http_outcome(method: &str, code: u16, body: String) -> (r: Result<String, String>)
    ensures
        spec_status_ok(code) ==> (r matches Ok(b) && b@ == body@),
        !spec_status_ok(code) ==> (r matches Err(m) && m@.len() > 0),
{
    if 200 <= code && code <= 202 {
        Ok(body)
    } else {
        let mut m: String = "[Sindri client], ".to_owned();
        m.append(method);
        m.append(", status not ok: ");
        let code_text = u16_to_string(code);
        m.append(code_text.as_str());
        proof {
            reveal_strlit("[Sindri client], ");
        }
        Err(m)
    }
}

/// The key material a circuit-detail body carries, nested under
/// `verification_key.verification_key`.
pub open spec fn spec_circuit_vk(body: Seq<char>) -> Option<Seq<char>> {
    match json_canon(body) {
        Some(doc) => spec_vk_str(doc),
        None => None,
    }
}

/// The re-encoded key a circuit-detail body yields, where the body decodes
/// and its key re-encodes.
pub open spec fn spec_new_vk(body: Seq<char>) -> Option<Seq<char>> {
    match spec_circuit_vk(body) {
        Some(vk_old) => spec_reformat_vk(vk_old),
        None => None,
    }
}

/// Extract the raw key material from a circuit-detail body.
fn extract_circuit_vk(body: &str) -> (r: Result<String, String>)
    ensures
        r matches Ok(s) ==> Some(s@) == spec_circuit_vk(body@),
        r is Err <==> spec_circuit_vk(body@) is None,
{
    let v = match parse_json(body) {
        Ok(v) => v,
        Err(e) => {
            return Err(e);
        },
    };
    let vk: Option<String> = match json_field(&v, "verification_key") {
        Some(f) => match json_field(f, "verification_key") {
            Some(g) => json_as_str(g),
            None => None,
        },
        None => None,
    };
    dispose_json(v);
    match vk {
        Some(s) => Ok(s),
        None => Err("circuit detail body lacks key material".to_owned()),
    }
}

/// A text is one of a sequence of strings.
pub open spec fn seq_contains_str(vs: Seq<String>, t: Seq<char>) -> bool {
    exists|j: int| 0 <= j < vs.len() && vs[j]@ == t
}

#[verifier::loop_isolation(false)]
fn vec_contains_string(vs: &Vec<String>, t: &String) -> (r: bool)
    ensures
        r == seq_contains_str(vs@, t@),
{
    let n = vs.len();
    let mut i: usize = 0;
    while i < n
        invariant
            0 <= i <= n,
            forall|k: int| 0 <= k < i ==> vs@[k]@ != t@,
        decreases n - i,
    {
        if vs[i] == *t {
            return true;
        }
        i = i + 1;
    }
    false
}

/// One `get_vks` operation in progress: the version precondition has been
/// checked, and the per-kind circuit-detail calls are consumed one outcome
/// at a time, accumulating re-encoded keys in order of first appearance
/// until the kinds are exhausted or the first failure stops the collection.
pub struct GetVksSession {
    pub api_root: String,
    pub kinds: Vec<CircuitType>,
    pub next: usize,
    pub vks: Vec<String>,
    pub error: Option<String>,
    pub version_ok: bool,
}

impl GetVksSession {
    /// No further backend call is made: the kinds are exhausted, a failure
    /// was recorded, or the requested version did not match.
    pub open spec fn spec_done(&self) -> bool {
        !self.version_ok || self.error is Some || self.next == self.kinds@.len()
    }

    pub open spec fn wf(&self) -> bool {
        &&& self.next <= self.kinds@.len()
        &&& (forall|i: int|
            0 <= i < self.kinds@.len() ==> self.kinds@[i] != CircuitType::Undefined)
        &&& (!self.version_ok ==> self.next == 0 && self.vks@.len() == 0 && (
        self.error matches Some(e) && e@.len() > 0))
    }

    /// Begin a `get_vks` operation. On a version mismatch the session is
    /// born finished, with no keys and a non-empty error, so no backend call
    /// is ever issued for it.
    pub fn start(prover: &CloudProver, req: GetVkRequest) -> (s: Self)
        requires
            forall|i: int|
                0 <= i < req.circuit_types@.len() ==> req.circuit_types@[i]
                    != CircuitType::Undefined,
        ensures
            s.wf(),
            s.api_root@ == prover.api_root@,
            s.kinds@ == req.circuit_types@,
            s.next == 0,
            s.vks@.len() == 0,
            s.version_ok == (req.circuit_version@ == spec_circuit_version()),
            s.version_ok ==> s.error is None,
            !s.version_ok ==> s.spec_done() && (s.error matches Some(e) && e@ == (
            "circuit version mismatch"@)),
    {
        let expected: String = this_circuit_version().to_owned();
        let version_ok = req.circuit_version == expected;
        let error: Option<String> = if version_ok {
            None
        } else {
            Some("circuit version mismatch".to_owned())
        };
        proof {
            reveal_strlit("circuit version mismatch");
        }
        GetVksSession {
            api_root: prover.api_root.clone(),
            kinds: req.circuit_types,
            next: 0,
            vks: Vec::new(),
            error,
            version_ok,
        }
    }

    /// The route of the next circuit-detail call, or nothing once the
    /// session is done.
    pub fn next_route(&self) -> (r: Option<String>)
        requires
            self.wf(),
        ensures
            r is Some <==> !self.spec_done(),
            r matches Some(u) ==> u@ == spec_route(
                self.api_root@,
                MethodClass::Circuit(self.kinds@[self.next as int]),
                "detail"@,
                Seq::empty(),
            ),
    {
        if !self.version_ok || self.error.is_some() || self.next >= self.kinds.len() {
            return None;
        }
        let k = self.kinds[self.next];
        Some(build_route(&self.api_root, &MethodClass::Circuit(k), "detail", None))
    }

    /// Consume the outcome of the pending circuit-detail call: a transport
    /// failure or a body whose key cannot be extracted and re-encoded stops
    /// the session with the keys accumulated so far; a re-encoded key is
    /// appended unless already present.
    pub fn on_outcome(&mut self, outcome: Result<String, String>)
        requires
            old(self).wf(),
            !old(self).spec_done(),
        ensures
            final(self).wf(),
            final(self).api_root@ == old(self).api_root@,
            final(self).kinds@ == old(self).kinds@,
            final(self).version_ok == old(self).version_ok,
            (match outcome {
                Result::Err(e) => (final(self).error matches Some(m) && m@ == e@)
                    && final(self).vks@ == old(self).vks@ && final(self).next == old(self).next,
                Result::Ok(body) => (match spec_new_vk(body@) {
                    Some(t) => {
                        &&& final(self).next == old(self).next + 1
                        &&& final(self).error is None
                        &&& (if seq_contains_str(old(self).vks@, t) {
                            final(self).vks@ == old(self).vks@
                        } else {
                            final(self).vks@.len() == old(self).vks@.len() + 1
                                && final(self).vks@.subrange(0, old(self).vks@.len() as int)
                                == old(self).vks@ && final(self).vks@.last()@ == t
                        })
                    },
                    None => final(self).error is Some && final(self).vks@ == old(self).vks@
                        && final(self).next == old(self).next,
                }),
            }),
    {
        match outcome {
            Err(e) => {
                self.error = Some(e);
            },
            Ok(body) => {
                let vk_old = match extract_circuit_vk(body.as_str()) {
                    Ok(s) => s,
                    Err(e) => {
                        self.error = Some(e);
                        return ;
                    },
                };
                let vk_new = match reformat_vk(vk_old) {
                    Ok(s) => s,
                    Err(e) => {
                        self.error = Some(e);
                        return ;
                    },
                };
                let n = self.kinds.len();
                assert(self.next < n);
                if !vec_contains_string(&self.vks, &vk_new) {
                    let ghost before: Seq<String> = self.vks@;
                    self.vks.push(vk_new);
                    proof {
                        assert(self.vks@.subrange(0, before.len() as int) =~= before);
                    }
                }
                self.next = self.next + 1;
            },
        }
    }

    /// The response this session has accumulated: the keys in order of first
    /// appearance, and the error that stopped collection, if any.
    pub fn response(self) -> (r: GetVkResponse)
        ensures
            r.vks@ == self.vks@,
            r.error == self.error,
    {
        GetVkResponse { vks: self.vks, error: self.error }
    }
}

/// The reshaped proof input a submission carries: for a Bundle circuit the
/// caller's envelope is stripped down to its `batch_proofs` field; for every
/// other kind the input passes through unchanged.
pub open spec fn spec_reshaped_input(req: ProveRequest) -> Option<Seq<char>> {
    if req.circuit_type == CircuitType::Bundle {
        match json_canon(req.input@) {
            Some(doc) => json_field_canon(doc, "batch_proofs"@),
            None => None,
        }
    } else {
        Some(req.input@)
    }
}

/// Strip the Bundle envelope from a proof input, or pass it through for any
/// other circuit kind; fails exactly where a Bundle input is not JSON or
/// lacks the `batch_proofs` field.
pub fn reprocess_prove_input(req: &ProveRequest) -> (r: Result<String, String>)
    ensures
        r matches Ok(s) ==> Some(s@) == spec_reshaped_input(*req),
        r is Err <==> spec_reshaped_input(*req) is None,
{
    if req.circuit_type == CircuitType::Bundle {
        let v = match parse_json(req.input.as_str()) {
            Ok(v) => v,
            Err(e) => {
                return Err(e);
            },
        };
        let inner: Option<String> = match json_field(&v, "batch_proofs") {
            Some(f) => Some(json_to_text(f)),
            None => None,
        };
        dispose_json(v);
        match inner {
            Some(s) => Ok(s),
            None => Err("bundle input lacks a batch_proofs field".to_owned()),
        }
    } else {
        Ok(req.input.clone())
    }
}

/// The fixed failure shape of a submission: an empty task ID, status Failed,
/// zero creation time, all optional ingredients absent, the caller's input
/// echoed back, and a populated error field.
pub open spec fn spec_prove_error_resp(req: ProveRequest, resp: ProveResponse) -> bool {
    &&& resp.task_id@.len() == 0
    &&& resp.circuit_type == req.circuit_type
    &&& resp.circuit_version@ == req.circuit_version@
    &&& resp.hard_fork_name@ == req.hard_fork_name@
    &&& resp.status == TaskStatus::Failed
    &&& resp.created_at == 0
    &&& resp.started_at is None
    &&& resp.finished_at is None
    &&& resp.compute_time_ms is None
    &&& (resp.input matches Some(s) && s@ == req.input@)
    &&& resp.proof is None
    &&& resp.vk is None
    &&& resp.error is Some
}

/// Build the uniform failure response for a submission.
pub fn build_prove_error_response(req: &ProveRequest, error_msg: &str) -> (r: ProveResponse)
    ensures
        spec_prove_error_resp(*req, r),
        r.error matches Some(m) && m@ == error_msg@,
{
    ProveResponse {
        task_id: String::new(),
        circuit_type: req.circuit_type,
        circuit_version: req.circuit_version.clone(),
        hard_fork_name: req.hard_fork_name.clone(),
        status: TaskStatus::Failed,
        created_at: 0,
        started_at: None,
        finished_at: None,
        compute_time_ms: None,
        input: Some(req.input.clone()),
        proof: None,
        vk: None,
        error: Some(error_msg.to_owned()),
    }
}

/// A prepared submission: the route to POST to and the JSON body to carry.
#[derive(Debug)]
pub struct PreparedProve {
    pub url: String,
    pub body: String,
}

/// Prepare a submission: check the protocol version, reshape the input, and
/// build the route and request body asking the backend to verify the proof.
pub fn prove_prepare(prover: &CloudProver, req: &ProveRequest) -> (r: Result<
    PreparedProve,
    ProveResponse,
>)
    requires
        req.circuit_version@ == spec_circuit_version() ==> req.circuit_type
            != CircuitType::Undefined,
    ensures
        req.circuit_version@ != spec_circuit_version() ==> (r matches Err(resp)
            && spec_prove_error_resp(*req, resp) && (resp.error matches Some(m) && m@ == (
        "circuit version mismatch"@))),
        req.circuit_version@ == spec_circuit_version() && spec_reshaped_input(*req) is None ==> (
        r matches Err(resp) && spec_prove_error_resp(*req, resp)),
        (req.circuit_version@ == spec_circuit_version() && spec_reshaped_input(*req) is Some)
            ==> (r matches Ok(p) && p.body@ == json_obj2_text(
            "proof_input"@,
            spec_reshaped_input(*req).unwrap(),
            "perform_verify"@,
            true,
        ) && p.url@ == spec_route(
            prover.api_root@,
            MethodClass::Circuit(req.circuit_type),
            "prove"@,
            Seq::empty(),
        )),
{
    let expected: String = this_circuit_version().to_owned();
    if !(req.circuit_version == expected) {
        return Err(build_prove_error_response(req, "circuit version mismatch"));
    }
    let input = match reprocess_prove_input(req) {
        Ok(s) => s,
        Err(e) => {
            return Err(build_prove_error_response(req, e.as_str()));
        },
    };
    let body = json_obj2("proof_input", input.as_str(), "perform_verify", true);
    let url = prover.build_url(&MethodClass::Circuit(req.circuit_type), "prove", None);
    Ok(PreparedProve { url, body })
}

/// The creation time a proof-detail document names, in milliseconds.
pub open spec fn spec_info_created_ms(doc: Seq<char>) -> Option<u64> {
    match spec_field_str(doc, "date_created"@) {
        Some(d) => if spec_rfc3339_valid(d) {
            Some(spec_rfc3339_ms(d) as u64)
        } else {
            None
        },
        None => None,
    }
}

/// Sum of two optional times, absent where an ingredient is absent or the
/// sum leaves the u64 range.
pub open spec fn spec_opt_add(a: Option<u64>, b: Option<u64>) -> Option<u64> {
    match (a, b) {
        (Some(x), Some(y)) => if x + y <= u64::MAX {
            Some((x + y) as u64)
        } else {
            None
        },
        _ => None,
    }
}

/// The named field read as decimal seconds, scaled to milliseconds.
pub open spec fn spec_field_ms64(doc: Seq<char>, key: Seq<char>) -> Option<u64> {
    match spec_field_ms(doc, key) {
        Some(v) => Some(v as u64),
        None => None,
    }
}

/// How a submission response relates to a decodable backend body: fields
/// carried through, the status mapped onto the vendor-neutral vocabulary,
/// and the three timestamps derived from the reported fields.
pub open spec fn spec_prove_success(req: ProveRequest, body: Seq<char>, resp: ProveResponse) -> bool {
    let doc = json_canon(body).unwrap();
    let created = spec_info_created_ms(doc);
    let started = spec_opt_add(created, spec_field_ms64(doc, "queue_time_sec"@));
    let finished = spec_opt_add(started, spec_field_ms64(doc, "compute_time_sec"@));
    &&& Some(resp.task_id@) == spec_field_str(doc, "proof_id"@)
    &&& resp.circuit_type == req.circuit_type
    &&& resp.circuit_version@ == req.circuit_version@
    &&& resp.hard_fork_name@ == req.hard_fork_name@
    &&& (match spec_field_str(doc, "status"@) {
        Some(t) => spec_parse_status(t) matches Some(bs) && resp.status == spec_status_map(bs),
        None => false,
    })
    &&& resp.created_at == (match created {
        Some(c) => c,
        None => 0u64,
    })
    &&& resp.started_at == started
    &&& resp.finished_at == finished
    &&& resp.compute_time_ms == spec_field_ms64(doc, "compute_time_sec"@)
    &&& (resp.input matches Some(s) && s@ == req.input@)
    &&& (match json_field_canon(doc, "proof"@) {
        Some(t) => resp.proof matches Some(p) && p@ == t,
        None => resp.proof matches Some(p) && p@ == "null"@,
    })
    &&& (match spec_vk_str(doc) {
        Some(t) => resp.vk matches Some(k) && k@ == t,
        None => resp.vk is None,
    })
    &&& (match spec_field_str(doc, "error"@) {
        Some(t) => resp.error matches Some(m) && m@ == t,
        None => resp.error is None,
    })
}

/// Finish a submission from the raw outcome of the POST: a transport failure
/// or an undecodable body becomes the uniform failure response; a decodable
/// body is translated field by field. No failure escapes as a fault.
pub fn prove_finish(req: &ProveRequest, outcome: Result<String, String>) -> (r: ProveResponse)
    ensures
        (match outcome {
            Result::Err(e) => spec_prove_error_resp(*req, r) && (r.error matches Some(m) && m@ == (
            "Failed to request proof: "@ + e@)),
            Result::Ok(body) => if spec_proof_info_decodable(body@) {
                spec_prove_success(*req, body@, r)
            } else {
                spec_prove_error_resp(*req, r)
            },
        }),
{
    let body = match outcome {
        Ok(b) => b,
        Err(e) => {
            let mut msg: String = "Failed to request proof: ".to_owned();
            msg.append(e.as_str());
            return build_prove_error_response(req, msg.as_str());
        },
    };
    let info = match decode_proof_info(body.as_str()) {
        Ok(i) => i,
        Err(e) => {
            let mut msg: String = "Failed to request proof: ".to_owned();
            msg.append(e.as_str());
            return build_prove_error_response(req, msg.as_str());
        },
    };
    let created_ms = parse_rfc3339_ms(info.date_created.as_str());
    let ts = derive_timestamps(created_ms, info.queue_time_ms, info.compute_time_ms);
    let proof_text: String = match info.proof {
        Some(t) => t,
        None => "null".to_owned(),
    };
    let vk: Option<String> = match info.verification_key {
        Some(k) => Some(k.verification_key),
        None => None,
    };
    ProveResponse {
        task_id: info.proof_id,
        circuit_type: req.circuit_type,
        circuit_version: req.circuit_version.clone(),
        hard_fork_name: req.hard_fork_name.clone(),
        status: info.status.to_task_status(),
        created_at: ts.0,
        started_at: ts.1,
        finished_at: ts.2,
        compute_time_ms: info.compute_time_ms,
        input: Some(req.input.clone()),
        proof: Some(proof_text),
        vk,
        error: info.error,
    }
}

/// The query parameters every proof-detail call carries.
pub open spec fn spec_query_task_params() -> Seq<(Seq<char>, Seq<char>)> {
    seq![
        ("include_proof"@, "true"@),
        ("include_public"@, "true"@),
        ("include_verification_key"@, "true"@),
    ]
}

/// Build the route of the proof-detail call for a task, asking the backend
/// to include proof, public data, and key material.
pub fn query_task_prepare(prover: &CloudProver, req: &QueryTaskRequest) -> (r: String)
    ensures
        r@ == spec_route(
            prover.api_root@,
            MethodClass::Proof(req.task_id),
            "detail"@,
            spec_query_task_params(),
        ),
{
    let mut params: Vec<(String, String)> = Vec::new();
    params.push(("include_proof".to_owned(), "true".to_owned()));
    params.push(("include_public".to_owned(), "true".to_owned()));
    params.push(("include_verification_key".to_owned(), "true".to_owned()));
    proof {
        assert(spec_params_view(params@) =~= spec_query_task_params());
    }
    build_route(
        &prover.api_root,
        &MethodClass::Proof(req.task_id.clone()),
        "detail",
        Some(&params),
    )
}

/// The fallback shape of a query: the requested task ID preserved so the
/// caller can correlate the failure, status conservatively Queued, the
/// circuit fields left as defined empty sentinels, and a populated error.
pub open spec fn spec_query_fallback(req: QueryTaskRequest, resp: QueryTaskResponse) -> bool {
    &&& resp.task_id@ == req.task_id@
    &&& resp.circuit_type == CircuitType::Undefined
    &&& resp.circuit_version@.len() == 0
    &&& resp.hard_fork_name@.len() == 0
    &&& resp.status == TaskStatus::Queued
    &&& resp.created_at == 0
    &&& resp.started_at is None
    &&& resp.finished_at is None
    &&& resp.compute_time_ms is None
    &&& resp.input is None
    &&& resp.proof is None
    &&& resp.vk is None
    &&& (resp.error matches Some(m) && m@.len() > 0)
}

/// How a query response relates to a decodable backend body. The circuit
/// kind, version and hard-fork name are not known to this call and are left
/// as defined empty sentinels, never fabricated.
pub open spec fn spec_query_success(body: Seq<char>, resp: QueryTaskResponse) -> bool {
    let doc = json_canon(body).unwrap();
    let created = spec_info_created_ms(doc);
    let started = spec_opt_add(created, spec_field_ms64(doc, "queue_time_sec"@));
    let finished = spec_opt_add(started, spec_field_ms64(doc, "compute_time_sec"@));
    &&& Some(resp.task_id@) == spec_field_str(doc, "proof_id"@)
    &&& resp.circuit_type == CircuitType::Undefined
    &&& resp.circuit_version@.len() == 0
    &&& resp.hard_fork_name@.len() == 0
    &&& (match spec_field_str(doc, "status"@) {
        Some(t) => spec_parse_status(t) matches Some(bs) && resp.status == spec_status_map(bs),
        None => false,
    })
    &&& resp.created_at == (match created {
        Some(c) => c,
        None => 0u64,
    })
    &&& resp.started_at == started
    &&& resp.finished_at == finished
    &&& resp.compute_time_ms == spec_field_ms64(doc, "compute_time_sec"@)
    &&& resp.input is None
    &&& (match json_field_canon(doc, "proof"@) {
        Some(t) => resp.proof matches Some(p) && p@ == t,
        None => resp.proof matches Some(p) && p@ == "null"@,
    })
    &&& (match spec_vk_str(doc) {
        Some(t) => resp.vk matches Some(k) && k@ == t,
        None => resp.vk is None,
    })
    &&& (match spec_field_str(doc, "error"@) {
        Some(t) => resp.error matches Some(m) && m@ == t,
        None => resp.error is None,
    })
}

/// Finish a query from the raw outcome of the GET: a transport failure or an
/// undecodable body becomes the fallback response carrying the requested
/// task ID; a decodable body is translated field by field. No failure
/// escapes as a fault.
pub fn query_task_finish(req: &QueryTaskRequest, outcome: Result<String, String>) -> (r:
    QueryTaskResponse)
    ensures
        (match outcome {
            Result::Err(e) => spec_query_fallback(*req, r) && (r.error matches Some(m) && m@ == (
            "Failed to query proof: "@ + e@)),
            Result::Ok(body) => if spec_proof_info_decodable(body@) {
                spec_query_success(body@, r)
            } else {
                spec_query_fallback(*req, r)
            },
        }),
{
    let body = match outcome {
        Ok(b) => b,
        Err(e) => {
            return query_fallback_response(req, e.as_str());
        },
    };
    let info = match decode_proof_info(body.as_str()) {
        Ok(i) => i,
        Err(e) => {
            return query_fallback_response(req, e.as_str());
        },
    };
    let created_ms = parse_rfc3339_ms(info.date_created.as_str());
    let ts = derive_timestamps(created_ms, info.queue_time_ms, info.compute_time_ms);
    let proof_text: String = match info.proof {
        Some(t) => t,
        None => "null".to_owned(),
    };
    let vk: Option<String> = match info.verification_key {
        Some(k) => Some(k.verification_key),
        None => None,
    };
    QueryTaskResponse {
        task_id: info.proof_id,
        circuit_type: CircuitType::Undefined,
        circuit_version: String::new(),
        hard_fork_name: String::new(),
        status: info.status.to_task_status(),
        created_at: ts.0,
        started_at: ts.1,
        finished_at: ts.2,
        compute_time_ms: info.compute_time_ms,
        input: None,
        proof: Some(proof_text),
        vk,
        error: info.error,
    }
}

/// Build the fallback query response around the given failure text.
fn query_fallback_response(req: &QueryTaskRequest, e: &str) -> (r: QueryTaskResponse)
    ensures
        spec_query_fallback(*req, r),
        r.error matches Some(m) && m@ == "Failed to query proof: "@ + e@,
{
    let mut msg: String = "Failed to query proof: ".to_owned();
    msg.append(e);
    proof {
        reveal_strlit("Failed to query proof: ");
    }
    QueryTaskResponse {
        task_id: req.task_id.clone(),
        circuit_type: CircuitType::Undefined,
        circuit_version: String::new(),
        hard_fork_name: String::new(),
        status: TaskStatus::Queued,
        created_at: 0,
        started_at: None,
        finished_at: None,
        compute_time_ms: None,
        input: None,
        proof: None,
        vk: None,
        error: Some(msg),
    }
}

} // verus!
