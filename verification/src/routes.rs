use vstd::prelude::*;
use vstd::string::*;

verus! {

/// Closed set of circuit kinds the backend proves against. `Undefined` is a
/// sentinel that must never reach route construction.
#[derive(Clone, Copy, PartialEq, Eq, Structural, Debug)]
pub enum CircuitType {
    Chunk,
    Batch,
    Bundle,
    Undefined,
}

/// Logical target of a backend call: a circuit (by kind) or an existing
/// proof task (by its backend-assigned identifier).
pub enum MethodClass {
    Circuit(CircuitType),
    Proof(String),
}

/// The protocol version this adapter implements.
pub open spec fn spec_circuit_version() -> Seq<char> {
    "v0.13.1"@
}

/// The protocol version this adapter implements.
pub fn this_circuit_version() -> (r: &'static str)
    ensures
        r@ == spec_circuit_version(),
{
    "v0.13.1"
}

/// The backend's kind-specific prover name.
pub open spec fn spec_kind_tag(k: CircuitType) -> Seq<char> {
    match k {
        CircuitType::Chunk => "chunk_prover"@,
        CircuitType::Batch => "batch_prover"@,
        CircuitType::Bundle => "bundle_prover"@,
        CircuitType::Undefined => Seq::empty(),
    }
}

fn kind_tag(k: CircuitType) -> (r: &'static str)
    requires
        k != CircuitType::Undefined,
    ensures
        r@ == spec_kind_tag(k),
{
    match k {
        CircuitType::Chunk => "chunk_prover",
        CircuitType::Batch => "batch_prover",
        CircuitType::Bundle => "bundle_prover",
        CircuitType::Undefined => {
            proof {
                reveal_strlit("");
                assert(""@ =~= Seq::<char>::empty());
            }
            ""
        },
    }
}

/// Path segment selecting a circuit: `circuit/scroll-tech/<kind>:<version>/`.
pub open spec fn spec_circuit_segment(k: CircuitType) -> Seq<char> {
    "circuit/scroll-tech/"@ + spec_kind_tag(k) + ":"@ + spec_circuit_version() + "/"@
}

/// Path segment selecting a proof task: `proof/<task-id>/`.
pub open spec fn spec_proof_segment(id: Seq<char>) -> Seq<char> {
    "proof/"@ + id + "/"@
}

/// Path segment for a method class.
pub open spec fn spec_method_base(class: MethodClass) -> Seq<char> {
    match class {
        MethodClass::Circuit(k) => spec_circuit_segment(k),
        MethodClass::Proof(id) => spec_proof_segment(id@),
    }
}

/// The query pairs after the first, each prefixed by `&`.
pub open spec fn spec_query_rest(params: Seq<(Seq<char>, Seq<char>)>) -> Seq<char>
    decreases params.len(),
{
    if params.len() == 0 {
        Seq::empty()
    } else {
        "&"@ + params[0].0 + "="@ + params[0].1 + spec_query_rest(params.drop_first())
    }
}

/// The query string: empty without parameters, else `?` followed by `k=v`
/// pairs joined by `&`, appended verbatim in the given order.
pub open spec fn spec_query_suffix(params: Seq<(Seq<char>, Seq<char>)>) -> Seq<char> {
    if params.len() == 0 {
        Seq::empty()
    } else {
        "?"@ + params[0].0 + "="@ + params[0].1 + spec_query_rest(params.drop_first())
    }
}

pub open spec fn spec_params_view(params: Seq<(String, String)>) -> Seq<(Seq<char>, Seq<char>)> {
    params.map_values(|p: (String, String)| (p.0@, p.1@))
}

/// The full route for a method call: the API root, the target's path
/// segment, the method name, and the query string.
pub open spec fn spec_route(
    root: Seq<char>,
    class: MethodClass,
    method: Seq<char>,
    params: Seq<(Seq<char>, Seq<char>)>,
) -> Seq<char> {
    root + spec_method_base(class) + method + spec_query_suffix(params)
}

proof fn lemma_query_rest_unfold(params: Seq<(Seq<char>, Seq<char>)>, i: int)
    requires
        0 <= i < params.len(),
    ensures
        spec_query_rest(params.skip(i)) == "&"@ + params[i].0 + "="@ + params[i].1
            + spec_query_rest(params.skip(i + 1)),
{
    assert(params.skip(i).len() > 0);
    assert(params.skip(i)[0] == params[i]);
    assert(params.skip(i).drop_first() =~= params.skip(i + 1));
}

/// Build the route path for a method call against the given API root,
/// appended verbatim in the order given.
pub fn build_route(
    root: &String,
    class: &MethodClass,
    method: &str,
    query_params: Option<&Vec<(String, String)>>,
) -> (r: String)
    requires
        (match *class {
            MethodClass::Circuit(k) => k != CircuitType::Undefined,
            MethodClass::Proof(_) => true,
        }),
    ensures
        (match query_params {
            Some(ps) => r@ == spec_route(root@, *class, method@, spec_params_view(ps@)),
            None => r@ == spec_route(root@, *class, method@, Seq::empty()),
        }),
{
    let mut out: String = root.clone();
    match class {
        MethodClass::Circuit(k) => {
            out.append("circuit/scroll-tech/");
            out.append(kind_tag(*k));
            out.append(":");
            out.append(this_circuit_version());
            out.append("/");
            proof {
                assert(out@ =~= root@ + spec_circuit_segment(*k));
            }
        },
        MethodClass::Proof(id) => {
            out.append("proof/");
            out.append(id.as_str());
            out.append("/");
            proof {
                assert(out@ =~= root@ + spec_proof_segment(id@));
            }
        },
    }
    out.append(method);
    let ghost base: Seq<char> = out@;
    match query_params {
        None => {
            proof {
                assert(out@ =~= spec_route(root@, *class, method@, Seq::empty()));
            }
            out
        },
        Some(ps) => {
            let ghost pv: Seq<(Seq<char>, Seq<char>)> = spec_params_view(ps@);
            let n = ps.len();
            if n == 0 {
                proof {
                    assert(out@ =~= spec_route(root@, *class, method@, pv));
                }
                return out;
            }
            out.append("?");
            out.append(ps[0].0.as_str());
            out.append("=");
            out.append(ps[0].1.as_str());
            let mut i: usize = 1;
            proof {
                assert(pv.skip(1) =~= pv.drop_first());
                assert(out@ + spec_query_rest(pv.skip(1)) =~= base + spec_query_suffix(pv));
            }
            while i < n
                invariant
                    1 <= i <= n,
                    n == ps@.len(),
                    pv == spec_params_view(ps@),
                    out@ + spec_query_rest(pv.skip(i as int)) == base + spec_query_suffix(pv),
                decreases n - i,
            {
                let ghost before: Seq<char> = out@;
                out.append("&");
                out.append(ps[i].0.as_str());
                out.append("=");
                out.append(ps[i].1.as_str());
                proof {
                    lemma_query_rest_unfold(pv, i as int);
                    assert(out@ + spec_query_rest(pv.skip(i + 1)) =~= before + spec_query_rest(
                        pv.skip(i as int),
                    ));
                }
                i = i + 1;
            }
            proof {
                assert(pv.skip(n as int) =~= Seq::empty());
                assert(spec_query_rest(pv.skip(n as int)) =~= Seq::empty());
                assert(out@ =~= out@ + spec_query_rest(pv.skip(n as int)));
                assert(out@ =~= spec_route(root@, *class, method@, pv));
            }
            out
        },
    }
}

/// Law: a route built for a supported circuit kind contains the kind-specific
/// prover segment, and the exact protocol version directly after it, as
/// contiguous substrings at known offsets.
pub proof fn lemma_circuit_route_has_kind_and_version(
    root: Seq<char>,
    k: CircuitType,
    method: Seq<char>,
    params: Seq<(Seq<char>, Seq<char>)>,
)
    requires
        k != CircuitType::Undefined,
    ensures
        ({
            let r = spec_route(root, MethodClass::Circuit(k), method, params);
            let tag_at: int = (root.len() + "circuit/scroll-tech/"@.len()) as int;
            let ver_at: int = tag_at + spec_kind_tag(k).len() + 1;
            &&& r.subrange(tag_at, tag_at + spec_kind_tag(k).len()) == spec_kind_tag(k)
            &&& r.subrange(ver_at, ver_at + spec_circuit_version().len())
                == spec_circuit_version()
        }),
{
    let r = spec_route(root, MethodClass::Circuit(k), method, params);
    let tag = spec_kind_tag(k);
    let ver = spec_circuit_version();
    let tag_at: int = (root.len() + "circuit/scroll-tech/"@.len()) as int;
    let ver_at: int = tag_at + tag.len() + 1;
    reveal_strlit("circuit/scroll-tech/");
    reveal_strlit(":");
    reveal_strlit("/");
    assert(r =~= root + "circuit/scroll-tech/"@ + tag + ":"@ + ver + "/"@ + method
        + spec_query_suffix(params));
    assert(r.subrange(tag_at, tag_at + tag.len()) =~= tag);
    assert(r.subrange(ver_at, ver_at + ver.len()) =~= ver);
}

} // verus!
