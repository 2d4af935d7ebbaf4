use vstd::prelude::*;
use crate::routes::{build_route, spec_params_view, spec_route, CircuitType, MethodClass};

verus! {

/// Typed adapter configuration, constructed once. The base URL must parse as
/// an absolute URL for construction to succeed; an empty credential only
/// fails at call time, on the backend's side.
pub struct CloudProverConfig {
    pub base_url: String,
    pub api_key: String,
    pub retry_count: u32,
    pub retry_wait_time_sec: u64,
    pub connection_timeout_sec: u64,
}

/// What url::Url::parse followed by Url::join(path) prints for the given
/// base and path; nothing where the base is not an absolute URL or the join
/// fails.
pub uninterp spec fn api_join_of(base: Seq<char>, path: Seq<char>) -> Option<Seq<char>>;

/// Relies on url::Url::parse and Url::join: resolves the given path against
/// the configured base URL.
#[verifier::external_body]
fn join_url(base: &str, path: &str) -> (r: Result<String, String>)
    ensures
        r matches Ok(u) ==> api_join_of(base@, path@) == Some(u@),
        r is Err <==> api_join_of(base@, path@) is None,
{
    match url::Url::parse(base) {
        Ok(u) => match u.join(path) {
            Ok(v) => Ok(String::from(v)),
            Err(e) => Err(e.to_string()),
        },
        Err(e) => Err(e.to_string()),
    }
}

/// The base path under which every call of this backend API version lives.
pub open spec fn spec_api_path() -> Seq<char> {
    "/api/v1/"@
}

pub fn sindri_api_path() -> (r: &'static str)
    ensures
        r@ == spec_api_path(),
{
    "/api/v1/"
}

/// The adapter: the resolved API root, the credential, and the transport
/// parameters. Read-only after construction; it holds no per-call state.
pub struct CloudProver {
    pub api_root: String,
    pub api_key: String,
    pub retry_count: u32,
    pub retry_wait_time_sec: u64,
    pub connection_timeout_sec: u64,
}

impl CloudProver {
    /// The API root is exactly the configured base URL with the fixed API
    /// path resolved against it.
    pub open spec fn wf(&self, base_url: Seq<char>) -> bool {
        api_join_of(base_url, spec_api_path()) == Some(self.api_root@)
    }

    /// Build an adapter from its configuration. Succeeds exactly when the
    /// configured base URL is an absolute URL the fixed API path resolves
    /// against.
    pub fn new(cfg: CloudProverConfig) -> (r: Result<Self, String>)
        ensures
            r matches Ok(p) ==> p.wf(cfg.base_url@) && p.api_key@ == cfg.api_key@ && p.retry_count
                == cfg.retry_count && p.retry_wait_time_sec == cfg.retry_wait_time_sec
                && p.connection_timeout_sec == cfg.connection_timeout_sec,
            r is Err <==> api_join_of(cfg.base_url@, spec_api_path()) is None,
    {
        let api_root = match join_url(cfg.base_url.as_str(), sindri_api_path()) {
            Ok(u) => u,
            Err(e) => {
                return Err(e);
            },
        };
        Ok(
            CloudProver {
                api_root,
                api_key: cfg.api_key,
                retry_count: cfg.retry_count,
                retry_wait_time_sec: cfg.retry_wait_time_sec,
                connection_timeout_sec: cfg.connection_timeout_sec,
            },
        )
    }

    /// This adapter fronts a remote proving service.
    pub fn is_local(&self) -> (r: bool)
        ensures
            r == false,
    {
        false
    }

    /// The retry backoff band in milliseconds: the minimum delay is half the
    /// configured wait time, the maximum the full wait time (saturating on
    /// absurdly large configurations).
    pub fn retry_bounds_ms(&self) -> (r: (u64, u64))
        ensures
            r.1 == (if self.retry_wait_time_sec * 1000 <= u64::MAX {
                self.retry_wait_time_sec * 1000
            } else {
                u64::MAX as int
            }),
            r.0 == r.1 / 2,
    {
        let max_ms: u64 = match self.retry_wait_time_sec.checked_mul(1000) {
            Some(v) => v,
            None => u64::MAX,
        };
        (max_ms / 2, max_ms)
    }

    /// The full URL for a method call on this adapter's API root.
    pub fn build_url(
        &self,
        class: &MethodClass,
        method: &str,
        query_params: Option<&Vec<(String, String)>>,
    ) -> (r: String)
        requires
            (match *class {
                MethodClass::Circuit(k) => k != CircuitType::Undefined,
                MethodClass::Proof(_) => true,
            }),
        ensures
            (match query_params {
                Some(ps) => r@ == spec_route(self.api_root@, *class, method@, spec_params_view(ps@)),
                None => r@ == spec_route(self.api_root@, *class, method@, Seq::empty()),
            }),
    {
        build_route(&self.api_root, class, method, query_params)
    }
}

} // verus!
