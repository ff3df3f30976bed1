//! Where telemetry is sent: one collector endpoint, or nowhere.

use vstd::prelude::*;
use crate::text::starts_with;

verus! {

/// The environment variable that names the endpoint where no flag does.
pub const ENDPOINT_ENV_VAR: &'static str = "OTEL_EXPORTER_OTLP_ENDPOINT";

/// The endpoint names its scheme.
pub open spec fn has_scheme(endpoint: Seq<char>) -> bool {
    "http://"@.is_prefix_of(endpoint) || "https://"@.is_prefix_of(endpoint)
}

/// The endpoint with a scheme: itself if it names one, else behind `http://`.
pub open spec fn normalized(endpoint: Seq<char>) -> Seq<char> {
    if has_scheme(endpoint) {
        endpoint
    } else {
        "http://"@ + endpoint
    }
}

/// The endpoint to use: the one given on the command line if there is one,
/// else the one from the environment, with a scheme; none if neither is set.
pub open spec fn resolved(flag: Option<Seq<char>>, env: Option<Seq<char>>) -> Option<Seq<char>> {
    match flag {
        Some(f) => Some(normalized(f)),
        None => match env {
            Some(e) => Some(normalized(e)),
            None => None,
        },
    }
}

/// The endpoint with a scheme: `http://` is put before one that names none.
pub fn normalize_endpoint(endpoint: &str) -> (n: String)
    ensures
        n@ == normalized(endpoint@),
{
    if starts_with(endpoint, "http://") || starts_with(endpoint, "https://") {
        String::from_str(endpoint)
    } else {
        String::from_str("http://").concat(endpoint)
    }
}

/// The endpoint to export to, with a scheme: the flag before the
/// environment, none where neither is set.
pub fn resolve_endpoint(flag: Option<String>, env: Option<String>) -> (r: Option<String>)
    ensures
        r is Some <==> flag is Some || env is Some,
        match r {
            Some(s) => Some(s@) == resolved(
                match flag {
                    Some(f) => Some(f@),
                    None => None,
                },
                match env {
                    Some(e) => Some(e@),
                    None => None,
                },
            ),
            None => flag is None && env is None,
        },
{
    match flag {
        Some(f) => Some(normalize_endpoint(f.as_str())),
        None => match env {
            Some(e) => Some(normalize_endpoint(e.as_str())),
            None => None,
        },
    }
}

/// A normalized endpoint names a scheme, so normalizing it again changes
/// nothing.
pub proof fn lemma_normalized_has_scheme(endpoint: Seq<char>)
    ensures
        has_scheme(normalized(endpoint)),
        normalized(normalized(endpoint)) == normalized(endpoint),
{
    if !has_scheme(endpoint) {
        assert(("http://"@ + endpoint).subrange(0, "http://"@.len() as int) =~= "http://"@);
    }
}

} // verus!
