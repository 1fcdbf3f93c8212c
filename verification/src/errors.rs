use vstd::prelude::*;

verus! {

/// Errors produced by the proxy core.
///
/// Route validation is the only fallible operation of the core itself;
/// per-request transport failures are contained inside the forwarding
/// service and surfaced as HTTP status codes, never as errors.
#[derive(Debug)]
pub enum ProxyError {
    /// A configured route prefix is empty, lacks a leading `/`, or carries a
    /// trailing `/`. The payload is the offending prefix.
    InvalidRoute(String),
}

impl ProxyError {
    /// A human-readable description of the error.
    pub fn message(&self) -> (m: String)
        ensures
            self matches ProxyError::InvalidRoute(p) ==> m@ == "invalid route specified: '"@
                + p@ + "'"@,
    {
        match self {
            ProxyError::InvalidRoute(p) => {
                let mut m = String::from_str("invalid route specified: '");
                m.append(p.as_str());
                m.append("'");
                m
            },
        }
    }
}

} // verus!
