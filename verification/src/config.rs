use vstd::prelude::*;

verus! {

/// Listener-level settings.
pub struct GeneralConfig {
    /// Address the listener binds, e.g. `127.0.0.1:8443`.
    pub listen_addr: String,
    /// Path of the TLS identity bundle (certificate and private key);
    /// absence means the listener serves plaintext only.
    pub tls_key: Option<String>,
    /// Passphrase protecting the identity bundle.
    pub tls_password: Option<String>,
}

impl GeneralConfig {
    /// TLS termination is enabled exactly when both the identity bundle and
    /// its passphrase are configured.
    pub open spec fn tls_configured(self) -> bool {
        self.tls_key is Some && self.tls_password is Some
    }

    pub fn tls_enabled(&self) -> (b: bool)
        ensures
            b == self.tls_configured(),
    {
        self.tls_key.is_some() && self.tls_password.is_some()
    }
}

/// The validated configuration the core consumes: listener settings and the
/// route list, each entry a (path prefix, backend origin) pair.
///
/// The list is ordered: a route's position is its construction index, which
/// the matching tie-break refers to. Whoever loads the configuration fixes
/// that order deterministically before handing the list over.
pub struct Config {
    pub general: GeneralConfig,
    pub paths: Vec<(String, String)>,
}

} // verus!
