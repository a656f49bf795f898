//! The shared probe configuration: credentials and TLS selection, built
//! once from the command line and handed, read-only, to every per-host
//! probe. The library only models the configuration; turning it into actual
//! connection options is the caller's business.

use vstd::prelude::*;

verus! {

/// How every probe connection negotiates TLS.
pub enum TlsMode {
    /// Require an encrypted connection and authenticate with certificates:
    /// a root CA certificate, a client certificate and a client key, each
    /// given as a file path.
    Cert { root_cert: String, client_cert: String, client_key: String },
    /// Prefer an encrypted connection opportunistically, presenting no
    /// client certificate.
    NoCert,
}

/// The immutable configuration every per-host probe shares: the user to
/// connect as, that user's password, and the TLS mode. Never mutated after
/// construction.
pub struct ProbeConfig {
    pub user: String,
    pub password: String,
    pub tls: TlsMode,
}

impl ProbeConfig {
    /// Builds the shared configuration, field for field.
    pub fn new(user: String, password: String, tls: TlsMode) -> (c: ProbeConfig)
        ensures
            c.user == user,
            c.password == password,
            c.tls == tls,
    {
        ProbeConfig { user, password, tls }
    }
}

/// The port every probe connects to: not configurable, by design.
pub fn probe_port() -> (p: u16)
    ensures
        p == 5432,
{
    5432
}

/// The database every probe connects to: not configurable, by design.
pub fn probe_database() -> (d: &'static str)
    ensures
        d@ == "postgres"@,
{
    "postgres"
}

} // verus!
