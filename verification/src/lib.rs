pub mod errors;
pub mod loopback;
pub mod ops;
pub mod registry;
pub mod resources;
pub mod target;

use vstd::prelude::*;

verus! {

/// Marker for whether unstable APIs are enabled for this host; set once at
/// configuration time.
pub struct Unstable(pub bool);

/// The user-agent string the host was configured with; carried alongside
/// the session layer's configuration.
#[derive(Clone)]
pub struct WebTransportUserAgent(pub String);

/// An explicitly insecure opt-in: hostnames whose certificate errors are
/// to be ignored when building the secure-transport configuration. A
/// wrapper struct rather than a bare alias, so hosts that keep
/// heterogeneous configuration state cannot confuse it with another list
/// of strings.
pub struct UnsafelyIgnoreCertificateErrors(pub Option<Vec<String>>);

/// A certificate fingerprint the caller supplies with `create`: an
/// algorithm name and a hash. Accepted as structured input, but this layer
/// does not enforce pinning against it; validation is deferred entirely to
/// the TLS collaborator.
#[derive(Debug, Clone, PartialEq, Eq)]
pub struct WebTransportCertificateFingerprint {
    pub algorithm: String,
    pub fingerprint: String,
}

/// Returns whether the unstable-API gate is open. Operations gated on
/// unstable APIs must not be invoked when this returns false; the host
/// refuses service in that case before calling into this layer.
pub fn check_unstable(unstable: &Unstable) -> (r: bool)
    ensures
        r == unstable.0,
{
    unstable.0
}

/// The file name of this layer's type-declaration resource; the host joins
/// it onto its own manifest directory.
pub fn get_declaration() -> (r: &'static str)
    ensures
        r@ == "lib.deno_webtransport.d.ts"@,
{
    "lib.deno_webtransport.d.ts"
}

} // verus!
