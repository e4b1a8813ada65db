//! The per-request hot path: choose the upstream peer from the registry and
//! fix the headers of the outbound request.
use vstd::prelude::*;
use crate::backend::Backend;
use crate::registry::{BackendRegistry, nth_selection};

verus! {

/// The host at which the load balancer is reached, sent as the peer's SNI.
pub const SNI: &'static str = "0.0.0.0:6188";

/// Whether the connection to an upstream uses TLS.
pub const USE_TLS: bool = false;

/// The `Host` header that every upstream request carries: the identity the
/// served application expects, whatever host the client asked for.
pub const UPSTREAM_HOST: &'static str = "one.one.one.one";

/// Where to forward one request.
#[derive(Clone, Debug, PartialEq, Eq)]
pub struct PeerChoice {
    /// The chosen backend's `host:port`.
    pub addr: String,
    pub use_tls: bool,
    pub sni: String,
}

/// Why a request could not be forwarded.
#[derive(Clone, Copy, Debug, PartialEq, Eq, Structural)]
pub enum ProxyError {
    /// No backend is published: the request is answered with 503.
    NoUpstream,
}

/// Chooses the peer for one request by round-robin over the registry. With no
/// backend published the request fails with `NoUpstream`; otherwise the peer
/// is the selected backend's address, with the static TLS setting and SNI.
pub fn choose_peer(registry: &mut BackendRegistry) -> (r: Result<PeerChoice, ProxyError>)
    requires
        old(registry).wf(),
    ensures
        final(registry).wf(),
        final(registry).backends() == old(registry).backends(),
        old(registry).backends().len() == 0 ==> r == Err::<PeerChoice, ProxyError>(
            ProxyError::NoUpstream,
        ),
        old(registry).backends().len() > 0 ==> r is Ok && r->Ok_0.addr@ == nth_selection(
            old(registry).backends(),
            old(registry).cursor(),
            0,
        ).0 && r->Ok_0.use_tls == USE_TLS && r->Ok_0.sni@ == SNI@ && final(registry).cursor() == (
        old(registry).cursor() + 1) % old(registry).backends().len(),
{
    match registry.select() {
        None => Err(ProxyError::NoUpstream),
        Some(b) => {
            let Backend { addr, weight: _ } = b;
            Ok(PeerChoice { addr, use_tls: USE_TLS, sni: String::from_str(SNI) })
        },
    }
}

/// The value of the `Host` header of every upstream request.
pub fn upstream_host() -> (r: String)
    ensures
        r@ == UPSTREAM_HOST@,
{
    String::from_str(UPSTREAM_HOST)
}

} // verus!
