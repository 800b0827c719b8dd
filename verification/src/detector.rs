//! Where to look for a local router's SAM bridge.

use vstd::prelude::*;

use crate::text::{decimal, push_char, push_decimal};

verus! {

/// The host of a local router's SAM bridge.
pub const DEFAULT_SAM_HOST: &'static str = "127.0.0.1";

/// SAM bridge TCP port. Enable it in the router console
/// (Configuration → Clients → "SAM application bridge").
pub const DEFAULT_SAM_PORT: u16 = 7656;

/// How long a probe of the SAM port waits for a connection, in milliseconds.
pub const DEFAULT_PROBE_TIMEOUT_MS: u64 = 750;

/// The SAM bridge that a probe looks for, so that a client can decide between
/// attaching to a running router and starting an embedded one.
#[derive(Clone, Debug)]
pub struct LocalRouterDetector {
    pub host: String,
    pub sam_port: u16,
    /// How long a probe waits for the connection, in milliseconds.
    pub timeout_ms: u64,
}

/// `host:port`, the address of a SAM bridge.
pub open spec fn socket_addr(host: Seq<char>, port: u16) -> Seq<char> {
    host + seq![':'] + decimal(port as nat)
}

impl Default for LocalRouterDetector {
    fn default() -> (d: Self)
        ensures
            d.host@ == DEFAULT_SAM_HOST@,
            d.sam_port == DEFAULT_SAM_PORT,
            d.timeout_ms == DEFAULT_PROBE_TIMEOUT_MS,
    {
        LocalRouterDetector {
            host: DEFAULT_SAM_HOST.to_owned(),
            sam_port: DEFAULT_SAM_PORT,
            timeout_ms: DEFAULT_PROBE_TIMEOUT_MS,
        }
    }
}

impl LocalRouterDetector {
    /// The address the probe connects to, `host:port`.
    pub fn sam_tcp_addr(&self) -> (s: String)
        ensures
            s@ == socket_addr(self.host@, self.sam_port),
    {
        let mut s = self.host.clone();
        push_char(&mut s, ':');
        push_decimal(&mut s, self.sam_port as u64);
        s
    }
}

} // verus!
