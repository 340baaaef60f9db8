//! The side-car: the balancer's case of a single upstream, contacted over
//! plain HTTP.
use crate::text::{base_url, make_base_url};
use vstd::prelude::*;
use vstd::string::StringExecFns;

verus! {

/// The address of the one upstream.
#[derive(Debug, Clone)]
pub struct Upstream {
    /// Host name or IP address, without scheme and port.
    pub base_url: String,
    pub rest_port: u16,
    pub grpc_port: u16,
}

impl Upstream {
    pub fn get_rest_url(&self) -> (url: String)
        ensures
            url@ == base_url(false, self.base_url@, self.rest_port),
    {
        make_base_url(false, self.base_url.as_str(), self.rest_port)
    }

    pub fn get_grpc_url(&self) -> (url: String)
        ensures
            url@ == base_url(false, self.base_url@, self.grpc_port),
    {
        make_base_url(false, self.base_url.as_str(), self.grpc_port)
    }
}

/// The deadline of one request to the upstream, in seconds.
pub const UPSTREAM_TIMEOUT_SECS: u64 = 30;

/// A header of the upstream's response is handed on to the client unless it
/// describes the framing of the connection, which is set anew: the length of
/// the content, the transfer encoding, and the two connection headers.
pub open spec fn response_header_relayed(name: Seq<char>) -> bool {
    &&& name != "content-length"@
    &&& name != "transfer-encoding"@
    &&& name != "connection"@
    &&& name != "keep-alive"@
}

/// Whether a response header with this name, in lower case, is handed on to
/// the client.
pub fn relays_response_header(name: &str) -> (relayed: bool)
    ensures
        relayed == response_header_relayed(name@),
{
    let name = String::from_str(name);
    !(name == String::from_str("content-length") || name == String::from_str("transfer-encoding")
        || name == String::from_str("connection") || name == String::from_str("keep-alive"))
}

} // verus!
