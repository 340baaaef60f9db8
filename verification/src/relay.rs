//! The request as the balancer buffers it, and the request that goes out to
//! an upstream: the same method, headers and body, sent to the upstream's
//! address.
use vstd::prelude::*;
use vstd::string::StringExecFns;

verus! {

/// One header line. Names are in lower case, as HTTP libraries hand them
/// out; values are kept as bytes.
#[derive(Debug)]
pub struct Header {
    pub name: String,
    pub value: Vec<u8>,
}

/// What a `Header` stands for.
pub struct HeaderView {
    pub name: Seq<char>,
    pub value: Seq<u8>,
}

impl Header {
    pub open spec fn view(&self) -> HeaderView {
        HeaderView { name: self.name@, value: self.value@ }
    }
}

/// An inbound request with its body read in full.
#[derive(Debug)]
pub struct Request {
    pub method: String,
    pub path_and_query: String,
    pub headers: Vec<Header>,
    pub body: Vec<u8>,
}

/// The request of one attempt.
#[derive(Debug)]
pub struct Outbound {
    pub url: String,
    pub method: String,
    pub headers: Vec<Header>,
    pub body: Vec<u8>,
}

/// What a list of headers stands for, in its order.
pub open spec fn header_views(headers: Seq<Header>) -> Seq<HeaderView> {
    Seq::new(headers.len(), |i: int| headers[i]@)
}

/// A header of the inbound request goes out with the outbound one unless it
/// is `host`, which names the balancer and is set anew for the upstream.
pub open spec fn is_relayed(name: Seq<char>) -> bool {
    name != "host"@
}

/// The headers that go out, in the order in which they came in.
pub open spec fn relayed_headers(headers: Seq<HeaderView>) -> Seq<HeaderView> {
    headers.filter(|h: HeaderView| is_relayed(h.name))
}

/// Whether a header with this name goes out with the outbound request.
pub fn relays_header(name: &str) -> (relayed: bool)
    ensures
        relayed == is_relayed(name@),
{
    let name = String::from_str(name);
    let host = String::from_str("host");
    !(name == host)
}

fn copy_bytes(bytes: &Vec<u8>) -> (copy: Vec<u8>)
    ensures
        copy@ == bytes@,
{
    let mut copy: Vec<u8> = Vec::new();
    let mut i: usize = 0;
    while i < bytes.len()
        invariant
            i <= bytes@.len(),
            copy@ == bytes@.take(i as int),
        decreases bytes@.len() - i,
    {
        copy.push(bytes[i]);
        proof {
            assert(copy@ =~= bytes@.take(i + 1));
        }
        i = i + 1;
    }
    proof {
        assert(bytes@.take(i as int) =~= bytes@);
    }
    copy
}

/// The request that goes out to the upstream with base URL `base`: its URL
/// is the base URL followed by the inbound path and query, its method and
/// body are those of the inbound request, and its headers are the inbound
/// ones without `host`.
pub fn compose(request: &Request, base: &str) -> (out: Outbound)
    ensures
        out.url@ == base@ + request.path_and_query@,
        out.method@ == request.method@,
        out.body@ == request.body@,
        header_views(out.headers@) == relayed_headers(header_views(request.headers@)),
{
    let mut url = String::from_str(base);
    url.append(request.path_and_query.as_str());
    let ghost inbound = header_views(request.headers@);
    let mut headers: Vec<Header> = Vec::new();
    let mut i: usize = 0;
    proof {
        reveal(Seq::filter);
        assert(inbound.take(0) =~= Seq::<HeaderView>::empty());
        assert(header_views(headers@) =~= relayed_headers(inbound.take(0)));
    }
    while i < request.headers.len()
        invariant
            i <= request.headers@.len(),
            inbound == header_views(request.headers@),
            header_views(headers@) == relayed_headers(inbound.take(i as int)),
        decreases request.headers@.len() - i,
    {
        let header = &request.headers[i];
        let ghost before = header_views(headers@);
        proof {
            reveal(Seq::filter);
            assert(inbound.take(i + 1).drop_last() =~= inbound.take(i as int));
            assert(inbound.take(i + 1).last() == header@);
        }
        if relays_header(header.name.as_str()) {
            headers.push(Header { name: header.name.clone(), value: copy_bytes(&header.value) });
            proof {
                assert(header_views(headers@) =~= before.push(header@));
            }
        } else {
            proof {
                assert(header_views(headers@) =~= before);
            }
        }
        i = i + 1;
    }
    proof {
        assert(inbound.take(i as int) =~= inbound);
    }
    Outbound { url, method: request.method.clone(), headers, body: copy_bytes(&request.body) }
}

/// Every inbound header but `host` goes out, with its value as it came in,
/// and nothing goes out that did not come in.
pub proof fn lemma_headers_relayed(headers: Seq<HeaderView>, header: HeaderView)
    ensures
        headers.contains(header) && is_relayed(header.name) ==> relayed_headers(headers).contains(
            header,
        ),
        relayed_headers(headers).contains(header) ==> headers.contains(header) && is_relayed(
            header.name,
        ),
{
    let pred = |h: HeaderView| is_relayed(h.name);
    if headers.contains(header) && is_relayed(header.name) {
        let i = choose|i: int| 0 <= i < headers.len() && headers[i] == header;
        headers.lemma_filter_contains(pred, i);
    }
    if relayed_headers(headers).contains(header) {
        let k = choose|k: int|
            0 <= k < relayed_headers(headers).len() && relayed_headers(headers)[k] == header;
        headers.lemma_filter_pred(pred, k);
        headers.lemma_filter_contains_rev(pred, header);
    }
}

} // verus!
