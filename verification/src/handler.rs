//! The scrape handler's decisions: which requests reach the collector, and
//! what status and body each outcome earns. The listener itself, and the
//! renderer that turns the sink into its wire format, are unverified
//! collaborators; they hand plain values in and take plain values back.

use vstd::prelude::*;

use crate::rpc::RpcError;

verus! {

/// Answers whether an inbound request addresses the scrape endpoint: only
/// `GET /metrics` does. For every other method/path combination the
/// collector is never invoked and the reply is 404 with an empty body.
pub fn is_metrics_request(method: &str, path: &str) -> (r: bool)
    ensures
        r == (method@ == "GET"@ && path@ == "/metrics"@),
{
    let m: String = method.to_owned();
    let p: String = path.to_owned();
    m == "GET".to_owned() && p == "/metrics".to_owned()
}

/// What the handler answers: a status code and a body. The content type of
/// a successful reply is owned by the external renderer and travels beside
/// this value in the embedding.
pub struct ScrapeReply {
    pub status: u16,
    pub body: String,
}

/// The reply to a request that does not address the scrape endpoint:
/// 404 with an empty body, whatever the collector would have done.
pub fn route_miss_reply() -> (r: ScrapeReply)
    ensures
        r.status == 404,
        r.body@ == Seq::<char>::empty(),
{
    ScrapeReply { status: 404, body: String::new() }
}

/// The reply when the collection failed: 404 carrying the failure's
/// description verbatim.
pub fn failure_reply(error: &RpcError) -> (r: ScrapeReply)
    ensures
        r.status == 404,
        r.body@ == error.message@,
{
    ScrapeReply { status: 404, body: error.describe() }
}

/// The reply when the collection succeeded and the renderer produced
/// `rendered`: 200 with the rendered snapshot.
pub fn success_reply(rendered: String) -> (r: ScrapeReply)
    ensures
        r.status == 200,
        r.body@ == rendered@,
{
    ScrapeReply { status: 200, body: rendered }
}

} // verus!
