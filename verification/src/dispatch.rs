//! The request dispatcher: one request in, one response out. Every request
//! increments the request counter exactly once; a cache hit is served from
//! the shared cache, a miss invokes the backend stub and stores its payload
//! under the request path.

use vstd::prelude::*;
use crate::cache::{ResponseCache, contains_key, value_of, get_update, put_update, lemma_get_update};
use crate::metrics::{CounterName, MetricsCounter};

verus! {

/// The canned payload of the backend stub, as bytes: "Hello from Rust edge!"
/// and a newline.
pub open spec fn backend_body() -> Seq<u8> {
    seq![
        72u8, 101u8, 108u8, 108u8, 111u8, 32u8, 102u8, 114u8, 111u8, 109u8, 32u8, 82u8,
        117u8, 115u8, 116u8, 32u8, 101u8, 100u8, 103u8, 101u8, 33u8, 10u8,
    ]
}

/// The backend stub: a stand-in for the real origin, returning a fixed
/// payload independent of the path. Its artificial latency is the runtime's
/// affair and stands outside the library.
pub fn backend_fetch(path: &String) -> (r: Vec<u8>)
    ensures
        r@ == backend_body(),
{
    let mut v: Vec<u8> = Vec::new();
    v.push(72u8);
    v.push(101u8);
    v.push(108u8);
    v.push(108u8);
    v.push(111u8);
    v.push(32u8);
    v.push(102u8);
    v.push(114u8);
    v.push(111u8);
    v.push(109u8);
    v.push(32u8);
    v.push(82u8);
    v.push(117u8);
    v.push(115u8);
    v.push(116u8);
    v.push(32u8);
    v.push(101u8);
    v.push(100u8);
    v.push(103u8);
    v.push(101u8);
    v.push(33u8);
    v.push(10u8);
    proof {
        assert(v@ =~= backend_body());
    }
    v
}

fn copy_bytes(v: &Vec<u8>) -> (r: Vec<u8>)
    ensures
        r@ == v@,
{
    let mut out: Vec<u8> = Vec::new();
    let mut i: usize = 0;
    while i < v.len()
        invariant
            i <= v.len(),
            out@ == v@.subrange(0, i as int),
        decreases v.len() - i,
    {
        out.push(v[i]);
        i = i + 1;
    }
    proof {
        assert(out@ =~= v@);
    }
    out
}

/// What the dispatcher hands back for one request: the response payload and
/// whether resolving it invoked the backend.
pub struct DispatchOutcome {
    pub payload: Vec<u8>,
    pub backend_invoked: bool,
}

/// One request's effect on the shared state: the request count grows by one;
/// a hit refreshes the entry's recency, a miss stores the backend payload
/// under the path.
pub open spec fn serve_one(requests: nat, s: Seq<(Seq<char>, Seq<u8>)>, cap: nat, path: Seq<char>) -> (nat, Seq<(Seq<char>, Seq<u8>)>) {
    (
        requests + 1,
        if contains_key(s, path) {
            get_update(s, path)
        } else {
            put_update(s, cap, path, backend_body())
        },
    )
}

/// A whole run: the requests of `paths` served in order.
pub open spec fn serve_all(requests: nat, s: Seq<(Seq<char>, Seq<u8>)>, cap: nat, paths: Seq<Seq<char>>) -> (nat, Seq<(Seq<char>, Seq<u8>)>)
    decreases paths.len(),
{
    if paths.len() == 0 {
        (requests, s)
    } else {
        let step = serve_one(requests, s, cap, paths[0]);
        serve_all(step.0, step.1, cap, paths.drop_first())
    }
}

/// Law (metrics monotonicity): a run that serves R requests leaves the
/// request counter exactly R higher than it started, whatever the
/// interleaving of cache hits and misses.
pub proof fn lemma_metrics_count(requests: nat, s: Seq<(Seq<char>, Seq<u8>)>, cap: nat, paths: Seq<Seq<char>>)
    ensures
        serve_all(requests, s, cap, paths).0 == requests + paths.len(),
    decreases paths.len(),
{
    if paths.len() > 0 {
        let step = serve_one(requests, s, cap, paths[0]);
        lemma_metrics_count(step.0, step.1, cap, paths.drop_first());
    }
}

/// First dispatcher phase: record the metric, then consult the cache. On a
/// miss the caller invokes the backend and hands the payload to
/// `dispatch_store`; the pipeline deliberately holds no lock between the two
/// phases, so concurrent misses on one key each invoke the backend.
pub fn dispatch_lookup(metrics: &mut MetricsCounter, cache: &mut ResponseCache, path: &String) -> (r: Option<Vec<u8>>)
    requires
        old(metrics).counts()[CounterName::Requests] < u64::MAX,
        old(cache).wf(),
    ensures
        final(metrics).counts() == old(metrics).counts().insert(CounterName::Requests, (old(metrics).counts()[CounterName::Requests] + 1) as u64),
        final(cache).wf(),
        final(cache).capacity() == old(cache).capacity(),
        final(cache).entries() == get_update(old(cache).entries(), path@),
        contains_key(old(cache).entries(), path@) ==> (r matches Some(v) && v@ == value_of(old(cache).entries(), path@)),
        !contains_key(old(cache).entries(), path@) ==> r is None,
{
    metrics.increment(CounterName::Requests);
    cache.get(path)
}

/// Second dispatcher phase, after a miss: store the freshly fetched payload
/// under the path and hand it back for the response.
pub fn dispatch_store(cache: &mut ResponseCache, path: &String, payload: Vec<u8>) -> (r: Vec<u8>)
    requires
        old(cache).wf(),
    ensures
        final(cache).wf(),
        final(cache).capacity() == old(cache).capacity(),
        final(cache).entries() == put_update(old(cache).entries(), old(cache).capacity(), path@, payload@),
        r@ == payload@,
{
    let out = copy_bytes(&payload);
    cache.put(path.clone(), payload);
    out
}

/// Resolves one request against the shared state: increments the request
/// counter exactly once, serves a hit straight from the cache, and on a miss
/// invokes the backend stub once and stores its payload under the path. The
/// state moves exactly as `serve_one` says.
pub fn dispatch(metrics: &mut MetricsCounter, cache: &mut ResponseCache, path: &String) -> (r: DispatchOutcome)
    requires
        old(metrics).counts()[CounterName::Requests] < u64::MAX,
        old(cache).wf(),
    ensures
        final(metrics).counts() == old(metrics).counts().insert(CounterName::Requests, (old(metrics).counts()[CounterName::Requests] + 1) as u64),
        final(cache).wf(),
        final(cache).capacity() == old(cache).capacity(),
        r.backend_invoked == !contains_key(old(cache).entries(), path@),
        contains_key(old(cache).entries(), path@) ==> r.payload@ == value_of(old(cache).entries(), path@),
        !contains_key(old(cache).entries(), path@) ==> r.payload@ == backend_body(),
        (final(metrics).counts()[CounterName::Requests] as nat, final(cache).entries())
            == serve_one(old(metrics).counts()[CounterName::Requests] as nat, old(cache).entries(), old(cache).capacity(), path@),
        contains_key(final(cache).entries(), path@),
        value_of(final(cache).entries(), path@) == r.payload@,
{
    proof {
        lemma_get_update(old(cache).entries(), path@);
    }
    let hit = dispatch_lookup(metrics, cache, path);
    match hit {
        Some(v) => DispatchOutcome { payload: v, backend_invoked: false },
        None => {
            let body = backend_fetch(path);
            let payload = dispatch_store(cache, path, body);
            proof {
                crate::cache::lemma_put_update(get_update(old(cache).entries(), path@), old(cache).capacity(), path@, backend_body());
            }
            DispatchOutcome { payload, backend_invoked: true }
        },
    }
}

} // verus!
