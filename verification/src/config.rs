//! Server configuration: immutable after startup. The stock deployment
//! runs one pipeline in two modes — TLS with ALPN on a fixed port, or
//! plaintext on a port taken from the environment — sharing the cache,
//! admission, metrics and dispatcher settings.

use vstd::prelude::*;

verus! {

pub const DEFAULT_CACHE_CAPACITY: usize = 1024;

pub const DEFAULT_ADMISSION_BUDGET: usize = 25000;

pub const DEFAULT_MAX_STREAMS: u32 = 1000;

pub const TLS_PORT: u16 = 8443;

pub const DEFAULT_PLAINTEXT_PORT: u16 = 10000;

/// The knobs of the front end, fixed at startup: transport security, listen
/// port, cache capacity, admission budget, and the ceiling on concurrently
/// active streams of one multiplexed connection.
pub struct FrontEndConfig {
    pub tls: bool,
    pub port: u16,
    pub cache_capacity: usize,
    pub admission_budget: usize,
    pub max_concurrent_streams: u32,
}

impl FrontEndConfig {
    /// A usable configuration: the cache must be able to hold at least one
    /// entry.
    pub open spec fn wf(self) -> bool {
        self.cache_capacity >= 1
    }

    /// The stock TLS deployment: port 8443, a 1024-entry cache, an
    /// admission budget of 25000, at most 1000 streams per connection.
    pub fn tls_default() -> (r: Self)
        ensures
            r.wf(),
            r.tls == true,
            r.port == TLS_PORT,
            r.cache_capacity == DEFAULT_CACHE_CAPACITY,
            r.admission_budget == DEFAULT_ADMISSION_BUDGET,
            r.max_concurrent_streams == DEFAULT_MAX_STREAMS,
    {
        FrontEndConfig {
            tls: true,
            port: TLS_PORT,
            cache_capacity: DEFAULT_CACHE_CAPACITY,
            admission_budget: DEFAULT_ADMISSION_BUDGET,
            max_concurrent_streams: DEFAULT_MAX_STREAMS,
        }
    }

    /// The plaintext deployment: same pipeline without the handshake; the
    /// listen port comes from the environment when set, else 10000.
    pub fn plaintext_default(env_port: Option<u16>) -> (r: Self)
        ensures
            r.wf(),
            r.tls == false,
            r.port == (match env_port {
                Option::Some(p) => p,
                Option::None => DEFAULT_PLAINTEXT_PORT,
            }),
            r.cache_capacity == DEFAULT_CACHE_CAPACITY,
            r.admission_budget == DEFAULT_ADMISSION_BUDGET,
            r.max_concurrent_streams == DEFAULT_MAX_STREAMS,
    {
        let port = match env_port {
            Option::Some(p) => p,
            Option::None => DEFAULT_PLAINTEXT_PORT,
        };
        FrontEndConfig {
            tls: false,
            port,
            cache_capacity: DEFAULT_CACHE_CAPACITY,
            admission_budget: DEFAULT_ADMISSION_BUDGET,
            max_concurrent_streams: DEFAULT_MAX_STREAMS,
        }
    }
}

/// The ALPN identifier "h2", as bytes.
pub open spec fn alpn_h2() -> Seq<u8> {
    seq![104u8, 50u8]
}

/// The ALPN identifier "http/1.1", as bytes.
pub open spec fn alpn_http11() -> Seq<u8> {
    seq![104u8, 116u8, 116u8, 112u8, 47u8, 49u8, 46u8, 49u8]
}

/// The advertised application protocols for the TLS handshake, in preference
/// order: HTTP/2 before HTTP/1.1.
pub fn alpn_protocols() -> (r: Vec<Vec<u8>>)
    ensures
        r@.len() == 2,
        r@[0]@ == alpn_h2(),
        r@[1]@ == alpn_http11(),
{
    let mut h2: Vec<u8> = Vec::new();
    h2.push(104u8);
    h2.push(50u8);
    let mut http11: Vec<u8> = Vec::new();
    http11.push(104u8);
    http11.push(116u8);
    http11.push(116u8);
    http11.push(112u8);
    http11.push(47u8);
    http11.push(49u8);
    http11.push(46u8);
    http11.push(49u8);
    proof {
        assert(h2@ =~= alpn_h2());
        assert(http11@ =~= alpn_http11());
    }
    let mut r: Vec<Vec<u8>> = Vec::new();
    r.push(h2);
    r.push(http11);
    r
}

} // verus!
