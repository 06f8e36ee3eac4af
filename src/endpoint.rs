//! Relay rules as written in a file, and the validated descriptor that the
//! relay engine consumes.
use vstd::prelude::*;

verus! {

/// Connect timeout for one candidate, in seconds, where a rule gives none.
pub const DEFAULT_CONNECT_TIMEOUT: u64 = 5;

/// Copy-loop buffer size, in bytes, where a rule gives none.
pub const DEFAULT_BUFFER_SIZE: usize = 16384;

/// Version of the proxy-protocol header written ahead of the payload.
#[derive(Clone, Copy, Debug, PartialEq, Eq, Structural)]
pub enum ProxyVersion {
    V1,
    V2,
}

/// Per-rule connection options as written; an absent one takes its default.
#[derive(Debug)]
pub struct NetConf {
    pub no_delay: Option<bool>,
    pub connect_timeout: Option<u64>,
    pub buffer_size: Option<usize>,
    pub transport: Option<String>,
    pub send_proxy: Option<ProxyVersion>,
    pub hook: Option<String>,
}

/// One relay rule as written: where to listen, the primary remote, the ordered
/// fallback remotes and the options.
#[derive(Debug)]
pub struct EndpointConf {
    pub listen: String,
    pub remote: String,
    pub extra_remotes: Vec<String>,
    pub network: NetConf,
}

/// Connection options with every default applied. The transport settings, the
/// proxy-protocol version and the hook target each enable their adapter.
#[derive(Debug)]
pub struct ConnectOpts {
    pub no_delay: bool,
    pub connect_timeout: u64,
    pub buffer_size: usize,
    pub transport: Option<String>,
    pub proxy: Option<ProxyVersion>,
    pub hook: Option<String>,
}

/// The immutable descriptor of one relay rule, shared read-only by every
/// session of the rule.
#[derive(Debug)]
pub struct Endpoint {
    pub laddr: String,
    pub raddr: String,
    pub extra_raddrs: Vec<String>,
    pub conn_opts: ConnectOpts,
}

/// The candidates of a session, in the order they are tried: the primary
/// remote, then the fallbacks as declared.
pub open spec fn candidate_list(primary: String, extras: Seq<String>) -> Seq<String> {
    seq![primary] + extras
}

fn copy_string_opt(o: &Option<String>) -> (r: Option<String>)
    ensures
        r == *o,
{
    match o {
        Some(s) => Some(s.clone()),
        None => None,
    }
}

fn copy_strings(v: &Vec<String>) -> (r: Vec<String>)
    ensures
        r@ == v@,
{
    let mut r: Vec<String> = Vec::new();
    let mut i: usize = 0;
    while i < v.len()
        invariant
            i <= v.len(),
            r@ == v@.subrange(0, i as int),
        decreases v.len() - i,
    {
        r.push(v[i].clone());
        i = i + 1;
        assert(r@ =~= v@.subrange(0, i as int));
    }
    assert(r@ =~= v@);
    r
}

impl EndpointConf {
    /// Validated descriptor of this rule: addresses as written, every absent
    /// option replaced by its default (no-delay on, [`DEFAULT_CONNECT_TIMEOUT`],
    /// [`DEFAULT_BUFFER_SIZE`], adapters off).
    pub fn build(&self) -> (r: Endpoint)
        ensures
            r.laddr == self.listen,
            r.raddr == self.remote,
            r.extra_raddrs@ == self.extra_remotes@,
            r.conn_opts.no_delay == match self.network.no_delay {
                Some(b) => b,
                None => true,
            },
            r.conn_opts.connect_timeout == match self.network.connect_timeout {
                Some(t) => t,
                None => DEFAULT_CONNECT_TIMEOUT,
            },
            r.conn_opts.buffer_size == match self.network.buffer_size {
                Some(n) => n,
                None => DEFAULT_BUFFER_SIZE,
            },
            r.conn_opts.transport == self.network.transport,
            r.conn_opts.proxy == self.network.send_proxy,
            r.conn_opts.hook == self.network.hook,
    {
        let net = &self.network;
        let no_delay = match net.no_delay {
            Some(b) => b,
            None => true,
        };
        let connect_timeout = match net.connect_timeout {
            Some(t) => t,
            None => DEFAULT_CONNECT_TIMEOUT,
        };
        let buffer_size = match net.buffer_size {
            Some(n) => n,
            None => DEFAULT_BUFFER_SIZE,
        };
        Endpoint {
            laddr: self.listen.clone(),
            raddr: self.remote.clone(),
            extra_raddrs: copy_strings(&self.extra_remotes),
            conn_opts: ConnectOpts {
                no_delay,
                connect_timeout,
                buffer_size,
                transport: copy_string_opt(&net.transport),
                proxy: net.send_proxy,
                hook: copy_string_opt(&net.hook),
            },
        }
    }
}

impl Endpoint {
    /// Number of candidates: the primary and each fallback.
    pub open spec fn candidate_count(&self) -> nat {
        self.extra_raddrs@.len() + 1
    }

    /// The candidates of a session, primary first, then the fallbacks in order.
    pub fn candidates(&self) -> (r: Vec<String>)
        ensures
            r@ == candidate_list(self.raddr, self.extra_raddrs@),
    {
        let mut r: Vec<String> = Vec::new();
        r.push(self.raddr.clone());
        let mut i: usize = 0;
        while i < self.extra_raddrs.len()
            invariant
                i <= self.extra_raddrs.len(),
                r@ == seq![self.raddr] + self.extra_raddrs@.subrange(0, i as int),
            decreases self.extra_raddrs.len() - i,
        {
            r.push(self.extra_raddrs[i].clone());
            i = i + 1;
            assert(r@ =~= seq![self.raddr] + self.extra_raddrs@.subrange(0, i as int));
        }
        assert(self.extra_raddrs@.subrange(0, i as int) =~= self.extra_raddrs@);
        r
    }
}

} // verus!
