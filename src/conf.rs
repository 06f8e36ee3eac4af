//! Configuration model: logging, name resolution and relay rules, together with
//! the overrides that command-line options apply on top of a loaded file.
use vstd::prelude::*;

use crate::endpoint::EndpointConf;

verus! {

/// Verbosity of the logging sink.
#[derive(Clone, Copy, Debug, PartialEq, Eq, Structural)]
pub enum LogLevel {
    Off,
    Error,
    Warn,
    Info,
    Debug,
    Trace,
}

/// Where and how much to log.
#[derive(Debug)]
pub struct LogConf {
    pub level: LogLevel,
    pub output: String,
}

impl Default for LogConf {
    /// Logging is off and would go to standard output.
    fn default() -> (r: LogConf)
        ensures
            r.level == LogLevel::Off,
            r.output@ == "stdout"@,
    {
        LogConf { level: LogLevel::Off, output: String::from_str("stdout") }
    }
}

/// Which address families name resolution yields, and in what order.
#[derive(Clone, Copy, Debug, PartialEq, Eq, Structural)]
pub enum DnsMode {
    Ipv4Only,
    Ipv6Only,
    Ipv4AndIpv6,
    Ipv4ThenIpv6,
    Ipv6ThenIpv4,
}

/// Transport used to reach the name servers.
#[derive(Clone, Copy, Debug, PartialEq, Eq, Structural)]
pub enum DnsProtocol {
    Tcp,
    Udp,
    TcpAndUdp,
}

/// Name resolution settings.
#[derive(Debug)]
pub struct DnsConf {
    pub mode: DnsMode,
    pub protocol: DnsProtocol,
    pub nameservers: Vec<String>,
}

/// Mathematical value of a [`DnsConf`].
pub struct DnsModel {
    pub mode: DnsMode,
    pub protocol: DnsProtocol,
    pub nameservers: Seq<String>,
}

impl View for DnsConf {
    type V = DnsModel;

    open spec fn view(&self) -> DnsModel {
        DnsModel { mode: self.mode, protocol: self.protocol, nameservers: self.nameservers@ }
    }
}

/// Settings used where a file gives none: both families, both transports and the
/// system's name servers.
pub open spec fn default_dns() -> DnsModel {
    DnsModel {
        mode: DnsMode::Ipv4AndIpv6,
        protocol: DnsProtocol::TcpAndUdp,
        nameservers: Seq::empty(),
    }
}

impl Default for DnsConf {
    fn default() -> (r: DnsConf)
        ensures
            r@ == default_dns(),
    {
        DnsConf {
            mode: DnsMode::Ipv4AndIpv6,
            protocol: DnsProtocol::TcpAndUdp,
            nameservers: Vec::new(),
        }
    }
}

/// The `dns` entry of a file: a full table, the older form that gives a mode
/// alone, or nothing.
#[derive(Debug)]
pub enum CompatibleDnsConf {
    DnsConf(DnsConf),
    DnsMode(DnsMode),
    Unset,
}

/// The full settings that an entry stands for once normalised.
pub open spec fn resolved_dns(d: CompatibleDnsConf) -> DnsModel {
    match d {
        CompatibleDnsConf::DnsConf(c) => c@,
        CompatibleDnsConf::DnsMode(m) => DnsModel { mode: m, ..default_dns() },
        CompatibleDnsConf::Unset => default_dns(),
    }
}

/// Overrides given on the command line; each present one replaces the file's value.
#[derive(Debug)]
pub struct GlobalOpts {
    pub log_level: Option<LogLevel>,
    pub log_output: Option<String>,
    pub dns_mode: Option<DnsMode>,
    pub dns_protocol: Option<DnsProtocol>,
    pub dns_servers: Option<Vec<String>>,
}

impl GlobalOpts {
    /// Whether any of the name resolution overrides is present.
    pub open spec fn touches_dns(&self) -> bool {
        self.dns_mode is Some || self.dns_protocol is Some || self.dns_servers is Some
    }
}

/// `v` if present, else `d`.
pub open spec fn pick<T>(o: Option<T>, d: T) -> T {
    match o {
        Some(v) => v,
        None => d,
    }
}

/// The name resolution settings after the overrides of `o` are laid over `base`.
pub open spec fn dns_with(base: DnsModel, o: GlobalOpts) -> DnsModel {
    DnsModel {
        mode: pick(o.dns_mode, base.mode),
        protocol: pick(o.dns_protocol, base.protocol),
        nameservers: match o.dns_servers {
            Some(v) => v@,
            None => base.nameservers,
        },
    }
}

/// A whole configuration: logging, name resolution and the relay rules.
#[derive(Debug)]
pub struct FullConf {
    pub log: LogConf,
    pub dns: CompatibleDnsConf,
    pub endpoints: Vec<EndpointConf>,
}

impl FullConf {
    /// Builds a configuration from its three parts, with a full `dns` table.
    pub fn new(log: LogConf, dns: DnsConf, endpoints: Vec<EndpointConf>) -> (r: Self)
        ensures
            r.log == log,
            r.dns == CompatibleDnsConf::DnsConf(dns),
            r.endpoints == endpoints,
    {
        FullConf { log, dns: CompatibleDnsConf::DnsConf(dns), endpoints }
    }

    /// Appends a relay rule after the existing ones.
    pub fn add_endpoint(&mut self, endpoint: EndpointConf) -> (r: &mut Self)
        ensures
            r.endpoints@ == old(self).endpoints@.push(endpoint),
            r.log == old(self).log,
            r.dns == old(self).dns,
            *final(self) == *final(r),
    {
        self.endpoints.push(endpoint);
        self
    }


    /// Rewrites the `dns` entry as a full table: an absent one becomes the
    /// defaults, a bare mode becomes the defaults with that mode.
    pub fn move_dns_conf(&mut self) -> (r: &mut Self)
        ensures
            r.dns is DnsConf,
            r.dns->DnsConf_0@ == resolved_dns(old(self).dns),
            old(self).dns is DnsConf ==> r.dns == old(self).dns,
            r.log == old(self).log,
            r.endpoints == old(self).endpoints,
            *final(self) == *final(r),
    {
        if let CompatibleDnsConf::Unset = self.dns {
            let conf = DnsConf::default();
            self.dns = CompatibleDnsConf::DnsConf(conf);
        }
        if let CompatibleDnsConf::DnsMode(mode) = self.dns {
            let conf = DnsConf { mode, ..DnsConf::default() };
            self.dns = CompatibleDnsConf::DnsConf(conf);
        }
        self
    }

    /// Lays the overrides of `opts` over this configuration. Any name resolution
    /// override first normalises the `dns` entry as [`FullConf::move_dns_conf`]
    /// does; with none, the entry is left as it is.
    pub fn apply_global_opts(&mut self, opts: GlobalOpts) -> (r: &mut Self)
        ensures
            r.log.level == pick(opts.log_level, old(self).log.level),
            r.log.output == pick(opts.log_output, old(self).log.output),
            opts.touches_dns() ==> r.dns is DnsConf && r.dns->DnsConf_0@ == dns_with(
                resolved_dns(old(self).dns),
                opts,
            ),
            !opts.touches_dns() ==> r.dns == old(self).dns,
            r.endpoints == old(self).endpoints,
            *final(self) == *final(r),
    {
        let GlobalOpts { log_level, log_output, dns_mode, dns_protocol, dns_servers } = opts;
        if dns_mode.is_some() || dns_protocol.is_some() || dns_servers.is_some() {
            self.move_dns_conf();
        }
        if let Some(level) = log_level {
            self.log.level = level;
        }
        if let Some(output) = log_output {
            self.log.output = output;
        }
        if let CompatibleDnsConf::DnsConf(dns) = &mut self.dns {
            if let Some(mode) = dns_mode {
                dns.mode = mode;
            }
            if let Some(protocol) = dns_protocol {
                dns.protocol = protocol;
            }
            if let Some(servers) = dns_servers {
                dns.nameservers = servers;
            }
        }
        self
    }
}

} // verus!
