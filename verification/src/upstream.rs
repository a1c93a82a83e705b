//! The DoH upstream client's decision logic: planning the client's
//! construction from the upstream URL (connect directly to a literal
//! address, or bootstrap-resolve a hostname and pin the result), and the two
//! verified halves of `process` around the HTTPS round trip — the cache
//! lookup with query encoding, and the acceptance of the upstream response.

use vstd::prelude::*;

use crate::bootstrap::{bootstrap_endpoint, IpAddress, IpAddressSpec};
use crate::cache::{spec_lookup, spec_put, Cache, CachedResponse};
use crate::codec::{decode_message, decoded, encode_message, wire_of};
use crate::message::{key_of, DnsMessage};

verus! {

/// Spec-level image of a parsed upstream host.
pub enum HostKindSpec {
    Domain(Seq<u8>),
    Ip4(u8, u8, u8, u8),
    Ip6(Seq<u8>),
}

/// How the upstream URL names its host: a domain name to be resolved, or an
/// address literal.
pub enum HostKind {
    Domain(Vec<u8>),
    Ip4(u8, u8, u8, u8),
    Ip6(Vec<u8>),
}

impl View for HostKind {
    type V = HostKindSpec;

    open spec fn view(&self) -> HostKindSpec {
        match self {
            HostKind::Domain(d) => HostKindSpec::Domain(d@),
            HostKind::Ip4(a, b, c, d) => HostKindSpec::Ip4(*a, *b, *c, *d),
            HostKind::Ip6(o) => HostKindSpec::Ip6(o@),
        }
    }
}

/// Why the configured upstream is unusable. Both are fatal at startup.
#[derive(Debug, PartialEq, Eq, Structural)]
pub enum ConfigError {
    /// The upstream string does not parse as a URL.
    InvalidUrl,
    /// The upstream URL has no host.
    MissingHost,
}

/// The host a URL string names, or why it names none: a fixed function of
/// the string alone.
pub uninterp spec fn host_of(s: Seq<char>) -> Result<HostKindSpec, ConfigError>;

/// Relies on url::Url::parse and url::Url::host: whether a string parses as
/// a URL, and whether its host is a domain name, an IPv4 literal or an IPv6
/// literal, is a function of the string alone.
#[verifier::external_body]
fn url_host(s: &str) -> (r: Result<HostKind, ConfigError>)
    ensures
        (match host_of(s@) {
            Ok(hs) => r matches Ok(h) && h@ == hs,
            Err(e) => r matches Err(e2) && e2 == e,
        }),
{
    let u = match url::Url::parse(s) { Ok(u) => u, Err(_) => return Err(ConfigError::InvalidUrl) };
    match u.host() {
        None => Err(ConfigError::MissingHost),
        Some(url::Host::Domain(d)) => Ok(HostKind::Domain(d.as_bytes().to_vec())),
        Some(url::Host::Ipv4(a)) => {
            let o = a.octets();
            Ok(HostKind::Ip4(o[0], o[1], o[2], o[3]))
        },
        Some(url::Host::Ipv6(a)) => Ok(HostKind::Ip6(a.octets().to_vec())),
    }
}

/// Spec-level image of an upstream plan.
pub enum UpstreamPlanSpec {
    Literal(IpAddressSpec),
    Hostname { host: Seq<u8>, bootstrap: Seq<char> },
}

/// What constructing the upstream client must do about its host: connect to
/// the literal address directly — bootstrap is skipped entirely — or first
/// resolve the hostname through the named bootstrap endpoint and pin the
/// resulting address.
#[derive(Debug)]
pub enum UpstreamPlan {
    Literal(IpAddress),
    Hostname { host: Vec<u8>, bootstrap: String },
}

impl View for UpstreamPlan {
    type V = UpstreamPlanSpec;

    open spec fn view(&self) -> UpstreamPlanSpec {
        match self {
            UpstreamPlan::Literal(ip) => UpstreamPlanSpec::Literal(ip@),
            UpstreamPlan::Hostname { host, bootstrap } => UpstreamPlanSpec::Hostname {
                host: host@,
                bootstrap: bootstrap@,
            },
        }
    }
}

/// Decides, from the upstream URL, whether the client can connect directly
/// (the host is an address literal, so bootstrap is skipped) or must first
/// bootstrap-resolve the hostname — and against which endpoint. Fails
/// exactly where the URL does not parse or has no host.
pub fn plan_upstream(upstream: &str, override_endpoint: Option<&str>) -> (r: Result<
    UpstreamPlan,
    ConfigError,
>)
    ensures
        match host_of(upstream@) {
            Err(e) => r == Err::<UpstreamPlan, ConfigError>(e),
            Ok(HostKindSpec::Ip4(a, b, c, d)) => r matches Ok(p) && p@
                == UpstreamPlanSpec::Literal(IpAddressSpec::V4(a, b, c, d)),
            Ok(HostKindSpec::Ip6(o)) => r matches Ok(p) && p@ == UpstreamPlanSpec::Literal(
                IpAddressSpec::V6(o),
            ),
            Ok(HostKindSpec::Domain(h)) => r matches Ok(p) && p@ matches
                UpstreamPlanSpec::Hostname { host, bootstrap } && host == h && (
                match override_endpoint {
                    Some(s) => bootstrap == s@,
                    None => bootstrap == "https://1.0.0.1/dns-query"@,
                }),
        },
{
    match url_host(upstream) {
        Err(e) => Err(e),
        Ok(HostKind::Ip4(a, b, c, d)) => Ok(UpstreamPlan::Literal(IpAddress::V4(a, b, c, d))),
        Ok(HostKind::Ip6(o)) => Ok(UpstreamPlan::Literal(IpAddress::V6(o))),
        Ok(HostKind::Domain(h)) => {
            let endpoint = bootstrap_endpoint(override_endpoint);
            Ok(UpstreamPlan::Hostname { host: h, bootstrap: endpoint.to_owned() })
        },
    }
}

/// The outcome of the lookup half of `process`: answer from the cache, or
/// forward these encoded bytes upstream.
pub enum ProcessStep {
    Respond(CachedResponse),
    Forward(Vec<u8>),
}

/// The first half of processing a query: on a live cache hit the cached
/// response is returned outright (its query section bears the request's own
/// key), and no upstream round trip is needed; on a miss the query is
/// wire-encoded for the upstream POST. A query that cannot be encoded
/// yields nothing, and the requester receives no reply.
pub fn process_lookup(cache: &Cache, query: &DnsMessage, now: u64) -> (r: Option<ProcessStep>)
    requires
        cache.wf(),
    ensures
        match spec_lookup(cache@, key_of(query@), now) {
            Some(pair) => r matches Some(ProcessStep::Respond(cr)) && cr.message@ == pair.0
                && cr.raw@ == pair.1 && key_of(cr.message@) == key_of(query@),
            None => {
                if query@.answers.len() != 0 {
                    r is None
                } else {
                    match wire_of(query@) {
                        Some(bs) => r matches Some(ProcessStep::Forward(e)) && e@ == bs,
                        None => r is None,
                    }
                }
            },
        },
{
    match cache.get(query, now) {
        Some(cr) => Some(ProcessStep::Respond(cr)),
        None => match encode_message(query) {
            Some(bytes) => Some(ProcessStep::Forward(bytes)),
            None => None,
        },
    }
}

/// The second half of a cache miss: the upstream's raw response body is
/// decoded, stored in the cache (under its own key, when it is cacheable at
/// all), and returned for the reply. A body that does not parse yields
/// nothing and leaves the cache unchanged.
pub fn accept_response(cache: &mut Cache, raw: &Vec<u8>, now: u64) -> (r: Option<DnsMessage>)
    requires
        old(cache).wf(),
    ensures
        final(cache).wf(),
        match decoded(raw@) {
            None => r is None && final(cache)@ == old(cache)@,
            Some(m) => r matches Some(resp) && resp@ == m && final(cache)@ == spec_put(
                old(cache)@,
                m,
                raw@,
                now,
            ),
        },
{
    match decode_message(raw) {
        None => None,
        Some(message) => {
            cache.put(&message, raw, now);
            Some(message)
        },
    }
}

} // verus!
