//! The bootstrap step: when the upstream resolver is configured by hostname,
//! that hostname is itself resolved over DoH against a well-known endpoint
//! reached by IP literal, breaking the circular dependency on system DNS.
//! This module builds the bootstrap query and picks the address out of the
//! response; the HTTPS round trip itself is the caller's.

use vstd::prelude::*;

use crate::message::{build_request_message, copy_bytes, AnswerSpec, DnsMessage, QuerySpec};

verus! {

/// The record type number of an IPv4 address record.
pub const RECORD_TYPE_A: u16 = 1;

/// The record type number of an IPv6 address record.
pub const RECORD_TYPE_AAAA: u16 = 28;

/// Spec-level image of an address.
pub enum IpAddressSpec {
    V4(u8, u8, u8, u8),
    V6(Seq<u8>),
}

/// An IP address as plain values: the four octets of an IPv4 address, or
/// the sixteen of an IPv6 address.
#[derive(Debug)]
pub enum IpAddress {
    V4(u8, u8, u8, u8),
    V6(Vec<u8>),
}

impl View for IpAddress {
    type V = IpAddressSpec;

    open spec fn view(&self) -> IpAddressSpec {
        match self {
            IpAddress::V4(a, b, c, d) => IpAddressSpec::V4(*a, *b, *c, *d),
            IpAddress::V6(o) => IpAddressSpec::V6(o@),
        }
    }
}

/// Why no address could be taken from a bootstrap response.
#[derive(Debug, PartialEq, Eq, Structural)]
pub enum BootstrapError {
    /// The response carries no answer record.
    NoAnswer,
    /// The first answer record is neither an A nor an AAAA record.
    UnknownRecordType,
}

/// Relies on rand::random_range for a fresh query transaction id; any value
/// of the type is acceptable, so nothing is assumed of the result.
#[verifier::external_body]
fn random_id() -> u16 {
    rand::random_range(0..=65535u16)
}

/// Builds the bootstrap query: a single A-record question for `host` in the
/// Internet class, recursion desired, under a freshly drawn transaction id.
pub fn build_bootstrap_query(host: &Vec<u8>) -> (r: DnsMessage)
    ensures
        !r@.response,
        r@.recursion_desired,
        r@.queries == seq![
            QuerySpec { name: host@, qclass: 1u16, qtype: RECORD_TYPE_A as u16 },
        ],
        r@.answers == Seq::<AnswerSpec>::empty(),
{
    let id = random_id();
    build_request_message(copy_bytes(host), RECORD_TYPE_A, id)
}

/// Picks the upstream's address out of a decoded bootstrap response: the
/// first answer record must be an A record bearing four octets or an AAAA
/// record bearing sixteen, and those octets are the address returned.
pub fn extract_bootstrap_address(m: &DnsMessage) -> (r: Result<IpAddress, BootstrapError>)
    ensures
        m@.answers.len() == 0 ==> r == Err::<IpAddress, BootstrapError>(BootstrapError::NoAnswer),
        m@.answers.len() > 0 ==> {
            let a = m@.answers[0];
            if a.rtype == RECORD_TYPE_A && a.rdata.len() == 4 {
                r matches Ok(ip) && ip@ == IpAddressSpec::V4(
                    a.rdata[0],
                    a.rdata[1],
                    a.rdata[2],
                    a.rdata[3],
                )
            } else if a.rtype == RECORD_TYPE_AAAA && a.rdata.len() == 16 {
                r matches Ok(ip) && ip@ == IpAddressSpec::V6(a.rdata)
            } else {
                r == Err::<IpAddress, BootstrapError>(BootstrapError::UnknownRecordType)
            }
        },
{
    if m.answers.len() == 0 {
        return Err(BootstrapError::NoAnswer);
    }
    let a = &m.answers[0];
    proof {
        assert(a@ == m@.answers[0]);
    }
    if a.rtype == RECORD_TYPE_A && a.rdata.len() == 4 {
        Ok(IpAddress::V4(a.rdata[0], a.rdata[1], a.rdata[2], a.rdata[3]))
    } else if a.rtype == RECORD_TYPE_AAAA && a.rdata.len() == 16 {
        let octets = copy_bytes(&a.rdata);
        proof {
            assert(IpAddress::V6(octets)@ == IpAddressSpec::V6(m@.answers[0].rdata));
        }
        Ok(IpAddress::V6(octets))
    } else {
        Err(BootstrapError::UnknownRecordType)
    }
}

/// The bootstrap resolver to POST to: the operator's override when one is
/// given, else the well-known endpoint reached by IP literal.
pub fn bootstrap_endpoint<'a>(override_endpoint: Option<&'a str>) -> (r: &'a str)
    ensures
        match override_endpoint {
            Some(s) => r@ == s@,
            None => r@ == "https://1.0.0.1/dns-query"@,
        },
{
    match override_endpoint {
        Some(s) => s,
        None => "https://1.0.0.1/dns-query",
    }
}

} // verus!
