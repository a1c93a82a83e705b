//! The boundary to the external RFC 1035 wire codec. The proxy encodes only
//! query messages (what it builds itself or forwards upstream); responses
//! travel onward as the raw bytes they arrived in, so no answer record ever
//! needs to be re-encoded.

use vstd::prelude::*;

use trust_dns_proto::op::{Message as ProtoMessage, MessageType, Query as ProtoQuery};
use trust_dns_proto::rr::{DNSClass, Name as ProtoName, RData, RecordType};

use crate::message::{DnsAnswer, DnsMessage, DnsQuery, MessageSpec};

verus! {

/// The wire encoding of a message, or nothing where encoding fails (a name
/// that does not parse): a fixed function of the message alone.
pub uninterp spec fn wire_of(m: MessageSpec) -> Option<Seq<u8>>;

/// What a byte string decodes to, or nothing where it is not a well-formed
/// message: a fixed function of the bytes alone.
pub uninterp spec fn decoded(bytes: Seq<u8>) -> Option<MessageSpec>;

/// Relies on trust_dns_proto's Message::to_vec: the wire encoding is built
/// from the model's fields alone, so the bytes are a function of the
/// message; an unparseable name or class makes the encoding fail.
#[verifier::external_body]
fn encode_raw(m: &DnsMessage) -> (r: Option<Vec<u8>>)
    requires
        m@.answers.len() == 0,
    ensures
        r is Some <==> wire_of(m@) is Some,
        r is Some ==> r.unwrap()@ == wire_of(m@).unwrap(),
{
    let mut msg = ProtoMessage::new();
    msg.set_id(m.id).set_recursion_desired(m.recursion_desired).set_message_type(
        if m.response { MessageType::Response } else { MessageType::Query },
    );
    for q in m.queries.iter() {
        let text = match core::str::from_utf8(&q.name) { Ok(t) => t, Err(_) => return None };
        let name = match ProtoName::from_ascii(text) { Ok(n) => n, Err(_) => return None };
        let mut query = ProtoQuery::query(name, RecordType::from(q.qtype));
        let qclass = match DNSClass::from_u16(q.qclass) { Ok(c) => c, Err(_) => return None };
        query.set_query_class(qclass);
        msg.add_query(query);
    }
    msg.to_vec().ok()
}

/// The external codec's record data type, opaque to the model: only its
/// address octets are ever read, through `rdata_octets`.
#[verifier::external_type_specification]
#[verifier::external_body]
pub struct ExRData(RData);

/// Relies on the A and AAAA rdata accessors: the address octets of an A or
/// AAAA record, and nothing (no octets) for any other record data.
#[verifier::external_body]
fn rdata_octets(data: Option<&RData>) -> Vec<u8> {
    match data {
        Some(RData::A(x)) => x.octets().to_vec(),
        Some(RData::AAAA(x)) => x.octets().to_vec(),
        _ => Vec::new(),
    }
}

/// Relies on trust_dns_proto's Message::from_vec: success and content are a
/// function of the bytes alone. Answer rdata keeps the address octets of A
/// and AAAA records and is empty for every other record type.
#[verifier::external_body]
fn decode_raw(bytes: &Vec<u8>) -> (r: Option<DnsMessage>)
    ensures
        r is Some <==> decoded(bytes@) is Some,
        r is Some ==> r.unwrap()@ == decoded(bytes@).unwrap(),
{
    let msg = ProtoMessage::from_vec(bytes).ok()?;
    let queries = msg.queries().iter().map(|q| DnsQuery {
        name: q.name().to_ascii().into_bytes(), qclass: q.query_class().into(), qtype: q.query_type().into(),
    }).collect();
    let answers = msg.answers().iter().map(|a| DnsAnswer {
        name: a.name().to_ascii().into_bytes(), rtype: a.record_type().into(), ttl: a.ttl(),
        rdata: rdata_octets(a.data()),
    }).collect();
    Some(DnsMessage { id: msg.id(), response: msg.message_type() == MessageType::Response,
        recursion_desired: msg.recursion_desired(), queries, answers })
}

/// Wire-encodes a message for an upstream POST. The proxy only ever encodes
/// query messages, so a message that carries answer records is refused.
pub fn encode_message(m: &DnsMessage) -> (r: Option<Vec<u8>>)
    ensures
        m@.answers.len() != 0 ==> r is None,
        m@.answers.len() == 0 ==> (r is Some <==> wire_of(m@) is Some),
        m@.answers.len() == 0 && r is Some ==> r.unwrap()@ == wire_of(m@).unwrap(),
{
    if m.answers.len() != 0 {
        return None;
    }
    encode_raw(m)
}

/// Decodes one received byte string — an inbound datagram, or an upstream
/// response body. Bytes that do not parse yield nothing; in particular the
/// listener sends no reply for a malformed datagram, since its transaction
/// id cannot be recovered reliably.
pub fn decode_message(bytes: &Vec<u8>) -> (r: Option<DnsMessage>)
    ensures
        r is Some <==> decoded(bytes@) is Some,
        r is Some ==> r.unwrap()@ == decoded(bytes@).unwrap(),
{
    decode_raw(bytes)
}

} // verus!
