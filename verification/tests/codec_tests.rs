use https_dns::codec::{decode_message, encode_message};
use https_dns::message::build_request_message;

use trust_dns_proto::op::{Message, MessageType};
use trust_dns_proto::rr::rdata::{A, TXT};
use trust_dns_proto::rr::{Name, RData, Record, RecordType};

fn response_bytes(name: &str, id: u16, ttls: &[u32]) -> Vec<u8> {
    let mut msg = Message::new();
    msg.set_id(id).set_message_type(MessageType::Response);
    let parsed: Name = Name::from_ascii(name).unwrap();
    let mut query = trust_dns_proto::op::Query::query(parsed.clone(), RecordType::A);
    query.set_query_class(trust_dns_proto::rr::DNSClass::IN);
    msg.add_query(query);
    for (i, ttl) in ttls.iter().enumerate() {
        let rdata = RData::A(A::new(192, 0, 2, i as u8));
        msg.add_answer(Record::from_rdata(parsed.clone(), *ttl, rdata));
    }
    msg.to_vec().unwrap()
}

#[test]
fn encode_decode_query_roundtrip() {
    let query = build_request_message(b"example.com.".to_vec(), 1, 0x1234);
    let bytes = encode_message(&query).unwrap();
    let back = decode_message(&bytes).unwrap();
    assert_eq!(back.id, 0x1234);
    assert!(!back.response);
    assert!(back.recursion_desired);
    assert_eq!(back.queries.len(), 1);
    assert_eq!(back.queries[0].name, b"example.com.".to_vec());
    assert_eq!(back.queries[0].qclass, 1);
    assert_eq!(back.queries[0].qtype, 1);
    assert_eq!(back.answers.len(), 0);
}

#[test]
fn decode_preserves_response_answers() {
    let bytes = response_bytes("example.com.", 7, &[300, 60]);
    let msg = decode_message(&bytes).unwrap();
    assert_eq!(msg.id, 7);
    assert!(msg.response);
    assert_eq!(msg.queries.len(), 1);
    assert_eq!(msg.queries[0].name, b"example.com.".to_vec());
    assert_eq!(msg.answers.len(), 2);
    assert_eq!(msg.answers[0].name, b"example.com.".to_vec());
    assert_eq!(msg.answers[0].rtype, 1);
    assert_eq!(msg.answers[0].ttl, 300);
    assert_eq!(msg.answers[0].rdata, vec![192, 0, 2, 0]);
    assert_eq!(msg.answers[1].ttl, 60);
    assert_eq!(msg.answers[1].rdata, vec![192, 0, 2, 1]);
}

#[test]
fn decode_keeps_other_record_types_with_empty_rdata() {
    let mut msg = Message::new();
    msg.set_id(9).set_message_type(MessageType::Response);
    let name = Name::from_ascii("example.com.").unwrap();
    let rdata = RData::TXT(TXT::new(vec!["hello".to_string()]));
    msg.add_answer(Record::from_rdata(name, 120, rdata));
    let bytes = msg.to_vec().unwrap();
    let decoded = decode_message(&bytes).unwrap();
    assert_eq!(decoded.answers.len(), 1);
    assert_eq!(decoded.answers[0].rtype, 16);
    assert_eq!(decoded.answers[0].ttl, 120);
    assert_eq!(decoded.answers[0].rdata, Vec::<u8>::new());
}

#[test]
fn malformed_datagram_yields_nothing() {
    // Too short to even hold a DNS header: must be discarded, never answered.
    assert!(decode_message(&vec![0xff, 0x00, 0x13]).is_none());
    // A header that promises records it does not carry.
    let truncated = vec![0, 1, 1, 32, 0, 1, 0, 0, 0, 0, 0, 0, 7];
    assert!(decode_message(&truncated).is_none());
}

#[test]
fn message_with_answers_is_not_encoded() {
    let bytes = response_bytes("example.com.", 7, &[300]);
    let msg = decode_message(&bytes).unwrap();
    assert!(encode_message(&msg).is_none());
}

#[test]
fn build_request_message_shape() {
    let msg = build_request_message(b"dns.google.".to_vec(), 28, 42);
    assert_eq!(msg.id, 42);
    assert!(!msg.response);
    assert!(msg.recursion_desired);
    assert_eq!(msg.queries.len(), 1);
    assert_eq!(msg.queries[0].name, b"dns.google.".to_vec());
    assert_eq!(msg.queries[0].qclass, 1);
    assert_eq!(msg.queries[0].qtype, 28);
    assert!(msg.answers.is_empty());
}
