use https_dns::cache::{min_answer_ttl, Cache};
use https_dns::codec::decode_message;
use https_dns::message::build_request_message;
use https_dns::upstream::{accept_response, process_lookup, ProcessStep};

use trust_dns_proto::op::{Message, MessageType, Query};
use trust_dns_proto::rr::rdata::A;
use trust_dns_proto::rr::{DNSClass, Name, RData, Record, RecordType};

fn response_bytes(name: &str, id: u16, ttls: &[u32]) -> Vec<u8> {
    let mut msg = Message::new();
    msg.set_id(id).set_message_type(MessageType::Response);
    let parsed: Name = Name::from_ascii(name).unwrap();
    let mut query = Query::query(parsed.clone(), RecordType::A);
    query.set_query_class(DNSClass::IN);
    msg.add_query(query);
    for (i, ttl) in ttls.iter().enumerate() {
        let rdata = RData::A(A::new(10, 0, 0, i as u8));
        msg.add_answer(Record::from_rdata(parsed.clone(), *ttl, rdata));
    }
    msg.to_vec().unwrap()
}

fn query_for(name: &str) -> https_dns::message::DnsMessage {
    build_request_message(name.as_bytes().to_vec(), 1, 0x0101)
}

#[test]
fn cached_hit_within_ttl() {
    let raw = response_bytes("example.com.", 7, &[300]);
    let resp = decode_message(&raw).unwrap();
    let mut cache = Cache::new();
    cache.put(&resp, &raw, 1_000);
    let hit = cache.get(&query_for("example.com."), 1_299).unwrap();
    assert_eq!(hit.message.id, 7);
    assert_eq!(hit.raw, raw);
}

#[test]
fn expired_entry_misses() {
    let raw = response_bytes("example.com.", 7, &[300]);
    let resp = decode_message(&raw).unwrap();
    let mut cache = Cache::new();
    cache.put(&resp, &raw, 1_000);
    assert!(cache.get(&query_for("example.com."), 1_300).is_none());
    assert!(cache.get(&query_for("example.com."), 9_999).is_none());
}

#[test]
fn query_key_is_case_insensitive() {
    let raw = response_bytes("example.com.", 7, &[300]);
    let resp = decode_message(&raw).unwrap();
    let mut cache = Cache::new();
    cache.put(&resp, &raw, 1_000);
    let hit = cache.get(&query_for("ExAmPlE.CoM."), 1_100).unwrap();
    assert_eq!(hit.message.id, 7);
}

#[test]
fn empty_answer_response_not_cached() {
    let raw = response_bytes("example.com.", 7, &[]);
    let resp = decode_message(&raw).unwrap();
    let mut cache = Cache::new();
    cache.put(&resp, &raw, 1_000);
    assert!(cache.get(&query_for("example.com."), 1_000).is_none());
}

#[test]
fn zero_ttl_response_not_cached() {
    let raw = response_bytes("example.com.", 7, &[0]);
    let resp = decode_message(&raw).unwrap();
    let mut cache = Cache::new();
    cache.put(&resp, &raw, 1_000);
    assert!(cache.get(&query_for("example.com."), 1_000).is_none());
}

#[test]
fn same_key_overwritten_by_later_store() {
    let raw1 = response_bytes("example.com.", 1, &[300]);
    let raw2 = response_bytes("example.com.", 2, &[300]);
    let mut cache = Cache::new();
    cache.put(&decode_message(&raw1).unwrap(), &raw1, 1_000);
    cache.put(&decode_message(&raw2).unwrap(), &raw2, 1_050);
    let hit = cache.get(&query_for("example.com."), 1_100).unwrap();
    assert_eq!(hit.message.id, 2);
    assert_eq!(hit.raw, raw2);
}

#[test]
fn distinct_keys_do_not_interfere() {
    let raw_a = response_bytes("alpha.test.", 11, &[300]);
    let raw_b = response_bytes("beta.test.", 22, &[300]);
    let mut cache = Cache::new();
    cache.put(&decode_message(&raw_a).unwrap(), &raw_a, 1_000);
    cache.put(&decode_message(&raw_b).unwrap(), &raw_b, 1_000);
    let hit_a = cache.get(&query_for("alpha.test."), 1_100).unwrap();
    let hit_b = cache.get(&query_for("beta.test."), 1_100).unwrap();
    assert_eq!(hit_a.message.id, 11);
    assert_eq!(hit_b.message.id, 22);
    assert_eq!(hit_a.raw, raw_a);
    assert_eq!(hit_b.raw, raw_b);
}

#[test]
fn min_ttl_is_minimum_across_answers() {
    let raw = response_bytes("example.com.", 7, &[300, 60, 600]);
    let resp = decode_message(&raw).unwrap();
    assert_eq!(min_answer_ttl(&resp), 60);
}

#[test]
fn process_miss_then_hit_without_second_roundtrip() {
    let mut cache = Cache::new();
    let query = query_for("example.com.");

    // First call: a miss; the query is encoded for the upstream POST.
    let step = process_lookup(&cache, &query, 1_000).unwrap();
    let encoded = match step {
        ProcessStep::Forward(bytes) => bytes,
        ProcessStep::Respond(_) => panic!("empty cache cannot answer"),
    };
    assert!(decode_message(&encoded).is_some());

    // The upstream answers; the response is accepted and cached.
    let raw = response_bytes("example.com.", 7, &[300]);
    let resp = accept_response(&mut cache, &raw, 1_000).unwrap();
    assert_eq!(resp.id, 7);

    // Second identical call within the TTL: answered from the cache alone.
    let step = process_lookup(&cache, &query, 1_200).unwrap();
    match step {
        ProcessStep::Respond(cr) => {
            assert_eq!(cr.message.id, 7);
            assert_eq!(cr.raw, raw);
        },
        ProcessStep::Forward(_) => panic!("a live entry must not go upstream again"),
    }

    // After expiry the same query must go upstream afresh.
    let step = process_lookup(&cache, &query, 1_300).unwrap();
    assert!(matches!(step, ProcessStep::Forward(_)));
}

#[test]
fn expiry_saturates_near_largest_time() {
    let raw = response_bytes("example.com.", 7, &[300]);
    let resp = decode_message(&raw).unwrap();
    let mut cache = Cache::new();
    cache.put(&resp, &raw, u64::MAX - 10);
    assert!(cache.get(&query_for("example.com."), u64::MAX - 1).is_some());
    assert!(cache.get(&query_for("example.com."), u64::MAX).is_none());
}

#[test]
fn unencodable_query_yields_no_step() {
    let cache = Cache::new();
    // A name that is not even UTF-8 cannot be encoded; the requester simply
    // gets no reply.
    let query = build_request_message(vec![0xff, 0xfe], 1, 1);
    assert!(process_lookup(&cache, &query, 1_000).is_none());
}

#[test]
fn bad_upstream_response_rejected_and_not_cached() {
    let mut cache = Cache::new();
    let garbage = vec![1, 2, 3];
    assert!(accept_response(&mut cache, &garbage, 1_000).is_none());
    assert!(cache.get(&query_for("example.com."), 1_000).is_none());
}
