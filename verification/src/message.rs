//! Plain model of DNS messages: query records (name, class, type) and answer
//! records (name, type, TTL, address data), together with the case-folded
//! query key that the response cache is indexed by.

use vstd::prelude::*;

verus! {

/// Spec-level image of a query record.
#[verifier::ext_equal]
pub struct QuerySpec {
    pub name: Seq<u8>,
    pub qclass: u16,
    pub qtype: u16,
}

/// Spec-level image of an answer record.
#[verifier::ext_equal]
pub struct AnswerSpec {
    pub name: Seq<u8>,
    pub rtype: u16,
    pub ttl: u32,
    pub rdata: Seq<u8>,
}

/// Spec-level image of a whole message.
#[verifier::ext_equal]
pub struct MessageSpec {
    pub id: u16,
    pub response: bool,
    pub recursion_desired: bool,
    pub queries: Seq<QuerySpec>,
    pub answers: Seq<AnswerSpec>,
}

/// One query record: an ASCII domain name with a record class and type.
pub struct DnsQuery {
    pub name: Vec<u8>,
    pub qclass: u16,
    pub qtype: u16,
}

/// One answer record. `rdata` holds the four address octets of an A record or
/// the sixteen of an AAAA record, and is empty for any other record type.
pub struct DnsAnswer {
    pub name: Vec<u8>,
    pub rtype: u16,
    pub ttl: u32,
    pub rdata: Vec<u8>,
}

/// A decoded DNS message, reduced to what the proxy reads: the header bits it
/// sets or logs, the query section, and the answer section.
pub struct DnsMessage {
    pub id: u16,
    pub response: bool,
    pub recursion_desired: bool,
    pub queries: Vec<DnsQuery>,
    pub answers: Vec<DnsAnswer>,
}

impl View for DnsQuery {
    type V = QuerySpec;

    open spec fn view(&self) -> QuerySpec {
        QuerySpec { name: self.name@, qclass: self.qclass, qtype: self.qtype }
    }
}

impl View for DnsAnswer {
    type V = AnswerSpec;

    open spec fn view(&self) -> AnswerSpec {
        AnswerSpec { name: self.name@, rtype: self.rtype, ttl: self.ttl, rdata: self.rdata@ }
    }
}

impl View for DnsMessage {
    type V = MessageSpec;

    open spec fn view(&self) -> MessageSpec {
        MessageSpec {
            id: self.id,
            response: self.response,
            recursion_desired: self.recursion_desired,
            queries: self.queries@.map_values(|q: DnsQuery| q@),
            answers: self.answers@.map_values(|a: DnsAnswer| a@),
        }
    }
}

/// Copies a byte vector; unlike `Vec::clone`, its contract pins the contents.
pub fn copy_bytes(v: &Vec<u8>) -> (r: Vec<u8>)
    ensures
        r@ == v@,
{
    let mut r: Vec<u8> = Vec::new();
    let mut i: usize = 0;
    while i < v.len()
        invariant
            i <= v.len(),
            r@ == v@.subrange(0, i as int),
        decreases v.len() - i,
    {
        r.push(v[i]);
        proof {
            assert(r@ =~= v@.subrange(0, i + 1 as int));
        }
        i = i + 1;
    }
    proof {
        assert(r@ =~= v@);
    }
    r
}

impl Clone for DnsQuery {
    fn clone(&self) -> (r: Self)
        ensures
            r@ == self@,
    {
        DnsQuery { name: copy_bytes(&self.name), qclass: self.qclass, qtype: self.qtype }
    }
}

impl Clone for DnsAnswer {
    fn clone(&self) -> (r: Self)
        ensures
            r@ == self@,
    {
        DnsAnswer {
            name: copy_bytes(&self.name),
            rtype: self.rtype,
            ttl: self.ttl,
            rdata: copy_bytes(&self.rdata),
        }
    }
}

impl Clone for DnsMessage {
    fn clone(&self) -> (r: Self)
        ensures
            r@ == self@,
    {
        let mut queries: Vec<DnsQuery> = Vec::new();
        let mut i: usize = 0;
        while i < self.queries.len()
            invariant
                i <= self.queries.len(),
                queries@.len() == i,
                forall|j: int| 0 <= j < i ==> queries@[j]@ == self.queries@[j]@,
            decreases self.queries.len() - i,
        {
            queries.push(self.queries[i].clone());
            i = i + 1;
        }
        let mut answers: Vec<DnsAnswer> = Vec::new();
        let mut j: usize = 0;
        while j < self.answers.len()
            invariant
                j <= self.answers.len(),
                answers@.len() == j,
                forall|k: int| 0 <= k < j ==> answers@[k]@ == self.answers@[k]@,
            decreases self.answers.len() - j,
        {
            answers.push(self.answers[j].clone());
            j = j + 1;
        }
        let r = DnsMessage {
            id: self.id,
            response: self.response,
            recursion_desired: self.recursion_desired,
            queries,
            answers,
        };
        proof {
            assert(r@.queries =~= self@.queries);
            assert(r@.answers =~= self@.answers);
            assert(r@ =~= self@);
        }
        r
    }
}

/// DNS name comparison is ASCII case-insensitive: an upper-case letter counts
/// as its lower-case form, every other byte as itself.
pub open spec fn fold_byte(b: u8) -> u8 {
    if 65 <= b && b <= 90 {
        (b + 32) as u8
    } else {
        b
    }
}

/// A name folded to its lower-case form, the form the cache keys use.
pub open spec fn fold_name(name: Seq<u8>) -> Seq<u8> {
    name.map_values(|b: u8| fold_byte(b))
}

/// Lower-cases an ASCII name, so that two names equal under DNS comparison
/// rules become byte-for-byte equal.
pub fn normalize_name(name: &Vec<u8>) -> (r: Vec<u8>)
    ensures
        r@ == fold_name(name@),
{
    let mut r: Vec<u8> = Vec::new();
    let mut i: usize = 0;
    while i < name.len()
        invariant
            i <= name.len(),
            r@ == fold_name(name@.subrange(0, i as int)),
        decreases name.len() - i,
    {
        let b = name[i];
        if 65 <= b && b <= 90 {
            r.push(b + 32);
        } else {
            r.push(b);
        }
        proof {
            assert(r@ =~= fold_name(name@.subrange(0, i + 1 as int)));
        }
        i = i + 1;
    }
    proof {
        assert(name@.subrange(0, name@.len() as int) =~= name@);
    }
    r
}

/// The key a query record contributes to the cache key: its name folded, its
/// class and type unchanged.
pub open spec fn key_of_query(q: QuerySpec) -> QuerySpec {
    QuerySpec { name: fold_name(q.name), qclass: q.qclass, qtype: q.qtype }
}

/// The cache key of a message: the key of each record of its query section,
/// in order.
pub open spec fn key_of(m: MessageSpec) -> Seq<QuerySpec> {
    m.queries.map_values(|q: QuerySpec| key_of_query(q))
}

/// A computed cache key: the query section with every name case-folded.
pub struct QueryKey {
    pub parts: Vec<DnsQuery>,
}

impl View for QueryKey {
    type V = Seq<QuerySpec>;

    open spec fn view(&self) -> Seq<QuerySpec> {
        self.parts@.map_values(|q: DnsQuery| q@)
    }
}

/// Derives the normalized cache key of a message from its query section.
pub fn compute_key(m: &DnsMessage) -> (k: QueryKey)
    ensures
        k@ == key_of(m@),
{
    let mut parts: Vec<DnsQuery> = Vec::new();
    let mut i: usize = 0;
    while i < m.queries.len()
        invariant
            i <= m.queries.len(),
            parts@.len() == i,
            forall|j: int| 0 <= j < i ==> parts@[j]@ == key_of_query(m.queries@[j]@),
        decreases m.queries.len() - i,
    {
        let q = &m.queries[i];
        parts.push(DnsQuery { name: normalize_name(&q.name), qclass: q.qclass, qtype: q.qtype });
        proof {
            assert(parts@[i as int]@ =~= key_of_query(m.queries@[i as int]@));
        }
        i = i + 1;
    }
    let k = QueryKey { parts };
    proof {
        assert(k@ =~= key_of(m@));
    }
    k
}

/// Byte-vector equality with an exact contract.
pub fn bytes_eq(a: &Vec<u8>, b: &Vec<u8>) -> (r: bool)
    ensures
        r <==> a@ == b@,
{
    if a.len() != b.len() {
        return false;
    }
    let mut i: usize = 0;
    while i < a.len()
        invariant
            i <= a.len(),
            a@.len() == b@.len(),
            forall|j: int| 0 <= j < i ==> a@[j] == b@[j],
        decreases a.len() - i,
    {
        if a[i] != b[i] {
            return false;
        }
        i = i + 1;
    }
    proof {
        assert(a@ =~= b@);
    }
    true
}

/// Cache-key equality with an exact contract.
pub fn key_eq(a: &QueryKey, b: &QueryKey) -> (r: bool)
    ensures
        r <==> a@ == b@,
{
    if a.parts.len() != b.parts.len() {
        proof {
            assert(a@.len() == a.parts@.len());
            assert(b@.len() == b.parts@.len());
        }
        return false;
    }
    let mut i: usize = 0;
    while i < a.parts.len()
        invariant
            i <= a.parts.len(),
            a.parts@.len() == b.parts@.len(),
            forall|j: int| 0 <= j < i ==> a@[j] == b@[j],
        decreases a.parts.len() - i,
    {
        let pa = &a.parts[i];
        let pb = &b.parts[i];
        if !bytes_eq(&pa.name, &pb.name) || pa.qclass != pb.qclass || pa.qtype != pb.qtype {
            proof {
                assert(a@[i as int] != b@[i as int]);
            }
            return false;
        }
        proof {
            assert(a@[i as int] =~= b@[i as int]);
        }
        i = i + 1;
    }
    proof {
        assert(a@ =~= b@);
    }
    true
}

/// What equal cache keys mean for the messages themselves: record for
/// record, the two query sections carry names equal up to ASCII case, and
/// exactly equal classes and types. Together with the cache's guarantee
/// that a hit bears the lookup's key, this says every response served from
/// the cache matches the request's query section.
pub proof fn lemma_matching_keys_match_queries(q1: MessageSpec, q2: MessageSpec)
    requires
        key_of(q1) == key_of(q2),
    ensures
        q1.queries.len() == q2.queries.len(),
        forall|i: int|
            0 <= i < q1.queries.len() ==> {
                &&& fold_name((#[trigger] q1.queries[i]).name) == fold_name(q2.queries[i].name)
                &&& q1.queries[i].qclass == q2.queries[i].qclass
                &&& q1.queries[i].qtype == q2.queries[i].qtype
            },
{
    assert(key_of(q1).len() == q1.queries.len());
    assert(key_of(q2).len() == q2.queries.len());
    assert forall|i: int|
        0 <= i < q1.queries.len() implies {
        &&& fold_name((#[trigger] q1.queries[i]).name) == fold_name(q2.queries[i].name)
        &&& q1.queries[i].qclass == q2.queries[i].qclass
        &&& q1.queries[i].qtype == q2.queries[i].qtype
    } by {
        assert(key_of(q1)[i] == key_of(q2)[i]);
        assert(key_of_query(q1.queries[i]) == key_of_query(q2.queries[i]));
    }
}

/// Builds a fresh query message: one question for `name` with record type
/// `qtype` in the Internet class, recursion desired, under transaction `id`.
pub fn build_request_message(name: Vec<u8>, qtype: u16, id: u16) -> (r: DnsMessage)
    ensures
        r@.id == id,
        !r@.response,
        r@.recursion_desired,
        r@.queries =~= seq![QuerySpec { name: name@, qclass: 1u16, qtype: qtype }],
        r@.answers =~= Seq::<AnswerSpec>::empty(),
{
    let mut queries: Vec<DnsQuery> = Vec::new();
    queries.push(DnsQuery { name, qclass: 1, qtype });
    DnsMessage { id, response: false, recursion_desired: true, queries, answers: Vec::new() }
}

} // verus!
