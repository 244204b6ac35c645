//! Answers for the captive-portal DNS server: every query is answered with one `A`
//! record that points at the access point's own address.

use vstd::prelude::*;

verus! {

/// Port the DNS server listens on.
pub const DNS_SERVER_PORT: u16 = 53;

/// Size of the receive and send buffers: the largest datagram handled.
pub const DNS_BUFFER_SIZE: usize = 512;

/// Length of a DNS header; shorter datagrams are not queries.
pub const DNS_HEADER_SIZE: usize = 12;

/// Length of the answer record appended to the query.
pub const DNS_ANSWER_SIZE: usize = 16;

/// The answer record: a pointer to the question's name, type `A`, class `IN`, a TTL of
/// 60 seconds and the four bytes of `ip`.
pub open spec fn answer_record(ip: [u8; 4]) -> Seq<u8> {
    seq![0xC0u8, 0x0Cu8, 0x00u8, 0x01u8, 0x00u8, 0x01u8, 0x00u8, 0x00u8, 0x00u8, 0x3Cu8, 0x00u8, 0x04u8]
        + ip@
}

/// The response to `query`: its bytes with the flags set to "authoritative answer, no
/// error" and the answer count set to one, followed by the answer record.
pub open spec fn dns_answer(query: Seq<u8>, ip: [u8; 4]) -> Seq<u8> {
    query.update(2, 0x84u8).update(3, 0x00u8).update(6, 0x00u8).update(7, 0x01u8) + answer_record(ip)
}

/// A query is answered when it holds a whole header and the answer still fits in the
/// buffer.
pub open spec fn answers_query(query: Seq<u8>) -> bool {
    DNS_HEADER_SIZE <= query.len() && query.len() + DNS_ANSWER_SIZE <= DNS_BUFFER_SIZE
}

/// The datagram sent back for `query`, or `None` when the query is too short to be
/// DNS or too long for the answer to fit.
pub fn dns_response(query: &[u8], answer_ip: [u8; 4]) -> (response: Option<Vec<u8>>)
    ensures
        answers_query(query@) <==> response is Some,
        response matches Some(bytes) ==> bytes@ == dns_answer(query@, answer_ip),
{
    let len = query.len();
    if len < DNS_HEADER_SIZE || len > DNS_BUFFER_SIZE - DNS_ANSWER_SIZE {
        return None;
    }
    let mut response: Vec<u8> = Vec::new();
    let mut i: usize = 0;
    while i < len
        invariant
            i <= len,
            len == query@.len(),
            response@ == query@.subrange(0, i as int),
        decreases len - i,
    {
        response.push(query[i]);
        i += 1;
    }
    response.set(2, 0x84);
    response.set(3, 0x00);
    response.set(6, 0x00);
    response.set(7, 0x01);
    let ghost header = response@;
    response.push(0xC0);
    response.push(0x0C);
    response.push(0x00);
    response.push(0x01);
    response.push(0x00);
    response.push(0x01);
    response.push(0x00);
    response.push(0x00);
    response.push(0x00);
    response.push(0x3C);
    response.push(0x00);
    response.push(0x04);
    response.push(answer_ip[0]);
    response.push(answer_ip[1]);
    response.push(answer_ip[2]);
    response.push(answer_ip[3]);
    assert(response@ == header + answer_record(answer_ip));
    Some(response)
}

/// Every answer echoes the query (its id and question) apart from the flags and the
/// answer count, and ends with the access point's address.
pub proof fn dns_answer_echoes_query(query: Seq<u8>, ip: [u8; 4])
    requires
        answers_query(query),
    ensures
        dns_answer(query, ip).len() == query.len() + DNS_ANSWER_SIZE,
        forall|i: int|
            0 <= i < query.len() && i != 2 && i != 3 && i != 6 && i != 7 ==> #[trigger] dns_answer(
                query,
                ip,
            )[i] == query[i],
        dns_answer(query, ip).subrange(query.len() + 12int, query.len() + 16int) == ip@,
{
    let answer = dns_answer(query, ip);
    assert(answer.subrange(query.len() + 12int, query.len() + 16int) =~= ip@);
}

} // verus!
