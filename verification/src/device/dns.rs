//! DNS hijacking for the captive portal: every query is answered with the
//! gateway address.
use vstd::prelude::*;

verus! {

/// Gateway IP that all DNS queries resolve to in AP mode.
pub const GATEWAY: [u8; 4] = [192, 168, 4, 1];

/// Byte capacity of a DNS response.
pub const DNS_RESPONSE_CAPACITY: usize = 512;

/// heapless's fixed-capacity vector, as an opaque type.
#[verifier::external_type_specification]
#[verifier::external_body]
#[verifier::reject_recursive_types(T)]
pub struct ExHeaplessVec<T, const N: usize>(heapless::Vec<T, N>);

/// The bytes that a heapless vector of capacity 512 holds, in order.
pub uninterp spec fn response_bytes(v: heapless::Vec<u8, 512>) -> Seq<u8>;

/// An empty response buffer (heapless's `Vec::new`).
#[verifier::external_body]
fn response_buffer() -> (v: heapless::Vec<u8, 512>)
    ensures
        response_bytes(v) == Seq::<u8>::empty(),
{
    heapless::Vec::new()
}

/// Appends `bytes` to the buffer (heapless's `Vec::extend_from_slice`):
/// when they fit in its 512 bytes they are appended and the call succeeds;
/// otherwise the buffer is left as it was and the call fails.
#[verifier::external_body]
fn extend_buffer(v: &mut heapless::Vec<u8, 512>, bytes: &[u8]) -> (r: Result<(), ()>)
    ensures
        response_bytes(*old(v)).len() + bytes@.len() <= 512 ==> r is Ok && response_bytes(*final(v)) == response_bytes(*old(v)) + bytes@,
        response_bytes(*old(v)).len() + bytes@.len() > 512 ==> r is Err && response_bytes(*final(v)) == response_bytes(*old(v)),
{
    v.extend_from_slice(bytes)
}

/// The end of the QNAME that starts at `offset`: a sequence of
/// length-prefixed labels ending with a 0 byte gives the offset after that
/// byte; a compression pointer (a length byte of 0xC0 or more) gives the
/// offset after the two pointer bytes; running past the data gives `None`.
pub open spec fn qname_end(data: Seq<u8>, offset: int) -> Option<int>
    decreases data.len() - offset,
{
    if offset < 0 || offset >= data.len() {
        None
    } else if data[offset] == 0 {
        Some(offset + 1)
    } else if data[offset] >= 0xC0 {
        Some(offset + 2)
    } else if offset + 1 + data[offset] >= data.len() {
        None
    } else {
        qname_end(data, offset + 1 + data[offset])
    }
}

/// A QNAME ends after the offset it starts at.
pub proof fn lemma_qname_end_after(data: Seq<u8>, offset: int)
    ensures
        qname_end(data, offset) matches Some(e) ==> e > offset && e <= data.len() + 1,
    decreases data.len() - offset,
{
    if 0 <= offset < data.len() && data[offset] != 0 && data[offset] < 0xC0 && offset + 1
        + data[offset] < data.len() {
        lemma_qname_end_after(data, offset + 1 + data[offset]);
    }
}

/// Find the end of a DNS QNAME starting at `offset`: the offset of the byte
/// after the terminating 0 (or after a compression pointer).
pub fn find_qname_end(data: &[u8], offset: usize) -> (r: Option<usize>)
    requires
        data@.len() <= isize::MAX,
    ensures
        match qname_end(data@, offset as int) {
            Some(e) => r == Some(e as usize),
            None => r is None,
        },
        r matches Some(e) ==> e <= data@.len() + 1,
{
    proof {
        lemma_qname_end_after(data@, offset as int);
    }
    let mut pos = offset;
    loop
        invariant
            data@.len() <= isize::MAX,
            qname_end(data@, offset as int) == qname_end(data@, pos as int),
        decreases data@.len() - pos,
    {
        if pos >= data.len() {
            return None;
        }
        let label_len = data[pos] as usize;
        if label_len == 0 {
            return Some(pos + 1);
        }
        if label_len >= 0xC0 {
            return Some(pos + 2);
        }
        if label_len >= data.len() - pos - 1 {
            return None;
        }
        pos = pos + 1 + label_len;
    }
}

/// The answer record: a pointer to the question name, type A, class IN,
/// a TTL of 60 seconds, and 4 bytes of IPv4 data.
pub open spec fn answer_record() -> Seq<u8> {
    seq![0xC0u8, 0x0C, 0x00, 0x01, 0x00, 0x01, 0x00, 0x00, 0x00, 0x3C, 0x00, 0x04]
}

/// The DNS response to `query`: the query's transaction ID, response flags
/// (0x8180), the query's question count, one answer, no authority or
/// additional records, the question copied from the query, and an A record
/// for the gateway. `None` for a query shorter than 17 bytes, a question
/// that runs past the query, or a response over 512 bytes.
pub open spec fn dns_response_spec(query: Seq<u8>) -> Option<Seq<u8>> {
    if query.len() < 17 {
        None
    } else {
        match qname_end(query, 12) {
            None => None,
            Some(qe) => if qe + 4 > query.len() {
                None
            } else {
                let resp = query.subrange(0, 2) + seq![0x81u8, 0x80] + query.subrange(4, 6) + seq![
                    0x00u8,
                    0x01,
                    0x00,
                    0x00,
                    0x00,
                    0x00,
                ] + query.subrange(12, qe + 4) + answer_record() + GATEWAY@;
                if resp.len() <= DNS_RESPONSE_CAPACITY {
                    Some(resp)
                } else {
                    None
                }
            },
        }
    }
}

/// Appends `src[from..to]` to `v`.
fn extend_range(v: &mut Vec<u8>, src: &[u8], from: usize, to: usize)
    requires
        from <= to <= src@.len(),
    ensures
        final(v)@ == old(v)@ + src@.subrange(from as int, to as int),
{
    let mut i = from;
    while i < to
        invariant
            from <= i <= to <= src@.len(),
            v@ == old(v)@ + src@.subrange(from as int, i as int),
        decreases to - i,
    {
        v.push(src[i]);
        assert(src@.subrange(from as int, i + 1) =~= src@.subrange(from as int, i as int).push(src@[i as int]));
        assert(old(v)@ + src@.subrange(from as int, i + 1) =~= (old(v)@ + src@.subrange(from as int, i as int)).push(src@[i as int]));
        i += 1;
    }
}

/// Build a DNS A-record response for any query: copies the transaction ID
/// and question from the query and appends a single A record pointing to
/// `GATEWAY`.
pub fn build_dns_response(query: &[u8]) -> (r: Option<heapless::Vec<u8, 512>>)
    requires
        query@.len() <= isize::MAX,
    ensures
        match dns_response_spec(query@) {
            Some(resp) => r matches Some(v) && response_bytes(v) == resp,
            None => r is None,
        },
{
    if query.len() < 17 {
        return None;
    }
    proof {
        lemma_qname_end_after(query@, 12);
    }
    let qe = match find_qname_end(query, 12) {
        Some(e) => e,
        None => return None,
    };
    if qe > query.len() || query.len() - qe < 4 {
        return None;
    }
    let question_end = qe + 4;
    let mut resp: Vec<u8> = Vec::new();
    extend_range(&mut resp, query, 0, 2);
    resp.push(0x81);
    resp.push(0x80);
    extend_range(&mut resp, query, 4, 6);
    resp.push(0x00);
    resp.push(0x01);
    resp.push(0x00);
    resp.push(0x00);
    resp.push(0x00);
    resp.push(0x00);
    extend_range(&mut resp, query, 12, question_end);
    let answer: [u8; 12] = [0xC0, 0x0C, 0x00, 0x01, 0x00, 0x01, 0x00, 0x00, 0x00, 0x3C, 0x00, 0x04];
    let mut i: usize = 0;
    let ghost before = resp@;
    while i < 12
        invariant
            i <= 12,
            answer@ == answer_record(),
            resp@ == before + answer@.take(i as int),
        decreases 12 - i,
    {
        resp.push(answer[i]);
        assert(answer@.take(i + 1) =~= answer@.take(i as int).push(answer@[i as int]));
        i += 1;
    }
    let gateway = GATEWAY;
    let ghost mid = resp@;
    let mut j: usize = 0;
    while j < 4
        invariant
            j <= 4,
            gateway@ == GATEWAY@,
            resp@ == mid + gateway@.take(j as int),
        decreases 4 - j,
    {
        resp.push(gateway[j]);
        assert(gateway@.take(j + 1) =~= gateway@.take(j as int).push(gateway@[j as int]));
        j += 1;
    }
    proof {
        assert(answer@.take(12) =~= answer@);
        assert(gateway@.take(4) =~= gateway@);
        let expect = query@.subrange(0, 2) + seq![0x81u8, 0x80] + query@.subrange(4, 6) + seq![
            0x00u8,
            0x01,
            0x00,
            0x00,
            0x00,
            0x00,
        ] + query@.subrange(12, question_end as int) + answer_record() + GATEWAY@;
        assert(resp@ =~= expect);
    }
    let mut out = response_buffer();
    match extend_buffer(&mut out, resp.as_slice()) {
        Ok(()) => Some(out),
        Err(()) => None,
    }
}

/// Every query that is answered is answered with the gateway: the response
/// keeps the query's transaction ID, is flagged as a response with one
/// answer, and ends with the gateway's address.
pub proof fn lemma_every_answer_is_the_gateway(query: Seq<u8>)
    requires
        dns_response_spec(query) is Some,
    ensures
        ({
            let r = dns_response_spec(query)->0;
            &&& r.len() >= 16
            &&& r.subrange(0, 2) == query.subrange(0, 2)
            &&& r[2] == 0x81u8 && r[3] == 0x80u8
            &&& r[6] == 0x00u8 && r[7] == 0x01u8
            &&& r.subrange(r.len() - 4, r.len() as int) == GATEWAY@
        }),
{
    let qe = qname_end(query, 12)->0;
    let head = query.subrange(0, 2) + seq![0x81u8, 0x80] + query.subrange(4, 6) + seq![
        0x00u8,
        0x01,
        0x00,
        0x00,
        0x00,
        0x00,
    ];
    let r = dns_response_spec(query)->0;
    let body = head + query.subrange(12, qe + 4) + answer_record();
    assert(r == body + GATEWAY@);
    assert(r.subrange(r.len() - 4, r.len() as int) =~= GATEWAY@);
    assert(r.subrange(0, 2) =~= query.subrange(0, 2));
}

} // verus!
