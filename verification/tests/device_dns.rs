use supervictor::device::dns::{build_dns_response, find_qname_end, GATEWAY};

/// A query for `a.bc` (type A, class IN) with transaction ID 0xABCD.
fn query() -> Vec<u8> {
    let mut q = vec![0xAB, 0xCD, 0x01, 0x00, 0x00, 0x01, 0, 0, 0, 0, 0, 0];
    q.extend_from_slice(&[1, b'a', 2, b'b', b'c', 0]);
    q.extend_from_slice(&[0x00, 0x01, 0x00, 0x01]);
    q
}

#[test]
fn qname_end_simple() {
    let q = query();
    assert_eq!(find_qname_end(&q, 12), Some(18));
}

#[test]
fn qname_end_root_label() {
    assert_eq!(find_qname_end(&[0u8], 0), Some(1));
}

#[test]
fn qname_end_pointer() {
    assert_eq!(find_qname_end(&[0xC0u8, 0x0C], 0), Some(2));
}

#[test]
fn qname_end_runs_past_data() {
    assert_eq!(find_qname_end(&[3u8, b'a'], 0), None);
    assert_eq!(find_qname_end(&[1u8, b'a'], 0), None);
    assert_eq!(find_qname_end(&[], 0), None);
}

#[test]
fn dns_response_layout() {
    let q = query();
    let r = build_dns_response(&q).unwrap();
    assert_eq!(&r[0..2], &[0xAB, 0xCD]);
    assert_eq!(&r[2..4], &[0x81, 0x80]);
    assert_eq!(&r[4..6], &[0x00, 0x01]);
    assert_eq!(&r[6..12], &[0, 1, 0, 0, 0, 0]);
    assert_eq!(&r[12..22], &q[12..22]);
    assert_eq!(
        &r[22..34],
        &[0xC0, 0x0C, 0x00, 0x01, 0x00, 0x01, 0x00, 0x00, 0x00, 0x3C, 0x00, 0x04]
    );
    assert_eq!(&r[34..], &GATEWAY);
    assert_eq!(r.len(), 38);
}

#[test]
fn dns_response_short_query() {
    assert!(build_dns_response(&[0u8; 16]).is_none());
}

#[test]
fn dns_response_truncated_question() {
    let q = query();
    assert!(build_dns_response(&q[..20]).is_none());
}

#[test]
fn dns_response_too_large() {
    // A question of 500 bytes makes a 520-byte response.
    let mut q = vec![0u8; 12];
    for _ in 0..8 {
        q.push(60);
        q.extend_from_slice(&[b'x'; 60]);
    }
    q.extend_from_slice(&[7, b'a', b'b', b'c', b'd', b'e', b'f', b'g', 0]);
    q.extend_from_slice(&[0, 1, 0, 1]);
    assert!(build_dns_response(&q).is_none());
}
