use sha_bench::params::CommitmentParameters;

#[test]
fn generated_params_have_header_and_length() {
    let p = CommitmentParameters::generate(4);
    assert_eq!(p.k, 4);
    assert_eq!(p.bytes.len(), 4 + 32 * (2 * 16 + 2));
    assert_eq!(&p.bytes[0..4], &[4, 0, 0, 0]);
}

#[test]
fn params_generation_is_deterministic() {
    let a = CommitmentParameters::generate(3);
    let b = CommitmentParameters::generate(3);
    assert_eq!(a.bytes, b.bytes);
    let c = CommitmentParameters::generate(2);
    assert_ne!(a.bytes, c.bytes);
}

#[test]
fn params_round_trip_through_bytes() {
    let p = CommitmentParameters::generate(5);
    let q = CommitmentParameters::from_bytes(5, p.bytes.clone()).expect("well formed");
    assert_eq!(q.k, 5);
    assert_eq!(q.bytes, p.bytes);
}

#[test]
fn malformed_params_are_rejected() {
    assert!(CommitmentParameters::from_bytes(4, vec![]).is_none());
    assert!(CommitmentParameters::from_bytes(4, vec![4, 0, 0]).is_none());
    let mut p = CommitmentParameters::generate(4).bytes;
    p.pop();
    assert!(CommitmentParameters::from_bytes(4, p).is_none());
    let mut big = vec![0u8; 4 + 32 * 4];
    big[0] = 32;
    assert!(CommitmentParameters::from_bytes(32, big).is_none());
    // Header 1 with the length of k = 1: accepted for k = 1 only.
    let mut one = vec![0u8; 4 + 32 * 6];
    one[0] = 1;
    assert!(CommitmentParameters::from_bytes(2, one.clone()).is_none());
    assert_eq!(CommitmentParameters::from_bytes(1, one).map(|p| p.k), Some(1));
}
