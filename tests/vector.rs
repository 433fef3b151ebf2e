use pairing_compat::{decode_fixture, encode_fixture, get_test_vectors, TestVector};

#[test]
fn equality_is_bytewise() {
    let a = TestVector::new(vec![1, 2], vec![3], vec![4, 5, 6]);
    let b = TestVector::new(vec![1, 2], vec![3], vec![4, 5, 6]);
    let c = TestVector::new(vec![1, 2], vec![3], vec![4, 5, 7]);
    let d = TestVector::new(vec![1], vec![2, 3], vec![4, 5, 6]);
    assert!(a == b);
    assert!(a != c);
    assert!(a != d);
    assert!(a == a.clone());
}

#[test]
fn render_lists_decimal_bytes() {
    let v = TestVector::new(vec![1, 2], vec![3], vec![]);
    assert_eq!(v.render(), "([1, 2], [3], [])");
    let w = TestVector::new(vec![0, 9, 10, 99, 100, 255], vec![], vec![42]);
    assert_eq!(w.render(), "([0, 9, 10, 99, 100, 255], [], [42])");
}

#[test]
fn render_of_fixed_vector_starts_with_its_bytes() {
    let v = &get_test_vectors()[0];
    assert!(v.render().starts_with("([185, 247, 28, 228, "));
    assert!(v.render().ends_with("169, 244, 11])"));
}

#[test]
fn fixture_layout() {
    let v = TestVector::new(vec![7, 8], vec![], vec![9]);
    assert_eq!(encode_fixture(&v), vec![2, 0, 0, 0, 7, 8, 0, 0, 0, 0, 1, 0, 0, 0, 9]);
}

#[test]
fn fixture_round_trip() {
    for v in get_test_vectors() {
        let bytes = encode_fixture(&v);
        assert_eq!(bytes.len(), 12 + 48 + 96 + 288);
        assert_eq!(&bytes[0..4], &[48, 0, 0, 0]);
        assert_eq!(&bytes[52..56], &[96, 0, 0, 0]);
        assert_eq!(&bytes[152..156], &[32, 1, 0, 0]);
        let back = decode_fixture(&bytes).unwrap();
        assert!(back == v);
    }
    let empty = TestVector::new(vec![], vec![], vec![]);
    assert!(decode_fixture(&encode_fixture(&empty)).unwrap() == empty);
}

#[test]
fn malformed_fixtures_are_rejected() {
    let v = TestVector::new(vec![7, 8], vec![], vec![9]);
    let bytes = encode_fixture(&v);
    assert!(decode_fixture(&bytes[..bytes.len() - 1]).is_none());
    let mut longer = bytes.clone();
    longer.push(0);
    assert!(decode_fixture(&longer).is_none());
    assert!(decode_fixture(&[]).is_none());
    assert!(decode_fixture(&[1, 0, 0]).is_none());
    assert!(decode_fixture(&[255, 255, 255, 255, 1]).is_none());
}
