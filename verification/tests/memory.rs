use python_wasi_reactor::memory::{
    host_result, result_descriptor, result_header, DESCRIPTOR_COUNT, STRING_TYPE_TAG,
};

#[test]
fn descriptor_holds_address_tag_and_length() {
    assert_eq!(result_descriptor(0x1000, 5), vec![0x1000, 31, 5]);
    assert_eq!(STRING_TYPE_TAG, 31);
}

#[test]
fn descriptor_length_wraps_to_32_bits() {
    assert_eq!(result_descriptor(-4, 0x1_0000_0002), vec![-4, 31, 2]);
}

#[test]
fn header_of_success() {
    assert_eq!(
        result_header(true, 0x0403_0201),
        vec![0, 1, 2, 3, 4, 1, 0, 0, 0]
    );
}

#[test]
fn header_of_failure_with_negative_address() {
    assert_eq!(result_header(false, -2), vec![1, 0xfe, 0xff, 0xff, 0xff, 1, 0, 0, 0]);
}

#[test]
fn header_reads_back_like_std_le_bytes() {
    for (ok, addr) in [(true, 0i32), (false, 123_456_789), (true, i32::MIN), (false, i32::MAX)] {
        let h = result_header(ok, addr);
        assert_eq!(h.len(), 9);
        assert_eq!(h[0] == 0, ok);
        assert_eq!(i32::from_le_bytes([h[1], h[2], h[3], h[4]]), addr);
        assert_eq!(u32::from_le_bytes([h[5], h[6], h[7], h[8]]), DESCRIPTOR_COUNT);
    }
}

#[test]
fn host_result_publishes_without_panicking() {
    let (first, _) = host_result(true, "hello".to_string());
    let (second, _) = host_result(false, "héllo".to_string());
    assert_ne!(first, second);
}
