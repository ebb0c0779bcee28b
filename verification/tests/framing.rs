use patchbukkit::java::framing::{encode_with_length, from_java_bytes, to_java_bytes};

#[test]
fn length_prefix_is_little_endian() {
    assert_eq!(encode_with_length(vec![1, 2, 3]), vec![3, 0, 0, 0, 1, 2, 3]);
    assert_eq!(encode_with_length(vec![]), vec![0, 0, 0, 0]);
    let data = vec![7u8; 300];
    let framed = encode_with_length(data.clone());
    assert_eq!(&framed[..4], &[44, 1, 0, 0]);
    assert_eq!(&framed[4..], &data[..]);
}

#[test]
fn length_prefix_reads_back() {
    let data: Vec<u8> = (0..70000u32).map(|i| (i % 251) as u8).collect();
    let framed = encode_with_length(data.clone());
    let len = u32::from_le_bytes([framed[0], framed[1], framed[2], framed[3]]);
    assert_eq!(len as usize, data.len());
    assert_eq!(framed[4..].to_vec(), data);
}

#[test]
fn java_bytes_are_signed() {
    let bytes = vec![0u8, 1, 127, 128, 200, 255];
    let signed = to_java_bytes(&bytes);
    assert_eq!(signed, vec![0i8, 1, 127, -128, -56, -1]);
    assert_eq!(from_java_bytes(&signed), bytes);
}
