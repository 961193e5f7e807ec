use ethereum_types::{H256, U256};
use ssz::ethereum::digest_to_bytes;
use ssz::{encode, encode_length, Encodable, SszStream, LENGTH_BYTES};

pub struct TestStruct {
    pub one: u32,
    pub two: H256,
    pub three: u64,
}

impl Encodable for TestStruct {
    fn ssz_append(&self, s: &mut SszStream) {
        s.append(&self.one);
        s.append(&self.two);
        s.append(&self.three);
    }
}

#[test]
fn test_encode_length_4_bytes() {
    assert_eq!(encode_length(0, 4), vec![0; 4]);
    assert_eq!(encode_length(1, 4), vec![0, 0, 0, 1]);
    assert_eq!(encode_length(255, 4), vec![0, 0, 0, 255]);
    assert_eq!(encode_length(256, 4), vec![0, 0, 1, 0]);
    assert_eq!(
        encode_length(4294967295, 4), // 2^(4*8) - 1
        vec![255, 255, 255, 255]
    );
}

#[test]
fn test_serialization() {
    let t = TestStruct {
        one: 1,
        two: H256::zero(),
        three: 100,
    };

    let e = encode(&t);
    assert_eq!(e[0..4], [0, 0, 0, 4]);
    assert_eq!(e[4..8], [0, 0, 0, 1]);
    assert_eq!(e[8..12], [0, 0, 0, 32]);
    assert_eq!(e[12..44], [0; 32]);
    assert_eq!(e[44..48], [0, 0, 0, 8]);
    assert_eq!(e[48..56], [0, 0, 0, 0, 0, 0, 0, 100]);
    assert_eq!(e.len(), 56);
}

#[test]
fn header_width_is_four() {
    assert_eq!(LENGTH_BYTES, 4);
}

#[test]
fn encode_length_round_trips_as_big_endian() {
    for n in [0usize, 1, 255, 256, 65535, 65536, 16909060, 4294967294, 4294967295] {
        let header = encode_length(n, 4);
        assert_eq!(header.len(), 4);
        let back = u32::from_be_bytes([header[0], header[1], header[2], header[3]]);
        assert_eq!(back as usize, n);
    }
}

#[test]
fn encode_length_other_widths() {
    assert_eq!(encode_length(0, 1), vec![0]);
    assert_eq!(encode_length(255, 1), vec![255]);
    assert_eq!(encode_length(0x0102, 2), vec![1, 2]);
    assert_eq!(encode_length(0x010203, 3), vec![1, 2, 3]);
    assert_eq!(encode_length(0x01020304, 5), vec![0, 1, 2, 3, 4]);
    assert_eq!(encode_length(7, 8), vec![0, 0, 0, 0, 0, 0, 0, 7]);
    assert_eq!(encode_length(usize::MAX, 8)[7], 255);
    assert_eq!(encode_length(258, 10), vec![0, 0, 0, 0, 0, 0, 0, 0, 1, 2]);
}

#[test]
fn u8_has_no_length_prefix() {
    assert_eq!(encode(&0u8), vec![0]);
    assert_eq!(encode(&1u8), vec![1]);
    assert_eq!(encode(&200u8), vec![200]);
    assert_eq!(encode(&255u8), vec![255]);
}

#[test]
fn u16_is_prefixed_with_two() {
    assert_eq!(encode(&0u16), vec![0, 0, 0, 2, 0, 0]);
    assert_eq!(encode(&0x1234u16), vec![0, 0, 0, 2, 0x12, 0x34]);
    assert_eq!(encode(&u16::MAX), vec![0, 0, 0, 2, 255, 255]);
}

#[test]
fn u32_is_prefixed_with_four() {
    assert_eq!(encode(&1u32), vec![0, 0, 0, 4, 0, 0, 0, 1]);
    assert_eq!(encode(&0x01020304u32), vec![0, 0, 0, 4, 1, 2, 3, 4]);
    assert_eq!(encode(&u32::MAX), vec![0, 0, 0, 4, 255, 255, 255, 255]);
}

#[test]
fn u64_is_prefixed_with_eight() {
    assert_eq!(encode(&100u64), vec![0, 0, 0, 8, 0, 0, 0, 0, 0, 0, 0, 100]);
    assert_eq!(
        encode(&0x0102030405060708u64),
        vec![0, 0, 0, 8, 1, 2, 3, 4, 5, 6, 7, 8]
    );
}

#[test]
fn zero_digest_is_prefixed_with_thirty_two() {
    let e = encode(&H256::zero());
    let mut expected = vec![0u8, 0, 0, 32];
    expected.extend_from_slice(&[0u8; 32]);
    assert_eq!(e, expected);
}

#[test]
fn digest_bytes_are_written_in_order() {
    let mut raw = [0u8; 32];
    for i in 0..32 {
        raw[i] = (i as u8) + 1;
    }
    let e = encode(&H256::from(raw));
    assert_eq!(e.len(), 36);
    assert_eq!(e[0..4], [0, 0, 0, 32]);
    assert_eq!(e[4..36], raw);
}

#[test]
fn big_integer_is_thirty_two_big_endian_bytes() {
    let e = encode(&U256::from(0x0102u64));
    assert_eq!(e.len(), 36);
    assert_eq!(e[0..4], [0, 0, 0, 32]);
    assert_eq!(e[4..34], [0u8; 30]);
    assert_eq!(e[34..36], [1, 2]);
}

#[test]
fn big_integer_words_come_most_significant_first() {
    let v = U256([0x1111111111111108, 0x2222222222222207, 0x3333333333333306, 0x4444444444444405]);
    let e = encode(&v);
    assert_eq!(e[0..4], [0, 0, 0, 32]);
    assert_eq!(e[4..12], [0x44, 0x44, 0x44, 0x44, 0x44, 0x44, 0x44, 0x05]);
    assert_eq!(e[12..20], [0x33, 0x33, 0x33, 0x33, 0x33, 0x33, 0x33, 0x06]);
    assert_eq!(e[20..28], [0x22, 0x22, 0x22, 0x22, 0x22, 0x22, 0x22, 0x07]);
    assert_eq!(e[28..36], [0x11, 0x11, 0x11, 0x11, 0x11, 0x11, 0x11, 0x08]);
}

#[test]
fn new_stream_drains_empty() {
    assert_eq!(SszStream::new().drain(), Vec::<u8>::new());
}

#[test]
fn append_chains_and_keeps_order() {
    let mut s = SszStream::new();
    s.append(&1u8).append(&2u16).append(&3u8);
    assert_eq!(s.drain(), vec![1, 0, 0, 0, 2, 0, 2, 3]);
}

#[test]
fn extend_buffer_prefixes_byte_count_and_keeps_source() {
    let mut s = SszStream::new();
    let mut payload = vec![9u8, 8, 7];
    s.extend_buffer(&mut payload);
    assert_eq!(payload, vec![9u8, 8, 7]);
    let mut none: Vec<u8> = Vec::new();
    s.extend_buffer(&mut none);
    assert_eq!(s.drain(), vec![0, 0, 0, 3, 9, 8, 7, 0, 0, 0, 0]);
}

#[test]
fn extend_buffer_of_three_hundred_bytes() {
    let mut s = SszStream::new();
    let mut payload = vec![5u8; 300];
    s.extend_buffer(&mut payload);
    assert_eq!(payload, vec![5u8; 300]);
    let e = s.drain();
    assert_eq!(e.len(), 304);
    assert_eq!(e[0..4], [0, 0, 1, 44]);
    assert_eq!(e[4..304], [5u8; 300]);
}

#[test]
fn append_encoded_array_prefixes_byte_count_and_keeps_source() {
    let mut s = SszStream::new();
    let mut a = [4u8, 5, 6, 7, 8];
    s.append_encoded_array(&mut a);
    assert_eq!(a, [4, 5, 6, 7, 8]);
    assert_eq!(s.drain(), vec![0, 0, 0, 5, 4, 5, 6, 7, 8]);
}

#[test]
fn append_vec_header_counts_elements_not_bytes() {
    let mut items = vec![1u16, 2u16];
    let mut s = SszStream::new();
    s.append_vec(&mut items);
    assert_eq!(items, vec![1u16, 2u16]);
    let e = s.drain();
    // two elements, twelve bytes of payload
    assert_eq!(e, vec![0, 0, 0, 2, 0, 0, 0, 2, 0, 1, 0, 0, 0, 2, 0, 2]);

    // the same twelve bytes written as one run of bytes get a header of 12
    let mut payload = e[4..].to_vec();
    let mut t = SszStream::new();
    t.extend_buffer(&mut payload);
    assert_eq!(t.drain()[0..4], [0, 0, 0, 12]);
}

#[test]
fn append_vec_of_bytes_and_of_nothing() {
    let mut s = SszStream::new();
    let mut bytes = vec![7u8, 8, 9];
    s.append_vec(&mut bytes);
    let mut empty: Vec<u64> = Vec::new();
    s.append_vec(&mut empty);
    assert_eq!(s.drain(), vec![0, 0, 0, 3, 7, 8, 9, 0, 0, 0, 0]);
}

#[test]
fn append_vec_of_composites() {
    let mut items = vec![
        TestStruct { one: 1, two: H256::zero(), three: 100 },
        TestStruct { one: 2, two: H256::zero(), three: 200 },
    ];
    let mut s = SszStream::new();
    s.append_vec(&mut items);
    let e = s.drain();
    assert_eq!(e.len(), 4 + 56 + 56);
    assert_eq!(e[0..4], [0, 0, 0, 2]);
    assert_eq!(e[4..60], encode(&items[0])[..]);
    assert_eq!(e[60..116], encode(&items[1])[..]);
}

#[test]
fn encoding_is_deterministic() {
    let t = TestStruct { one: 77, two: H256::from([3u8; 32]), three: 1 << 40 };
    assert_eq!(encode(&t), encode(&t));
    let mut a = SszStream::new();
    let mut b = SszStream::new();
    a.append(&0xbeefu16);
    b.append(&0xbeefu16);
    assert_eq!(a.drain(), b.drain());
    assert_eq!(encode(&U256::from(12345u64)), encode(&U256::from(12345u64)));
}

#[test]
fn digest_to_bytes_gives_thirty_two_bytes_in_order() {
    assert_eq!(digest_to_bytes(&H256::zero()), vec![0u8; 32]);
    let mut raw = [0u8; 32];
    for i in 0..32 {
        raw[i] = 255 - (i as u8);
    }
    let bytes = digest_to_bytes(&H256::from(raw));
    assert_eq!(bytes.len(), 32);
    assert_eq!(bytes[..], raw);
}

#[test]
fn extend_buffer_twice_from_one_source() {
    let mut s = SszStream::new();
    let mut payload = vec![1u8, 2];
    s.extend_buffer(&mut payload);
    s.extend_buffer(&mut payload);
    assert_eq!(s.drain(), vec![0, 0, 0, 2, 1, 2, 0, 0, 0, 2, 1, 2]);
}
