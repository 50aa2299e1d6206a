use eva_engine::codec::words_from_le_bytes;
use eva_engine::codec::words_to_le_bytes;

#[test]
fn words_encode_little_endian() {
    let bytes = words_to_le_bytes(&vec![0x0102_0304u32, 0xAABB_CCDDu32]);
    assert_eq!(bytes, vec![0x04, 0x03, 0x02, 0x01, 0xDD, 0xCC, 0xBB, 0xAA]);
}

#[test]
fn words_encode_matches_std_layout() {
    let ws: Vec<u32> = vec![0, 1, 0xFFFF_FFFF, 0x8000_0000, 12345];
    let bytes = words_to_le_bytes(&ws);
    let mut expect: Vec<u8> = Vec::new();
    for w in &ws {
        expect.extend_from_slice(&w.to_le_bytes());
    }
    assert_eq!(bytes, expect);
}

#[test]
fn words_round_trip_exactly() {
    let ws: Vec<u32> = vec![0, 0xDEAD_BEEF, 0x3F80_0000, 7, u32::MAX];
    let bytes = words_to_le_bytes(&ws);
    assert_eq!(words_from_le_bytes(&bytes), ws);
}

#[test]
fn empty_words_give_empty_bytes() {
    let ws: Vec<u32> = Vec::new();
    let bytes = words_to_le_bytes(&ws);
    assert!(bytes.is_empty());
    assert!(words_from_le_bytes(&bytes).is_empty());
}

#[test]
fn decode_reads_least_significant_byte_first() {
    let decoded = words_from_le_bytes(&[0x78, 0x56, 0x34, 0x12]);
    assert_eq!(decoded, vec![0x1234_5678]);
}
