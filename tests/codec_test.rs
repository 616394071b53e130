use memo_api::codec::{decode_id, encode_id, same_id, DocId};

#[test]
fn decode_accepts_lower_and_upper_hex() {
    let id = decode_id("630a1f470d1d1ed3e972cfdd").expect("valid id");
    assert_eq!(
        id.bytes,
        [0x63, 0x0a, 0x1f, 0x47, 0x0d, 0x1d, 0x1e, 0xd3, 0xe9, 0x72, 0xcf, 0xdd]
    );
    let upper = decode_id("630A1F470D1D1ED3E972CFDD").expect("valid id");
    assert!(same_id(&id, &upper));
}

#[test]
fn decode_rejects_malformed_text() {
    assert!(decode_id("not-a-hex-id").is_none());
    assert!(decode_id("invalid-id").is_none());
    assert!(decode_id("").is_none());
    assert!(decode_id("630a1f470d1d1ed3e972cfd").is_none());
    assert!(decode_id("630a1f470d1d1ed3e972cfddaa").is_none());
    assert!(decode_id("630a1f470d1d1ed3e972cfdg").is_none());
}

#[test]
fn encode_gives_lower_case_text() {
    let id = DocId { bytes: [0xAB, 0, 1, 2, 3, 4, 5, 6, 7, 8, 9, 0xFF] };
    assert_eq!(encode_id(&id), "ab00010203040506070809ff");
}

#[test]
fn encode_then_decode_round_trips() {
    let id = DocId { bytes: [9, 8, 7, 6, 5, 4, 3, 2, 1, 0, 0xfe, 0x10] };
    let text = encode_id(&id);
    let back = decode_id(&text).expect("round trip");
    assert!(same_id(&id, &back));
}

#[test]
fn same_id_tells_ids_apart() {
    let a = DocId { bytes: [1; 12] };
    let mut b = DocId { bytes: [1; 12] };
    assert!(same_id(&a, &b));
    b.bytes[11] = 2;
    assert!(!same_id(&a, &b));
}
