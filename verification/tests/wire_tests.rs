//! Tests that the boolean payload encoding agrees byte for byte with
//! bincode, which is what both peers put on the wire.

use frontpanel::message::{flag_payload, parse_flag_payload};

#[test]
fn flag_payload_matches_bincode_serialization() {
    assert_eq!(flag_payload(true), bincode::serialize(&true).unwrap());
    assert_eq!(flag_payload(false), bincode::serialize(&false).unwrap());
}

#[test]
fn parse_flag_payload_matches_bincode_deserialization() {
    for v in [true, false] {
        let bytes = bincode::serialize(&v).unwrap();
        assert_eq!(parse_flag_payload(&bytes), Some(v));
        assert_eq!(bincode::deserialize::<bool>(&bytes).unwrap(), v);
    }
    // Both decoders reject a byte that encodes no boolean...
    assert_eq!(parse_flag_payload(&vec![7]), None);
    assert!(bincode::deserialize::<bool>(&[7]).is_err());
    // ...and an empty payload.
    assert_eq!(parse_flag_payload(&Vec::new()), None);
    assert!(bincode::deserialize::<bool>(&[]).is_err());
    // Trailing bytes are ignored by both.
    assert_eq!(parse_flag_payload(&vec![1, 99]), Some(true));
    assert_eq!(bincode::deserialize::<bool>(&[1, 99]).unwrap(), true);
}

#[test]
fn flag_payload_round_trips() {
    for v in [true, false] {
        assert_eq!(parse_flag_payload(&flag_payload(v)), Some(v));
    }
}
