use anchor_idl::account_discriminator;
use anchor_idl::DecodeError;
use anchor_idl::Namespace;
use anchor_idl::TaggedUnion;
use anchor_idl::WordPayload;

fn sample_registry() -> TaggedUnion {
    TaggedUnion::build(
        Namespace::Account,
        vec!["User".to_string(), "Order".to_string()],
    )
    .unwrap()
}

#[test]
fn encode_forms_tag_then_payload() {
    let reg = sample_registry();
    let record = reg.encode(&WordPayload { variant: 1, value: 7 }).unwrap();
    assert_eq!(record.len(), 16);
    assert_eq!(&record[..8], &account_discriminator("Order")[..]);
    assert_eq!(&record[8..], &7u64.to_le_bytes()[..]);
}

#[test]
fn encode_rejects_unregistered_variant() {
    let reg = sample_registry();
    assert!(reg.encode(&WordPayload { variant: 2, value: 7 }).is_none());
}

#[test]
fn round_trip_every_registered_variant() {
    let reg = sample_registry();
    for variant in 0..2 {
        let payload = WordPayload { variant, value: 0xDEAD_BEEF_0123_4567 };
        let record = reg.encode(&payload).unwrap();
        let decoded = reg.decode::<WordPayload>(&record).unwrap();
        assert_eq!(decoded.variant, variant);
        assert_eq!(decoded.payload, payload);
    }
}

#[test]
fn decode_names_the_matched_variant() {
    let reg = sample_registry();
    let record = reg.encode(&WordPayload { variant: 0, value: 3 }).unwrap();
    let decoded = reg.decode::<WordPayload>(&record).unwrap();
    assert_eq!(decoded.name, "User");
}

#[test]
fn decode_short_input_is_malformed() {
    let reg = sample_registry();
    let r = reg.decode::<WordPayload>(&[1, 2, 3, 4, 5]);
    assert_eq!(r.unwrap_err(), DecodeError::MalformedRecord);
    let r = reg.decode::<WordPayload>(&[]);
    assert_eq!(r.unwrap_err(), DecodeError::MalformedRecord);
}

#[test]
fn decode_unknown_tag_is_rejected() {
    let reg = sample_registry();
    let mut record = vec![0u8; 16];
    record[..8].copy_from_slice(&[0xAA, 0x01, 0x55, 0xFE, 0x07, 0xB2, 0x9C, 0x40]);
    let r = reg.decode::<WordPayload>(&record);
    assert_eq!(r.unwrap_err(), DecodeError::UnknownDiscriminator);
}

#[test]
fn decode_truncated_payload_names_matched_variant() {
    let reg = sample_registry();
    let mut record = Vec::new();
    record.extend_from_slice(&account_discriminator("Order"));
    record.extend_from_slice(&[1, 2, 3]);
    match reg.decode::<WordPayload>(&record).unwrap_err() {
        DecodeError::PayloadDecodeError { variant, name, cause } => {
            assert_eq!(variant, 1);
            assert_eq!(name, "Order");
            assert!(!cause.is_empty());
        }
        other => panic!("expected a payload decode failure, got {:?}", other),
    }
}

#[test]
fn decode_is_deterministic() {
    let reg = sample_registry();
    let record = reg.encode(&WordPayload { variant: 0, value: 11 }).unwrap();
    let a = reg.decode::<WordPayload>(&record).unwrap();
    let b = reg.decode::<WordPayload>(&record).unwrap();
    assert_eq!(a.variant, b.variant);
    assert_eq!(a.name, b.name);
    assert_eq!(a.payload, b.payload);
}
