use bitcoin::secp256k1::{Secp256k1, SecretKey};
use deposits_protocol::pubkey::PublicKey;
use deposits_protocol::tlv::{
    decode_string, decode_u64, encode_string, encode_u64, read_varint, write_varint, TlvBuilder,
    TlvError, TlvReader, TlvStream,
};

fn secp_test_pubkey() -> bitcoin::secp256k1::PublicKey {
    let secp = Secp256k1::new();
    let secret = SecretKey::from_slice(&[1u8; 32]).unwrap();
    bitcoin::secp256k1::PublicKey::from_secret_key(&secp, &secret)
}

#[test]
fn test_varint_roundtrip() {
    let test_values = [
        0u64,
        1,
        0xfc,
        0xfd,
        0xffff,
        0x10000,
        0xffffffff,
        0x100000000,
        u64::MAX,
    ];

    for &value in &test_values {
        let mut buf = Vec::new();
        write_varint(&mut buf, value);
        let mut pos = 0usize;
        let decoded = read_varint(&buf, &mut pos).unwrap();
        assert_eq!(value, decoded, "varint roundtrip failed for {}", value);
    }
}

#[test]
fn test_tlv_stream_roundtrip() {
    let mut stream = TlvStream::new();
    stream.insert(0, encode_u64(42));
    stream.insert(2, encode_string("hello"));
    stream.insert(4, vec![1, 2, 3, 4]);

    let encoded = stream.encode();
    let decoded = TlvStream::decode(&encoded).unwrap();

    assert_eq!(decode_u64(decoded.get(0).unwrap()).unwrap(), 42);
    assert_eq!(decode_string(decoded.get(2).unwrap()).unwrap(), "hello");
    assert_eq!(decoded.get(4).unwrap(), &[1, 2, 3, 4]);
}

#[test]
fn test_builder_and_reader() {
    let encoded = TlvBuilder::new()
        .u64_field(0, 12345)
        .u32_field(2, 999)
        .string_field(4, "test string")
        .bytes_field(6, &[0xde, 0xad, 0xbe, 0xef])
        .build();

    let reader = TlvReader::new(&encoded).unwrap();
    assert_eq!(reader.read_u64(0).unwrap(), 12345);
    assert_eq!(reader.read_u32(2).unwrap(), 999);
    assert_eq!(reader.read_string(4).unwrap(), "test string");
    assert_eq!(reader.read_bytes::<4>(6).unwrap(), [0xde, 0xad, 0xbe, 0xef]);
}

#[test]
fn test_optional_fields() {
    let encoded = TlvBuilder::new()
        .u64_field(0, 100)
        .optional(1, &Some(42u64), |v| encode_u64(*v))
        .optional(3, &None::<u64>, |v| encode_u64(*v))
        .build();

    let reader = TlvReader::new(&encoded).unwrap();
    assert_eq!(reader.read_u64(0).unwrap(), 100);
    assert_eq!(reader.read_u64_opt(1).unwrap(), Some(42));
    assert_eq!(reader.read_u64_opt(3).unwrap(), None);
}

#[test]
fn test_missing_required_field() {
    let encoded = TlvBuilder::new().u64_field(0, 100).build();

    let reader = TlvReader::new(&encoded).unwrap();
    assert!(matches!(
        reader.read_u64(2),
        Err(TlvError::MissingRequiredField { field_type: 2 })
    ));
}

#[test]
fn test_canonical_order_required() {
    // Field 2 before field 0.
    let mut bad_data = Vec::new();
    write_varint(&mut bad_data, 2);
    write_varint(&mut bad_data, 8);
    bad_data.extend(&42u64.to_be_bytes());
    write_varint(&mut bad_data, 0);
    write_varint(&mut bad_data, 8);
    bad_data.extend(&100u64.to_be_bytes());

    assert!(matches!(
        TlvStream::decode(&bad_data),
        Err(TlvError::NonCanonicalOrder { field_type: 0 })
    ));
}

#[test]
fn test_pubkey_encoding() {
    let secp_key = secp_test_pubkey();
    let pubkey = PublicKey::from_slice(&secp_key.serialize()).unwrap();

    let encoded = TlvBuilder::new().pubkey_field(0, &pubkey).build();

    let reader = TlvReader::new(&encoded).unwrap();
    let decoded = reader.read_pubkey(0).unwrap();
    assert_eq!(pubkey, decoded);
    assert_eq!(decoded.serialize(), secp_key.serialize());
}
