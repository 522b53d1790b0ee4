use keysign::{
    decode_fixed, deserialize_private_key, deserialize_public_key, deserialize_signature,
    generate_key_pair, key_pair_from_seed, serialize_private_key, serialize_public_key,
    serialize_signature, sign_message, DecodeError, Signature,
};

const ORDER_HEX: &str = "fffffffffffffffffffffffffffffffebaaedce6af48a03bbfd25e8cd0364141";
const ORDER_LESS_ONE_HEX: &str = "fffffffffffffffffffffffffffffffebaaedce6af48a03bbfd25e8cd0364140";
const BASE_POINT_HEX: &str = "0279be667ef9dcbbac55a06295ce870b07029bfcdb2dce28d959f2815b16f81798";

fn seed_of(last: u8) -> [u8; 32] {
    let mut seed = [0u8; 32];
    seed[31] = last;
    seed
}

#[test]
fn test_serialize_and_deserialize_private_key() {
    let (private_key, _) = generate_key_pair().unwrap();

    let serialized_private_key = serialize_private_key(&private_key);
    let deserialized_private_key = deserialize_private_key(&serialized_private_key).unwrap();

    assert!(private_key == deserialized_private_key);
}

#[test]
fn test_serialize_and_deserialize_public_key() {
    let (_, public_key) = generate_key_pair().unwrap();

    let serialized_public_key = serialize_public_key(&public_key);
    let deserialized_public_key = deserialize_public_key(&serialized_public_key).unwrap();

    assert_eq!(public_key, deserialized_public_key);
}

#[test]
fn test_serialize_and_deserialize_signature() {
    let (private_key, _) = generate_key_pair().unwrap();
    let message = "Test message";

    let signature = sign_message(message, &private_key);

    let serialized_signature = serialize_signature(&signature);
    let deserialized_signature = deserialize_signature(&serialized_signature).unwrap();

    assert_eq!(signature, deserialized_signature);
}

#[test]
fn private_key_text_is_lowercase_fixed_width() {
    let (private_key, public_key) = key_pair_from_seed(seed_of(0xab)).unwrap();
    assert_eq!(
        serialize_private_key(&private_key),
        "00000000000000000000000000000000000000000000000000000000000000ab"
    );
    assert_eq!(serialize_public_key(&public_key).len(), 66);
    let (one, base) = key_pair_from_seed(seed_of(1)).unwrap();
    assert_eq!(serialize_public_key(&base), BASE_POINT_HEX);
    assert_eq!(serialize_signature(&sign_message("", &one)).len(), 128);
}

#[test]
fn decoding_reads_both_letter_cases() {
    let lower = deserialize_public_key(BASE_POINT_HEX).unwrap();
    let upper = deserialize_public_key(&BASE_POINT_HEX.to_uppercase()).unwrap();
    assert_eq!(lower, upper);
    assert_eq!(serialize_public_key(&upper), BASE_POINT_HEX);
    let key = deserialize_private_key(ORDER_LESS_ONE_HEX).unwrap();
    assert_eq!(serialize_private_key(&key), ORDER_LESS_ONE_HEX);
}

#[test]
fn decode_fixed_reads_pairs_of_digits() {
    assert_eq!(decode_fixed::<2>("0aF1"), Ok([0x0a, 0xf1]));
    assert_eq!(decode_fixed::<0>(""), Ok([]));
    assert_eq!(decode_fixed::<2>("0af"), Err(DecodeError::MalformedHex));
    assert_eq!(decode_fixed::<2>("0afg"), Err(DecodeError::MalformedHex));
    assert_eq!(decode_fixed::<2>("0af1aa"), Err(DecodeError::InvalidLength));
    assert_eq!(decode_fixed::<2>("0a"), Err(DecodeError::InvalidLength));
    assert_eq!(decode_fixed::<1>("\u{e9}"), Err(DecodeError::MalformedHex));
}

#[test]
fn odd_length_is_malformed_hex() {
    assert!(matches!(deserialize_private_key("abc"), Err(DecodeError::MalformedHex)));
    assert!(matches!(deserialize_private_key(&ORDER_LESS_ONE_HEX[1..]), Err(DecodeError::MalformedHex)));
    assert_eq!(deserialize_public_key(&BASE_POINT_HEX[..65]), Err(DecodeError::MalformedHex));
    assert_eq!(deserialize_signature("0"), Err(DecodeError::MalformedHex));
}

#[test]
fn foreign_character_is_malformed_hex() {
    let mut text = String::from(ORDER_LESS_ONE_HEX);
    text.replace_range(10..11, "g");
    assert!(matches!(deserialize_private_key(&text), Err(DecodeError::MalformedHex)));
    assert_eq!(deserialize_public_key("0x79be667ef9dcbbac55a06295ce870b07029bfcdb2dce28d959f2815b16f81798"), Err(DecodeError::MalformedHex));
    assert_eq!(deserialize_signature("zz"), Err(DecodeError::MalformedHex));
}

#[test]
fn wrong_byte_count_is_invalid_length() {
    assert!(matches!(deserialize_private_key(""), Err(DecodeError::InvalidLength)));
    assert!(matches!(deserialize_private_key(BASE_POINT_HEX), Err(DecodeError::InvalidLength)));
    assert_eq!(deserialize_public_key(ORDER_LESS_ONE_HEX), Err(DecodeError::InvalidLength));
    assert_eq!(deserialize_public_key(&"04".repeat(65)), Err(DecodeError::InvalidLength));
    assert_eq!(deserialize_signature(ORDER_LESS_ONE_HEX), Err(DecodeError::InvalidLength));
    assert_eq!(deserialize_signature(&"00".repeat(65)), Err(DecodeError::InvalidLength));
}

#[test]
fn bytes_off_the_curve_are_invalid_encoding() {
    // No point of the curve has the abscissa 5.
    let off_curve = format!("02{}05", "00".repeat(31));
    assert_eq!(deserialize_public_key(&off_curve), Err(DecodeError::InvalidEncoding));
    let bad_prefix = format!("04{}", &BASE_POINT_HEX[2..]);
    assert_eq!(deserialize_public_key(&bad_prefix), Err(DecodeError::InvalidEncoding));
    assert_eq!(deserialize_public_key(&"00".repeat(33)), Err(DecodeError::InvalidEncoding));
}

#[test]
fn scalar_out_of_range_is_invalid_encoding() {
    assert!(matches!(deserialize_private_key(&"00".repeat(32)), Err(DecodeError::InvalidEncoding)));
    assert!(matches!(deserialize_private_key(ORDER_HEX), Err(DecodeError::InvalidEncoding)));
    assert!(matches!(deserialize_private_key(&"ff".repeat(32)), Err(DecodeError::InvalidEncoding)));
    assert!(deserialize_private_key(ORDER_LESS_ONE_HEX).is_ok());
}

#[test]
fn signature_component_out_of_range_is_invalid_encoding() {
    let high_r = format!("{}{}", ORDER_HEX, "00".repeat(31) + "01");
    assert_eq!(deserialize_signature(&high_r), Err(DecodeError::InvalidEncoding));
    let high_s = format!("{}{}", "00".repeat(31) + "01", ORDER_HEX);
    assert_eq!(deserialize_signature(&high_s), Err(DecodeError::InvalidEncoding));
    let both_in_range = format!("{}{}", ORDER_LESS_ONE_HEX, ORDER_LESS_ONE_HEX);
    let signature = deserialize_signature(&both_in_range).unwrap();
    assert_eq!(serialize_signature(&signature), both_in_range);
    assert!(Signature::from_bytes([0xff; 64]).is_none());
}

#[test]
fn round_trip_of_fixed_artifacts() {
    for last in 1u8..=8 {
        let (private_key, public_key) = key_pair_from_seed(seed_of(last)).unwrap();
        let signature = sign_message("Hello, world!", &private_key);
        assert!(deserialize_private_key(&serialize_private_key(&private_key)).unwrap() == private_key);
        assert_eq!(deserialize_public_key(&serialize_public_key(&public_key)), Ok(public_key));
        assert_eq!(deserialize_signature(&serialize_signature(&signature)), Ok(signature));
    }
}
