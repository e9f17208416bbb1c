use base64_string_rs::magnitude::from_magnitude_bytes;
use base64_string_rs::magnitude::to_magnitude_bytes;
use base64_string_rs::Base64String;
use base64_string_rs::Base64StringFactory;
use base64_string_rs::Endian;
use num_bigint::BigInt;

#[test]
fn magnitude_is_written_in_the_order_asked_for() {
    let n = BigInt::from(1125);
    let be = Base64StringFactory::default().encode_with_endian_from_bigint(&n, Endian::BE);
    let le = Base64StringFactory::default().encode_with_endian_from_bigint(&n, Endian::LE);
    assert_eq!(be.to_value(), "BGU");
    assert_eq!(le.to_value(), "ZQQ");
    assert_eq!(be.decode_to_bytes().unwrap(), vec![4, 101]);
    assert_eq!(le.decode_to_bytes().unwrap(), vec![101, 4]);
}

#[test]
fn zero_is_a_single_zero_byte() {
    for endian in [Endian::BE, Endian::LE] {
        let zero = BigInt::from(0);
        let encoded = Base64StringFactory::default().encode_with_endian_from_bigint(&zero, endian);
        assert_eq!(encoded.to_value(), "AA");
        assert_eq!(encoded.clone().decode_to_bytes().unwrap(), vec![0]);
        assert_eq!(encoded.decode_with_endian_to_bigint(endian).unwrap(), zero);
    }
}

#[test]
fn sign_is_not_encoded() {
    let minus = BigInt::from(-1125);
    let plus = BigInt::from(1125);
    for endian in [Endian::BE, Endian::LE] {
        let of_minus = Base64StringFactory::default().encode_with_endian_from_bigint(&minus, endian);
        let of_plus = Base64StringFactory::default().encode_with_endian_from_bigint(&plus, endian);
        assert_eq!(of_minus.to_value(), of_plus.to_value());
        assert_eq!(of_minus.decode_with_endian_to_bigint(endian).unwrap(), plus);
    }
}

#[test]
fn integers_round_trip_in_both_orders() {
    let big: BigInt = BigInt::from(u128::MAX) * BigInt::from(u128::MAX) + BigInt::from(12345);
    let inputs = [
        BigInt::from(0),
        BigInt::from(1),
        BigInt::from(255),
        BigInt::from(256),
        BigInt::from(65535),
        BigInt::from(65536),
        BigInt::from(u64::MAX),
        BigInt::from(u128::MAX),
        big,
    ];
    for url_safe in [false, true] {
        for padding in [false, true] {
            for endian in [Endian::BE, Endian::LE] {
                for n in &inputs {
                    let factory = Base64StringFactory::new(url_safe, padding);
                    let encoded = factory.encode_with_endian_from_bigint(n, endian);
                    assert_eq!(&encoded.decode_with_endian_to_bigint(endian).unwrap(), n);
                }
            }
        }
    }
}

#[test]
fn decoding_reads_the_bytes_in_the_order_asked_for() {
    // "AQI" is the text of the bytes 1, 2.
    let value = Base64String::new(String::from("AQI"), false, false);
    assert_eq!(
        value.clone().decode_with_endian_to_bigint(Endian::BE).unwrap(),
        BigInt::from(258)
    );
    assert_eq!(
        value.decode_with_endian_to_bigint(Endian::LE).unwrap(),
        BigInt::from(513)
    );
}

#[test]
fn leading_zero_bytes_do_not_change_the_integer() {
    // "AAAB" is the text of the bytes 0, 0, 1.
    let value = Base64String::new(String::from("AAAB"), false, false);
    assert_eq!(
        value.clone().decode_with_endian_to_bigint(Endian::BE).unwrap(),
        BigInt::from(1)
    );
    assert_eq!(
        value.decode_with_endian_to_bigint(Endian::LE).unwrap(),
        BigInt::from(65536)
    );
}

#[test]
fn empty_text_is_the_integer_zero() {
    let value = Base64String::new(String::new(), false, false);
    assert_eq!(
        value.decode_with_endian_to_bigint(Endian::BE).unwrap(),
        BigInt::from(0)
    );
}

#[test]
fn decoded_integer_is_never_negative() {
    let value = Base64String::new(String::from("/////w"), false, false);
    let n = value.decode_with_endian_to_bigint(Endian::BE).unwrap();
    assert_eq!(n, BigInt::from(u32::MAX));
    assert!(n >= BigInt::from(0));
}

#[test]
fn checked_encoding_agrees_with_plain_encoding() {
    let n = BigInt::from(u128::MAX);
    for endian in [Endian::BE, Endian::LE] {
        let plain = Base64StringFactory::new(true, true).encode_with_endian_from_bigint(&n, endian);
        let checked = Base64StringFactory::new(true, true)
            .checked_encode_with_endian_from_bigint(&n, endian)
            .unwrap();
        assert_eq!(plain.to_value(), checked.to_value());
        assert_eq!(plain.is_url_safe(), checked.is_url_safe());
        assert_eq!(plain.is_padding(), checked.is_padding());
        assert_eq!(checked.decode_with_endian_to_bigint(endian).unwrap(), n);
    }
}

#[test]
fn magnitude_bytes_are_the_shortest() {
    assert_eq!(to_magnitude_bytes(&BigInt::from(0), Endian::BE), vec![0]);
    assert_eq!(to_magnitude_bytes(&BigInt::from(0), Endian::LE), vec![0]);
    assert_eq!(to_magnitude_bytes(&BigInt::from(255), Endian::BE), vec![255]);
    assert_eq!(to_magnitude_bytes(&BigInt::from(256), Endian::BE), vec![1, 0]);
    assert_eq!(to_magnitude_bytes(&BigInt::from(256), Endian::LE), vec![0, 1]);
    assert_eq!(to_magnitude_bytes(&BigInt::from(-1125), Endian::BE), vec![4, 101]);
    assert_eq!(to_magnitude_bytes(&BigInt::from(-1125), Endian::LE), vec![101, 4]);
    assert_eq!(
        to_magnitude_bytes(&BigInt::from(0x0102_0304_0506_0708_090a_u128), Endian::BE),
        vec![1, 2, 3, 4, 5, 6, 7, 8, 9, 10]
    );
}

#[test]
fn bytes_spell_a_magnitude() {
    assert_eq!(from_magnitude_bytes(&[], Endian::BE), BigInt::from(0));
    assert_eq!(from_magnitude_bytes(&[], Endian::LE), BigInt::from(0));
    assert_eq!(from_magnitude_bytes(&[0, 0], Endian::BE), BigInt::from(0));
    assert_eq!(from_magnitude_bytes(&[1, 2], Endian::BE), BigInt::from(258));
    assert_eq!(from_magnitude_bytes(&[1, 2], Endian::LE), BigInt::from(513));
    assert_eq!(from_magnitude_bytes(&[0, 1, 2], Endian::BE), BigInt::from(258));
    assert_eq!(from_magnitude_bytes(&[1, 2, 0], Endian::LE), BigInt::from(513));
    assert_eq!(
        from_magnitude_bytes(b"Hello world!", Endian::BE),
        "22405534230753963835153736737".parse::<BigInt>().unwrap()
    );
}
