use object_storage::codec::encode_hex;
use object_storage::error::StorageError;
use object_storage::key::{encode_key, DataRow, Key, S3Row};

#[test]
fn empty_bytes_give_the_empty_token() {
    assert_eq!(encode_hex(&[]), "");
}

#[test]
fn token_has_two_lowercase_digits_per_byte() {
    assert_eq!(encode_hex(&[0x00, 0x01]), "0001");
    assert_eq!(encode_hex(&[0xde, 0xad, 0xbe, 0xef]), "deadbeef");
    assert_eq!(encode_hex(&[0x0f, 0xf0, 0x9a, 0xa9]), "0ff09aa9");
    assert_eq!(encode_hex(&[0xff]), "ff");
}

#[test]
fn every_byte_value_has_its_own_token() {
    let digits = "0123456789abcdef".as_bytes();
    for value in 0..=255u8 {
        let token = encode_hex(&[value]);
        let expected = [digits[(value >> 4) as usize], digits[(value & 15) as usize]];
        assert_eq!(token.as_bytes(), &expected);
    }
}

#[test]
fn single_byte_keys_keep_their_order() {
    let low = encode_hex(&[0x00]);
    let high = encode_hex(&[0x01]);
    assert_eq!(low, "00");
    assert_eq!(high, "01");
    assert!(low < high);
}

#[test]
fn tokens_are_ordered_as_their_bytes() {
    let samples: Vec<Vec<u8>> = vec![
        vec![],
        vec![0x00],
        vec![0x00, 0x00],
        vec![0x00, 0x01],
        vec![0x00, 0xff],
        vec![0x01],
        vec![0x09],
        vec![0x0a],
        vec![0x0f, 0xff],
        vec![0x10],
        vec![0x7f, 0x00, 0x01],
        vec![0x80],
        vec![0x9f],
        vec![0xa0],
        vec![0xff],
        vec![0xff, 0x00],
    ];
    for a in &samples {
        for b in &samples {
            assert_eq!(a < b, encode_hex(a) < encode_hex(b), "{:?} {:?}", a, b);
            assert_eq!(a == b, encode_hex(a) == encode_hex(b), "{:?} {:?}", a, b);
        }
    }
}

#[test]
fn ordered_key_gives_its_bytes() {
    let key = Key::Ordered(vec![0x00, 0x01]);
    assert_eq!(key.to_cmp_be_bytes(), Ok(vec![0x00, 0x01]));
    assert_eq!(Key::Ordered(vec![]).to_cmp_be_bytes(), Ok(vec![]));
}

#[test]
fn unordered_key_fails_to_encode() {
    assert_eq!(Key::Unordered.to_cmp_be_bytes(), Err(StorageError::Encoding));
}

#[test]
fn row_record_pairs_key_and_row() {
    let record = S3Row {
        key: Key::Ordered(vec![0x2a]),
        row: DataRow { payload: vec![1, 2, 3] },
    };
    assert_eq!(record.key, Key::Ordered(vec![0x2a]));
    assert_eq!(record.row.payload, vec![1, 2, 3]);
}

#[test]
fn key_is_encoded_as_the_token_of_its_bytes() {
    assert_eq!(encode_key(&Key::Ordered(vec![0x00])), Ok("00".to_string()));
    assert_eq!(encode_key(&Key::Ordered(vec![0x01])), Ok("01".to_string()));
    assert_eq!(encode_key(&Key::Ordered(vec![0x00, 0x01])), Ok("0001".to_string()));
    assert_eq!(encode_key(&Key::Ordered(vec![])), Ok(String::new()));
    assert_eq!(encode_key(&Key::Unordered), Err(StorageError::Encoding));
}
