use price_feed::{PriceFeedAccount, ProcessError};

#[test]
fn record_round_trip() {
    for x in [0u128, 1, 255, 256, 0x0102_0304_0506_0708_090a_0b0c_0d0e_0f10, u128::MAX] {
        let mut data = vec![0xAAu8; 16];
        PriceFeedAccount { answer: x }.serialize(&mut data).unwrap();
        assert_eq!(data, x.to_le_bytes().to_vec());
        let back = PriceFeedAccount::deserialize(&data).unwrap();
        assert_eq!(back.answer, x);
    }
}

#[test]
fn record_layout_is_little_endian() {
    let mut data = vec![0u8; 16];
    PriceFeedAccount { answer: 0x0102 }.serialize(&mut data).unwrap();
    assert_eq!(data[0], 0x02);
    assert_eq!(data[1], 0x01);
    assert!(data[2..].iter().all(|b| *b == 0));
    let bytes: Vec<u8> = (1u8..=16).collect();
    let r = PriceFeedAccount::deserialize(&bytes).unwrap();
    assert_eq!(r.answer, 0x100f_0e0d_0c0b_0a09_0807_0605_0403_0201);
}

#[test]
fn record_longer_buffer_keeps_tail() {
    let mut data: Vec<u8> = (0u8..20).collect();
    PriceFeedAccount { answer: 7 }.serialize(&mut data).unwrap();
    assert_eq!(data.len(), 20);
    assert_eq!(&data[16..], &[16, 17, 18, 19]);
    assert_eq!(PriceFeedAccount::deserialize(&data).unwrap().answer, 7);
}

#[test]
fn record_deserialize_short_buffer() {
    for len in 0..16 {
        let data = vec![1u8; len];
        assert!(matches!(
            PriceFeedAccount::deserialize(&data),
            Err(ProcessError::DeserializationError)
        ));
    }
}

#[test]
fn record_serialize_short_buffer() {
    let mut data = vec![0u8; 15];
    let r = PriceFeedAccount { answer: 1 }.serialize(&mut data);
    assert!(matches!(r, Err(ProcessError::SerializationError)));
    assert_eq!(data.len(), 15);
}
