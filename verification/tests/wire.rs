use eltoo::ser::{get_bigsize, get_u16, get_u32, put_bigsize, put_u32, DecodeError};
use eltoo::tlv::{get_tlv_stream, put_tlv_record, TlvSchema, TlvValue};

#[test]
fn bigsize_encodings() {
    let cases: Vec<(u64, Vec<u8>)> = vec![
        (0, vec![0x00]),
        (0xfc, vec![0xfc]),
        (0xfd, vec![0xfd, 0x00, 0xfd]),
        (0xffff, vec![0xfd, 0xff, 0xff]),
        (0x10000, vec![0xfe, 0x00, 0x01, 0x00, 0x00]),
        (0xffffffff, vec![0xfe, 0xff, 0xff, 0xff, 0xff]),
        (0x100000000, vec![0xff, 0x00, 0x00, 0x00, 0x01, 0x00, 0x00, 0x00, 0x00]),
        (u64::MAX, vec![0xff; 9]),
    ];
    for (x, bytes) in cases {
        let mut w = Vec::new();
        put_bigsize(&mut w, x);
        assert_eq!(w, bytes);
        assert_eq!(get_bigsize(&w, 0), Ok((x, w.len())));
    }
}

#[test]
fn bigsize_not_minimal() {
    assert_eq!(get_bigsize(&[0xfd, 0x00, 0xfc], 0), Err(DecodeError::InvalidValue));
    assert_eq!(get_bigsize(&[0xfe, 0x00, 0x00, 0xff, 0xff], 0), Err(DecodeError::InvalidValue));
    assert_eq!(get_bigsize(&[0xff, 0x00, 0x00, 0x00, 0x00, 0xff, 0xff, 0xff, 0xff], 0), Err(DecodeError::InvalidValue));
    assert_eq!(get_bigsize(&[0xfd, 0x01], 0), Err(DecodeError::ShortRead));
    assert_eq!(get_bigsize(&[], 0), Err(DecodeError::ShortRead));
}

#[test]
fn integers_big_endian() {
    let mut w = Vec::new();
    put_u32(&mut w, 0xdeadbeef);
    assert_eq!(w, vec![0xde, 0xad, 0xbe, 0xef]);
    assert_eq!(get_u32(&w, 0), Ok((0xdeadbeef, 4)));
    assert_eq!(get_u16(&w, 2), Ok((0xbeef, 4)));
    assert_eq!(get_u16(&w, 3), Err(DecodeError::ShortRead));
}

#[test]
fn tlv_stream_reading() {
    let mut w = Vec::new();
    put_tlv_record(&mut w, 0, &[1, 2, 3]);
    put_tlv_record(&mut w, 1, &[]);
    put_tlv_record(&mut w, 7, &[9]);
    assert_eq!(w, vec![0, 3, 1, 2, 3, 1, 0, 7, 1, 9]);
    let r = get_tlv_stream(TlvSchema::ChannelOpening, &w, 0).unwrap();
    assert_eq!(r.r0, Some(vec![1, 2, 3]));
    assert_eq!(r.r1, Some(vec![]));
    assert_eq!(r.r2, None);
    assert_eq!(r.r3, None);
    // the same stream in a message that knows no record: type 0 is even and unknown
    assert!(matches!(get_tlv_stream(TlvSchema::NoneKnown, &w, 0), Err(DecodeError::UnknownRequiredFeature)));
    // an empty stream
    let r = get_tlv_stream(TlvSchema::ClosingSigned, &w, w.len()).unwrap();
    assert_eq!(r.r0, None);
}

#[test]
fn tlv_schema_fields() {
    assert_eq!(TlvSchema::ChannelOpening.field(0), Some(TlvValue::Raw));
    assert_eq!(TlvSchema::ChannelOpening.field(2), None);
    assert_eq!(TlvSchema::ClosingSigned.field(0), Some(TlvValue::FeeRange));
    assert_eq!(TlvSchema::ClosingSigned.field(1), None);
    assert_eq!(TlvSchema::ClosingSigned.field(2), Some(TlvValue::Nonce));
    assert_eq!(TlvSchema::ClosingSigned.field(3), Some(TlvValue::PartialSig));
    assert_eq!(TlvSchema::NoneKnown.field(0), None);
}
