use eltoo::msgs::MilliSatoshi;

#[test]
fn millisatoshi_conversions() {
    let m = MilliSatoshi::from_msat(123_456);
    assert_eq!(m.to_msat(), 123_456);
    let (sat, rest) = m.to_amount();
    assert_eq!(sat, 123);
    assert_eq!(rest.to_msat(), 456);
    assert_eq!(MilliSatoshi::zero().to_msat(), 0);
    assert_eq!(MilliSatoshi::from_msat(999).to_amount(), (0, MilliSatoshi::from_msat(999)));
}

#[test]
fn millisatoshi_checked_arithmetic() {
    let a = MilliSatoshi::from_msat(10);
    let b = MilliSatoshi::from_msat(3);
    assert_eq!(a.checked_sub(b), Some(MilliSatoshi::from_msat(7)));
    assert_eq!(b.checked_sub(a), None);
    assert_eq!(a.checked_sub(a), Some(MilliSatoshi::zero()));
    assert_eq!(a.checked_add(b), Some(MilliSatoshi::from_msat(13)));
    assert_eq!(MilliSatoshi::from_msat(u64::MAX).checked_add(MilliSatoshi::from_msat(1)), None);
    assert_eq!(
        MilliSatoshi::from_msat(u64::MAX - 1).checked_add(MilliSatoshi::from_msat(1)),
        Some(MilliSatoshi::from_msat(u64::MAX))
    );
    // what is added can be taken away again
    let sum = a.checked_add(b).unwrap();
    assert_eq!(sum.checked_sub(b), Some(a));
}

#[test]
fn millisatoshi_from_satoshis() {
    assert_eq!(MilliSatoshi::try_from_amount(21).unwrap(), MilliSatoshi::from_msat(21_000));
    assert_eq!(MilliSatoshi::try_from_amount(0).unwrap(), MilliSatoshi::zero());
    assert_eq!(
        MilliSatoshi::try_from_amount(u64::MAX / 1000).unwrap().to_msat(),
        (u64::MAX / 1000) * 1000
    );
    assert!(MilliSatoshi::try_from_amount(u64::MAX / 1000 + 1).is_err());
}

#[test]
fn millisatoshi_encoding() {
    let m = MilliSatoshi::from_msat(0x0102_0304_0506_0708);
    let mut w = Vec::new();
    m.write(&mut w);
    assert_eq!(w, vec![1, 2, 3, 4, 5, 6, 7, 8]);
    assert_eq!(m.serialized_length(), 8);
    assert_eq!(eltoo::msgs::get_msat(&w, 0).unwrap(), (m, 8));
}
