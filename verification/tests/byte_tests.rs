use wmidi::{Error, U14, U7};

#[test]
fn try_from_passes() {
    for n in 0x00..0x80 {
        U7::try_from(n).unwrap();
    }
}

#[test]
fn min_and_max_constant_are_valid() {
    assert_eq!(U7::try_from(U7::min_value().to_u8()).unwrap(), U7::min_value());
    assert_eq!(U7::try_from(U7::max_value().to_u8()).unwrap(), U7::max_value());
}

#[test]
fn try_from_out_of_range_fails() {
    for n in 0x80..=u8::MAX {
        assert_eq!(U7::try_from(n), Err(Error::DataByteOutOfRange));
    }
}

#[test]
fn try_from_bytes_is_ok_on_valid_bytes() {
    U7::try_from_bytes(&[]).unwrap();
    U7::try_from_bytes(&[0x00, 0x08, 0x10, 0x20, 0x30, 0x40, 0x7F]).unwrap();
}

#[test]
fn try_from_bytes_fails_on_out_of_range() {
    assert_eq!(
        U7::try_from_bytes(&[0x00, 0x80]),
        Err(Error::DataByteOutOfRange)
    );
}

#[test]
fn data_to_bytes_converts_exactly() {
    assert_eq!(
        &[0x00, 0x0F, 0x7F],
        U7::data_to_bytes(&[
            U7::try_from(0x00).unwrap(),
            U7::try_from(0x0F).unwrap(),
            U7::try_from(0x7F).unwrap()
        ])
        .as_slice(),
    );
}

#[test]
fn try_from_16_passes() {
    for n in 0x0000..0x4000 {
        U14::try_from(n).unwrap();
    }
}

#[test]
fn min_and_max_14_constant_are_valid() {
    assert_eq!(
        U14::try_from(U14::min_value().to_u16()).unwrap(),
        U14::min_value()
    );
    assert_eq!(
        U14::try_from(U14::max_value().to_u16()).unwrap(),
        U14::max_value()
    );
}

#[test]
fn try_from_out_of_range_16_fails() {
    for n in 0x4000..=u16::MAX {
        assert_eq!(U14::try_from(n), Err(Error::U14OutOfRange));
    }
}

#[test]
fn try_from_slice_is_ok_on_valid_range() {
    U14::try_from_slice(&[]).unwrap();
    U14::try_from_slice(&[0x0000, 0x0080, 0x0180, 0x01FF]).unwrap();
}

#[test]
fn try_from_slice_fails_on_out_of_range() {
    assert_eq!(
        U14::try_from_slice(&[0x0000, 0x5000]),
        Err(Error::U14OutOfRange)
    );
}

#[test]
fn data_to_slice_converts_exactly() {
    assert_eq!(
        &[0x0000, 0x010F, 0x017F],
        U14::data_to_slice(&[
            U14::try_from(0x0000).unwrap(),
            U14::try_from(0x010F).unwrap(),
            U14::try_from(0x017F).unwrap()
        ])
        .as_slice(),
    );
}

#[test]
fn test_from_u8_lossy() {
    assert_eq!(U7::from_u8_lossy(0), U7::try_from(0).unwrap());
    assert_eq!(U7::from_u8_lossy(64), U7::try_from(64).unwrap());
    assert_eq!(U7::from_u8_lossy(127), U7::try_from(127).unwrap());
    assert_eq!(U7::from_u8_lossy(128), U7::try_from(0).unwrap());
    assert_eq!(U7::from_u8_lossy(200), U7::try_from(72).unwrap());
}

#[test]
fn from_unchecked_round_trips() {
    for n in 0..128 {
        assert_eq!(U7::from_unchecked(n).to_u8(), n);
    }
    for n in [0u16, 1, 127, 128, 16383] {
        assert_eq!(U14::from_unchecked(n).to_u16(), n);
    }
}
