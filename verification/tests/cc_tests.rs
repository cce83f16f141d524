use wmidi::{ControlFunction, U7};

#[test]
fn from_u7() {
    for value in 0..128 {
        let data = U7::try_from(value).unwrap();
        let cc = ControlFunction::from_u7(data);
        assert_eq!(value, cc.to_u8());
    }
}

#[test]
fn to_u7_returns_wrapped_byte() {
    let data = U7::try_from(91).unwrap();
    assert_eq!(ControlFunction::from_u7(data).to_u7(), data);
}
