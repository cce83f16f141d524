use wmidi::{Error, Note, U7};

#[test]
fn step() {
    assert_eq!(Note::CMinus1.step(12), Ok(Note::C0));
    assert_eq!(Note::C0.step(-12), Ok(Note::CMinus1));
    assert_eq!(Note::B3.step(1), Ok(Note::C4));
    assert_eq!(Note::B3.step(100), Err(Error::NoteOutOfRange));
    assert_eq!(Note::B3.step(-100), Err(Error::NoteOutOfRange));
}

#[test]
fn test_debug() {
    let debug_str = Note::Bb3.to_str();
    assert!(debug_str.contains("Bb"), "{}", debug_str);
    assert!(debug_str.contains('3'), "{}", debug_str);
    assert!(debug_str.contains("A#"), "{}", debug_str);
}

#[test]
fn try_from_covers_exactly_the_data_byte_range() {
    for n in 0..128 {
        assert_eq!(Note::try_from(n).unwrap().to_u8(), n);
    }
    for n in 128..=u8::MAX {
        assert_eq!(Note::try_from(n), Err(Error::NoteOutOfRange));
    }
}

#[test]
fn note_from_u8_lossy_masks_to_seven_bits() {
    assert_eq!(Note::from_u8_lossy(48), Note::C3);
    assert_eq!(Note::from_u8_lossy(48 + 128), Note::C3);
    assert_eq!(Note::from_u8_lossy(69), Note::A4);
}

#[test]
fn note_from_u7_keeps_the_value() {
    let data = U7::try_from(60).unwrap();
    assert_eq!(Note::from_u7(data), Note::C4);
    assert_eq!(Note::from_u8_unchecked(81), Note::A5);
}
