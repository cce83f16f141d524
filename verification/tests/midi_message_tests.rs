use wmidi::{combine_data, split_data, Channel, Error, MidiMessage, Note, ToSliceError, U14, U7};

#[test]
fn try_from() {
    assert_eq!(MidiMessage::from_bytes(&[0x84]), Err(Error::NotEnoughBytes));
    assert_eq!(
        MidiMessage::from_bytes(&[0x84, 64]),
        Err(Error::NotEnoughBytes)
    );
    assert_eq!(
        MidiMessage::from_bytes(&[0x84, 64, 100]),
        Ok((
            MidiMessage::NoteOff(Channel::Ch5, Note::E4, U7::try_from(100).unwrap()),
            3
        ))
    );

    assert_eq!(MidiMessage::from_bytes(&[0x94]), Err(Error::NotEnoughBytes));
    assert_eq!(
        MidiMessage::from_bytes(&[0x94, 64]),
        Err(Error::NotEnoughBytes)
    );
    assert_eq!(
        MidiMessage::from_bytes(&[0x94, 64, 100]),
        Ok((
            MidiMessage::NoteOn(Channel::Ch5, Note::E4, U7::try_from(100).unwrap()),
            3
        ))
    );

    assert_eq!(
        MidiMessage::from_bytes(&[0xF0, 4, 8, 12, 16, 0xF7]),
        Ok((
            MidiMessage::SysEx(U7::try_from_bytes(&[4, 8, 12, 16]).unwrap()),
            6
        ))
    );
    assert_eq!(
        MidiMessage::from_bytes(&[0xF0, 3, 6, 9, 12, 15, 0xF7, 125]),
        Ok((
            MidiMessage::SysEx(U7::try_from_bytes(&[3, 6, 9, 12, 15]).unwrap()),
            7
        ))
    );
    assert_eq!(
        MidiMessage::from_bytes(&[0xF0, 1, 2, 3, 4, 5, 6, 7, 8, 9]),
        Err(Error::NoSysExEndByte)
    );

    assert_eq!(MidiMessage::from_bytes(&[0xE4]), Err(Error::NotEnoughBytes));
    assert_eq!(
        MidiMessage::from_bytes(&[0xE4, 64]),
        Err(Error::NotEnoughBytes)
    );
    assert_eq!(
        MidiMessage::from_bytes(&[0xE4, 64, 100]),
        Ok((
            MidiMessage::PitchBendChange(Channel::Ch5, U14::try_from(12864).unwrap()),
            3
        ))
    );
}

#[test]
fn sysex_interleaved_status_byte_is_rejected() {
    assert_eq!(
        MidiMessage::from_bytes(&[0xF0, 1, 0x90, 2, 0xF7]),
        Err(Error::UnexpectedNonSysExEndByte(0x90))
    );
}

#[test]
fn empty_sysex_is_well_formed() {
    assert_eq!(
        MidiMessage::from_bytes(&[0xF0, 0xF7]),
        Ok((MidiMessage::SysEx(U7::try_from_bytes(&[]).unwrap()), 2))
    );
}

#[test]
fn decode_error_cases() {
    assert_eq!(MidiMessage::from_bytes(&[]), Err(Error::NoBytes));
    assert_eq!(MidiMessage::from_bytes(&[0x40]), Err(Error::UnexpectedDataByte));
    assert_eq!(
        MidiMessage::from_bytes(&[0xF7]),
        Err(Error::UnexpectedEndSysExByte)
    );
    assert_eq!(
        MidiMessage::from_bytes(&[0x84, 0x80, 1]),
        Err(Error::UnexpectedStatusByte)
    );
    assert_eq!(
        MidiMessage::from_bytes(&[0x84, 1, 0x80]),
        Err(Error::UnexpectedStatusByte)
    );
    assert_eq!(Channel::from_index(16), Err(Error::ChannelOutOfRange));
    assert_eq!(Note::try_from(128), Err(Error::NoteOutOfRange));
}

#[test]
fn copy_to_slice() {
    let b = {
        let mut b = [0u8; 6];
        let bytes_copied = MidiMessage::PolyphonicKeyPressure(
            Channel::Ch10,
            Note::A6,
            U7::try_from(43).unwrap(),
        )
        .copy_to_slice(&mut b)
        .unwrap();
        assert_eq!(bytes_copied, 3);
        b
    };
    assert_eq!(b, [0xA9, 93, 43, 0, 0, 0]);
}

#[test]
fn copy_to_slice_sysex() {
    let b = {
        let mut b = [0u8; 8];
        let bytes_copied = MidiMessage::SysEx(U7::try_from_bytes(&[10, 20, 30, 40, 50]).unwrap())
            .copy_to_slice(&mut b)
            .unwrap();
        assert_eq!(bytes_copied, 7);
        b
    };
    assert_eq!(b, [0xF0, 10, 20, 30, 40, 50, 0xF7, 0]);
}

#[test]
fn copy_to_slice_undersized_buffer_writes_nothing() {
    let message = MidiMessage::NoteOn(Channel::Ch1, Note::C4, U7::try_from(100).unwrap());
    let mut b = [7u8; 2];
    assert_eq!(message.copy_to_slice(&mut b), Err(ToSliceError::BufferTooSmall));
    assert_eq!(b, [7, 7]);

    let sysex = MidiMessage::SysEx(U7::try_from_bytes(&[1, 2, 3]).unwrap());
    let mut small = [9u8; 4];
    assert_eq!(
        sysex.copy_to_slice(&mut small),
        Err(ToSliceError::BufferTooSmall)
    );
    assert_eq!(small, [9, 9, 9, 9]);
}

#[test]
fn drop_unowned_sysex() {
    assert_eq!(
        MidiMessage::SysEx(U7::try_from_bytes(&[1, 2, 3]).unwrap()).drop_unowned_sysex(),
        None
    );
    assert_eq!(
        MidiMessage::OwnedSysEx(vec![
            U7::try_from(1).unwrap(),
            U7::try_from(2).unwrap(),
            U7::try_from(3).unwrap()
        ])
        .drop_unowned_sysex(),
        Some(MidiMessage::OwnedSysEx(vec![
            U7::try_from(1).unwrap(),
            U7::try_from(2).unwrap(),
            U7::try_from(3).unwrap()
        ]))
    );
    assert_eq!(
        MidiMessage::TuneRequest.drop_unowned_sysex(),
        Some(MidiMessage::TuneRequest)
    );
}

#[test]
fn to_owned() {
    assert_eq!(
        MidiMessage::SysEx(U7::try_from_bytes(&[1, 2, 3]).unwrap()).to_owned(),
        MidiMessage::OwnedSysEx(vec![
            U7::try_from(1).unwrap(),
            U7::try_from(2).unwrap(),
            U7::try_from(3).unwrap()
        ])
    );
    assert_ne!(
        MidiMessage::SysEx(U7::try_from_bytes(&[1, 2, 3]).unwrap()).to_owned(),
        MidiMessage::SysEx(U7::try_from_bytes(&[1, 2, 3]).unwrap())
    );
}

#[test]
fn channel() {
    assert_eq!(
        MidiMessage::ControlChange(
            Channel::Ch8,
            U7::try_from(7).unwrap(),
            U7::try_from(55).unwrap()
        )
        .channel(),
        Some(Channel::Ch8)
    );
    assert_eq!(MidiMessage::Start.channel(), None);
}

#[test]
fn channel_index_and_number_are_inverses() {
    for i in 0..16 {
        let channel = Channel::from_index(i).unwrap();
        assert_eq!(channel.index(), i);
        assert_eq!(channel.number(), i + 1);
    }
}

#[test]
fn pitch_bend_combine_split_are_inverses() {
    for (lo, hi) in [(0u8, 0u8), (127, 127), (64, 0), (0, 64), (100, 27)] {
        let combined = combine_data(U7::try_from(lo).unwrap(), U7::try_from(hi).unwrap());
        assert_eq!(split_data(combined), (lo, hi));
    }
    let combined = combine_data(U7::try_from(64).unwrap(), U7::try_from(100).unwrap());
    assert_eq!(combined.to_u16(), 64 + 128 * 100);
}

#[test]
fn round_trip_all_variants() {
    let velocity = U7::try_from(100).unwrap();
    let control = U7::try_from(7).unwrap();
    let program = U7::try_from(42).unwrap();
    let bend = U14::try_from(8192).unwrap();
    let messages = [
        MidiMessage::NoteOff(Channel::Ch5, Note::E3, velocity),
        MidiMessage::NoteOn(Channel::Ch1, Note::C4, velocity),
        MidiMessage::PolyphonicKeyPressure(Channel::Ch16, Note::G9, velocity),
        MidiMessage::ControlChange(Channel::Ch8, control, velocity),
        MidiMessage::ProgramChange(Channel::Ch3, program),
        MidiMessage::ChannelPressure(Channel::Ch2, velocity),
        MidiMessage::PitchBendChange(Channel::Ch5, bend),
        MidiMessage::SysEx(U7::try_from_bytes(&[4, 8, 12, 16]).unwrap()),
        MidiMessage::MidiTimeCode(control),
        MidiMessage::SongPositionPointer(U14::try_from(12864).unwrap()),
        MidiMessage::SongSelect(program),
        MidiMessage::Reserved(0xF4),
        MidiMessage::Reserved(0xF5),
        MidiMessage::Reserved(0xF9),
        MidiMessage::Reserved(0xFD),
        MidiMessage::TuneRequest,
        MidiMessage::TimingClock,
        MidiMessage::Start,
        MidiMessage::Continue,
        MidiMessage::Stop,
        MidiMessage::ActiveSensing,
        MidiMessage::Reset,
    ];
    for message in messages {
        let encoded = message.to_bytes();
        assert_eq!(encoded.len(), message.bytes_size());
        let mut buffer = vec![0u8; encoded.len()];
        assert_eq!(message.copy_to_slice(&mut buffer), Ok(encoded.len()));
        assert_eq!(buffer, encoded);
        let (decoded, consumed) = MidiMessage::from_bytes(&encoded).unwrap();
        assert_eq!(consumed, encoded.len());
        assert_eq!(decoded, message);
    }
}

#[test]
fn owned_sysex_decodes_as_borrowed_sysex() {
    let payload = U7::try_from_bytes(&[1, 2, 3]).unwrap();
    let owned = MidiMessage::OwnedSysEx(payload.clone());
    let encoded = owned.to_bytes();
    let (decoded, consumed) = MidiMessage::from_bytes(&encoded).unwrap();
    assert_eq!(consumed, encoded.len());
    assert_eq!(decoded, MidiMessage::SysEx(payload));
}
