use wmidi::smf::{encode_varint, Division, Error, Format, MetaEvent, SmfWriter, TrackEvent};
use wmidi::{Channel, MidiMessage, Note, U7};

#[test]
fn test_varint() {
    let test_cases: [(u64, &[u8]); 3] = [
        (127, &[0x7F]),
        (255, &[0x81, 0x7F]),
        (32768, &[0x82, 0x80, 0x00]),
    ];
    for (int, want) in test_cases {
        let buffer = encode_varint(int);
        assert_eq!(buffer.as_slice(), want);
    }
}

#[test]
fn varint_zero_is_a_single_zero_byte() {
    assert_eq!(encode_varint(0).as_slice(), &[0x00]);
    assert_eq!(encode_varint(128).as_slice(), &[0x81, 0x00]);
}

#[test]
fn single_track_format_validates_track_count() {
    let no_tracks = SmfWriter {
        format: Format::SingleTrack,
        division: Division::TicksPerBeat(96),
        tracks: vec![],
    };
    assert_eq!(
        no_tracks.encode(),
        Err(Error::SingleTrackFormatContainsNoTracks)
    );

    let two_tracks = SmfWriter {
        format: Format::SingleTrack,
        division: Division::TicksPerBeat(96),
        tracks: vec![
            vec![TrackEvent::Meta { time: 0, event: MetaEvent::EndOfTrack }],
            vec![TrackEvent::Meta { time: 0, event: MetaEvent::EndOfTrack }],
        ],
    };
    assert_eq!(
        two_tracks.encode(),
        Err(Error::SingleTrackFormatContainsMoreThanOneTrack)
    );
}

#[test]
fn division_must_be_positive() {
    let zero_ticks = SmfWriter {
        format: Format::MultipleTracks,
        division: Division::TicksPerBeat(0),
        tracks: vec![vec![TrackEvent::Meta { time: 0, event: MetaEvent::EndOfTrack }]],
    };
    assert_eq!(zero_ticks.encode(), Err(Error::DivisionTicksMustBePositive));

    let negative_ticks = SmfWriter {
        format: Format::MultipleTracks,
        division: Division::TicksPerBeat(-5),
        tracks: vec![vec![TrackEvent::Meta { time: 0, event: MetaEvent::EndOfTrack }]],
    };
    assert_eq!(
        negative_ticks.encode(),
        Err(Error::DivisionTicksMustBePositive)
    );
}

#[test]
fn encode_single_track_file_is_byte_exact() {
    let writer = SmfWriter {
        format: Format::SingleTrack,
        division: Division::TicksPerBeat(96),
        tracks: vec![vec![TrackEvent::Meta { time: 0, event: MetaEvent::EndOfTrack }]],
    };
    let bytes = writer.encode().unwrap();
    let want: Vec<u8> = vec![
        0x4D, 0x54, 0x68, 0x64, // "MThd"
        0x00, 0x00, 0x00, 0x06, // header length
        0x00, 0x00, // format 0
        0x00, 0x01, // one track
        0x00, 0x60, // 96 ticks per beat
        0x4D, 0x54, 0x72, 0x6B, // "MTrk"
        0x00, 0x00, 0x00, 0x04, // track byte length
        0x00, 0xFF, 0x03, 0x00, // delta 0, end of track
    ];
    assert_eq!(bytes, want);
}

#[test]
fn declared_track_length_equals_summed_event_sizes() {
    let note_on = TrackEvent::Midi {
        time: 255,
        event: MidiMessage::NoteOn(Channel::Ch1, Note::C4, U7::try_from(100).unwrap()),
    };
    let end = TrackEvent::Meta { time: 0, event: MetaEvent::EndOfTrack };
    // delta 255 takes 2 VLQ bytes and the note-on message 3; delta 0 takes 1
    // and the end-of-track meta event 3.
    let note_on_size = 2 + 3;
    let end_size = 1 + 3;
    let writer = SmfWriter {
        format: Format::MultipleTracks,
        division: Division::TicksPerBeat(96),
        tracks: vec![vec![note_on, end]],
    };
    let bytes = writer.encode().unwrap();
    let declared = u32::from_be_bytes([bytes[18], bytes[19], bytes[20], bytes[21]]);
    assert_eq!(declared as usize, note_on_size + end_size);
    assert_eq!(bytes.len(), 14 + 8 + declared as usize);
    assert_eq!(
        &bytes[22..],
        &[0x81, 0x7F, 0x90, 0x3C, 0x64, 0x00, 0xFF, 0x03, 0x00]
    );
}

#[test]
fn meta_text_event_encodes_code_length_and_payload() {
    let writer = SmfWriter {
        format: Format::MultipleTracks,
        division: Division::TicksPerBeat(1),
        tracks: vec![vec![
            TrackEvent::Meta { time: 0, event: MetaEvent::SequenceNumber(vec![0x00, 0x01]) },
            TrackEvent::Meta { time: 0, event: MetaEvent::TextEvent(vec![0x68, 0x69]) },
            TrackEvent::Meta { time: 0, event: MetaEvent::CopyrightNotice(vec![0x63]) },
        ]],
    };
    let bytes = writer.encode().unwrap();
    assert_eq!(
        &bytes[22..],
        &[
            0x00, 0xFF, 0x00, 0x02, 0x00, 0x01, // sequence number
            0x00, 0xFF, 0x01, 0x02, 0x68, 0x69, // text
            0x00, 0xFF, 0x02, 0x01, 0x63, // copyright
        ]
    );
}
