use crate::byte::U7;
use crate::error::FromBytesError;
use vstd::prelude::*;

verus! {

/// A MIDI note, one of the 128 pitches addressable by a 7-bit data byte.
///
/// Each variant is written `$NOTE $MODIFIER? $OCTAVE`, where the note runs
/// from `A` to `G`, the modifier `b` marks a flat, and the octave `-1` is
/// written `Minus1`. The view of a note is its wire number in [0, 127].
#[derive(Copy, Clone, Debug, Eq, Hash, Ord, PartialEq, PartialOrd, Structural)]
pub enum Note {
    CMinus1,
    DbMinus1,
    DMinus1,
    EbMinus1,
    EMinus1,
    FMinus1,
    GbMinus1,
    GMinus1,
    AbMinus1,
    AMinus1,
    BbMinus1,
    BMinus1,
    C0,
    Db0,
    D0,
    Eb0,
    E0,
    F0,
    Gb0,
    G0,
    Ab0,
    A0,
    Bb0,
    B0,
    C1,
    Db1,
    D1,
    Eb1,
    E1,
    F1,
    Gb1,
    G1,
    Ab1,
    A1,
    Bb1,
    B1,
    C2,
    Db2,
    D2,
    Eb2,
    E2,
    F2,
    Gb2,
    G2,
    Ab2,
    A2,
    Bb2,
    B2,
    C3,
    Db3,
    D3,
    Eb3,
    E3,
    F3,
    Gb3,
    G3,
    Ab3,
    A3,
    Bb3,
    B3,
    /// Middle C.
    C4,
    Db4,
    D4,
    Eb4,
    E4,
    F4,
    Gb4,
    G4,
    Ab4,
    /// A440.
    A4,
    Bb4,
    B4,
    C5,
    Db5,
    D5,
    Eb5,
    E5,
    F5,
    Gb5,
    G5,
    Ab5,
    A5,
    Bb5,
    B5,
    C6,
    Db6,
    D6,
    Eb6,
    E6,
    F6,
    Gb6,
    G6,
    Ab6,
    A6,
    Bb6,
    B6,
    C7,
    Db7,
    D7,
    Eb7,
    E7,
    F7,
    Gb7,
    G7,
    Ab7,
    A7,
    Bb7,
    B7,
    C8,
    Db8,
    D8,
    Eb8,
    E8,
    F8,
    Gb8,
    G8,
    Ab8,
    A8,
    Bb8,
    B8,
    C9,
    Db9,
    D9,
    Eb9,
    E9,
    F9,
    Gb9,
    G9,
}

impl View for Note {
    type V = u8;

    open spec fn view(&self) -> u8 {
        match self {
            Note::CMinus1 => 0,
            Note::DbMinus1 => 1,
            Note::DMinus1 => 2,
            Note::EbMinus1 => 3,
            Note::EMinus1 => 4,
            Note::FMinus1 => 5,
            Note::GbMinus1 => 6,
            Note::GMinus1 => 7,
            Note::AbMinus1 => 8,
            Note::AMinus1 => 9,
            Note::BbMinus1 => 10,
            Note::BMinus1 => 11,
            Note::C0 => 12,
            Note::Db0 => 13,
            Note::D0 => 14,
            Note::Eb0 => 15,
            Note::E0 => 16,
            Note::F0 => 17,
            Note::Gb0 => 18,
            Note::G0 => 19,
            Note::Ab0 => 20,
            Note::A0 => 21,
            Note::Bb0 => 22,
            Note::B0 => 23,
            Note::C1 => 24,
            Note::Db1 => 25,
            Note::D1 => 26,
            Note::Eb1 => 27,
            Note::E1 => 28,
            Note::F1 => 29,
            Note::Gb1 => 30,
            Note::G1 => 31,
            Note::Ab1 => 32,
            Note::A1 => 33,
            Note::Bb1 => 34,
            Note::B1 => 35,
            Note::C2 => 36,
            Note::Db2 => 37,
            Note::D2 => 38,
            Note::Eb2 => 39,
            Note::E2 => 40,
            Note::F2 => 41,
            Note::Gb2 => 42,
            Note::G2 => 43,
            Note::Ab2 => 44,
            Note::A2 => 45,
            Note::Bb2 => 46,
            Note::B2 => 47,
            Note::C3 => 48,
            Note::Db3 => 49,
            Note::D3 => 50,
            Note::Eb3 => 51,
            Note::E3 => 52,
            Note::F3 => 53,
            Note::Gb3 => 54,
            Note::G3 => 55,
            Note::Ab3 => 56,
            Note::A3 => 57,
            Note::Bb3 => 58,
            Note::B3 => 59,
            Note::C4 => 60,
            Note::Db4 => 61,
            Note::D4 => 62,
            Note::Eb4 => 63,
            Note::E4 => 64,
            Note::F4 => 65,
            Note::Gb4 => 66,
            Note::G4 => 67,
            Note::Ab4 => 68,
            Note::A4 => 69,
            Note::Bb4 => 70,
            Note::B4 => 71,
            Note::C5 => 72,
            Note::Db5 => 73,
            Note::D5 => 74,
            Note::Eb5 => 75,
            Note::E5 => 76,
            Note::F5 => 77,
            Note::Gb5 => 78,
            Note::G5 => 79,
            Note::Ab5 => 80,
            Note::A5 => 81,
            Note::Bb5 => 82,
            Note::B5 => 83,
            Note::C6 => 84,
            Note::Db6 => 85,
            Note::D6 => 86,
            Note::Eb6 => 87,
            Note::E6 => 88,
            Note::F6 => 89,
            Note::Gb6 => 90,
            Note::G6 => 91,
            Note::Ab6 => 92,
            Note::A6 => 93,
            Note::Bb6 => 94,
            Note::B6 => 95,
            Note::C7 => 96,
            Note::Db7 => 97,
            Note::D7 => 98,
            Note::Eb7 => 99,
            Note::E7 => 100,
            Note::F7 => 101,
            Note::Gb7 => 102,
            Note::G7 => 103,
            Note::Ab7 => 104,
            Note::A7 => 105,
            Note::Bb7 => 106,
            Note::B7 => 107,
            Note::C8 => 108,
            Note::Db8 => 109,
            Note::D8 => 110,
            Note::Eb8 => 111,
            Note::E8 => 112,
            Note::F8 => 113,
            Note::Gb8 => 114,
            Note::G8 => 115,
            Note::Ab8 => 116,
            Note::A8 => 117,
            Note::Bb8 => 118,
            Note::B8 => 119,
            Note::C9 => 120,
            Note::Db9 => 121,
            Note::D9 => 122,
            Note::Eb9 => 123,
            Note::E9 => 124,
            Note::F9 => 125,
            Note::Gb9 => 126,
            Note::G9 => 127,
        }
    }
}

impl Note {
    /// Every note's wire number fits in a data byte.
    pub proof fn lemma_view_bounded(&self)
        ensures
            self@ <= 127,
    {
    }

    /// The note whose wire number is `note`; the caller guarantees the range.
    pub fn from_u8_unchecked(note: u8) -> (r: Note)
        requires
            note <= 127,
        ensures
            r@ == note,
    {
        match note {
            0 => Note::CMinus1,
            1 => Note::DbMinus1,
            2 => Note::DMinus1,
            3 => Note::EbMinus1,
            4 => Note::EMinus1,
            5 => Note::FMinus1,
            6 => Note::GbMinus1,
            7 => Note::GMinus1,
            8 => Note::AbMinus1,
            9 => Note::AMinus1,
            10 => Note::BbMinus1,
            11 => Note::BMinus1,
            12 => Note::C0,
            13 => Note::Db0,
            14 => Note::D0,
            15 => Note::Eb0,
            16 => Note::E0,
            17 => Note::F0,
            18 => Note::Gb0,
            19 => Note::G0,
            20 => Note::Ab0,
            21 => Note::A0,
            22 => Note::Bb0,
            23 => Note::B0,
            24 => Note::C1,
            25 => Note::Db1,
            26 => Note::D1,
            27 => Note::Eb1,
            28 => Note::E1,
            29 => Note::F1,
            30 => Note::Gb1,
            31 => Note::G1,
            32 => Note::Ab1,
            33 => Note::A1,
            34 => Note::Bb1,
            35 => Note::B1,
            36 => Note::C2,
            37 => Note::Db2,
            38 => Note::D2,
            39 => Note::Eb2,
            40 => Note::E2,
            41 => Note::F2,
            42 => Note::Gb2,
            43 => Note::G2,
            44 => Note::Ab2,
            45 => Note::A2,
            46 => Note::Bb2,
            47 => Note::B2,
            48 => Note::C3,
            49 => Note::Db3,
            50 => Note::D3,
            51 => Note::Eb3,
            52 => Note::E3,
            53 => Note::F3,
            54 => Note::Gb3,
            55 => Note::G3,
            56 => Note::Ab3,
            57 => Note::A3,
            58 => Note::Bb3,
            59 => Note::B3,
            60 => Note::C4,
            61 => Note::Db4,
            62 => Note::D4,
            63 => Note::Eb4,
            64 => Note::E4,
            65 => Note::F4,
            66 => Note::Gb4,
            67 => Note::G4,
            68 => Note::Ab4,
            69 => Note::A4,
            70 => Note::Bb4,
            71 => Note::B4,
            72 => Note::C5,
            73 => Note::Db5,
            74 => Note::D5,
            75 => Note::Eb5,
            76 => Note::E5,
            77 => Note::F5,
            78 => Note::Gb5,
            79 => Note::G5,
            80 => Note::Ab5,
            81 => Note::A5,
            82 => Note::Bb5,
            83 => Note::B5,
            84 => Note::C6,
            85 => Note::Db6,
            86 => Note::D6,
            87 => Note::Eb6,
            88 => Note::E6,
            89 => Note::F6,
            90 => Note::Gb6,
            91 => Note::G6,
            92 => Note::Ab6,
            93 => Note::A6,
            94 => Note::Bb6,
            95 => Note::B6,
            96 => Note::C7,
            97 => Note::Db7,
            98 => Note::D7,
            99 => Note::Eb7,
            100 => Note::E7,
            101 => Note::F7,
            102 => Note::Gb7,
            103 => Note::G7,
            104 => Note::Ab7,
            105 => Note::A7,
            106 => Note::Bb7,
            107 => Note::B7,
            108 => Note::C8,
            109 => Note::Db8,
            110 => Note::D8,
            111 => Note::Eb8,
            112 => Note::E8,
            113 => Note::F8,
            114 => Note::Gb8,
            115 => Note::G8,
            116 => Note::Ab8,
            117 => Note::A8,
            118 => Note::Bb8,
            119 => Note::B8,
            120 => Note::C9,
            121 => Note::Db9,
            122 => Note::D9,
            123 => Note::Eb9,
            124 => Note::E9,
            125 => Note::F9,
            126 => Note::Gb9,
            _ => Note::G9,
        }
    }

    /// The note whose wire number is `note`, for numbers up to 127;
    /// `NoteOutOfRange` otherwise.
    pub fn try_from(note: u8) -> (r: Result<Note, FromBytesError>)
        ensures
            note <= 127 ==> r is Ok && r->Ok_0@ == note,
            note > 127 ==> r == Err::<Note, FromBytesError>(FromBytesError::NoteOutOfRange),
    {
        if note > 127 {
            Err(FromBytesError::NoteOutOfRange)
        } else {
            Ok(Note::from_u8_unchecked(note))
        }
    }

    /// The note carried by a validated data byte.
    pub fn from_u7(note: U7) -> (r: Note)
        requires
            note.wf(),
        ensures
            r@ == note@,
    {
        Note::from_u8_unchecked(note.to_u8())
    }

    /// Create a note from a `u8`. Only the 7 least significant bits are used.
    pub fn from_u8_lossy(note: u8) -> (r: Note)
        ensures
            r@ == note % 128,
    {
        Note::from_u7(U7::from_u8_lossy(note))
    }

    /// The note's wire number.
    pub fn to_u8(self) -> (r: u8)
        ensures
            r == self@,
    {
        match self {
            Note::CMinus1 => 0,
            Note::DbMinus1 => 1,
            Note::DMinus1 => 2,
            Note::EbMinus1 => 3,
            Note::EMinus1 => 4,
            Note::FMinus1 => 5,
            Note::GbMinus1 => 6,
            Note::GMinus1 => 7,
            Note::AbMinus1 => 8,
            Note::AMinus1 => 9,
            Note::BbMinus1 => 10,
            Note::BMinus1 => 11,
            Note::C0 => 12,
            Note::Db0 => 13,
            Note::D0 => 14,
            Note::Eb0 => 15,
            Note::E0 => 16,
            Note::F0 => 17,
            Note::Gb0 => 18,
            Note::G0 => 19,
            Note::Ab0 => 20,
            Note::A0 => 21,
            Note::Bb0 => 22,
            Note::B0 => 23,
            Note::C1 => 24,
            Note::Db1 => 25,
            Note::D1 => 26,
            Note::Eb1 => 27,
            Note::E1 => 28,
            Note::F1 => 29,
            Note::Gb1 => 30,
            Note::G1 => 31,
            Note::Ab1 => 32,
            Note::A1 => 33,
            Note::Bb1 => 34,
            Note::B1 => 35,
            Note::C2 => 36,
            Note::Db2 => 37,
            Note::D2 => 38,
            Note::Eb2 => 39,
            Note::E2 => 40,
            Note::F2 => 41,
            Note::Gb2 => 42,
            Note::G2 => 43,
            Note::Ab2 => 44,
            Note::A2 => 45,
            Note::Bb2 => 46,
            Note::B2 => 47,
            Note::C3 => 48,
            Note::Db3 => 49,
            Note::D3 => 50,
            Note::Eb3 => 51,
            Note::E3 => 52,
            Note::F3 => 53,
            Note::Gb3 => 54,
            Note::G3 => 55,
            Note::Ab3 => 56,
            Note::A3 => 57,
            Note::Bb3 => 58,
            Note::B3 => 59,
            Note::C4 => 60,
            Note::Db4 => 61,
            Note::D4 => 62,
            Note::Eb4 => 63,
            Note::E4 => 64,
            Note::F4 => 65,
            Note::Gb4 => 66,
            Note::G4 => 67,
            Note::Ab4 => 68,
            Note::A4 => 69,
            Note::Bb4 => 70,
            Note::B4 => 71,
            Note::C5 => 72,
            Note::Db5 => 73,
            Note::D5 => 74,
            Note::Eb5 => 75,
            Note::E5 => 76,
            Note::F5 => 77,
            Note::Gb5 => 78,
            Note::G5 => 79,
            Note::Ab5 => 80,
            Note::A5 => 81,
            Note::Bb5 => 82,
            Note::B5 => 83,
            Note::C6 => 84,
            Note::Db6 => 85,
            Note::D6 => 86,
            Note::Eb6 => 87,
            Note::E6 => 88,
            Note::F6 => 89,
            Note::Gb6 => 90,
            Note::G6 => 91,
            Note::Ab6 => 92,
            Note::A6 => 93,
            Note::Bb6 => 94,
            Note::B6 => 95,
            Note::C7 => 96,
            Note::Db7 => 97,
            Note::D7 => 98,
            Note::Eb7 => 99,
            Note::E7 => 100,
            Note::F7 => 101,
            Note::Gb7 => 102,
            Note::G7 => 103,
            Note::Ab7 => 104,
            Note::A7 => 105,
            Note::Bb7 => 106,
            Note::B7 => 107,
            Note::C8 => 108,
            Note::Db8 => 109,
            Note::D8 => 110,
            Note::Eb8 => 111,
            Note::E8 => 112,
            Note::F8 => 113,
            Note::Gb8 => 114,
            Note::G8 => 115,
            Note::Ab8 => 116,
            Note::A8 => 117,
            Note::Bb8 => 118,
            Note::B8 => 119,
            Note::C9 => 120,
            Note::Db9 => 121,
            Note::D9 => 122,
            Note::Eb9 => 123,
            Note::E9 => 124,
            Note::F9 => 125,
            Note::Gb9 => 126,
            Note::G9 => 127,
        }
    }

    /// The note `half_steps` half-steps away from `self`, when that stays
    /// on the keyboard; `NoteOutOfRange` otherwise.
    pub fn step(self, half_steps: i8) -> (r: Result<Note, FromBytesError>)
        ensures
            0 <= self@ + half_steps <= 127 ==> r is Ok && r->Ok_0@ == self@ + half_steps,
            !(0 <= self@ + half_steps <= 127) ==> r == Err::<Note, FromBytesError>(
                FromBytesError::NoteOutOfRange,
            ),
    {
        let raw_note: i16 = self.to_u8() as i16 + half_steps as i16;
        if 0 <= raw_note && raw_note <= 127 {
            Ok(Note::from_u8_unchecked(raw_note as u8))
        } else {
            Err(FromBytesError::NoteOutOfRange)
        }
    }

    /// A `str` representation of the note, such as `"C3"` or `"A#/Bb2"`.
    pub fn to_str(self) -> &'static str {
        match self {
            Note::CMinus1 => "C-1",
            Note::DbMinus1 => "C#/Db-1",
            Note::DMinus1 => "D-1",
            Note::EbMinus1 => "D#/Eb-1",
            Note::EMinus1 => "E-1",
            Note::FMinus1 => "F-1",
            Note::GbMinus1 => "F#/Gb-1",
            Note::GMinus1 => "G-1",
            Note::AbMinus1 => "G#/Ab-1",
            Note::AMinus1 => "A-1",
            Note::BbMinus1 => "A#/Bb-1",
            Note::BMinus1 => "B-1",
            Note::C0 => "C0",
            Note::Db0 => "C#/Db0",
            Note::D0 => "D0",
            Note::Eb0 => "D#/Eb0",
            Note::E0 => "E0",
            Note::F0 => "F0",
            Note::Gb0 => "F#/Gb0",
            Note::G0 => "G0",
            Note::Ab0 => "G#/Ab0",
            Note::A0 => "A0",
            Note::Bb0 => "A#/Bb0",
            Note::B0 => "B0",
            Note::C1 => "C1",
            Note::Db1 => "C#/Db1",
            Note::D1 => "D1",
            Note::Eb1 => "D#/Eb1",
            Note::E1 => "E1",
            Note::F1 => "F1",
            Note::Gb1 => "F#/Gb1",
            Note::G1 => "G1",
            Note::Ab1 => "G#/Ab1",
            Note::A1 => "A1",
            Note::Bb1 => "A#/Bb1",
            Note::B1 => "B1",
            Note::C2 => "C2",
            Note::Db2 => "C#/Db2",
            Note::D2 => "D2",
            Note::Eb2 => "D#/Eb2",
            Note::E2 => "E2",
            Note::F2 => "F2",
            Note::Gb2 => "F#/Gb2",
            Note::G2 => "G2",
            Note::Ab2 => "G#/Ab2",
            Note::A2 => "A2",
            Note::Bb2 => "A#/Bb2",
            Note::B2 => "B2",
            Note::C3 => "C3",
            Note::Db3 => "C#/Db3",
            Note::D3 => "D3",
            Note::Eb3 => "D#/Eb3",
            Note::E3 => "E3",
            Note::F3 => "F3",
            Note::Gb3 => "F#/Gb3",
            Note::G3 => "G3",
            Note::Ab3 => "G#/Ab3",
            Note::A3 => "A3",
            Note::Bb3 => "A#/Bb3",
            Note::B3 => "B3",
            Note::C4 => "C4",
            Note::Db4 => "C#/Db4",
            Note::D4 => "D4",
            Note::Eb4 => "D#/Eb4",
            Note::E4 => "E4",
            Note::F4 => "F4",
            Note::Gb4 => "F#/Gb4",
            Note::G4 => "G4",
            Note::Ab4 => "G#/Ab4",
            Note::A4 => "A4",
            Note::Bb4 => "A#/Bb4",
            Note::B4 => "B4",
            Note::C5 => "C5",
            Note::Db5 => "C#/Db5",
            Note::D5 => "D5",
            Note::Eb5 => "D#/Eb5",
            Note::E5 => "E5",
            Note::F5 => "F5",
            Note::Gb5 => "F#/Gb5",
            Note::G5 => "G5",
            Note::Ab5 => "G#/Ab5",
            Note::A5 => "A5",
            Note::Bb5 => "A#/Bb5",
            Note::B5 => "B5",
            Note::C6 => "C6",
            Note::Db6 => "C#/Db6",
            Note::D6 => "D6",
            Note::Eb6 => "D#/Eb6",
            Note::E6 => "E6",
            Note::F6 => "F6",
            Note::Gb6 => "F#/Gb6",
            Note::G6 => "G6",
            Note::Ab6 => "G#/Ab6",
            Note::A6 => "A6",
            Note::Bb6 => "A#/Bb6",
            Note::B6 => "B6",
            Note::C7 => "C7",
            Note::Db7 => "C#/Db7",
            Note::D7 => "D7",
            Note::Eb7 => "D#/Eb7",
            Note::E7 => "E7",
            Note::F7 => "F7",
            Note::Gb7 => "F#/Gb7",
            Note::G7 => "G7",
            Note::Ab7 => "G#/Ab7",
            Note::A7 => "A7",
            Note::Bb7 => "A#/Bb7",
            Note::B7 => "B7",
            Note::C8 => "C8",
            Note::Db8 => "C#/Db8",
            Note::D8 => "D8",
            Note::Eb8 => "D#/Eb8",
            Note::E8 => "E8",
            Note::F8 => "F8",
            Note::Gb8 => "F#/Gb8",
            Note::G8 => "G8",
            Note::Ab8 => "G#/Ab8",
            Note::A8 => "A8",
            Note::Bb8 => "A#/Bb8",
            Note::B8 => "B8",
            Note::C9 => "C9",
            Note::Db9 => "C#/Db9",
            Note::D9 => "D9",
            Note::Eb9 => "D#/Eb9",
            Note::E9 => "E9",
            Note::F9 => "F9",
            Note::Gb9 => "F#/Gb9",
            Note::G9 => "G9",
        }
    }
}

} // verus!
