use crate::byte::{U14, U7};
use crate::error::{FromBytesError, ToSliceError};
use crate::note::Note;
use vstd::prelude::*;

verus! {

/// Specifies the velocity of an action (often key press, release, or aftertouch).
pub type Velocity = U7;

/// Specifies a MIDI control number.
pub type ControlNumber = U7;

/// Specifies the value of a MIDI control.
pub type ControlValue = U7;

/// Specifies a program. Sometimes known as patch.
pub type ProgramNumber = U7;

/// A 14-bit value specifying the pitch bend. Neutral is 8192.
pub type PitchBend = U14;

/// A 14-bit value that holds the number of MIDI beats (1 beat = six MIDI
/// clocks) since the start of the song.
pub type SongPosition = U14;

/// A song or sequence.
pub type Song = U7;

/// The MIDI channel. There are 16 channels. They are numbered between 1 and 16
/// inclusive, or indexed between 0 and 15 inclusive. The view of a channel is
/// its index.
#[derive(Copy, Clone, Debug, Eq, Hash, Ord, PartialEq, PartialOrd, Structural)]
pub enum Channel {
    Ch1,
    Ch2,
    Ch3,
    Ch4,
    Ch5,
    Ch6,
    Ch7,
    Ch8,
    Ch9,
    Ch10,
    Ch11,
    Ch12,
    Ch13,
    Ch14,
    Ch15,
    Ch16,
}

impl View for Channel {
    type V = u8;

    open spec fn view(&self) -> u8 {
        match self {
            Channel::Ch1 => 0,
            Channel::Ch2 => 1,
            Channel::Ch3 => 2,
            Channel::Ch4 => 3,
            Channel::Ch5 => 4,
            Channel::Ch6 => 5,
            Channel::Ch7 => 6,
            Channel::Ch8 => 7,
            Channel::Ch9 => 8,
            Channel::Ch10 => 9,
            Channel::Ch11 => 10,
            Channel::Ch12 => 11,
            Channel::Ch13 => 12,
            Channel::Ch14 => 13,
            Channel::Ch15 => 14,
            Channel::Ch16 => 15,
        }
    }
}

/// The channel whose index is `i`, for indices up to 15.
pub open spec fn channel_from_index(i: u8) -> Channel {
    if i == 0 {
        Channel::Ch1
    } else if i == 1 {
        Channel::Ch2
    } else if i == 2 {
        Channel::Ch3
    } else if i == 3 {
        Channel::Ch4
    } else if i == 4 {
        Channel::Ch5
    } else if i == 5 {
        Channel::Ch6
    } else if i == 6 {
        Channel::Ch7
    } else if i == 7 {
        Channel::Ch8
    } else if i == 8 {
        Channel::Ch9
    } else if i == 9 {
        Channel::Ch10
    } else if i == 10 {
        Channel::Ch11
    } else if i == 11 {
        Channel::Ch12
    } else if i == 12 {
        Channel::Ch13
    } else if i == 13 {
        Channel::Ch14
    } else if i == 14 {
        Channel::Ch15
    } else {
        Channel::Ch16
    }
}

impl Channel {
    /// Every channel's index is at most 15.
    pub proof fn lemma_view_bounded(&self)
        ensures
            self@ <= 15,
    {
    }

    /// Get a MIDI channel from an index that is between 0 and 15 inclusive.
    pub fn from_index(i: u8) -> (r: Result<Channel, FromBytesError>)
        ensures
            i <= 15 ==> r == Ok::<Channel, FromBytesError>(channel_from_index(i)) && r->Ok_0@
                == i,
            i > 15 ==> r == Err::<Channel, FromBytesError>(FromBytesError::ChannelOutOfRange),
    {
        match i {
            0 => Ok(Channel::Ch1),
            1 => Ok(Channel::Ch2),
            2 => Ok(Channel::Ch3),
            3 => Ok(Channel::Ch4),
            4 => Ok(Channel::Ch5),
            5 => Ok(Channel::Ch6),
            6 => Ok(Channel::Ch7),
            7 => Ok(Channel::Ch8),
            8 => Ok(Channel::Ch9),
            9 => Ok(Channel::Ch10),
            10 => Ok(Channel::Ch11),
            11 => Ok(Channel::Ch12),
            12 => Ok(Channel::Ch13),
            13 => Ok(Channel::Ch14),
            14 => Ok(Channel::Ch15),
            15 => Ok(Channel::Ch16),
            _ => Err(FromBytesError::ChannelOutOfRange),
        }
    }

    /// The index of this MIDI channel. The returned value is between 0 and 15
    /// inclusive.
    pub fn index(self) -> (r: u8)
        ensures
            r == self@,
            r <= 15,
    {
        match self {
            Channel::Ch1 => 0,
            Channel::Ch2 => 1,
            Channel::Ch3 => 2,
            Channel::Ch4 => 3,
            Channel::Ch5 => 4,
            Channel::Ch6 => 5,
            Channel::Ch7 => 6,
            Channel::Ch8 => 7,
            Channel::Ch9 => 8,
            Channel::Ch10 => 9,
            Channel::Ch11 => 10,
            Channel::Ch12 => 11,
            Channel::Ch13 => 12,
            Channel::Ch14 => 13,
            Channel::Ch15 => 14,
            Channel::Ch16 => 15,
        }
    }

    /// The number of this MIDI channel. The returned value is between 1 and 16
    /// inclusive.
    pub fn number(self) -> (r: u8)
        ensures
            r == self@ + 1,
    {
        self.index() + 1
    }
}

/// Channel index and number are inverses of channel selection: picking the
/// channel of an index in [0, 15] gives that index back, and every channel is
/// recovered from its own index.
pub proof fn lemma_channel_index_inverse(i: u8, c: Channel)
    ensures
        i <= 15 ==> channel_from_index(i)@ == i,
        channel_from_index(c@) == c,
{
}

/// Holds information based on the MIDI 1.0 spec.
///
/// A `SysEx` message is produced by decoding (its payload copied out of the
/// input buffer); `OwnedSysEx` marks a payload detached from any source buffer
/// by [`MidiMessage::to_owned`]. The two variants encode identically.
#[derive(Clone, Debug, Eq, PartialEq)]
pub enum MidiMessage {
    /// This message is sent when a note is released (ended).
    NoteOff(Channel, Note, Velocity),
    /// This message is sent when a note is depressed (start).
    NoteOn(Channel, Note, Velocity),
    /// This message is most often sent by pressing down on the key after it
    /// "bottoms out".
    PolyphonicKeyPressure(Channel, Note, Velocity),
    /// This message is sent when a controller value changes. Controllers
    /// include devices such as pedals and levers.
    ControlChange(Channel, ControlNumber, ControlValue),
    /// This message is sent when the patch number changes.
    ProgramChange(Channel, ProgramNumber),
    /// The single greatest pressure value of all currently depressed keys.
    ChannelPressure(Channel, Velocity),
    /// A change in the pitch bender, measured by a fourteen-bit value.
    /// Center is 8192.
    PitchBendChange(Channel, PitchBend),
    /// A System Exclusive message: a manufacturer-defined sequence of data
    /// bytes, framed on the wire by `0xF0` and `0xF7`.
    SysEx(Vec<U7>),
    /// A System Exclusive message whose payload has been detached from the
    /// buffer it was decoded from.
    OwnedSysEx(Vec<U7>),
    /// MIDI Time Code Quarter Frame. The data is in the format `0nnndddd`
    /// where `nnn` is the message type and `dddd` is the value.
    MidiTimeCode(U7),
    /// The number of MIDI beats since the start of the song.
    SongPositionPointer(SongPosition),
    /// Specifies which sequence or song is to be played.
    SongSelect(Song),
    /// An undefined system status byte, kept raw for forward compatibility.
    Reserved(u8),
    /// Upon receiving a Tune Request, all analog synthesizers should tune
    /// their oscillators.
    TuneRequest,
    /// Timing Clock. Sent 24 times per quarter note when synchronization is
    /// required.
    TimingClock,
    /// Start the current sequence playing.
    Start,
    /// Continue at the point the sequence was stopped.
    Continue,
    /// Stop the current sequence.
    Stop,
    /// Sent repeatedly to tell the receiver that a connection is alive.
    ActiveSensing,
    /// Reset all receivers in the system to power-up status.
    Reset,
}

/// The mathematical model of a MIDI message: channels as indices, data bytes
/// and 14-bit values as plain integers, SysEx payloads as byte sequences.
#[verifier::ext_equal]
pub ghost enum MessageView {
    NoteOff { channel: u8, key: u8, velocity: u8 },
    NoteOn { channel: u8, key: u8, velocity: u8 },
    PolyphonicKeyPressure { channel: u8, key: u8, velocity: u8 },
    ControlChange { channel: u8, control: u8, value: u8 },
    ProgramChange { channel: u8, program: u8 },
    ChannelPressure { channel: u8, velocity: u8 },
    PitchBendChange { channel: u8, bend: u16 },
    SysEx { data: Seq<u8> },
    OwnedSysEx { data: Seq<u8> },
    MidiTimeCode { value: u8 },
    SongPositionPointer { position: u16 },
    SongSelect { song: u8 },
    Reserved { status: u8 },
    TuneRequest,
    TimingClock,
    Start,
    Continue,
    Stop,
    ActiveSensing,
    Reset,
}

/// The byte values of a validated data-byte sequence.
pub open spec fn data_view(s: Seq<U7>) -> Seq<u8> {
    s.map_values(|x: U7| x@)
}

impl View for MidiMessage {
    type V = MessageView;

    open spec fn view(&self) -> MessageView {
        match self {
            MidiMessage::NoteOff(c, n, v) => MessageView::NoteOff {
                channel: c@,
                key: n@,
                velocity: v@,
            },
            MidiMessage::NoteOn(c, n, v) => MessageView::NoteOn {
                channel: c@,
                key: n@,
                velocity: v@,
            },
            MidiMessage::PolyphonicKeyPressure(c, n, v) => MessageView::PolyphonicKeyPressure {
                channel: c@,
                key: n@,
                velocity: v@,
            },
            MidiMessage::ControlChange(c, n, v) => MessageView::ControlChange {
                channel: c@,
                control: n@,
                value: v@,
            },
            MidiMessage::ProgramChange(c, p) => MessageView::ProgramChange {
                channel: c@,
                program: p@,
            },
            MidiMessage::ChannelPressure(c, v) => MessageView::ChannelPressure {
                channel: c@,
                velocity: v@,
            },
            MidiMessage::PitchBendChange(c, b) => MessageView::PitchBendChange {
                channel: c@,
                bend: b@,
            },
            MidiMessage::SysEx(d) => MessageView::SysEx { data: data_view(d@) },
            MidiMessage::OwnedSysEx(d) => MessageView::OwnedSysEx { data: data_view(d@) },
            MidiMessage::MidiTimeCode(v) => MessageView::MidiTimeCode { value: v@ },
            MidiMessage::SongPositionPointer(p) => MessageView::SongPositionPointer {
                position: p@,
            },
            MidiMessage::SongSelect(s) => MessageView::SongSelect { song: s@ },
            MidiMessage::Reserved(b) => MessageView::Reserved { status: *b },
            MidiMessage::TuneRequest => MessageView::TuneRequest,
            MidiMessage::TimingClock => MessageView::TimingClock,
            MidiMessage::Start => MessageView::Start,
            MidiMessage::Continue => MessageView::Continue,
            MidiMessage::Stop => MessageView::Stop,
            MidiMessage::ActiveSensing => MessageView::ActiveSensing,
            MidiMessage::Reset => MessageView::Reset,
        }
    }
}

/// Data values of a message model stay in their MIDI ranges: channel indices
/// below 16, data bytes below 128, 14-bit values below 16384.
pub open spec fn wire_wf(m: MessageView) -> bool {
    match m {
        MessageView::NoteOff { channel, key, velocity } => channel < 16 && key < 128 && velocity
            < 128,
        MessageView::NoteOn { channel, key, velocity } => channel < 16 && key < 128 && velocity
            < 128,
        MessageView::PolyphonicKeyPressure { channel, key, velocity } => channel < 16 && key < 128
            && velocity < 128,
        MessageView::ControlChange { channel, control, value } => channel < 16 && control < 128
            && value < 128,
        MessageView::ProgramChange { channel, program } => channel < 16 && program < 128,
        MessageView::ChannelPressure { channel, velocity } => channel < 16 && velocity < 128,
        MessageView::PitchBendChange { channel, bend } => channel < 16 && bend < 16384,
        MessageView::SysEx { data } => forall|i: int| 0 <= i < data.len() ==> data[i] < 128,
        MessageView::OwnedSysEx { data } => forall|i: int| 0 <= i < data.len() ==> data[i] < 128,
        MessageView::MidiTimeCode { value } => value < 128,
        MessageView::SongPositionPointer { position } => position < 16384,
        MessageView::SongSelect { song } => song < 128,
        MessageView::Reserved { status: _ } => true,
        MessageView::TuneRequest => true,
        MessageView::TimingClock => true,
        MessageView::Start => true,
        MessageView::Continue => true,
        MessageView::Stop => true,
        MessageView::ActiveSensing => true,
        MessageView::Reset => true,
    }
}

/// The system status bytes left undefined by MIDI 1.0, decoded and re-encoded
/// raw through the `Reserved` variant.
pub open spec fn is_reserved_status(b: u8) -> bool {
    b == 0xF4 || b == 0xF5 || b == 0xF9 || b == 0xFD
}

/// The exact wire bytes of a message model.
pub open spec fn wire_of(m: MessageView) -> Seq<u8> {
    match m {
        MessageView::NoteOff { channel, key, velocity } => seq![
            (0x80 + channel) as u8,
            key,
            velocity,
        ],
        MessageView::NoteOn { channel, key, velocity } => seq![
            (0x90 + channel) as u8,
            key,
            velocity,
        ],
        MessageView::PolyphonicKeyPressure { channel, key, velocity } => seq![
            (0xA0 + channel) as u8,
            key,
            velocity,
        ],
        MessageView::ControlChange { channel, control, value } => seq![
            (0xB0 + channel) as u8,
            control,
            value,
        ],
        MessageView::ProgramChange { channel, program } => seq![(0xC0 + channel) as u8, program],
        MessageView::ChannelPressure { channel, velocity } => seq![
            (0xD0 + channel) as u8,
            velocity,
        ],
        MessageView::PitchBendChange { channel, bend } => seq![
            (0xE0 + channel) as u8,
            (bend % 128) as u8,
            (bend / 128) as u8,
        ],
        MessageView::SysEx { data } => seq![0xF0u8] + data + seq![0xF7u8],
        MessageView::OwnedSysEx { data } => seq![0xF0u8] + data + seq![0xF7u8],
        MessageView::MidiTimeCode { value } => seq![0xF1u8, value],
        MessageView::SongPositionPointer { position } => seq![
            0xF2u8,
            (position % 128) as u8,
            (position / 128) as u8,
        ],
        MessageView::SongSelect { song } => seq![0xF3u8, song],
        MessageView::Reserved { status } => seq![status],
        MessageView::TuneRequest => seq![0xF6u8],
        MessageView::TimingClock => seq![0xF8u8],
        MessageView::Start => seq![0xFAu8],
        MessageView::Continue => seq![0xFBu8],
        MessageView::Stop => seq![0xFCu8],
        MessageView::ActiveSensing => seq![0xFEu8],
        MessageView::Reset => seq![0xFFu8],
    }
}

/// The number of bytes a message model takes on the wire.
pub open spec fn wire_size_of(m: MessageView) -> int {
    match m {
        MessageView::NoteOff { .. } => 3,
        MessageView::NoteOn { .. } => 3,
        MessageView::PolyphonicKeyPressure { .. } => 3,
        MessageView::ControlChange { .. } => 3,
        MessageView::ProgramChange { .. } => 2,
        MessageView::ChannelPressure { .. } => 2,
        MessageView::PitchBendChange { .. } => 3,
        MessageView::SysEx { data } => 2 + data.len() as int,
        MessageView::OwnedSysEx { data } => 2 + data.len() as int,
        MessageView::MidiTimeCode { .. } => 2,
        MessageView::SongPositionPointer { .. } => 3,
        MessageView::SongSelect { .. } => 2,
        MessageView::Reserved { .. } => 1,
        MessageView::TuneRequest => 1,
        MessageView::TimingClock => 1,
        MessageView::Start => 1,
        MessageView::Continue => 1,
        MessageView::Stop => 1,
        MessageView::ActiveSensing => 1,
        MessageView::Reset => 1,
    }
}

/// The declared wire size is the length of the wire bytes.
pub proof fn lemma_wire_size(m: MessageView)
    ensures
        wire_of(m).len() == wire_size_of(m),
{
}

/// A byte with its high bit set: identifies message type (and channel).
pub open spec fn is_status(b: u8) -> bool {
    b >= 0x80
}

/// The data byte expected at position `i`: absent bytes are `NotEnoughBytes`,
/// status bytes in a data position are `UnexpectedStatusByte`.
pub open spec fn data_at(bytes: Seq<u8>, i: int) -> Result<u8, FromBytesError> {
    if bytes.len() <= i {
        Err(FromBytesError::NotEnoughBytes)
    } else if is_status(bytes[i]) {
        Err(FromBytesError::UnexpectedStatusByte)
    } else {
        Ok(bytes[i])
    }
}

/// The position of the first status byte at or after position `i`, if any.
pub open spec fn first_status_from(bytes: Seq<u8>, i: int) -> Option<int>
    decreases bytes.len() - i
    when 0 <= i
{
    if i >= bytes.len() {
        None
    } else if is_status(bytes[i]) {
        Some(i)
    } else {
        first_status_from(bytes, i + 1)
    }
}

/// The meaning of a System Exclusive message that begins at byte 0: scan for
/// the first status byte after the lead byte; it must be the `0xF7`
/// terminator, and the bytes strictly between the framing bytes are the
/// payload.
pub open spec fn parse_sysex(bytes: Seq<u8>) -> Result<(MessageView, int), FromBytesError> {
    match first_status_from(bytes, 1) {
        None => Err(FromBytesError::NoSysExEndByte),
        Some(e) => if bytes[e] != 0xF7 {
            Err(FromBytesError::UnexpectedNonSysExEndByte(bytes[e]))
        } else {
            Ok((MessageView::SysEx { data: bytes.subrange(1, e) }, e + 1))
        },
    }
}

/// The meaning of a channel-voice message (status high nibble 0x8 to 0xE).
pub open spec fn parse_channel_voice(bytes: Seq<u8>) -> Result<
    (MessageView, int),
    FromBytesError,
> {
    let status = bytes[0];
    let channel = status % 16;
    let kind = status / 16;
    if kind == 0x8 {
        match (data_at(bytes, 1), data_at(bytes, 2)) {
            (Err(e), _) => Err(e),
            (_, Err(e)) => Err(e),
            (Ok(a), Ok(b)) => Ok((MessageView::NoteOff { channel, key: a, velocity: b }, 3)),
        }
    } else if kind == 0x9 {
        match (data_at(bytes, 1), data_at(bytes, 2)) {
            (Err(e), _) => Err(e),
            (_, Err(e)) => Err(e),
            (Ok(a), Ok(b)) => Ok((MessageView::NoteOn { channel, key: a, velocity: b }, 3)),
        }
    } else if kind == 0xA {
        match (data_at(bytes, 1), data_at(bytes, 2)) {
            (Err(e), _) => Err(e),
            (_, Err(e)) => Err(e),
            (Ok(a), Ok(b)) => Ok(
                (MessageView::PolyphonicKeyPressure { channel, key: a, velocity: b }, 3),
            ),
        }
    } else if kind == 0xB {
        match (data_at(bytes, 1), data_at(bytes, 2)) {
            (Err(e), _) => Err(e),
            (_, Err(e)) => Err(e),
            (Ok(a), Ok(b)) => Ok((MessageView::ControlChange { channel, control: a, value: b }, 3)),
        }
    } else if kind == 0xC {
        match data_at(bytes, 1) {
            Err(e) => Err(e),
            Ok(a) => Ok((MessageView::ProgramChange { channel, program: a }, 2)),
        }
    } else if kind == 0xD {
        match data_at(bytes, 1) {
            Err(e) => Err(e),
            Ok(a) => Ok((MessageView::ChannelPressure { channel, velocity: a }, 2)),
        }
    } else {
        match (data_at(bytes, 1), data_at(bytes, 2)) {
            (Err(e), _) => Err(e),
            (_, Err(e)) => Err(e),
            (Ok(a), Ok(b)) => Ok(
                (MessageView::PitchBendChange { channel, bend: (a + 128 * b) as u16 }, 3),
            ),
        }
    }
}

/// The meaning of a system message (status byte 0xF0 to 0xFF).
pub open spec fn parse_system(bytes: Seq<u8>) -> Result<(MessageView, int), FromBytesError> {
    let status = bytes[0];
    if status == 0xF0 {
        parse_sysex(bytes)
    } else if status == 0xF1 {
        match data_at(bytes, 1) {
            Err(e) => Err(e),
            Ok(a) => Ok((MessageView::MidiTimeCode { value: a }, 2)),
        }
    } else if status == 0xF2 {
        match (data_at(bytes, 1), data_at(bytes, 2)) {
            (Err(e), _) => Err(e),
            (_, Err(e)) => Err(e),
            (Ok(a), Ok(b)) => Ok(
                (MessageView::SongPositionPointer { position: (a + 128 * b) as u16 }, 3),
            ),
        }
    } else if status == 0xF3 {
        match data_at(bytes, 1) {
            Err(e) => Err(e),
            Ok(a) => Ok((MessageView::SongSelect { song: a }, 2)),
        }
    } else if status == 0xF6 {
        Ok((MessageView::TuneRequest, 1))
    } else if status == 0xF7 {
        Err(FromBytesError::UnexpectedEndSysExByte)
    } else if status == 0xF8 {
        Ok((MessageView::TimingClock, 1))
    } else if status == 0xFA {
        Ok((MessageView::Start, 1))
    } else if status == 0xFB {
        Ok((MessageView::Continue, 1))
    } else if status == 0xFC {
        Ok((MessageView::Stop, 1))
    } else if status == 0xFE {
        Ok((MessageView::ActiveSensing, 1))
    } else if status == 0xFF {
        Ok((MessageView::Reset, 1))
    } else {
        Ok((MessageView::Reserved { status }, 1))
    }
}

/// The meaning of decoding one message from the front of a byte buffer: the
/// decoded model and the number of bytes consumed, or the decode error.
pub open spec fn parse_midi(bytes: Seq<u8>) -> Result<(MessageView, int), FromBytesError> {
    if bytes.len() == 0 {
        Err(FromBytesError::NoBytes)
    } else if !is_status(bytes[0]) {
        Err(FromBytesError::UnexpectedDataByte)
    } else if bytes[0] < 0xF0 {
        parse_channel_voice(bytes)
    } else {
        parse_system(bytes)
    }
}

/// A scan that starts among data bytes finds the same first status byte.
pub proof fn lemma_first_status_step(bytes: Seq<u8>, i: int)
    requires
        0 <= i < bytes.len(),
        !is_status(bytes[i]),
    ensures
        first_status_from(bytes, i) == first_status_from(bytes, i + 1),
{
}

/// A status byte preceded only by data bytes is the one the scan finds.
pub proof fn lemma_first_status_found(bytes: Seq<u8>, i: int, k: int)
    requires
        0 <= i <= k < bytes.len(),
        forall|j: int| i <= j < k ==> !is_status(bytes[j]),
        is_status(bytes[k]),
    ensures
        first_status_from(bytes, i) == Some(k),
    decreases k - i,
{
    if i < k {
        lemma_first_status_found(bytes, i + 1, k);
    }
}

/// Decoding never distinguishes payload ownership: it always yields the
/// borrowed-payload SysEx model. This maps a model to the one decoding its
/// wire bytes gives back.
pub open spec fn view_as_decoded(m: MessageView) -> MessageView {
    match m {
        MessageView::OwnedSysEx { data } => MessageView::SysEx { data },
        other => other,
    }
}

/// Round trip: a well-formed message model — one whose `Reserved` status, if
/// any, is a status byte that decoding maps to `Reserved` — is decoded back,
/// up to SysEx payload ownership, from its own wire bytes, consuming exactly
/// its wire size.
pub proof fn lemma_parse_wire(m: MessageView)
    requires
        wire_wf(m),
        m matches MessageView::Reserved { status } ==> is_reserved_status(status),
    ensures
        parse_midi(wire_of(m)) == Ok::<(MessageView, int), FromBytesError>(
            (view_as_decoded(m), wire_size_of(m)),
        ),
{
    lemma_wire_size(m);
    let bytes = wire_of(m);
    match m {
        MessageView::SysEx { data } => {
            assert(bytes[0] == 0xF0);
            assert forall|j: int| 1 <= j < 1 + data.len() implies !is_status(bytes[j]) by {
                assert(bytes[j] == data[j - 1]);
            }
            assert(is_status(bytes[1 + data.len() as int]));
            lemma_first_status_found(bytes, 1, 1 + data.len() as int);
            assert(bytes.subrange(1, 1 + data.len() as int) =~= data);
        },
        MessageView::OwnedSysEx { data } => {
            assert(bytes[0] == 0xF0);
            assert forall|j: int| 1 <= j < 1 + data.len() implies !is_status(bytes[j]) by {
                assert(bytes[j] == data[j - 1]);
            }
            assert(is_status(bytes[1 + data.len() as int]));
            lemma_first_status_found(bytes, 1, 1 + data.len() as int);
            assert(bytes.subrange(1, 1 + data.len() as int) =~= data);
        },
        _ => {},
    }
}

/// Fetch the data byte expected at position `i`, as [`data_at`] says.
fn read_data(bytes: &[u8], i: usize) -> (r: Result<u8, FromBytesError>)
    ensures
        r == data_at(bytes@, i as int),
        r is Ok ==> r->Ok_0 < 128,
{
    if i >= bytes.len() {
        Err(FromBytesError::NotEnoughBytes)
    } else {
        let b = bytes[i];
        if b >= 0x80 {
            Err(FromBytesError::UnexpectedStatusByte)
        } else {
            Ok(b)
        }
    }
}

impl MidiMessage {
    /// Decode one MIDI message from the front of `bytes`, reporting the
    /// message and the number of bytes consumed, or fail with the decode
    /// error, exactly as [`parse_midi`] says.
    pub fn from_bytes(bytes: &[u8]) -> (r: Result<(MidiMessage, usize), FromBytesError>)
        ensures
            r is Ok <==> parse_midi(bytes@) is Ok,
            r is Ok ==> {
                &&& r->Ok_0.0@ == parse_midi(bytes@)->Ok_0.0
                &&& r->Ok_0.0.wf()
                &&& r->Ok_0.1 == parse_midi(bytes@)->Ok_0.1
                &&& 0 < r->Ok_0.1 <= bytes@.len()
            },
            r is Err ==> r->Err_0 == parse_midi(bytes@)->Err_0,
    {
        if bytes.len() == 0 {
            return Err(FromBytesError::NoBytes);
        }
        let status = bytes[0];
        if status < 0x80 {
            return Err(FromBytesError::UnexpectedDataByte);
        }
        if status < 0xF0 {
            let chan = match Channel::from_index(status % 16) {
                Ok(c) => c,
                Err(e) => return Err(e),
            };
            let kind = status / 16;
            if kind == 0x8 {
                let a = match read_data(bytes, 1) {
                    Ok(v) => v,
                    Err(e) => return Err(e),
                };
                let b = match read_data(bytes, 2) {
                    Ok(v) => v,
                    Err(e) => return Err(e),
                };
                Ok(
                    (
                        MidiMessage::NoteOff(
                            chan,
                            Note::from_u8_unchecked(a),
                            U7::from_unchecked(b),
                        ),
                        3,
                    ),
                )
            } else if kind == 0x9 {
                let a = match read_data(bytes, 1) {
                    Ok(v) => v,
                    Err(e) => return Err(e),
                };
                let b = match read_data(bytes, 2) {
                    Ok(v) => v,
                    Err(e) => return Err(e),
                };
                Ok(
                    (
                        MidiMessage::NoteOn(
                            chan,
                            Note::from_u8_unchecked(a),
                            U7::from_unchecked(b),
                        ),
                        3,
                    ),
                )
            } else if kind == 0xA {
                let a = match read_data(bytes, 1) {
                    Ok(v) => v,
                    Err(e) => return Err(e),
                };
                let b = match read_data(bytes, 2) {
                    Ok(v) => v,
                    Err(e) => return Err(e),
                };
                Ok(
                    (
                        MidiMessage::PolyphonicKeyPressure(
                            chan,
                            Note::from_u8_unchecked(a),
                            U7::from_unchecked(b),
                        ),
                        3,
                    ),
                )
            } else if kind == 0xB {
                let a = match read_data(bytes, 1) {
                    Ok(v) => v,
                    Err(e) => return Err(e),
                };
                let b = match read_data(bytes, 2) {
                    Ok(v) => v,
                    Err(e) => return Err(e),
                };
                Ok(
                    (
                        MidiMessage::ControlChange(
                            chan,
                            U7::from_unchecked(a),
                            U7::from_unchecked(b),
                        ),
                        3,
                    ),
                )
            } else if kind == 0xC {
                let a = match read_data(bytes, 1) {
                    Ok(v) => v,
                    Err(e) => return Err(e),
                };
                Ok((MidiMessage::ProgramChange(chan, U7::from_unchecked(a)), 2))
            } else if kind == 0xD {
                let a = match read_data(bytes, 1) {
                    Ok(v) => v,
                    Err(e) => return Err(e),
                };
                Ok((MidiMessage::ChannelPressure(chan, U7::from_unchecked(a)), 2))
            } else {
                let a = match read_data(bytes, 1) {
                    Ok(v) => v,
                    Err(e) => return Err(e),
                };
                let b = match read_data(bytes, 2) {
                    Ok(v) => v,
                    Err(e) => return Err(e),
                };
                let bend = combine_data(U7::from_unchecked(a), U7::from_unchecked(b));
                Ok((MidiMessage::PitchBendChange(chan, bend), 3))
            }
        } else if status == 0xF0 {
            Self::new_sysex(bytes)
        } else if status == 0xF1 {
            let a = match read_data(bytes, 1) {
                Ok(v) => v,
                Err(e) => return Err(e),
            };
            Ok((MidiMessage::MidiTimeCode(U7::from_unchecked(a)), 2))
        } else if status == 0xF2 {
            let a = match read_data(bytes, 1) {
                Ok(v) => v,
                Err(e) => return Err(e),
            };
            let b = match read_data(bytes, 2) {
                Ok(v) => v,
                Err(e) => return Err(e),
            };
            let position = combine_data(U7::from_unchecked(a), U7::from_unchecked(b));
            Ok((MidiMessage::SongPositionPointer(position), 3))
        } else if status == 0xF3 {
            let a = match read_data(bytes, 1) {
                Ok(v) => v,
                Err(e) => return Err(e),
            };
            Ok((MidiMessage::SongSelect(U7::from_unchecked(a)), 2))
        } else if status == 0xF6 {
            Ok((MidiMessage::TuneRequest, 1))
        } else if status == 0xF7 {
            Err(FromBytesError::UnexpectedEndSysExByte)
        } else if status == 0xF8 {
            Ok((MidiMessage::TimingClock, 1))
        } else if status == 0xFA {
            Ok((MidiMessage::Start, 1))
        } else if status == 0xFB {
            Ok((MidiMessage::Continue, 1))
        } else if status == 0xFC {
            Ok((MidiMessage::Stop, 1))
        } else if status == 0xFE {
            Ok((MidiMessage::ActiveSensing, 1))
        } else if status == 0xFF {
            Ok((MidiMessage::Reset, 1))
        } else {
            Ok((MidiMessage::Reserved(status), 1))
        }
    }

    /// Scan a System Exclusive message whose `0xF0` lead byte is `bytes[0]`:
    /// find the first status byte after it, demand that it is the `0xF7`
    /// terminator, and copy out the payload between the framing bytes.
    fn new_sysex(bytes: &[u8]) -> (r: Result<(MidiMessage, usize), FromBytesError>)
        requires
            bytes@.len() >= 1,
        ensures
            r is Ok <==> parse_sysex(bytes@) is Ok,
            r is Ok ==> {
                &&& r->Ok_0.0@ == parse_sysex(bytes@)->Ok_0.0
                &&& r->Ok_0.0.wf()
                &&& r->Ok_0.1 == parse_sysex(bytes@)->Ok_0.1
                &&& 0 < r->Ok_0.1 <= bytes@.len()
            },
            r is Err ==> r->Err_0 == parse_sysex(bytes@)->Err_0,
    {
        let mut i: usize = 1;
        while i < bytes.len() && bytes[i] < 0x80
            invariant
                1 <= i <= bytes@.len(),
                forall|j: int| 1 <= j < i ==> !is_status(bytes@[j]),
                first_status_from(bytes@, 1) == first_status_from(bytes@, i as int),
            decreases bytes@.len() - i,
        {
            proof {
                lemma_first_status_step(bytes@, i as int);
            }
            i += 1;
        }
        if i == bytes.len() {
            return Err(FromBytesError::NoSysExEndByte);
        }
        let end = bytes[i];
        if end != 0xF7 {
            return Err(FromBytesError::UnexpectedNonSysExEndByte(end));
        }
        let payload = U7::from_bytes_unchecked(vstd::slice::slice_subrange(bytes, 1, i));
        proof {
            assert(data_view(payload@) =~= bytes@.subrange(1, i as int));
        }
        Ok((MidiMessage::SysEx(payload), i + 1))
    }

    /// Validity of the data a message holds: every wrapped data value is in
    /// range, and a SysEx payload leaves room for its two framing bytes.
    pub open spec fn wf(&self) -> bool {
        match self {
            MidiMessage::NoteOff(_, _, v) => v.wf(),
            MidiMessage::NoteOn(_, _, v) => v.wf(),
            MidiMessage::PolyphonicKeyPressure(_, _, v) => v.wf(),
            MidiMessage::ControlChange(_, n, v) => n.wf() && v.wf(),
            MidiMessage::ProgramChange(_, p) => p.wf(),
            MidiMessage::ChannelPressure(_, v) => v.wf(),
            MidiMessage::PitchBendChange(_, b) => b.wf(),
            MidiMessage::SysEx(d) => (forall|i: int| 0 <= i < d@.len() ==> (#[trigger] d@[i]).wf())
                && d@.len() + 2 <= usize::MAX,
            MidiMessage::OwnedSysEx(d) => (forall|i: int|
                0 <= i < d@.len() ==> (#[trigger] d@[i]).wf()) && d@.len() + 2 <= usize::MAX,
            MidiMessage::MidiTimeCode(v) => v.wf(),
            MidiMessage::SongPositionPointer(p) => p.wf(),
            MidiMessage::SongSelect(s) => s.wf(),
            MidiMessage::Reserved(_) => true,
            MidiMessage::TuneRequest => true,
            MidiMessage::TimingClock => true,
            MidiMessage::Start => true,
            MidiMessage::Continue => true,
            MidiMessage::Stop => true,
            MidiMessage::ActiveSensing => true,
            MidiMessage::Reset => true,
        }
    }

    /// A well-formed message has a well-formed model whose wire size fits in
    /// memory.
    pub proof fn lemma_wf_view(&self)
        requires
            self.wf(),
        ensures
            wire_wf(self@),
            wire_size_of(self@) <= usize::MAX,
    {
        match self {
            MidiMessage::NoteOff(c, n, _) => {
                c.lemma_view_bounded();
                n.lemma_view_bounded();
            },
            MidiMessage::NoteOn(c, n, _) => {
                c.lemma_view_bounded();
                n.lemma_view_bounded();
            },
            MidiMessage::PolyphonicKeyPressure(c, n, _) => {
                c.lemma_view_bounded();
                n.lemma_view_bounded();
            },
            MidiMessage::ControlChange(c, _, _) => c.lemma_view_bounded(),
            MidiMessage::ProgramChange(c, _) => c.lemma_view_bounded(),
            MidiMessage::ChannelPressure(c, _) => c.lemma_view_bounded(),
            MidiMessage::PitchBendChange(c, _) => c.lemma_view_bounded(),
            _ => {},
        }
    }

    /// The number of bytes the MIDI message takes when converted to bytes.
    pub fn bytes_size(&self) -> (r: usize)
        requires
            wire_size_of(self@) <= usize::MAX,
        ensures
            r == wire_size_of(self@),
    {
        match self {
            MidiMessage::NoteOff(..) => 3,
            MidiMessage::NoteOn(..) => 3,
            MidiMessage::PolyphonicKeyPressure(..) => 3,
            MidiMessage::ControlChange(..) => 3,
            MidiMessage::ProgramChange(..) => 2,
            MidiMessage::ChannelPressure(..) => 2,
            MidiMessage::PitchBendChange(..) => 3,
            MidiMessage::SysEx(b) => 2 + b.len(),
            MidiMessage::OwnedSysEx(b) => 2 + b.len(),
            MidiMessage::MidiTimeCode(_) => 2,
            MidiMessage::SongPositionPointer(_) => 3,
            MidiMessage::SongSelect(_) => 2,
            MidiMessage::Reserved(_) => 1,
            MidiMessage::TuneRequest => 1,
            MidiMessage::TimingClock => 1,
            MidiMessage::Start => 1,
            MidiMessage::Continue => 1,
            MidiMessage::Stop => 1,
            MidiMessage::ActiveSensing => 1,
            MidiMessage::Reset => 1,
        }
    }

    /// Copy the message as bytes to `slice`. If `slice` cannot fit the
    /// message, an error is returned and nothing is written. On success, the
    /// exact wire bytes are written at the front of `slice`, the rest of
    /// `slice` is untouched, and the number of bytes written — the message's
    /// wire size — is returned.
    #[verifier::rlimit(30)]
    pub fn copy_to_slice(&self, slice: &mut [u8]) -> (r: Result<usize, ToSliceError>)
        requires
            self.wf(),
        ensures
            old(slice)@.len() < wire_size_of(self@) ==> {
                &&& r == Err::<usize, ToSliceError>(ToSliceError::BufferTooSmall)
                &&& final(slice)@ == old(slice)@
            },
            old(slice)@.len() >= wire_size_of(self@) ==> {
                &&& r is Ok
                &&& r->Ok_0 == wire_size_of(self@)
                &&& final(slice)@ == wire_of(self@) + old(slice)@.skip(wire_size_of(self@))
            },
            final(slice)@.len() == old(slice)@.len(),
    {
        proof {
            self.lemma_wf_view();
        }
        let size = self.bytes_size();
        if slice.len() < size {
            return Err(ToSliceError::BufferTooSmall);
        }
        match self {
            MidiMessage::NoteOff(a, b, c) => {
                slice[0] = 0x80 + a.index();
                slice[1] = b.to_u8();
                slice[2] = c.to_u8();
            },
            MidiMessage::NoteOn(a, b, c) => {
                slice[0] = 0x90 + a.index();
                slice[1] = b.to_u8();
                slice[2] = c.to_u8();
            },
            MidiMessage::PolyphonicKeyPressure(a, b, c) => {
                slice[0] = 0xA0 + a.index();
                slice[1] = b.to_u8();
                slice[2] = c.to_u8();
            },
            MidiMessage::ControlChange(a, b, c) => {
                slice[0] = 0xB0 + a.index();
                slice[1] = b.to_u8();
                slice[2] = c.to_u8();
            },
            MidiMessage::ProgramChange(a, b) => {
                slice[0] = 0xC0 + a.index();
                slice[1] = b.to_u8();
            },
            MidiMessage::ChannelPressure(a, b) => {
                slice[0] = 0xD0 + a.index();
                slice[1] = b.to_u8();
            },
            MidiMessage::PitchBendChange(a, b) => {
                let (b1, b2) = split_data(*b);
                slice[0] = 0xE0 + a.index();
                slice[1] = b1;
                slice[2] = b2;
            },
            MidiMessage::SysEx(d) => {
                Self::write_sysex(slice, d);
            },
            MidiMessage::OwnedSysEx(d) => {
                Self::write_sysex(slice, d);
            },
            MidiMessage::MidiTimeCode(a) => {
                slice[0] = 0xF1;
                slice[1] = a.to_u8();
            },
            MidiMessage::SongPositionPointer(a) => {
                let (a1, a2) = split_data(*a);
                slice[0] = 0xF2;
                slice[1] = a1;
                slice[2] = a2;
            },
            MidiMessage::SongSelect(a) => {
                slice[0] = 0xF3;
                slice[1] = a.to_u8();
            },
            MidiMessage::Reserved(a) => {
                slice[0] = *a;
            },
            MidiMessage::TuneRequest => {
                slice[0] = 0xF6;
            },
            MidiMessage::TimingClock => {
                slice[0] = 0xF8;
            },
            MidiMessage::Start => {
                slice[0] = 0xFA;
            },
            MidiMessage::Continue => {
                slice[0] = 0xFB;
            },
            MidiMessage::Stop => {
                slice[0] = 0xFC;
            },
            MidiMessage::ActiveSensing => {
                slice[0] = 0xFE;
            },
            MidiMessage::Reset => {
                slice[0] = 0xFF;
            },
        }
        proof {
            assert(slice@ =~= wire_of(self@) + old(slice)@.skip(wire_size_of(self@)));
        }
        Ok(size)
    }

    /// Write the framed SysEx payload at the front of `slice`.
    fn write_sysex(slice: &mut [u8], d: &Vec<U7>)
        requires
            d@.len() + 2 <= old(slice)@.len(),
        ensures
            final(slice)@.len() == old(slice)@.len(),
            final(slice)@ == (seq![0xF0u8] + data_view(d@) + seq![0xF7u8]) + old(slice)@.skip(
                d@.len() + 2 as int,
            ),
    {
        slice[0] = 0xF0;
        let mut i: usize = 0;
        while i < d.len()
            invariant
                0 <= i <= d@.len(),
                d@.len() + 2 <= old(slice)@.len(),
                slice@.len() == old(slice)@.len(),
                slice@[0] == 0xF0u8,
                forall|j: int| 0 <= j < i ==> slice@[1 + j] == (#[trigger] d@[j])@,
                forall|j: int| 1 + i <= j < slice@.len() ==> slice@[j] == old(slice)@[j],
            decreases d@.len() - i,
        {
            slice[1 + i] = d[i].to_u8();
            i += 1;
        }
        slice[1 + d.len()] = 0xF7;
        proof {
            assert(slice@ =~= (seq![0xF0u8] + data_view(d@) + seq![0xF7u8]) + old(slice)@.skip(
                d@.len() + 2 as int,
            ));
        }
    }

    /// The message's exact wire bytes as an owned buffer.
    pub fn to_bytes(&self) -> (r: Vec<u8>)
        requires
            self.wf(),
        ensures
            r@ == wire_of(self@),
    {
        proof {
            self.lemma_wf_view();
            lemma_wire_size(self@);
        }
        let size = self.bytes_size();
        let mut buf: Vec<u8> = vec![0u8; size];
        let res = self.copy_to_slice(buf.as_mut_slice());
        match res {
            Ok(_) => {},
            Err(_) => {
                proof {
                    assert(false);
                }
            },
        }
        proof {
            assert(buf@ =~= wire_of(self@));
        }
        buf
    }

    /// The channel associated with the MIDI message, if applicable for the
    /// message type.
    pub open spec fn spec_channel(&self) -> Option<Channel> {
        match self {
            MidiMessage::NoteOff(c, _, _) => Some(*c),
            MidiMessage::NoteOn(c, _, _) => Some(*c),
            MidiMessage::PolyphonicKeyPressure(c, _, _) => Some(*c),
            MidiMessage::ControlChange(c, _, _) => Some(*c),
            MidiMessage::ProgramChange(c, _) => Some(*c),
            MidiMessage::ChannelPressure(c, _) => Some(*c),
            MidiMessage::PitchBendChange(c, _) => Some(*c),
            _ => None,
        }
    }

    /// The channel associated with the MIDI message, if applicable for the
    /// message type.
    pub fn channel(&self) -> (r: Option<Channel>)
        ensures
            r == self.spec_channel(),
    {
        match self {
            MidiMessage::NoteOff(c, ..) => Some(*c),
            MidiMessage::NoteOn(c, ..) => Some(*c),
            MidiMessage::PolyphonicKeyPressure(c, ..) => Some(*c),
            MidiMessage::ControlChange(c, ..) => Some(*c),
            MidiMessage::ProgramChange(c, ..) => Some(*c),
            MidiMessage::ChannelPressure(c, ..) => Some(*c),
            MidiMessage::PitchBendChange(c, ..) => Some(*c),
            _ => None,
        }
    }

    /// Return `Some(message)` if `self` is not a borrowed-payload SysEx
    /// message, or `None` if it is.
    pub fn drop_unowned_sysex(self) -> (r: Option<MidiMessage>)
        ensures
            self is SysEx <==> r is None,
            r is Some ==> r->0@ == self@ && (self.wf() ==> r->0.wf()),
    {
        match self {
            MidiMessage::SysEx(_) => None,
            other => Some(other),
        }
    }

    /// Take ownership of the SysEx data, copying the payload; non-SysEx
    /// variants pass through unchanged.
    pub fn to_owned(&self) -> (r: MidiMessage)
        ensures
            r@ == view_to_owned(self@),
            self.wf() ==> r.wf(),
    {
        match self {
            MidiMessage::NoteOff(a, b, c) => MidiMessage::NoteOff(*a, *b, *c),
            MidiMessage::NoteOn(a, b, c) => MidiMessage::NoteOn(*a, *b, *c),
            MidiMessage::PolyphonicKeyPressure(a, b, c) => MidiMessage::PolyphonicKeyPressure(
                *a,
                *b,
                *c,
            ),
            MidiMessage::ControlChange(a, b, c) => MidiMessage::ControlChange(*a, *b, *c),
            MidiMessage::ProgramChange(a, b) => MidiMessage::ProgramChange(*a, *b),
            MidiMessage::ChannelPressure(a, b) => MidiMessage::ChannelPressure(*a, *b),
            MidiMessage::PitchBendChange(a, b) => MidiMessage::PitchBendChange(*a, *b),
            MidiMessage::SysEx(bytes) => MidiMessage::OwnedSysEx(copy_data(bytes)),
            MidiMessage::OwnedSysEx(bytes) => MidiMessage::OwnedSysEx(copy_data(bytes)),
            MidiMessage::MidiTimeCode(a) => MidiMessage::MidiTimeCode(*a),
            MidiMessage::SongPositionPointer(a) => MidiMessage::SongPositionPointer(*a),
            MidiMessage::SongSelect(a) => MidiMessage::SongSelect(*a),
            MidiMessage::Reserved(a) => MidiMessage::Reserved(*a),
            MidiMessage::TuneRequest => MidiMessage::TuneRequest,
            MidiMessage::TimingClock => MidiMessage::TimingClock,
            MidiMessage::Start => MidiMessage::Start,
            MidiMessage::Continue => MidiMessage::Continue,
            MidiMessage::Stop => MidiMessage::Stop,
            MidiMessage::ActiveSensing => MidiMessage::ActiveSensing,
            MidiMessage::Reset => MidiMessage::Reset,
        }
    }
}

/// An element-for-element copy of a validated data-byte payload.
fn copy_data(data: &Vec<U7>) -> (r: Vec<U7>)
    ensures
        r@ == data@,
{
    let mut out: Vec<U7> = Vec::new();
    let mut i: usize = 0;
    while i < data.len()
        invariant
            0 <= i <= data@.len(),
            out@ =~= data@.subrange(0, i as int),
        decreases data@.len() - i,
    {
        out.push(data[i]);
        i += 1;
    }
    assert(out@ =~= data@);
    out
}

/// Taking ownership turns a SysEx model into an owned SysEx model with the
/// same payload and leaves every other model unchanged.
pub open spec fn view_to_owned(m: MessageView) -> MessageView {
    match m {
        MessageView::SysEx { data } => MessageView::OwnedSysEx { data },
        other => other,
    }
}

/// Combine two data bytes into a 14-bit value: low 7 bits from `lower`, high
/// 7 bits from `higher`.
pub fn combine_data(lower: U7, higher: U7) -> (r: U14)
    requires
        lower.wf(),
        higher.wf(),
    ensures
        r@ == lower@ + 128 * higher@,
        r.wf(),
{
    let raw: u16 = lower.to_u8() as u16 + 128 * (higher.to_u8() as u16);
    U14::from_unchecked(raw)
}

/// Split a 14-bit value into its two base-128 digits, low digit first.
pub fn split_data(data: U14) -> (r: (u8, u8))
    requires
        data.wf(),
    ensures
        r.0 == data@ % 128,
        r.1 == data@ / 128,
        r.0 < 128,
        r.1 < 128,
{
    ((data.to_u16() % 128) as u8, (data.to_u16() / 128) as u8)
}

/// Pitch-bend combine and split are inverses: the two base-128 digits of
/// `lower + 128 * higher` are `lower` and `higher` again, for all valid
/// 7-bit values.
pub proof fn lemma_split_combine(lower: u8, higher: u8)
    requires
        lower < 128,
        higher < 128,
    ensures
        (lower + 128 * higher) % 128 == lower,
        (lower + 128 * higher) / 128 == higher,
{
}

} // verus!
