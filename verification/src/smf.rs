use crate::midi_message::{wire_of, MidiMessage};
use vstd::prelude::*;

verus! {

/// An error that can occur when writing a Standard MIDI File.
#[derive(Copy, Clone, Debug, Eq, PartialEq, Structural)]
pub enum Error {
    /// `Format::SingleTrack` was selected but there were no tracks.
    SingleTrackFormatContainsNoTracks,
    /// `Format::SingleTrack` was selected but there was more than one track.
    SingleTrackFormatContainsMoreThanOneTrack,
    /// `Division::TicksPerBeat(..)` was used but the value was not positive.
    DivisionTicksMustBePositive,
}

/// A sequence of events.
pub type Track = Vec<TrackEvent>;

/// The format of the tracks structure.
#[derive(Copy, Clone, Debug, Eq, PartialEq, Structural)]
pub enum Format {
    /// There is a single track.
    SingleTrack,
    /// There are multiple tracks.
    MultipleTracks,
    /// Each track represents a song. Similar to a series of `SingleTrack`.
    MultipleSong,
}

/// The format code written to the SMF header.
pub open spec fn format_code(f: Format) -> u16 {
    match f {
        Format::SingleTrack => 0,
        Format::MultipleTracks => 1,
        Format::MultipleSong => 2,
    }
}

/// Unit of time for delta timing.
#[derive(Copy, Clone, Debug, Eq, PartialEq, Structural)]
pub enum Division {
    /// The number of units per beat. For example, 96 would mean 96 ticks per
    /// beat.
    TicksPerBeat(i16),
}

/// The division word written to the SMF header: the low 15 bits of the tick
/// count.
pub open spec fn division_word(d: Division) -> u16 {
    match d {
        Division::TicksPerBeat(ticks) => (ticks as u16) % 0x8000,
    }
}

impl Division {
    /// The division word for the SMF header.
    fn encode(&self) -> (r: u16)
        ensures
            r == division_word(*self),
    {
        match self {
            Division::TicksPerBeat(ticks) => (*ticks as u16) % 0x8000,
        }
    }
}

/// The variable-length-quantity encoding of `v`: base-128 digits emitted most
/// significant first, with the continuation bit `0x80` set on every byte but
/// the last. A single zero byte encodes 0.
pub open spec fn vlq(v: nat) -> Seq<u8>
    decreases v,
{
    if v < 128 {
        seq![v as u8]
    } else {
        vlq_cont(v / 128) + seq![(v % 128) as u8]
    }
}

/// The leading bytes of a VLQ: as [`vlq`], but with the continuation bit set
/// on the last byte as well.
pub open spec fn vlq_cont(v: nat) -> Seq<u8>
    decreases v,
{
    if v < 128 {
        seq![(v + 128) as u8]
    } else {
        vlq_cont(v / 128) + seq![(v % 128 + 128) as u8]
    }
}

/// Append the leading (continuation-marked) VLQ bytes of `val`.
fn push_vlq_cont(val: u64, out: &mut Vec<u8>)
    ensures
        final(out)@ == old(out)@ + vlq_cont(val as nat),
    decreases val,
{
    if val >= 128 {
        push_vlq_cont(val / 128, out);
        out.push((val % 128) as u8 + 128);
        proof {
            assert(old(out)@ + vlq_cont(val as nat) =~= (old(out)@ + vlq_cont(
                (val / 128) as nat,
            )).push(((val as nat) % 128 + 128) as u8));
        }
    } else {
        out.push((val % 128) as u8 + 128);
        proof {
            assert(old(out)@ + vlq_cont(val as nat) =~= old(out)@.push(
                ((val as nat) + 128) as u8,
            ));
        }
    }
}

/// Encode `val` as a variable-length quantity.
pub fn encode_varint(val: u64) -> (r: Vec<u8>)
    ensures
        r@ == vlq(val as nat),
{
    let mut out: Vec<u8> = Vec::new();
    if val >= 128 {
        push_vlq_cont(val / 128, &mut out);
    }
    out.push((val % 128) as u8);
    proof {
        if val >= 128 {
            assert(out@ =~= vlq(val as nat));
        } else {
            assert(out@ =~= vlq(val as nat));
        }
    }
    out
}

/// Meta events are non-MIDI data of various sorts consisting of a code and
/// actual event data. Text payloads are carried as plain bytes.
#[derive(Clone, Debug, Eq, PartialEq)]
pub enum MetaEvent {
    /// The number of the sequence.
    SequenceNumber(Vec<u8>),
    /// Any amount of text describing anything.
    TextEvent(Vec<u8>),
    /// A copyright notice.
    CopyrightNotice(Vec<u8>),
    /// The end of the track; its payload is empty.
    EndOfTrack,
}

impl MetaEvent {
    /// The event code written after the `0xFF` meta marker.
    pub open spec fn spec_code(&self) -> u8 {
        match self {
            MetaEvent::SequenceNumber(_) => 0x00,
            MetaEvent::TextEvent(_) => 0x01,
            MetaEvent::CopyrightNotice(_) => 0x02,
            MetaEvent::EndOfTrack => 0x03,
        }
    }

    /// The event's payload bytes.
    pub open spec fn spec_data(&self) -> Seq<u8> {
        match self {
            MetaEvent::SequenceNumber(s) => s@,
            MetaEvent::TextEvent(s) => s@,
            MetaEvent::CopyrightNotice(s) => s@,
            MetaEvent::EndOfTrack => Seq::empty(),
        }
    }

    /// The encoded form: `0xFF`, the event code, the VLQ payload length, and
    /// the payload.
    pub open spec fn spec_bytes(&self) -> Seq<u8> {
        seq![0xFFu8, self.spec_code()] + vlq(self.spec_data().len()) + self.spec_data()
    }

    /// The event code written after the `0xFF` meta marker.
    fn event_code(&self) -> (r: u8)
        ensures
            r == self.spec_code(),
    {
        match self {
            MetaEvent::SequenceNumber(_) => 0x00,
            MetaEvent::TextEvent(_) => 0x01,
            MetaEvent::CopyrightNotice(_) => 0x02,
            MetaEvent::EndOfTrack => 0x03,
        }
    }
}

/// One track entry: a delta-time in ticks since the previous event, paired
/// with either a wire MIDI message or a meta event.
#[derive(Clone, Debug)]
#[allow(inconsistent_fields)]
pub enum TrackEvent {
    /// A timestamped MIDI message.
    Midi {
        /// Ticks since the previous event in the track.
        time: u64,
        /// The message itself.
        event: MidiMessage,
    },
    /// A timestamped meta event.
    Meta {
        /// Ticks since the previous event in the track.
        time: u64,
        /// The event itself.
        event: MetaEvent,
    },
}

impl TrackEvent {
    /// The event's delta-time.
    pub open spec fn spec_time(&self) -> u64 {
        match self {
            TrackEvent::Midi { time, .. } => *time,
            TrackEvent::Meta { time, .. } => *time,
        }
    }

    /// The encoded form: the VLQ delta-time followed by the event bytes.
    pub open spec fn spec_bytes(&self) -> Seq<u8> {
        match self {
            TrackEvent::Midi { time, event } => vlq(*time as nat) + wire_of(event@),
            TrackEvent::Meta { time, event } => vlq(*time as nat) + event.spec_bytes(),
        }
    }

    /// Validity of the data the event holds.
    pub open spec fn wf(&self) -> bool {
        match self {
            TrackEvent::Midi { event, .. } => event.wf(),
            TrackEvent::Meta { .. } => true,
        }
    }
}

/// The concatenated encoded events of a track.
pub open spec fn track_bytes(t: Seq<TrackEvent>) -> Seq<u8>
    decreases t.len(),
{
    if t.len() == 0 {
        Seq::empty()
    } else {
        t[0].spec_bytes() + track_bytes(t.drop_first())
    }
}

/// The summed size of a track's encoded events.
pub open spec fn track_size(t: Seq<TrackEvent>) -> int
    decreases t.len(),
{
    if t.len() == 0 {
        0
    } else {
        t[0].spec_bytes().len() + track_size(t.drop_first())
    }
}

/// The declared byte length of a track chunk — the summed size of its encoded
/// events — exactly measures the concatenation of those events.
pub proof fn lemma_track_size(t: Seq<TrackEvent>)
    ensures
        track_bytes(t).len() == track_size(t),
    decreases t.len(),
{
    if t.len() > 0 {
        lemma_track_size(t.drop_first());
    }
}

/// Every event of the track holds valid data.
pub open spec fn track_wf(t: Seq<TrackEvent>) -> bool {
    forall|i: int| 0 <= i < t.len() ==> (#[trigger] t[i]).wf()
}

/// The two big-endian bytes of a 16-bit word.
pub open spec fn be16(v: u16) -> Seq<u8> {
    seq![(v / 0x100) as u8, (v % 0x100) as u8]
}

/// The four big-endian bytes of a 32-bit word.
pub open spec fn be32(v: u32) -> Seq<u8> {
    seq![
        (v / 0x1000000) as u8,
        ((v / 0x10000) % 0x100) as u8,
        ((v / 0x100) % 0x100) as u8,
        (v % 0x100) as u8,
    ]
}

/// A writer for the Standard MIDI File layout: one header chunk followed by
/// one track chunk per track.
#[derive(Clone, Debug)]
pub struct SmfWriter {
    /// The format of the SMF file.
    pub format: Format,
    /// Unit for delta timing.
    pub division: Division,
    /// The tracks. If `format` is `Format::SingleTrack`, then this must
    /// contain exactly one track.
    pub tracks: Vec<Track>,
}

/// The validation outcome checked before any bytes are emitted: a
/// single-track format demands exactly one track, and the tick count must be
/// strictly positive.
pub open spec fn smf_error(w: SmfWriter) -> Option<Error> {
    if w.format == Format::SingleTrack && w.tracks@.len() == 0 {
        Some(Error::SingleTrackFormatContainsNoTracks)
    } else if w.format == Format::SingleTrack && w.tracks@.len() > 1 {
        Some(Error::SingleTrackFormatContainsMoreThanOneTrack)
    } else if w.division matches Division::TicksPerBeat(ticks) && ticks <= 0 {
        Some(Error::DivisionTicksMustBePositive)
    } else {
        None
    }
}

/// The header chunk: `"MThd"`, the length word 6, the format code, the track
/// count, and the division word.
pub open spec fn header_bytes(w: SmfWriter) -> Seq<u8> {
    seq![0x4Du8, 0x54u8, 0x68u8, 0x64u8] + be32(6) + be16(format_code(w.format)) + be16(
        w.tracks@.len() as u16,
    ) + be16(division_word(w.division))
}

/// One track chunk: `"MTrk"`, the declared byte length of the encoded events,
/// and the events themselves.
pub open spec fn chunk_bytes(t: Seq<TrackEvent>) -> Seq<u8> {
    seq![0x4Du8, 0x54u8, 0x72u8, 0x6Bu8] + be32(track_size(t) as u32) + track_bytes(t)
}

/// The concatenated track chunks of the file.
pub open spec fn chunks_bytes(ts: Seq<Track>) -> Seq<u8>
    decreases ts.len(),
{
    if ts.len() == 0 {
        Seq::empty()
    } else {
        chunk_bytes(ts[0]@) + chunks_bytes(ts.drop_first())
    }
}

/// The whole SMF stream: the header chunk followed by every track chunk.
pub open spec fn smf_bytes(w: SmfWriter) -> Seq<u8> {
    header_bytes(w) + chunks_bytes(w.tracks@)
}

impl SmfWriter {
    /// Validity of the data the writer holds, and the machine limits the SMF
    /// layout imposes: the track count must fit the 16-bit header field and
    /// each track's byte length must fit its 32-bit chunk field.
    pub open spec fn wf(&self) -> bool {
        &&& self.tracks@.len() <= 0xFFFF
        &&& forall|i: int|
            0 <= i < self.tracks@.len() ==> track_size((#[trigger] self.tracks@[i])@) <= u32::MAX
        &&& forall|i: int| 0 <= i < self.tracks@.len() ==> track_wf((#[trigger] self.tracks@[i])@)
    }

    /// Encode the whole SMF stream. Validation runs first and rejects the
    /// write before any bytes are produced; on success the returned buffer is
    /// byte-exact [`smf_bytes`].
    pub fn encode(&self) -> (r: Result<Vec<u8>, Error>)
        requires
            self.wf(),
        ensures
            smf_error(*self) is Some ==> r == Err::<Vec<u8>, Error>(smf_error(*self)->0),
            smf_error(*self) is None ==> r is Ok && r->Ok_0@ == smf_bytes(*self),
    {
        if self.format == Format::SingleTrack {
            if self.tracks.len() == 0 {
                return Err(Error::SingleTrackFormatContainsNoTracks);
            }
            if self.tracks.len() > 1 {
                return Err(Error::SingleTrackFormatContainsMoreThanOneTrack);
            }
        }
        match self.division {
            Division::TicksPerBeat(ticks) => {
                if ticks <= 0 {
                    return Err(Error::DivisionTicksMustBePositive);
                }
            },
        }
        let mut out: Vec<u8> = Vec::new();
        self.encode_header(&mut out);
        let mut t: usize = 0;
        while t < self.tracks.len()
            invariant
                self.wf(),
                t <= self.tracks@.len(),
                out@ == header_bytes(*self) + chunks_bytes(self.tracks@.take(t as int)),
            decreases self.tracks@.len() - t,
        {
            proof {
                lemma_chunks_take_snoc(self.tracks@, t as int);
            }
            Self::encode_track(&self.tracks[t], &mut out);
            proof {
                assert(header_bytes(*self) + chunks_bytes(self.tracks@.take(t + 1)) =~= (
                header_bytes(*self) + chunks_bytes(self.tracks@.take(t as int))) + chunk_bytes(
                    self.tracks@[t as int]@,
                ));
            }
            t += 1;
        }
        proof {
            assert(self.tracks@.take(self.tracks@.len() as int) =~= self.tracks@);
        }
        Ok(out)
    }

    /// Write the header chunk.
    fn encode_header(&self, out: &mut Vec<u8>)
        requires
            self.tracks@.len() <= 0xFFFF,
        ensures
            final(out)@ == old(out)@ + header_bytes(*self),
    {
        out.push(0x4D);
        out.push(0x54);
        out.push(0x68);
        out.push(0x64);
        push_be32(6, out);
        push_be16(self.format.code(), out);
        push_be16(self.tracks.len() as u16, out);
        push_be16(self.division.encode(), out);
        proof {
            assert(out@ =~= old(out)@ + header_bytes(*self));
        }
    }

    /// Write a single track chunk: the `"MTrk"` marker, the declared byte
    /// length of the encoded events, then the events.
    fn encode_track(track: &Vec<TrackEvent>, out: &mut Vec<u8>)
        requires
            track_wf(track@),
            track_size(track@) <= u32::MAX,
        ensures
            final(out)@ == old(out)@ + chunk_bytes(track@),
    {
        let mut events: Vec<u8> = Vec::new();
        let mut i: usize = 0;
        while i < track.len()
            invariant
                i <= track@.len(),
                track_wf(track@),
                events@ == track_bytes(track@.take(i as int)),
            decreases track@.len() - i,
        {
            proof {
                lemma_track_bytes_take_snoc(track@, i as int);
            }
            let event = &track[i];
            event.encode_into(&mut events);
            i += 1;
        }
        proof {
            assert(track@.take(track@.len() as int) =~= track@);
            lemma_track_size(track@);
        }
        out.push(0x4D);
        out.push(0x54);
        out.push(0x72);
        out.push(0x6B);
        push_be32(events.len() as u32, out);
        out.append(&mut events);
        proof {
            assert(out@ =~= old(out)@ + chunk_bytes(track@));
        }
    }
}

impl Format {
    /// The format code written to the SMF header.
    fn code(&self) -> (r: u16)
        ensures
            r == format_code(*self),
    {
        match self {
            Format::SingleTrack => 0,
            Format::MultipleTracks => 1,
            Format::MultipleSong => 2,
        }
    }
}

impl MetaEvent {
    /// Write the encoded meta event: the `0xFF` marker, the event code, the
    /// VLQ payload length, and the payload.
    fn encode_into(&self, out: &mut Vec<u8>)
        ensures
            final(out)@ == old(out)@ + self.spec_bytes(),
    {
        out.push(0xFF);
        out.push(self.event_code());
        match self {
            MetaEvent::SequenceNumber(s) => push_payload(s, out),
            MetaEvent::TextEvent(s) => push_payload(s, out),
            MetaEvent::CopyrightNotice(s) => push_payload(s, out),
            MetaEvent::EndOfTrack => {
                let mut empty_len = encode_varint(0);
                out.append(&mut empty_len);
            },
        }
        proof {
            assert(out@ =~= old(out)@ + self.spec_bytes());
        }
    }
}

/// Write a VLQ payload length followed by the payload bytes.
fn push_payload(s: &Vec<u8>, out: &mut Vec<u8>)
    ensures
        final(out)@ == old(out)@ + vlq(s@.len()) + s@,
{
    let mut len_bytes = encode_varint(s.len() as u64);
    out.append(&mut len_bytes);
    let mut i: usize = 0;
    while i < s.len()
        invariant
            i <= s@.len(),
            out@ =~= old(out)@ + vlq(s@.len()) + s@.take(i as int),
        decreases s@.len() - i,
    {
        out.push(s[i]);
        proof {
            assert(old(out)@ + vlq(s@.len()) + s@.take(i + 1) =~= (old(out)@ + vlq(s@.len())
                + s@.take(i as int)).push(s@[i as int]));
        }
        i += 1;
    }
    proof {
        assert(s@.take(s@.len() as int) =~= s@);
    }
}

impl TrackEvent {
    /// Write the encoded event: the VLQ delta-time, then the message or meta
    /// event bytes.
    fn encode_into(&self, out: &mut Vec<u8>)
        requires
            self.wf(),
        ensures
            final(out)@ == old(out)@ + self.spec_bytes(),
    {
        match self {
            TrackEvent::Midi { time, event } => {
                let mut time_bytes = encode_varint(*time);
                out.append(&mut time_bytes);
                let mut message_bytes = event.to_bytes();
                out.append(&mut message_bytes);
                proof {
                    assert(out@ =~= old(out)@ + self.spec_bytes());
                }
            },
            TrackEvent::Meta { time, event } => {
                let mut time_bytes = encode_varint(*time);
                out.append(&mut time_bytes);
                event.encode_into(out);
                proof {
                    assert(out@ =~= old(out)@ + self.spec_bytes());
                }
            },
        }
    }
}

/// Write the two big-endian bytes of a 16-bit word.
fn push_be16(v: u16, out: &mut Vec<u8>)
    ensures
        final(out)@ == old(out)@ + be16(v),
{
    out.push((v / 0x100) as u8);
    out.push((v % 0x100) as u8);
    proof {
        assert(out@ =~= old(out)@ + be16(v));
    }
}

/// Write the four big-endian bytes of a 32-bit word.
fn push_be32(v: u32, out: &mut Vec<u8>)
    ensures
        final(out)@ == old(out)@ + be32(v),
{
    out.push((v / 0x1000000) as u8);
    out.push(((v / 0x10000) % 0x100) as u8);
    out.push(((v / 0x100) % 0x100) as u8);
    out.push((v % 0x100) as u8);
    proof {
        assert(out@ =~= old(out)@ + be32(v));
    }
}

/// Appending one more event extends the concatenated track bytes by that
/// event's encoding.
pub proof fn lemma_track_bytes_take_snoc(t: Seq<TrackEvent>, i: int)
    requires
        0 <= i < t.len(),
    ensures
        track_bytes(t.take(i + 1)) == track_bytes(t.take(i)) + t[i].spec_bytes(),
    decreases i,
{
    if i == 0 {
        assert(t.take(1).drop_first() =~= Seq::<TrackEvent>::empty());
        assert(t.take(0) =~= Seq::<TrackEvent>::empty());
        assert(track_bytes(t.take(1)) =~= track_bytes(t.take(0)) + t[0].spec_bytes());
    } else {
        lemma_track_bytes_take_snoc(t.drop_first(), i - 1);
        assert(t.take(i + 1).drop_first() =~= t.drop_first().take(i));
        assert(t.take(i).drop_first() =~= t.drop_first().take(i - 1));
        assert(t.take(i + 1)[0] == t[0]);
        assert(t.take(i)[0] == t[0]);
        assert(t.drop_first()[i - 1] == t[i]);
        assert(track_bytes(t.take(i + 1)) =~= track_bytes(t.take(i)) + t[i].spec_bytes());
    }
}

/// Appending one more track extends the concatenated chunks by that track's
/// chunk.
pub proof fn lemma_chunks_take_snoc(ts: Seq<Track>, i: int)
    requires
        0 <= i < ts.len(),
    ensures
        chunks_bytes(ts.take(i + 1)) == chunks_bytes(ts.take(i)) + chunk_bytes(ts[i]@),
    decreases i,
{
    if i == 0 {
        assert(ts.take(1).drop_first() =~= Seq::<Track>::empty());
        assert(ts.take(0) =~= Seq::<Track>::empty());
        assert(chunks_bytes(ts.take(1)) =~= chunks_bytes(ts.take(0)) + chunk_bytes(ts[0]@));
    } else {
        lemma_chunks_take_snoc(ts.drop_first(), i - 1);
        assert(ts.take(i + 1).drop_first() =~= ts.drop_first().take(i));
        assert(ts.take(i).drop_first() =~= ts.drop_first().take(i - 1));
        assert(ts.take(i + 1)[0] == ts[0]);
        assert(ts.take(i)[0] == ts[0]);
        assert(ts.drop_first()[i - 1] == ts[i]);
        assert(chunks_bytes(ts.take(i + 1)) =~= chunks_bytes(ts.take(i)) + chunk_bytes(ts[i]@));
    }
}

} // verus!
