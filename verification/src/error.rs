use vstd::prelude::*;

verus! {

/// MIDI decoding errors.
#[derive(Copy, Clone, Debug, Eq, PartialEq, Structural)]
pub enum FromBytesError {
    /// The MIDI channel index is not between 0 and 15 inclusive.
    ChannelOutOfRange,
    /// No MIDI bytes were provided.
    NoBytes,
    /// A SysEx start byte was provided, but there was no corresponding SysEx end byte.
    NoSysExEndByte,
    /// Not enough data bytes for the specified MIDI message.
    NotEnoughBytes,
    /// Found a SysEx end byte, but there was no start byte.
    UnexpectedEndSysExByte,
    /// Found a status byte interleaved with SysEx data. A SysEx message is a
    /// start byte, followed by data bytes, ending in an end byte.
    UnexpectedNonSysExEndByte(u8),
    /// The first byte of a MIDI message must be a status byte.
    UnexpectedDataByte,
    /// Found a status byte, but expected a `U7` data byte.
    UnexpectedStatusByte,
    /// MIDI notes must be in the range [0, 127] inclusive.
    NoteOutOfRange,
    /// Data (`U7`) bytes must be in the range [0, 127] inclusive.
    DataByteOutOfRange,
    /// Data (`U14`) values must be in the range [0, 16383] inclusive.
    U14OutOfRange,
}

/// An error that can occur converting a MIDI message to a byte slice.
#[derive(Copy, Clone, Debug, Eq, PartialEq, Structural)]
pub enum ToSliceError {
    /// The destination buffer cannot fit all the bytes.
    BufferTooSmall,
}

} // verus!
