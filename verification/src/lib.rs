//! A verified codec for MIDI 1.0 wire messages and a writer for the
//! Standard MIDI File (SMF) container.
//!
//! The crate models the two range-restricted data-byte types (`U7`, `U14`),
//! decodes and encodes the tagged [`MidiMessage`] union, and assembles SMF
//! header and track chunks with variable-length delta-times.

use vstd::prelude::*;

mod byte;
mod cc;
mod error;
mod midi_message;
mod note;
pub mod smf;

pub use byte::{U14, U7};
pub use cc::ControlFunction;
pub use error::{FromBytesError, ToSliceError};
pub use midi_message::{
    combine_data, split_data, Channel, ControlNumber, ControlValue, MidiMessage, PitchBend,
    ProgramNumber, Song, SongPosition, Velocity,
};
pub use note::Note;
pub use smf::{Division, Format, MetaEvent, SmfWriter, Track, TrackEvent};

verus! {

/// Decoding errors; kept under its historical name as well.
pub type Error = FromBytesError;

} // verus!
