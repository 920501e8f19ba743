//! Note numbers.
use vstd::prelude::*;
use vstd::std_specs::convert::FromSpecImpl;
use vstd::std_specs::convert::TryFromSpecImpl;
use crate::error::MidiError;

verus! {

/// A MIDI note number, `0..=0x7F`; middle C is 60.
#[derive(Copy, Clone, Debug, Eq, PartialOrd, PartialEq, Ord)]
pub struct Note(pub u8);

impl Note {
    /// The note number fits in seven bits.
    pub open spec fn wf(self) -> bool {
        self.0 <= 0x7F
    }

    /// Validated conversion: a number of at most seven bits is kept, any
    /// other is refused.
    pub open spec fn spec_try_from(value: u8) -> Result<Note, MidiError> {
        if value > 0x7F {
            Err(MidiError::InvalidNote)
        } else {
            Ok(Note(value))
        }
    }

    #[verifier::when_used_as_spec(spec_try_from)]
    pub fn try_from(value: u8) -> (r: Result<Note, MidiError>)
        ensures
            r == Self::spec_try_from(value),
            r matches Ok(x) ==> x.wf() && x.0 == value,
    {
        if value > 0x7F {
            Err(MidiError::InvalidNote)
        } else {
            Ok(Note(value))
        }
    }
}

impl TryFromSpecImpl<u8> for Note {
    open spec fn obeys_try_from_spec() -> bool {
        true
    }

    open spec fn try_from_spec(value: u8) -> Result<Self, Self::Error> {
        Note::spec_try_from(value)
    }
}

impl TryFrom<u8> for Note {
    type Error = MidiError;

    fn try_from(value: u8) -> (r: Result<Self, Self::Error>) {
        Note::try_from(value)
    }
}

impl FromSpecImpl<Note> for u8 {
    open spec fn obeys_from_spec() -> bool {
        true
    }

    open spec fn from_spec(value: Note) -> u8 {
        value.0
    }
}

impl From<Note> for u8 {
    fn from(value: Note) -> (r: u8) {
        value.0
    }
}

} // verus!
