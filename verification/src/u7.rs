//! Seven-bit values, the content of a MIDI data byte.
use vstd::prelude::*;
use vstd::std_specs::convert::FromSpecImpl;
use vstd::std_specs::convert::TryFromSpecImpl;
use crate::error::MidiError;
use crate::{Cull, Fill};

verus! {

/// An integer in `0..=0x7F`.
#[derive(Copy, Clone, Debug, Eq, PartialOrd, PartialEq, Ord)]
pub struct U7(pub u8);

impl U7 {
    /// The largest seven-bit value.
    pub fn max_value() -> (r: U7)
        ensures
            r == U7(0x7F),
    {
        U7(0x7F)
    }

    /// The smallest seven-bit value.
    pub fn min_value() -> (r: U7)
        ensures
            r == U7(0),
    {
        U7(0)
    }

    /// The wrapped integer fits in seven bits.
    pub open spec fn wf(self) -> bool {
        self.0 <= 0x7F
    }

    /// Validated conversion: a value that fits is kept, any other is refused.
    pub open spec fn spec_try_from(value: u8) -> Result<U7, MidiError> {
        if value > 0x7F {
            Err(MidiError::InvalidInteger)
        } else {
            Ok(U7(value))
        }
    }

    #[verifier::when_used_as_spec(spec_try_from)]
    pub fn try_from(value: u8) -> (r: Result<U7, MidiError>)
        ensures
            r == Self::spec_try_from(value),
            r matches Ok(x) ==> x.wf() && x.0 == value,
    {
        if value > 0x7F {
            Err(MidiError::InvalidInteger)
        } else {
            Ok(U7(value))
        }
    }

    /// Masking conversion: the low seven bits of the value.
    pub open spec fn spec_cull(value: u8) -> U7 {
        U7(value % 128)
    }

    /// Saturating conversion: a value that does not fit becomes the largest
    /// one that does.
    pub open spec fn spec_fill(value: u8) -> U7 {
        if value > 0x7F {
            U7(0x7F)
        } else {
            U7(value)
        }
    }

    /// Validated conversion keeps every value of at most seven bits as it
    /// is and refuses every other value.
    pub proof fn lemma_try_from(value: u8)
        ensures
            value <= 0x7F ==> U7::try_from(value) == Ok::<U7, MidiError>(U7(value)),
            value > 0x7F ==> U7::try_from(value) == Err::<U7, MidiError>(
                MidiError::InvalidInteger,
            ),
    {
    }

    /// Masking always gives a value in range. Saturation gives the largest
    /// value exactly for the inputs that validated conversion refuses, and
    /// for any other input what validated conversion gives.
    pub proof fn lemma_cull_fill(value: u8)
        ensures
            U7::spec_cull(value).wf(),
            U7::spec_fill(value).wf(),
            U7::try_from(value) is Err ==> U7::spec_fill(value) == U7(0x7F),
            U7::try_from(value) is Ok ==> U7::try_from(value) == Ok::<U7, MidiError>(
                U7::spec_fill(value),
            ),
    {
    }
}

impl TryFromSpecImpl<u8> for U7 {
    open spec fn obeys_try_from_spec() -> bool {
        true
    }

    open spec fn try_from_spec(value: u8) -> Result<Self, Self::Error> {
        U7::spec_try_from(value)
    }
}

impl TryFrom<u8> for U7 {
    type Error = MidiError;

    fn try_from(value: u8) -> (r: Result<Self, Self::Error>) {
        U7::try_from(value)
    }
}

impl FromSpecImpl<U7> for u8 {
    open spec fn obeys_from_spec() -> bool {
        true
    }

    open spec fn from_spec(value: U7) -> u8 {
        value.0
    }
}

impl From<U7> for u8 {
    fn from(value: U7) -> (r: u8) {
        value.0
    }
}

impl Cull<u8> for U7 {
    fn cull(value: u8) -> (r: U7)
        ensures
            r == U7::spec_cull(value),
            r.wf(),
    {
        assert(value & 0x7F == value % 128) by (bit_vector);
        U7(value & 0x7F)
    }
}

impl Fill<u8> for U7 {
    fn fill(value: u8) -> (r: U7)
        ensures
            r == U7::spec_fill(value),
            r.wf(),
    {
        if value > 0x7F {
            U7::max_value()
        } else {
            U7(value)
        }
    }
}

} // verus!
