//! Four-bit values: nibbles such as a channel or a cable number.
use vstd::prelude::*;
use vstd::std_specs::convert::FromSpecImpl;
use vstd::std_specs::convert::TryFromSpecImpl;
use crate::error::MidiError;
use crate::{Cull, Fill};

verus! {

/// An integer in `0..=0x0F`.
#[derive(Copy, Clone, Debug, Eq, PartialOrd, PartialEq, Ord)]
pub struct U4(pub u8);

impl U4 {
    /// The largest four-bit value.
    pub fn max_value() -> (r: U4)
        ensures
            r == U4(0x0F),
    {
        U4(0x0F)
    }

    /// The smallest four-bit value.
    pub fn min_value() -> (r: U4)
        ensures
            r == U4(0),
    {
        U4(0)
    }

    /// The wrapped integer fits in four bits.
    pub open spec fn wf(self) -> bool {
        self.0 <= 0x0F
    }

    /// Validated conversion: a value that fits is kept, any other is refused.
    pub open spec fn spec_try_from(value: u8) -> Result<U4, MidiError> {
        if value > 0x0F {
            Err(MidiError::InvalidInteger)
        } else {
            Ok(U4(value))
        }
    }

    #[verifier::when_used_as_spec(spec_try_from)]
    pub fn try_from(value: u8) -> (r: Result<U4, MidiError>)
        ensures
            r == Self::spec_try_from(value),
            r matches Ok(x) ==> x.wf() && x.0 == value,
    {
        if value > 0x0F {
            Err(MidiError::InvalidInteger)
        } else {
            Ok(U4(value))
        }
    }

    /// Masking conversion: the low four bits of the value.
    pub open spec fn spec_cull(value: u8) -> U4 {
        U4(value % 16)
    }

    /// Saturating conversion: a value that does not fit becomes the largest
    /// one that does.
    pub open spec fn spec_fill(value: u8) -> U4 {
        if value > 0x0F {
            U4(0x0F)
        } else {
            U4(value)
        }
    }

    /// Splits a byte into its two nibbles, low nibble first.
    pub fn split(value: u8) -> (r: (U4, U4))
        ensures
            r.0 == U4(value % 16),
            r.1 == U4(value / 16),
            r.0.wf(),
            r.1.wf(),
    {
        assert(value & 0x0F == value % 16) by (bit_vector);
        assert(value >> 4 == value / 16) by (bit_vector);
        (U4(value & 0x0F), U4(value >> 4))
    }

    /// Validated conversion keeps every value of at most four bits as it
    /// is and refuses every other value.
    pub proof fn lemma_try_from(value: u8)
        ensures
            value <= 0x0F ==> U4::try_from(value) == Ok::<U4, MidiError>(U4(value)),
            value > 0x0F ==> U4::try_from(value) == Err::<U4, MidiError>(
                MidiError::InvalidInteger,
            ),
    {
    }

    /// Masking always gives a value in range. Saturation gives the largest
    /// value exactly for the inputs that validated conversion refuses, and
    /// for any other input what validated conversion gives.
    pub proof fn lemma_cull_fill(value: u8)
        ensures
            U4::spec_cull(value).wf(),
            U4::spec_fill(value).wf(),
            U4::try_from(value) is Err ==> U4::spec_fill(value) == U4(0x0F),
            U4::try_from(value) is Ok ==> U4::try_from(value) == Ok::<U4, MidiError>(
                U4::spec_fill(value),
            ),
    {
    }
}

impl TryFromSpecImpl<u8> for U4 {
    open spec fn obeys_try_from_spec() -> bool {
        true
    }

    open spec fn try_from_spec(value: u8) -> Result<Self, Self::Error> {
        U4::spec_try_from(value)
    }
}

impl TryFrom<u8> for U4 {
    type Error = MidiError;

    fn try_from(value: u8) -> (r: Result<Self, Self::Error>) {
        U4::try_from(value)
    }
}

impl FromSpecImpl<U4> for u8 {
    open spec fn obeys_from_spec() -> bool {
        true
    }

    open spec fn from_spec(value: U4) -> u8 {
        value.0
    }
}

impl From<U4> for u8 {
    fn from(value: U4) -> (r: u8) {
        value.0
    }
}

impl Cull<u8> for U4 {
    fn cull(value: u8) -> (r: U4)
        ensures
            r == U4::spec_cull(value),
            r.wf(),
    {
        assert(value & 0x0F == value % 16) by (bit_vector);
        U4(value & 0x0F)
    }
}

impl Fill<u8> for U4 {
    fn fill(value: u8) -> (r: U4)
        ensures
            r == U4::spec_fill(value),
            r.wf(),
    {
        if value > 0x0F {
            U4::max_value()
        } else {
            U4(value)
        }
    }
}

} // verus!
