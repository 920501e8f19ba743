//! Six-bit values.
use vstd::prelude::*;
use vstd::std_specs::convert::FromSpecImpl;
use vstd::std_specs::convert::TryFromSpecImpl;
use crate::error::MidiError;
use crate::{Cull, Fill};

verus! {

/// An integer in `0..=0x3F`.
#[derive(Copy, Clone, Debug, Eq, PartialOrd, PartialEq, Ord)]
pub struct U6(pub u8);

impl U6 {
    /// The largest six-bit value.
    pub fn max_value() -> (r: U6)
        ensures
            r == U6(0x3F),
    {
        U6(0x3F)
    }

    /// The smallest six-bit value.
    pub fn min_value() -> (r: U6)
        ensures
            r == U6(0),
    {
        U6(0)
    }

    /// The wrapped integer fits in six bits.
    pub open spec fn wf(self) -> bool {
        self.0 <= 0x3F
    }

    /// Validated conversion: a value that fits is kept, any other is refused.
    pub open spec fn spec_try_from(value: u8) -> Result<U6, MidiError> {
        if value > 0x3F {
            Err(MidiError::InvalidInteger)
        } else {
            Ok(U6(value))
        }
    }

    #[verifier::when_used_as_spec(spec_try_from)]
    pub fn try_from(value: u8) -> (r: Result<U6, MidiError>)
        ensures
            r == Self::spec_try_from(value),
            r matches Ok(x) ==> x.wf() && x.0 == value,
    {
        if value > 0x3F {
            Err(MidiError::InvalidInteger)
        } else {
            Ok(U6(value))
        }
    }

    /// Masking conversion: the low six bits of the value.
    pub open spec fn spec_cull(value: u8) -> U6 {
        U6(value % 64)
    }

    /// Saturating conversion: a value that does not fit becomes the largest
    /// one that does.
    pub open spec fn spec_fill(value: u8) -> U6 {
        if value > 0x3F {
            U6(0x3F)
        } else {
            U6(value)
        }
    }

    /// Validated conversion keeps every value of at most six bits as it
    /// is and refuses every other value.
    pub proof fn lemma_try_from(value: u8)
        ensures
            value <= 0x3F ==> U6::try_from(value) == Ok::<U6, MidiError>(U6(value)),
            value > 0x3F ==> U6::try_from(value) == Err::<U6, MidiError>(
                MidiError::InvalidInteger,
            ),
    {
    }

    /// Masking always gives a value in range. Saturation gives the largest
    /// value exactly for the inputs that validated conversion refuses, and
    /// for any other input what validated conversion gives.
    pub proof fn lemma_cull_fill(value: u8)
        ensures
            U6::spec_cull(value).wf(),
            U6::spec_fill(value).wf(),
            U6::try_from(value) is Err ==> U6::spec_fill(value) == U6(0x3F),
            U6::try_from(value) is Ok ==> U6::try_from(value) == Ok::<U6, MidiError>(
                U6::spec_fill(value),
            ),
    {
    }
}

impl TryFromSpecImpl<u8> for U6 {
    open spec fn obeys_try_from_spec() -> bool {
        true
    }

    open spec fn try_from_spec(value: u8) -> Result<Self, Self::Error> {
        U6::spec_try_from(value)
    }
}

impl TryFrom<u8> for U6 {
    type Error = MidiError;

    fn try_from(value: u8) -> (r: Result<Self, Self::Error>) {
        U6::try_from(value)
    }
}

impl FromSpecImpl<U6> for u8 {
    open spec fn obeys_from_spec() -> bool {
        true
    }

    open spec fn from_spec(value: U6) -> u8 {
        value.0
    }
}

impl From<U6> for u8 {
    fn from(value: U6) -> (r: u8) {
        value.0
    }
}

impl Cull<u8> for U6 {
    fn cull(value: u8) -> (r: U6)
        ensures
            r == U6::spec_cull(value),
            r.wf(),
    {
        assert(value & 0x3F == value % 64) by (bit_vector);
        U6(value & 0x3F)
    }
}

impl Fill<u8> for U6 {
    fn fill(value: u8) -> (r: U6)
        ensures
            r == U6::spec_fill(value),
            r.wf(),
    {
        if value > 0x3F {
            U6::max_value()
        } else {
            U6(value)
        }
    }
}

} // verus!
