//! Fourteen-bit values, carried on the wire as two seven-bit data bytes.
use vstd::prelude::*;
use vstd::std_specs::convert::FromSpecImpl;
use vstd::std_specs::convert::TryFromSpecImpl;
use crate::error::MidiError;
use crate::u6::U6;
use crate::u7::U7;
use crate::{Cull, Fill};

verus! {

/// An integer in `0..=0x3FFF`.
#[derive(Copy, Clone, Debug, Eq, PartialOrd, PartialEq, Ord)]
pub struct U14(pub u16);

/// The number whose low seven bits are those of `lsb` and whose next seven
/// bits are those of `msb`.
pub open spec fn join_seven_bits(lsb: u8, msb: u8) -> u16 {
    ((msb % 128) * 128 + lsb % 128) as u16
}

fn join_bytes(lsb: u8, msb: u8) -> (r: u16)
    ensures
        r == join_seven_bits(lsb, msb),
        r <= 0x3FFF,
{
    assert((((msb & 0x7F) as u16) << 7) | ((lsb & 0x7F) as u16) == (msb % 128) * 128 + lsb % 128)
        by (bit_vector);
    (((msb & 0x7F) as u16) << 7) | ((lsb & 0x7F) as u16)
}

impl U14 {
    /// The largest fourteen-bit value.
    pub fn max_value() -> (r: U14)
        ensures
            r == U14(0x3FFF),
    {
        U14(0x3FFF)
    }

    /// The smallest fourteen-bit value.
    pub fn min_value() -> (r: U14)
        ensures
            r == U14(0),
    {
        U14(0)
    }

    /// The wrapped integer fits in fourteen bits.
    pub open spec fn wf(self) -> bool {
        self.0 <= 0x3FFF
    }

    /// Validated conversion: a value that fits is kept, any other is refused.
    pub open spec fn spec_try_from(value: u16) -> Result<U14, MidiError> {
        if value > 0x3FFF {
            Err(MidiError::InvalidInteger)
        } else {
            Ok(U14(value))
        }
    }

    #[verifier::when_used_as_spec(spec_try_from)]
    pub fn try_from(value: u16) -> (r: Result<U14, MidiError>)
        ensures
            r == Self::spec_try_from(value),
            r matches Ok(x) ==> x.wf() && x.0 == value,
    {
        if value > 0x3FFF {
            Err(MidiError::InvalidInteger)
        } else {
            Ok(U14(value))
        }
    }

    /// Masking conversion: the low fourteen bits of the value.
    pub open spec fn spec_cull(value: u16) -> U14 {
        U14(value % 0x4000)
    }

    /// Saturating conversion: a value that does not fit becomes the largest
    /// one that does.
    pub open spec fn spec_fill(value: u16) -> U14 {
        if value > 0x3FFF {
            U14(0x3FFF)
        } else {
            U14(value)
        }
    }

    /// The value made of a seven-bit pair, least significant first.
    pub open spec fn spec_join(lsb: U7, msb: U7) -> U14 {
        U14(join_seven_bits(lsb.0, msb.0))
    }

    /// Joins a seven-bit pair, least significant first. Of each part only
    /// the low seven bits count.
    #[verifier::when_used_as_spec(spec_join)]
    pub fn join(lsb: U7, msb: U7) -> (r: U14)
        ensures
            r == Self::spec_join(lsb, msb),
            r.wf(),
            lsb.wf() && msb.wf() ==> r.0 == msb.0 * 128 + lsb.0,
    {
        U14(join_bytes(lsb.0, msb.0))
    }

    /// The value made of two raw data bytes, least significant first, each
    /// of which must fit in seven bits.
    pub open spec fn spec_try_join(lsb: u8, msb: u8) -> Result<U14, MidiError> {
        if lsb > 0x7F || msb > 0x7F {
            Err(MidiError::InvalidInteger)
        } else {
            Ok(U14((msb * 128 + lsb) as u16))
        }
    }

    #[verifier::when_used_as_spec(spec_try_join)]
    pub fn try_join(lsb: u8, msb: u8) -> (r: Result<U14, MidiError>)
        ensures
            r == Self::spec_try_join(lsb, msb),
            r matches Ok(x) ==> x.wf(),
    {
        let lsb = U7::try_from(lsb)?;
        let msb = U7::try_from(msb)?;
        Ok(U14::join(lsb, msb))
    }

    /// The seven-bit pair that `split` returns, least significant first.
    pub open spec fn spec_split(self) -> (U7, U7) {
        (U7((self.0 % 128) as u8), U7::spec_fill(((self.0 / 128) % 256) as u8))
    }

    /// Splits into the seven-bit pair, least significant first. For a value
    /// of more than fourteen bits the high part saturates.
    #[verifier::when_used_as_spec(spec_split)]
    pub fn split(self) -> (r: (U7, U7))
        ensures
            r == self.spec_split(),
            r.0.wf(),
            r.1.wf(),
            self.wf() ==> r.0.0 == self.0 % 128 && r.1.0 == self.0 / 128,
    {
        let v = self.0;
        assert((v & 0x7F) as u8 == v % 128) by (bit_vector);
        assert(((v >> 7) & 0xFF) as u8 == (v / 128) % 256) by (bit_vector);
        (U7::fill((v & 0x7F) as u8), U7::fill(((v >> 7) & 0xFF) as u8))
    }

    /// Validated conversion keeps every value of at most fourteen bits as
    /// it is and refuses every other value.
    pub proof fn lemma_try_from(value: u16)
        ensures
            value <= 0x3FFF ==> U14::try_from(value) == Ok::<U14, MidiError>(U14(value)),
            value > 0x3FFF ==> U14::try_from(value) == Err::<U14, MidiError>(
                MidiError::InvalidInteger,
            ),
    {
    }

    /// Masking always gives a value in range. Saturation gives the largest
    /// value exactly for the inputs that validated conversion refuses, and
    /// for any other input what validated conversion gives.
    pub proof fn lemma_cull_fill(value: u16)
        ensures
            U14::spec_cull(value).wf(),
            U14::spec_fill(value).wf(),
            U14::try_from(value) is Err ==> U14::spec_fill(value) == U14(0x3FFF),
            U14::try_from(value) is Ok ==> U14::try_from(value) == Ok::<U14, MidiError>(
                U14::spec_fill(value),
            ),
    {
    }

    /// Splitting a fourteen-bit value and joining the two halves gives the
    /// value back.
    pub proof fn lemma_split_join(value: U14)
        requires
            value.wf(),
        ensures
            U14::join(value.split().0, value.split().1) == value,
            value.split().0.wf(),
            value.split().1.wf(),
    {
    }

    /// Joining a seven-bit pair and splitting the result gives the pair
    /// back.
    pub proof fn lemma_join_split(lsb: U7, msb: U7)
        requires
            lsb.wf(),
            msb.wf(),
        ensures
            U14::join(lsb, msb).wf(),
            U14::join(lsb, msb).split() == (lsb, msb),
    {
    }
}

impl TryFromSpecImpl<u16> for U14 {
    open spec fn obeys_try_from_spec() -> bool {
        true
    }

    open spec fn try_from_spec(value: u16) -> Result<Self, Self::Error> {
        U14::spec_try_from(value)
    }
}

impl TryFrom<u16> for U14 {
    type Error = MidiError;

    fn try_from(value: u16) -> (r: Result<Self, Self::Error>) {
        U14::try_from(value)
    }
}

impl TryFromSpecImpl<(u8, u8)> for U14 {
    open spec fn obeys_try_from_spec() -> bool {
        true
    }

    open spec fn try_from_spec(value: (u8, u8)) -> Result<Self, Self::Error> {
        U14::spec_try_join(value.0, value.1)
    }
}

/// Joins two raw data bytes, least significant first; each must fit in
/// seven bits.
impl TryFrom<(u8, u8)> for U14 {
    type Error = MidiError;

    fn try_from(value: (u8, u8)) -> (r: Result<Self, Self::Error>) {
        U14::try_join(value.0, value.1)
    }
}

impl FromSpecImpl<(U7, U7)> for U14 {
    open spec fn obeys_from_spec() -> bool {
        true
    }

    open spec fn from_spec(pair: (U7, U7)) -> U14 {
        U14::spec_join(pair.0, pair.1)
    }
}

/// Joins a pair of seven-bit values, least significant first.
impl From<(U7, U7)> for U14 {
    fn from(pair: (U7, U7)) -> (r: U14) {
        U14::join(pair.0, pair.1)
    }
}

impl FromSpecImpl<(U6, U6)> for U14 {
    open spec fn obeys_from_spec() -> bool {
        true
    }

    open spec fn from_spec(pair: (U6, U6)) -> U14 {
        U14(join_seven_bits(pair.0.0, pair.1.0))
    }
}

/// Joins a pair of six-bit values, least significant first, the second one
/// placed from bit seven upwards.
impl From<(U6, U6)> for U14 {
    fn from(pair: (U6, U6)) -> (r: U14) {
        U14(join_bytes(pair.0.0, pair.1.0))
    }
}

impl FromSpecImpl<U14> for (U7, U7) {
    open spec fn obeys_from_spec() -> bool {
        true
    }

    open spec fn from_spec(value: U14) -> (U7, U7) {
        value.spec_split()
    }
}

/// Splits into the seven-bit pair, least significant first.
impl From<U14> for (U7, U7) {
    fn from(value: U14) -> (r: (U7, U7)) {
        value.split()
    }
}

impl FromSpecImpl<U14> for u16 {
    open spec fn obeys_from_spec() -> bool {
        true
    }

    open spec fn from_spec(value: U14) -> u16 {
        value.0
    }
}

impl From<U14> for u16 {
    fn from(value: U14) -> (r: u16) {
        value.0
    }
}

impl Cull<u16> for U14 {
    fn cull(value: u16) -> (r: U14)
        ensures
            r == U14::spec_cull(value),
            r.wf(),
    {
        assert(value & 0x3FFF == value % 0x4000) by (bit_vector);
        U14(value & 0x3FFF)
    }
}

impl Fill<u16> for U14 {
    fn fill(value: u16) -> (r: U14)
        ensures
            r == U14::spec_fill(value),
            r.wf(),
    {
        if value > 0x3FFF {
            U14::max_value()
        } else {
            U14(value)
        }
    }
}

} // verus!
