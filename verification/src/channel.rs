//! MIDI channels.
use vstd::prelude::*;
use crate::error::MidiError;

verus! {

/// A MIDI channel, stored as `0..=15`; musicians count them from 1 to 16.
#[derive(Clone, Copy, Debug, PartialEq, Eq)]
pub struct Channel(pub u8);

impl Channel {
    /// The stored number names one of the sixteen channels.
    pub open spec fn wf(self) -> bool {
        self.0 <= 15
    }
}

/// The channel that `channel` returns for a number counted from 1.
pub open spec fn channel_spec(ch: u8) -> Result<Channel, MidiError> {
    if 1 <= ch <= 16 {
        Ok(Channel((ch - 1) as u8))
    } else {
        Err(MidiError::InvalidChannel)
    }
}

/// Builds a channel from its natural number, `1..=16`. Zero and numbers
/// above sixteen are refused.
pub fn channel(ch: u8) -> (r: Result<Channel, MidiError>)
    ensures
        r == channel_spec(ch),
        r matches Ok(c) ==> c.wf(),
{
    if 1 <= ch && ch <= 16 {
        Ok(Channel(ch - 1))
    } else {
        Err(MidiError::InvalidChannel)
    }
}

} // verus!
