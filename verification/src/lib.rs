//! Codec and stream parser for the MIDI wire protocol and its USB-MIDI
//! event packets.
use vstd::prelude::*;

pub mod channel;
pub mod cin;
pub mod endpoint;
pub mod error;
pub mod list;
pub mod message;
pub mod note;
pub mod packet;
pub mod parser;
pub mod status;
pub mod u14;
pub mod u4;
pub mod u6;
pub mod u7;

pub use channel::channel;
pub use channel::Channel;
pub use cin::CodeIndexNumber;
pub use endpoint::Binding;
pub use endpoint::Endpoint;
pub use endpoint::Interface;
pub use error::MidiError;
pub use list::PacketList;
pub use message::note_off;
pub use message::note_on;
pub use message::program_change;
pub use message::Message;
pub use note::Note;
pub use packet::CableNumber;
pub use packet::Packet;
pub use parser::PacketParser;
pub use status::is_channel_status;
pub use status::is_non_status;
pub use status::Status;
pub use u14::U14;
pub use u4::U4;
pub use u6::U6;
pub use u7::U7;

verus! {

pub type Velocity = U7;

pub type Control = U7;

pub type Pressure = U7;

pub type Program = U7;

pub type Bend = U14;

/// Conversion that keeps the low bits of a raw value and drops the rest.
/// It never fails and may lose information.
pub trait Cull<T>: Sized {
    fn cull(value: T) -> Self;
}

/// Conversion that saturates: a raw value beyond the range of the target
/// becomes the largest value of the target. It never fails.
pub trait Fill<T>: Sized {
    fn fill(value: T) -> Self;
}

/// A source of packets: a port that is asked for what has come in.
pub trait Receive {
    /// The next packet, if one is there.
    fn receive(&mut self) -> Result<Option<Packet>, MidiError>;
}

/// A sink of packets.
pub trait Transmit {
    /// Sends the packets of a list.
    fn transmit(&mut self, event: PacketList) -> Result<(), MidiError>;
}

} // verus!
