//! USB-MIDI event packets: four bytes, of which the first holds a cable
//! number and a Code Index Number and the others up to three bytes of MIDI.
use vstd::prelude::*;
use vstd::std_specs::convert::FromSpecImpl;
use crate::channel::Channel;
use crate::cin::CodeIndexNumber;
use crate::error::converted;
use crate::message::Message;
use crate::status::is_channel_status;
use crate::status::status_byte;
use crate::status::Status;
use crate::status::SYSEX_END;
use crate::status::SYSEX_START;

verus! {

/// The number of one of the sixteen virtual cables of a USB-MIDI endpoint.
pub type CableNumber = u8;

/// One USB-MIDI event packet.
#[derive(Clone, Copy, Debug, PartialEq, Eq)]
pub struct Packet {
    bytes: [u8; 4],
}

/// The bytes of system-exclusive data among the four bytes of a packet.
///
/// A packet that starts or continues a sequence carries three, or two
/// after the start marker; one that ends a sequence with two or three
/// bytes carries those before the terminator, again less a start marker at
/// their head. Any other packet carries none.
pub open spec fn sysex_body_of(bytes: Seq<u8>) -> Seq<u8> {
    let first: int = if bytes[1] == SYSEX_START {
        2
    } else {
        1
    };
    match CodeIndexNumber::of_byte(bytes[0]) {
        CodeIndexNumber::Sysex => bytes.subrange(first, 4),
        CodeIndexNumber::SysexEndsNext2 => bytes.subrange(first, 2),
        CodeIndexNumber::SysexEndsNext3 => bytes.subrange(first, 3),
        _ => Seq::empty(),
    }
}

impl View for Packet {
    type V = Seq<u8>;

    /// The four bytes of the packet.
    closed spec fn view(&self) -> Seq<u8> {
        self.bytes@
    }
}

impl Packet {
    /// A packet has four bytes.
    pub proof fn lemma_len(self)
        ensures
            self@.len() == 4,
    {
    }

    /// A packet is its four bytes and nothing else.
    pub proof fn lemma_ext(self, other: Packet)
        requires
            self@ == other@,
        ensures
            self == other,
    {
        assert(self.bytes =~= other.bytes);
    }

    pub fn from_raw(bytes: [u8; 4]) -> (r: Packet)
        ensures
            r@ == bytes@,
    {
        Packet { bytes }
    }

    /// The high nibble of the first byte.
    pub fn cable_number(&self) -> (r: CableNumber)
        ensures
            r == self@[0] / 16,
    {
        let first = self.bytes[0];
        assert(first >> 4 == first / 16) by (bit_vector);
        first >> 4
    }

    /// The classification in the low nibble of the first byte.
    pub open spec fn spec_code_index_number(&self) -> CodeIndexNumber {
        CodeIndexNumber::of_byte(self@[0])
    }

    #[verifier::when_used_as_spec(spec_code_index_number)]
    pub fn code_index_number(&self) -> (r: CodeIndexNumber)
        ensures
            r == self.spec_code_index_number(),
    {
        CodeIndexNumber::of_byte(self.bytes[0])
    }

    /// The bytes after the first that carry content: as many as the Code
    /// Index Number says.
    pub open spec fn spec_payload(&self) -> Seq<u8> {
        self@.subrange(1, 1 + self.code_index_number().payload_len())
    }

    pub fn payload(&self) -> (r: &[u8])
        ensures
            r@ == self.spec_payload(),
    {
        let cin = self.code_index_number();
        let end = cin.payload_len() + 1;
        &self.bytes[1..end]
    }

    /// The command of the message in the packet: that of the first payload
    /// byte, if there is a payload and that byte is a status byte.
    pub open spec fn spec_status(&self) -> Option<Status> {
        if self.spec_payload().len() == 0 {
            None
        } else {
            converted(Status::try_from(self@[1]))
        }
    }

    #[verifier::when_used_as_spec(spec_status)]
    pub fn status(&self) -> (r: Option<Status>)
        ensures
            r == self.spec_status(),
    {
        let payload = self.payload();
        if payload.is_empty() {
            None
        } else {
            match Status::try_from(payload[0]) {
                Ok(status) => Some(status),
                Err(_) => None,
            }
        }
    }

    /// The channel of the message in the packet: the low nibble of the first
    /// payload byte, if there is a payload and that byte is the status byte
    /// of a channel-voice message.
    pub open spec fn spec_channel(&self) -> Option<Channel> {
        if self.spec_payload().len() != 0 && is_channel_status(self@[1]) {
            Some(Channel(self@[1] % 16))
        } else {
            None
        }
    }

    #[verifier::when_used_as_spec(spec_channel)]
    pub fn channel(&self) -> (r: Option<Channel>)
        ensures
            r == self.spec_channel(),
            r matches Some(c) ==> c.wf(),
    {
        let payload = self.payload();
        if payload.is_empty() {
            None
        } else {
            let byte = payload[0];
            if is_channel_status(byte) {
                assert(byte & 0x0F == byte % 16) by (bit_vector);
                Some(Channel(byte & 0x0F))
            } else {
                None
            }
        }
    }

    /// The same packet on another cable. Only the low four bits of the
    /// cable number are used.
    pub fn with_cable_num(self, cable_number: CableNumber) -> (r: Packet)
        ensures
            r@ == self@.update(0, ((cable_number % 16) * 16 + self@[0] % 16) as u8),
    {
        let mut bytes = self.bytes;
        let first = bytes[0];
        assert((first & 0x0F) | ((cable_number & 0x0F) << 4) == (cable_number % 16) * 16 + first % 16)
            by (bit_vector);
        bytes[0] = (first & 0x0F) | ((cable_number & 0x0F) << 4);
        Packet { bytes }
    }

    /// The part of a system-exclusive sequence that the packet carries.
    pub open spec fn spec_sysex_body(&self) -> Seq<u8> {
        sysex_body_of(self@)
    }

    /// The part of a system-exclusive sequence that the packet carries,
    /// without the markers that bracket the sequence: the payload of a
    /// packet that starts, continues or ends a sequence, less a start
    /// marker at its head and less the last byte of a packet that ends the
    /// sequence. Any other packet gives an empty slice.
    pub fn sysex_body(&self) -> (r: &[u8])
        ensures
            r@ == self.spec_sysex_body(),
    {
        let first: usize = if self.bytes[1] == SYSEX_START {
            2
        } else {
            1
        };
        let r = match self.code_index_number() {
            CodeIndexNumber::Sysex => &self.bytes[first..4],
            CodeIndexNumber::SysexEndsNext2 => &self.bytes[first..2],
            CodeIndexNumber::SysexEndsNext3 => &self.bytes[first..3],
            _ => &self.bytes[0..0],
        };
        assert(r@ =~= sysex_body_of(self@));
        r
    }

    /// All four bytes, as they travel over USB.
    pub fn bytes(&self) -> (r: &[u8])
        ensures
            r@ == self@,
    {
        self.bytes.as_slice()
    }

    /// The four bytes of the packet that carries `message`.
    ///
    /// The first byte holds the Code Index Number, on cable zero. A message
    /// with a status has it in the second byte and its data after it;
    /// unused bytes are zero. The fragments of a system-exclusive sequence
    /// hold their body bytes between the markers `0xF0` and `0xF7` that
    /// they imply.
    pub open spec fn encode_spec(message: Message) -> Seq<u8> {
        let cin = CodeIndexNumber::of_message(message).code();
        let status = match status_byte(&message) {
            Some(byte) => byte,
            None => 0u8,
        };
        match message {
            Message::NoteOff(_, note, vel) => seq![cin, status, note.0, vel.0],
            Message::NoteOn(_, note, vel) => seq![cin, status, note.0, vel.0],
            Message::NotePressure(_, note, pres) => seq![cin, status, note.0, pres.0],
            Message::ChannelPressure(_, pres) => seq![cin, status, pres.0, 0u8],
            Message::ProgramChange(_, patch) => seq![cin, status, patch.0, 0u8],
            Message::ControlChange(_, ctrl, val) => seq![cin, status, ctrl.0, val.0],
            Message::PitchBend(_, bend) => seq![
                cin,
                status,
                bend.split().0.0,
                bend.split().1.0,
            ],
            Message::TimeCodeQuarterFrame(val) => seq![cin, status, val.0, 0u8],
            Message::SongPositionPointer(lsb, msb) => seq![cin, status, lsb.0, msb.0],
            Message::SongSelect(song) => seq![cin, status, song.0, 0u8],
            Message::MeasureEnd(val) => seq![cin, status, val.0, 0u8],
            Message::SysexBegin(b1, b2) => seq![cin, SYSEX_START, b1, b2],
            Message::SysexCont(b1, b2, b3) => seq![cin, b1, b2, b3],
            Message::SysexEnd => seq![cin, SYSEX_END, 0u8, 0u8],
            Message::SysexEnd1(b1) => seq![cin, b1, SYSEX_END, 0u8],
            Message::SysexEnd2(b1, b2) => seq![cin, b1, b2, SYSEX_END],
            Message::SysexEmpty => seq![cin, SYSEX_START, SYSEX_END, 0u8],
            Message::SysexSingleByte(b1) => seq![cin, SYSEX_START, b1, SYSEX_END],
            _ => seq![cin, status, 0u8, 0u8],
        }
    }

    /// The packet that carries `message`: the one whose bytes are
    /// `encode_spec(message)`.
    pub closed spec fn of_message(message: Message) -> Packet {
        let s = Packet::encode_spec(message);
        Packet { bytes: [s[0], s[1], s[2], s[3]] }
    }

    /// The bytes of the packet that carries `message`.
    pub proof fn lemma_of_message(message: Message)
        ensures
            Packet::of_message(message)@ == Packet::encode_spec(message),
    {
        assert(Packet::of_message(message)@ =~= Packet::encode_spec(message));
    }
}

impl Default for Packet {
    fn default() -> (r: Packet)
        ensures
            r@ == seq![0u8, 0u8, 0u8, 0u8],
    {
        let r = Packet { bytes: [0u8; 4] };
        assert(r@ =~= seq![0u8, 0u8, 0u8, 0u8]);
        r
    }
}

impl FromSpecImpl<Message> for Packet {
    open spec fn obeys_from_spec() -> bool {
        true
    }

    open spec fn from_spec(message: Message) -> Packet {
        Packet::of_message(message)
    }
}

/// Encodes a message as one event packet on cable zero.
impl From<Message> for Packet {
    fn from(message: Message) -> (r: Packet) {
        let mut packet = [0u8; 4];
        packet[0] = CodeIndexNumber::of_message(message).code();
        if let Some(byte) = status_byte(&message) {
            packet[1] = byte;
        }
        match message {
            Message::NoteOff(_, note, vel) => {
                packet[2] = note.0;
                packet[3] = vel.0;
            },
            Message::NoteOn(_, note, vel) => {
                packet[2] = note.0;
                packet[3] = vel.0;
            },
            Message::NotePressure(_, note, pres) => {
                packet[2] = note.0;
                packet[3] = pres.0;
            },
            Message::ChannelPressure(_, pres) => {
                packet[2] = pres.0;
            },
            Message::ProgramChange(_, patch) => {
                packet[2] = patch.0;
            },
            Message::ControlChange(_, ctrl, val) => {
                packet[2] = ctrl.0;
                packet[3] = val.0;
            },
            Message::PitchBend(_, bend) => {
                let (lsb, msb) = bend.split();
                packet[2] = lsb.0;
                packet[3] = msb.0;
            },
            Message::TimeCodeQuarterFrame(val) => {
                packet[2] = val.0;
            },
            Message::SongPositionPointer(lsb, msb) => {
                packet[2] = lsb.0;
                packet[3] = msb.0;
            },
            Message::SongSelect(song) => {
                packet[2] = song.0;
            },
            Message::MeasureEnd(val) => {
                packet[2] = val.0;
            },
            Message::SysexBegin(b1, b2) => {
                packet[1] = SYSEX_START;
                packet[2] = b1;
                packet[3] = b2;
            },
            Message::SysexCont(b1, b2, b3) => {
                packet[1] = b1;
                packet[2] = b2;
                packet[3] = b3;
            },
            Message::SysexEnd => {
                packet[1] = SYSEX_END;
            },
            Message::SysexEnd1(b1) => {
                packet[1] = b1;
                packet[2] = SYSEX_END;
            },
            Message::SysexEnd2(b1, b2) => {
                packet[1] = b1;
                packet[2] = b2;
                packet[3] = SYSEX_END;
            },
            Message::SysexEmpty => {
                packet[1] = SYSEX_START;
                packet[2] = SYSEX_END;
            },
            Message::SysexSingleByte(b1) => {
                packet[1] = SYSEX_START;
                packet[2] = b1;
                packet[3] = SYSEX_END;
            },
            // the remaining messages are a status byte and nothing else
            _ => {},
        }
        let r = Packet::from_raw(packet);
        proof {
            assert(r@ =~= Packet::encode_spec(message));
            Packet::lemma_of_message(message);
            r.lemma_ext(Packet::of_message(message));
        }
        r
    }
}

} // verus!
