//! Code Index Numbers: the nibble of a USB-MIDI event packet that classifies
//! its content and fixes how many payload bytes follow.
use vstd::prelude::*;
use vstd::std_specs::convert::FromSpecImpl;
use crate::error::MidiError;
use crate::message::Message;
use crate::status::Status;

verus! {

/// The classification of the bytes that an event packet carries.
#[derive(Copy, Clone, Debug, Eq, PartialEq, Structural)]
pub enum CodeIndexNumber {
    /// Miscellaneous function codes; reserved.
    MiscFunction,
    /// Cable events; reserved.
    CableEvents,
    /// Two-byte system common message, such as time code or song select.
    SystemCommonLen2,
    /// Three-byte system common message, such as song position.
    SystemCommonLen3,
    /// System exclusive starts or continues.
    Sysex,
    /// Single-byte system common message, or system exclusive ends with the
    /// following single byte.
    SystemCommonLen1,
    /// System exclusive ends with the following two bytes.
    SysexEndsNext2,
    /// System exclusive ends with the following three bytes.
    SysexEndsNext3,
    NoteOff,
    NoteOn,
    PolyKeypress,
    ControlChange,
    ProgramChange,
    ChannelPressure,
    PitchbendChange,
    /// A single byte.
    SingleByte,
}

impl CodeIndexNumber {
    /// The nibble that stands for the classification on the wire.
    pub open spec fn spec_code(&self) -> u8 {
        match self {
            CodeIndexNumber::MiscFunction => 0x0,
            CodeIndexNumber::CableEvents => 0x1,
            CodeIndexNumber::SystemCommonLen2 => 0x2,
            CodeIndexNumber::SystemCommonLen3 => 0x3,
            CodeIndexNumber::Sysex => 0x4,
            CodeIndexNumber::SystemCommonLen1 => 0x5,
            CodeIndexNumber::SysexEndsNext2 => 0x6,
            CodeIndexNumber::SysexEndsNext3 => 0x7,
            CodeIndexNumber::NoteOff => 0x8,
            CodeIndexNumber::NoteOn => 0x9,
            CodeIndexNumber::PolyKeypress => 0xA,
            CodeIndexNumber::ControlChange => 0xB,
            CodeIndexNumber::ProgramChange => 0xC,
            CodeIndexNumber::ChannelPressure => 0xD,
            CodeIndexNumber::PitchbendChange => 0xE,
            CodeIndexNumber::SingleByte => 0xF,
        }
    }

    #[verifier::when_used_as_spec(spec_code)]
    pub fn code(&self) -> (r: u8)
        ensures
            r == self.spec_code(),
            r <= 0xF,
    {
        match self {
            CodeIndexNumber::MiscFunction => 0x0,
            CodeIndexNumber::CableEvents => 0x1,
            CodeIndexNumber::SystemCommonLen2 => 0x2,
            CodeIndexNumber::SystemCommonLen3 => 0x3,
            CodeIndexNumber::Sysex => 0x4,
            CodeIndexNumber::SystemCommonLen1 => 0x5,
            CodeIndexNumber::SysexEndsNext2 => 0x6,
            CodeIndexNumber::SysexEndsNext3 => 0x7,
            CodeIndexNumber::NoteOff => 0x8,
            CodeIndexNumber::NoteOn => 0x9,
            CodeIndexNumber::PolyKeypress => 0xA,
            CodeIndexNumber::ControlChange => 0xB,
            CodeIndexNumber::ProgramChange => 0xC,
            CodeIndexNumber::ChannelPressure => 0xD,
            CodeIndexNumber::PitchbendChange => 0xE,
            CodeIndexNumber::SingleByte => 0xF,
        }
    }

    /// The classification that the low nibble of `byte` stands for; the high
    /// nibble is ignored.
    pub open spec fn spec_of_byte(byte: u8) -> CodeIndexNumber {
        choose|cin: CodeIndexNumber| #[trigger] cin.code() == byte % 16
    }

    /// The classification of the packets that carry a message with the given
    /// status: a channel-voice command maps to the code equal to its high
    /// nibble, a system message by size.
    pub open spec fn spec_of_status(status: Status) -> CodeIndexNumber {
        match status {
            Status::SysexStart => CodeIndexNumber::Sysex,
            Status::TimeCodeQuarterFrame => CodeIndexNumber::SystemCommonLen2,
            Status::SongPositionPointer => CodeIndexNumber::SystemCommonLen3,
            Status::TuneRequest => CodeIndexNumber::SystemCommonLen1,
            Status::SongSelect => CodeIndexNumber::SystemCommonLen2,
            Status::TimingClock => CodeIndexNumber::SystemCommonLen1,
            Status::MeasureEnd => CodeIndexNumber::SystemCommonLen2,
            Status::Start => CodeIndexNumber::SystemCommonLen1,
            Status::Continue => CodeIndexNumber::SystemCommonLen1,
            Status::Stop => CodeIndexNumber::SystemCommonLen1,
            Status::ActiveSensing => CodeIndexNumber::SystemCommonLen1,
            Status::SystemReset => CodeIndexNumber::SystemCommonLen1,
            Status::NoteOff => CodeIndexNumber::NoteOff,
            Status::NoteOn => CodeIndexNumber::NoteOn,
            Status::NotePressure => CodeIndexNumber::PolyKeypress,
            Status::ControlChange => CodeIndexNumber::ControlChange,
            Status::ProgramChange => CodeIndexNumber::ProgramChange,
            Status::ChannelPressure => CodeIndexNumber::ChannelPressure,
            Status::PitchBend => CodeIndexNumber::PitchbendChange,
        }
    }

    /// The classification of the packet that carries `message`.
    pub open spec fn spec_of_message(message: Message) -> CodeIndexNumber {
        match message {
            Message::NoteOff(_, _, _) => CodeIndexNumber::NoteOff,
            Message::NoteOn(_, _, _) => CodeIndexNumber::NoteOn,
            Message::NotePressure(_, _, _) => CodeIndexNumber::PolyKeypress,
            Message::ChannelPressure(_, _) => CodeIndexNumber::ChannelPressure,
            Message::ProgramChange(_, _) => CodeIndexNumber::ProgramChange,
            Message::ControlChange(_, _, _) => CodeIndexNumber::ControlChange,
            Message::PitchBend(_, _) => CodeIndexNumber::PitchbendChange,
            Message::TimeCodeQuarterFrame(_) => CodeIndexNumber::SystemCommonLen2,
            Message::SongPositionPointer(_, _) => CodeIndexNumber::SystemCommonLen3,
            Message::SongSelect(_) => CodeIndexNumber::SystemCommonLen2,
            Message::TuneRequest => CodeIndexNumber::SystemCommonLen1,
            Message::TimingClock => CodeIndexNumber::SystemCommonLen1,
            Message::MeasureEnd(_) => CodeIndexNumber::SystemCommonLen2,
            Message::Start => CodeIndexNumber::SystemCommonLen1,
            Message::Continue => CodeIndexNumber::SystemCommonLen1,
            Message::Stop => CodeIndexNumber::SystemCommonLen1,
            Message::ActiveSensing => CodeIndexNumber::SystemCommonLen1,
            Message::SystemReset => CodeIndexNumber::SystemCommonLen1,
            Message::SysexBegin(_, _) => CodeIndexNumber::Sysex,
            Message::SysexCont(_, _, _) => CodeIndexNumber::Sysex,
            Message::SysexEnd => CodeIndexNumber::SystemCommonLen1,
            Message::SysexEnd1(_) => CodeIndexNumber::SysexEndsNext2,
            Message::SysexEnd2(_, _) => CodeIndexNumber::SysexEndsNext3,
            Message::SysexEmpty => CodeIndexNumber::SysexEndsNext2,
            Message::SysexSingleByte(_) => CodeIndexNumber::SysexEndsNext3,
        }
    }

    /// The classification of the packet that ends a system-exclusive
    /// sequence with `len` bytes, the terminator included.
    pub open spec fn spec_end_sysex(len: u8) -> Result<CodeIndexNumber, MidiError> {
        if len == 1 {
            Ok(CodeIndexNumber::SystemCommonLen1)
        } else if len == 2 {
            Ok(CodeIndexNumber::SysexEndsNext2)
        } else if len == 3 {
            Ok(CodeIndexNumber::SysexEndsNext3)
        } else {
            Err(MidiError::SysexOutOfBounds)
        }
    }

    /// One packet ends a sequence with one to three bytes; any other length
    /// is refused.
    #[verifier::when_used_as_spec(spec_end_sysex)]
    pub fn end_sysex(len: u8) -> (r: Result<CodeIndexNumber, MidiError>)
        ensures
            r == Self::spec_end_sysex(len),
    {
        match len {
            1 => Ok(CodeIndexNumber::SystemCommonLen1),
            2 => Ok(CodeIndexNumber::SysexEndsNext2),
            3 => Ok(CodeIndexNumber::SysexEndsNext3),
            _ => Err(MidiError::SysexOutOfBounds),
        }
    }

    /// How many of the three bytes after the first carry content.
    pub open spec fn spec_payload_len(&self) -> usize {
        match self {
            CodeIndexNumber::MiscFunction => 0,
            CodeIndexNumber::CableEvents => 0,
            CodeIndexNumber::SystemCommonLen2 => 2,
            CodeIndexNumber::SystemCommonLen3 => 3,
            CodeIndexNumber::Sysex => 3,
            CodeIndexNumber::SystemCommonLen1 => 1,
            CodeIndexNumber::SysexEndsNext2 => 2,
            CodeIndexNumber::SysexEndsNext3 => 3,
            CodeIndexNumber::NoteOff => 3,
            CodeIndexNumber::NoteOn => 3,
            CodeIndexNumber::PolyKeypress => 3,
            CodeIndexNumber::ControlChange => 3,
            CodeIndexNumber::ProgramChange => 2,
            CodeIndexNumber::ChannelPressure => 2,
            CodeIndexNumber::PitchbendChange => 3,
            CodeIndexNumber::SingleByte => 1,
        }
    }

    #[verifier::when_used_as_spec(spec_payload_len)]
    pub fn payload_len(&self) -> (r: usize)
        ensures
            r == self.spec_payload_len(),
            r <= 3,
    {
        match self {
            CodeIndexNumber::MiscFunction => 0,
            CodeIndexNumber::CableEvents => 0,
            CodeIndexNumber::SystemCommonLen2 => 2,
            CodeIndexNumber::SystemCommonLen3 => 3,
            CodeIndexNumber::Sysex => 3,
            CodeIndexNumber::SystemCommonLen1 => 1,
            CodeIndexNumber::SysexEndsNext2 => 2,
            CodeIndexNumber::SysexEndsNext3 => 3,
            CodeIndexNumber::NoteOff => 3,
            CodeIndexNumber::NoteOn => 3,
            CodeIndexNumber::PolyKeypress => 3,
            CodeIndexNumber::ControlChange => 3,
            CodeIndexNumber::ProgramChange => 2,
            CodeIndexNumber::ChannelPressure => 2,
            CodeIndexNumber::PitchbendChange => 3,
            CodeIndexNumber::SingleByte => 1,
        }
    }

    /// A channel-voice command maps to the code equal to the high nibble of
    /// its status byte.
    pub proof fn lemma_channel_voice(status: Status)
        requires
            status.is_channel_voice(),
        ensures
            CodeIndexNumber::spec_of_status(status).code() == status.code() / 16,
    {
    }

    /// Every nibble stands for exactly one classification.
    pub proof fn lemma_of_byte(cin: CodeIndexNumber)
        ensures
            CodeIndexNumber::spec_of_byte(cin.code()) == cin,
            forall|byte: u8| (#[trigger] CodeIndexNumber::spec_of_byte(byte)).code() == byte % 16,
    {
        let found = CodeIndexNumber::spec_of_byte(cin.code());
        assert(cin.code() == cin.code() % 16);
        assert(found.code() == cin.code());
        assert forall|byte: u8| (#[trigger] CodeIndexNumber::spec_of_byte(byte)).code() == byte
            % 16 by {
            Self::lemma_nibble_is_assigned(byte);
        }
    }

    proof fn lemma_nibble_is_assigned(byte: u8)
        ensures
            CodeIndexNumber::spec_of_byte(byte).code() == byte % 16,
    {
        let n = byte % 16;
        let witness = if n == 0x0 {
            CodeIndexNumber::MiscFunction
        } else if n == 0x1 {
            CodeIndexNumber::CableEvents
        } else if n == 0x2 {
            CodeIndexNumber::SystemCommonLen2
        } else if n == 0x3 {
            CodeIndexNumber::SystemCommonLen3
        } else if n == 0x4 {
            CodeIndexNumber::Sysex
        } else if n == 0x5 {
            CodeIndexNumber::SystemCommonLen1
        } else if n == 0x6 {
            CodeIndexNumber::SysexEndsNext2
        } else if n == 0x7 {
            CodeIndexNumber::SysexEndsNext3
        } else if n == 0x8 {
            CodeIndexNumber::NoteOff
        } else if n == 0x9 {
            CodeIndexNumber::NoteOn
        } else if n == 0xA {
            CodeIndexNumber::PolyKeypress
        } else if n == 0xB {
            CodeIndexNumber::ControlChange
        } else if n == 0xC {
            CodeIndexNumber::ProgramChange
        } else if n == 0xD {
            CodeIndexNumber::ChannelPressure
        } else if n == 0xE {
            CodeIndexNumber::PitchbendChange
        } else {
            CodeIndexNumber::SingleByte
        };
        assert(witness.code() == byte % 16);
    }

    /// Reads the classification from the low nibble of a packet's first
    /// byte.
    #[verifier::when_used_as_spec(spec_of_byte)]
    pub fn of_byte(byte: u8) -> (r: CodeIndexNumber)
        ensures
            r == Self::spec_of_byte(byte),
            r.code() == byte % 16,
    {
        assert(byte & 0x0F == byte % 16) by (bit_vector);
        let found = match byte & 0x0F {
            0x0 => CodeIndexNumber::MiscFunction,
            0x1 => CodeIndexNumber::CableEvents,
            0x2 => CodeIndexNumber::SystemCommonLen2,
            0x3 => CodeIndexNumber::SystemCommonLen3,
            0x4 => CodeIndexNumber::Sysex,
            0x5 => CodeIndexNumber::SystemCommonLen1,
            0x6 => CodeIndexNumber::SysexEndsNext2,
            0x7 => CodeIndexNumber::SysexEndsNext3,
            0x8 => CodeIndexNumber::NoteOff,
            0x9 => CodeIndexNumber::NoteOn,
            0xA => CodeIndexNumber::PolyKeypress,
            0xB => CodeIndexNumber::ControlChange,
            0xC => CodeIndexNumber::ProgramChange,
            0xD => CodeIndexNumber::ChannelPressure,
            0xE => CodeIndexNumber::PitchbendChange,
            _ => CodeIndexNumber::SingleByte,
        };
        proof {
            CodeIndexNumber::lemma_of_byte(found);
        }
        found
    }

    #[verifier::when_used_as_spec(spec_of_status)]
    pub fn of_status(status: Status) -> (r: CodeIndexNumber)
        ensures
            r == Self::spec_of_status(status),
    {
        match status {
            Status::SysexStart => CodeIndexNumber::Sysex,
            Status::TimeCodeQuarterFrame => CodeIndexNumber::SystemCommonLen2,
            Status::SongPositionPointer => CodeIndexNumber::SystemCommonLen3,
            Status::TuneRequest => CodeIndexNumber::SystemCommonLen1,
            Status::SongSelect => CodeIndexNumber::SystemCommonLen2,
            Status::TimingClock => CodeIndexNumber::SystemCommonLen1,
            Status::MeasureEnd => CodeIndexNumber::SystemCommonLen2,
            Status::Start => CodeIndexNumber::SystemCommonLen1,
            Status::Continue => CodeIndexNumber::SystemCommonLen1,
            Status::Stop => CodeIndexNumber::SystemCommonLen1,
            Status::ActiveSensing => CodeIndexNumber::SystemCommonLen1,
            Status::SystemReset => CodeIndexNumber::SystemCommonLen1,
            Status::NoteOff => CodeIndexNumber::NoteOff,
            Status::NoteOn => CodeIndexNumber::NoteOn,
            Status::NotePressure => CodeIndexNumber::PolyKeypress,
            Status::ControlChange => CodeIndexNumber::ControlChange,
            Status::ProgramChange => CodeIndexNumber::ProgramChange,
            Status::ChannelPressure => CodeIndexNumber::ChannelPressure,
            Status::PitchBend => CodeIndexNumber::PitchbendChange,
        }
    }

    #[verifier::when_used_as_spec(spec_of_message)]
    pub fn of_message(message: Message) -> (r: CodeIndexNumber)
        ensures
            r == Self::spec_of_message(message),
    {
        match message {
            Message::NoteOff(_, _, _) => CodeIndexNumber::NoteOff,
            Message::NoteOn(_, _, _) => CodeIndexNumber::NoteOn,
            Message::NotePressure(_, _, _) => CodeIndexNumber::PolyKeypress,
            Message::ChannelPressure(_, _) => CodeIndexNumber::ChannelPressure,
            Message::ProgramChange(_, _) => CodeIndexNumber::ProgramChange,
            Message::ControlChange(_, _, _) => CodeIndexNumber::ControlChange,
            Message::PitchBend(_, _) => CodeIndexNumber::PitchbendChange,
            Message::TimeCodeQuarterFrame(_) => CodeIndexNumber::SystemCommonLen2,
            Message::SongPositionPointer(_, _) => CodeIndexNumber::SystemCommonLen3,
            Message::SongSelect(_) => CodeIndexNumber::SystemCommonLen2,
            Message::TuneRequest => CodeIndexNumber::SystemCommonLen1,
            Message::TimingClock => CodeIndexNumber::SystemCommonLen1,
            Message::MeasureEnd(_) => CodeIndexNumber::SystemCommonLen2,
            Message::Start => CodeIndexNumber::SystemCommonLen1,
            Message::Continue => CodeIndexNumber::SystemCommonLen1,
            Message::Stop => CodeIndexNumber::SystemCommonLen1,
            Message::ActiveSensing => CodeIndexNumber::SystemCommonLen1,
            Message::SystemReset => CodeIndexNumber::SystemCommonLen1,
            Message::SysexBegin(_, _) => CodeIndexNumber::Sysex,
            Message::SysexCont(_, _, _) => CodeIndexNumber::Sysex,
            Message::SysexEnd => CodeIndexNumber::SystemCommonLen1,
            Message::SysexEnd1(_) => CodeIndexNumber::SysexEndsNext2,
            Message::SysexEnd2(_, _) => CodeIndexNumber::SysexEndsNext3,
            Message::SysexEmpty => CodeIndexNumber::SysexEndsNext2,
            Message::SysexSingleByte(_) => CodeIndexNumber::SysexEndsNext3,
        }
    }
}

impl FromSpecImpl<u8> for CodeIndexNumber {
    open spec fn obeys_from_spec() -> bool {
        true
    }

    open spec fn from_spec(byte: u8) -> CodeIndexNumber {
        CodeIndexNumber::spec_of_byte(byte)
    }
}

impl From<u8> for CodeIndexNumber {
    fn from(byte: u8) -> (r: CodeIndexNumber) {
        CodeIndexNumber::of_byte(byte)
    }
}

impl FromSpecImpl<Status> for CodeIndexNumber {
    open spec fn obeys_from_spec() -> bool {
        true
    }

    open spec fn from_spec(status: Status) -> CodeIndexNumber {
        CodeIndexNumber::spec_of_status(status)
    }
}

impl From<Status> for CodeIndexNumber {
    fn from(status: Status) -> (r: CodeIndexNumber) {
        CodeIndexNumber::of_status(status)
    }
}

impl FromSpecImpl<Message> for CodeIndexNumber {
    open spec fn obeys_from_spec() -> bool {
        true
    }

    open spec fn from_spec(message: Message) -> CodeIndexNumber {
        CodeIndexNumber::spec_of_message(message)
    }
}

impl From<Message> for CodeIndexNumber {
    fn from(message: Message) -> (r: CodeIndexNumber) {
        CodeIndexNumber::of_message(message)
    }
}

} // verus!
