//! Status bytes: the first byte of every MIDI message.
//!
//! A status byte has its high bit set. For the channel-voice commands
//! (`0x80..=0xEF`) the high nibble is the command and the low nibble the
//! channel; the system messages (`0xF0..=0xFF`) use the whole byte.
use vstd::prelude::*;
use vstd::std_specs::convert::TryFromSpecImpl;
use crate::error::MidiError;
use crate::message::Message;

verus! {

pub const NOTE_OFF: u8 = 0x80;

pub const NOTE_ON: u8 = 0x90;

pub const NOTE_PRESSURE: u8 = 0xA0;

pub const CONTROL_CHANGE: u8 = 0xB0;

pub const PROGRAM_CHANGE: u8 = 0xC0;

pub const CHANNEL_PRESSURE: u8 = 0xD0;

pub const PITCH_BEND: u8 = 0xE0;

pub const SYSEX_START: u8 = 0xF0;

pub const TIME_CODE_QUARTER_FRAME: u8 = 0xF1;

pub const SONG_POSITION_POINTER: u8 = 0xF2;

pub const SONG_SELECT: u8 = 0xF3;

pub const TUNE_REQUEST: u8 = 0xF6;

pub const TIMING_CLOCK: u8 = 0xF8;

pub const MEASURE_END: u8 = 0xF9;

pub const START: u8 = 0xFA;

pub const CONTINUE: u8 = 0xFB;

pub const STOP: u8 = 0xFC;

pub const ACTIVE_SENSING: u8 = 0xFE;

pub const SYSTEM_RESET: u8 = 0xFF;

/// Ends a system-exclusive sequence. It is not a status byte.
pub const SYSEX_END: u8 = 0xF7;

/// A data byte, or the system-exclusive terminator, which the stream parser
/// handles like one.
pub open spec fn spec_is_non_status(byte: u8) -> bool {
    byte < 0x80 || byte == 0xF7
}

/// The status byte of a channel-voice message: `0x80..=0xEF`.
pub open spec fn spec_is_channel_status(byte: u8) -> bool {
    0x80 <= byte < 0xF0
}

#[verifier::when_used_as_spec(spec_is_non_status)]
pub fn is_non_status(byte: u8) -> (r: bool)
    ensures
        r == spec_is_non_status(byte),
{
    byte < NOTE_OFF || byte == SYSEX_END
}

#[verifier::when_used_as_spec(spec_is_channel_status)]
pub fn is_channel_status(byte: u8) -> (r: bool)
    ensures
        r == spec_is_channel_status(byte),
{
    NOTE_OFF <= byte && byte < SYSEX_START
}

/// The command that a status byte announces.
#[derive(Copy, Clone, Debug, Eq, PartialEq, Structural)]
pub enum Status {
    // Channel voice: the channel travels in the low nibble of the byte.
    NoteOff,
    NoteOn,
    NotePressure,
    ControlChange,
    ProgramChange,
    ChannelPressure,
    PitchBend,
    // System exclusive
    SysexStart,
    // System common
    TimeCodeQuarterFrame,
    SongPositionPointer,
    SongSelect,
    TuneRequest,
    // System realtime
    TimingClock,
    MeasureEnd,
    Start,
    Continue,
    Stop,
    ActiveSensing,
    SystemReset,
}

/// A status byte without its channel: a channel-voice byte loses its low
/// nibble, any other byte stays as it is.
pub open spec fn command_of(byte: u8) -> u8 {
    if is_channel_status(byte) {
        (byte - byte % 16) as u8
    } else {
        byte
    }
}

impl Status {
    /// The wire value of the command, with channel zero for a channel-voice
    /// command.
    pub open spec fn spec_code(&self) -> u8 {
        match self {
            Status::NoteOff => 0x80,
            Status::NoteOn => 0x90,
            Status::NotePressure => 0xA0,
            Status::ControlChange => 0xB0,
            Status::ProgramChange => 0xC0,
            Status::ChannelPressure => 0xD0,
            Status::PitchBend => 0xE0,
            Status::SysexStart => 0xF0,
            Status::TimeCodeQuarterFrame => 0xF1,
            Status::SongPositionPointer => 0xF2,
            Status::SongSelect => 0xF3,
            Status::TuneRequest => 0xF6,
            Status::TimingClock => 0xF8,
            Status::MeasureEnd => 0xF9,
            Status::Start => 0xFA,
            Status::Continue => 0xFB,
            Status::Stop => 0xFC,
            Status::ActiveSensing => 0xFE,
            Status::SystemReset => 0xFF,
        }
    }

    #[verifier::when_used_as_spec(spec_code)]
    pub fn code(&self) -> (r: u8)
        ensures
            r == self.spec_code(),
    {
        match self {
            Status::NoteOff => NOTE_OFF,
            Status::NoteOn => NOTE_ON,
            Status::NotePressure => NOTE_PRESSURE,
            Status::ControlChange => CONTROL_CHANGE,
            Status::ProgramChange => PROGRAM_CHANGE,
            Status::ChannelPressure => CHANNEL_PRESSURE,
            Status::PitchBend => PITCH_BEND,
            Status::SysexStart => SYSEX_START,
            Status::TimeCodeQuarterFrame => TIME_CODE_QUARTER_FRAME,
            Status::SongPositionPointer => SONG_POSITION_POINTER,
            Status::SongSelect => SONG_SELECT,
            Status::TuneRequest => TUNE_REQUEST,
            Status::TimingClock => TIMING_CLOCK,
            Status::MeasureEnd => MEASURE_END,
            Status::Start => START,
            Status::Continue => CONTINUE,
            Status::Stop => STOP,
            Status::ActiveSensing => ACTIVE_SENSING,
            Status::SystemReset => SYSTEM_RESET,
        }
    }

    /// The command with the given wire value, if there is one.
    pub open spec fn with_code(code: u8) -> Option<Status> {
        if exists|s: Status| #[trigger] s.code() == code {
            Some(choose|s: Status| #[trigger] s.code() == code)
        } else {
            None
        }
    }

    /// The command is scoped to a channel.
    pub open spec fn is_channel_voice(&self) -> bool {
        self.code() < 0xF0
    }

    /// The size in bytes of the message that the command starts, the status
    /// byte included. A system-exclusive sequence has no fixed size: it counts
    /// as three, the most that one packet carries.
    pub open spec fn spec_expected_len(&self) -> u8 {
        match self {
            Status::TuneRequest
            | Status::TimingClock
            | Status::Start
            | Status::Continue
            | Status::Stop
            | Status::ActiveSensing
            | Status::SystemReset => 1,
            Status::ProgramChange
            | Status::ChannelPressure
            | Status::TimeCodeQuarterFrame
            | Status::SongSelect
            | Status::MeasureEnd => 2,
            Status::SysexStart
            | Status::NoteOff
            | Status::NoteOn
            | Status::NotePressure
            | Status::ControlChange
            | Status::PitchBend
            | Status::SongPositionPointer => 3,
        }
    }

    #[verifier::when_used_as_spec(spec_expected_len)]
    pub fn expected_len(&self) -> (r: u8)
        ensures
            r == self.spec_expected_len(),
            1 <= r <= 3,
    {
        match self {
            Status::TuneRequest
            | Status::TimingClock
            | Status::Start
            | Status::Continue
            | Status::Stop
            | Status::ActiveSensing
            | Status::SystemReset => 1,
            Status::ProgramChange
            | Status::ChannelPressure
            | Status::TimeCodeQuarterFrame
            | Status::SongSelect
            | Status::MeasureEnd => 2,
            Status::SysexStart
            | Status::NoteOff
            | Status::NoteOn
            | Status::NotePressure
            | Status::ControlChange
            | Status::PitchBend
            | Status::SongPositionPointer => 3,
        }
    }

    /// No two commands share a wire value, so `with_code` finds the command
    /// of every value that `code` gives.
    pub proof fn lemma_with_code(s: Status)
        ensures
            Status::with_code(s.code()) == Some(s),
    {
        let t = choose|t: Status| #[trigger] t.code() == s.code();
        assert(t.code() == s.code());
    }

    /// The wire values that name no command.
    pub proof fn lemma_unassigned_codes(code: u8)
        ensures
            Status::with_code(code) is None <==> !(code == 0x80 || code == 0x90 || code == 0xA0
                || code == 0xB0 || code == 0xC0 || code == 0xD0 || code == 0xE0 || code == 0xF0
                || code == 0xF1 || code == 0xF2 || code == 0xF3 || code == 0xF6 || code == 0xF8
                || code == 0xF9 || code == 0xFA || code == 0xFB || code == 0xFC || code == 0xFE
                || code == 0xFF),
    {
        if Status::with_code(code) is None {
            assert(Status::NoteOff.code() != code);
            assert(Status::NoteOn.code() != code);
            assert(Status::NotePressure.code() != code);
            assert(Status::ControlChange.code() != code);
            assert(Status::ProgramChange.code() != code);
            assert(Status::ChannelPressure.code() != code);
            assert(Status::PitchBend.code() != code);
            assert(Status::SysexStart.code() != code);
            assert(Status::TimeCodeQuarterFrame.code() != code);
            assert(Status::SongPositionPointer.code() != code);
            assert(Status::SongSelect.code() != code);
            assert(Status::TuneRequest.code() != code);
            assert(Status::TimingClock.code() != code);
            assert(Status::MeasureEnd.code() != code);
            assert(Status::Start.code() != code);
            assert(Status::Continue.code() != code);
            assert(Status::Stop.code() != code);
            assert(Status::ActiveSensing.code() != code);
            assert(Status::SystemReset.code() != code);
        }
    }
}

/// The status byte that opens `message` on the wire: the command, joined for
/// a channel-voice message with the low four bits of the channel. The
/// fragments of a system-exclusive sequence have none.
pub open spec fn spec_status_byte(message: &Message) -> Option<u8> {
    match *message {
        Message::NoteOff(ch, _, _) => Some((0x80 + ch.0 % 16) as u8),
        Message::NoteOn(ch, _, _) => Some((0x90 + ch.0 % 16) as u8),
        Message::NotePressure(ch, _, _) => Some((0xA0 + ch.0 % 16) as u8),
        Message::ControlChange(ch, _, _) => Some((0xB0 + ch.0 % 16) as u8),
        Message::ProgramChange(ch, _) => Some((0xC0 + ch.0 % 16) as u8),
        Message::ChannelPressure(ch, _) => Some((0xD0 + ch.0 % 16) as u8),
        Message::PitchBend(ch, _) => Some((0xE0 + ch.0 % 16) as u8),
        Message::TimeCodeQuarterFrame(_) => Some(0xF1),
        Message::SongPositionPointer(_, _) => Some(0xF2),
        Message::SongSelect(_) => Some(0xF3),
        Message::TuneRequest => Some(0xF6),
        Message::TimingClock => Some(0xF8),
        Message::MeasureEnd(_) => Some(0xF9),
        Message::Start => Some(0xFA),
        Message::Continue => Some(0xFB),
        Message::Stop => Some(0xFC),
        Message::ActiveSensing => Some(0xFE),
        Message::SystemReset => Some(0xFF),
        _ => None,
    }
}

/// A command byte with a channel in its low nibble.
fn on_channel(status: Status, ch: u8) -> (r: u8)
    requires
        status.is_channel_voice(),
    ensures
        r == status.code() + ch % 16,
{
    let code = status.code();
    assert(code & 0x0F == 0 ==> code | (ch & 0x0F) == code + ch % 16) by (bit_vector);
    assert(code & 0x0F == 0) by (bit_vector)
        requires
            code == 0x80 || code == 0x90 || code == 0xA0 || code == 0xB0 || code == 0xC0 || code
                == 0xD0 || code == 0xE0,
    ;
    code | (ch & 0x0F)
}

#[verifier::when_used_as_spec(spec_status_byte)]
pub fn status_byte(message: &Message) -> (r: Option<u8>)
    ensures
        r == spec_status_byte(message),
{
    match message {
        Message::NoteOff(ch, _, _) => Some(on_channel(Status::NoteOff, ch.0)),
        Message::NoteOn(ch, _, _) => Some(on_channel(Status::NoteOn, ch.0)),
        Message::NotePressure(ch, _, _) => Some(on_channel(Status::NotePressure, ch.0)),
        Message::ChannelPressure(ch, _) => Some(on_channel(Status::ChannelPressure, ch.0)),
        Message::ProgramChange(ch, _) => Some(on_channel(Status::ProgramChange, ch.0)),
        Message::ControlChange(ch, _, _) => Some(on_channel(Status::ControlChange, ch.0)),
        Message::PitchBend(ch, _) => Some(on_channel(Status::PitchBend, ch.0)),
        Message::TimeCodeQuarterFrame(_) => Some(Status::TimeCodeQuarterFrame.code()),
        Message::SongPositionPointer(_, _) => Some(Status::SongPositionPointer.code()),
        Message::SongSelect(_) => Some(Status::SongSelect.code()),
        Message::TuneRequest => Some(Status::TuneRequest.code()),
        Message::TimingClock => Some(Status::TimingClock.code()),
        Message::Start => Some(Status::Start.code()),
        Message::Continue => Some(Status::Continue.code()),
        Message::Stop => Some(Status::Stop.code()),
        Message::ActiveSensing => Some(Status::ActiveSensing.code()),
        Message::SystemReset => Some(Status::SystemReset.code()),
        Message::MeasureEnd(_) => Some(Status::MeasureEnd.code()),
        _ => None,
    }
}

impl Status {
    /// Resolves a wire byte to its command. A data byte, the
    /// system-exclusive terminator and the system bytes that name no
    /// command are refused, each with the byte itself in the error; of a
    /// channel-voice byte the channel is dropped.
    pub open spec fn spec_try_from(byte: u8) -> Result<Status, MidiError> {
        if is_non_status(byte) {
            Err(MidiError::InvalidStatus(byte))
        } else {
            match Status::with_code(command_of(byte)) {
                Some(status) => Ok(status),
                None => Err(MidiError::InvalidStatus(byte)),
            }
        }
    }

    #[verifier::when_used_as_spec(spec_try_from)]
    pub fn try_from(byte: u8) -> (r: Result<Status, MidiError>)
        ensures
            r == Self::spec_try_from(byte),
            r matches Ok(status) ==> status.code() == command_of(byte) && !is_non_status(byte),
            r matches Err(e) ==> e == MidiError::InvalidStatus(byte),
    {
        if is_non_status(byte) {
            return Err(MidiError::InvalidStatus(byte));
        }
        let mut code: u8 = byte;
        if is_channel_status(byte) {
            assert(byte & 0xF0 == byte - byte % 16) by (bit_vector);
            code = byte & 0xF0;
        }
        let found = if code == NOTE_OFF {
            Status::NoteOff
        } else if code == NOTE_ON {
            Status::NoteOn
        } else if code == NOTE_PRESSURE {
            Status::NotePressure
        } else if code == CONTROL_CHANGE {
            Status::ControlChange
        } else if code == PROGRAM_CHANGE {
            Status::ProgramChange
        } else if code == CHANNEL_PRESSURE {
            Status::ChannelPressure
        } else if code == PITCH_BEND {
            Status::PitchBend
        } else if code == SYSEX_START {
            Status::SysexStart
        } else if code == TIME_CODE_QUARTER_FRAME {
            Status::TimeCodeQuarterFrame
        } else if code == SONG_POSITION_POINTER {
            Status::SongPositionPointer
        } else if code == SONG_SELECT {
            Status::SongSelect
        } else if code == TUNE_REQUEST {
            Status::TuneRequest
        } else if code == TIMING_CLOCK {
            Status::TimingClock
        } else if code == MEASURE_END {
            Status::MeasureEnd
        } else if code == START {
            Status::Start
        } else if code == CONTINUE {
            Status::Continue
        } else if code == STOP {
            Status::Stop
        } else if code == ACTIVE_SENSING {
            Status::ActiveSensing
        } else if code == SYSTEM_RESET {
            Status::SystemReset
        } else {
            proof {
                Status::lemma_unassigned_codes(code);
            }
            return Err(MidiError::InvalidStatus(byte));
        };
        proof {
            Status::lemma_with_code(found);
        }
        Ok(found)
    }
}

impl TryFromSpecImpl<u8> for Status {
    open spec fn obeys_try_from_spec() -> bool {
        true
    }

    open spec fn try_from_spec(byte: u8) -> Result<Self, Self::Error> {
        Status::spec_try_from(byte)
    }
}

/// Resolves a wire byte to its command.
impl TryFrom<u8> for Status {
    type Error = MidiError;

    fn try_from(byte: u8) -> (r: Result<Self, Self::Error>) {
        Status::try_from(byte)
    }
}

} // verus!
