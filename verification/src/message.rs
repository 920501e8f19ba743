//! MIDI messages as typed values, and their decoding from event packets.
use vstd::prelude::*;
use vstd::std_specs::convert::TryFromSpecImpl;
use vstd::std_specs::convert::TryIntoSpec;
use crate::channel::Channel;
use crate::cin::CodeIndexNumber;
use crate::error::converted;
use crate::error::MidiError;
use crate::note::Note;
use crate::packet::Packet;
use crate::status::Status;
use crate::status::SYSEX_END;
use crate::status::SYSEX_START;
use crate::u14::U14;
use crate::u7::U7;
use crate::{Bend, Control, Cull, Pressure, Program, Velocity};

verus! {

/// One MIDI event.
///
/// A system-exclusive sequence has no size limit, so it travels as a chain
/// of fragments: `SysexBegin`, any number of `SysexCont`, and one of the
/// `SysexEnd*`. `SysexEmpty` and `SysexSingleByte` are whole sequences that
/// fit in a single packet.
#[derive(Clone, Copy, Debug, PartialEq, Eq)]
pub enum Message {
    NoteOff(Channel, Note, Velocity),
    NoteOn(Channel, Note, Velocity),
    NotePressure(Channel, Note, Pressure),
    ChannelPressure(Channel, Pressure),
    ProgramChange(Channel, Program),
    ControlChange(Channel, Control, U7),
    PitchBend(Channel, Bend),
    // System common
    TimeCodeQuarterFrame(U7),
    SongPositionPointer(U7, U7),
    SongSelect(U7),
    TuneRequest,
    // System realtime
    TimingClock,
    MeasureEnd(U7),
    Start,
    Continue,
    Stop,
    ActiveSensing,
    SystemReset,
    // System exclusive
    /// Start of a sequence, with its first two body bytes.
    SysexBegin(u8, u8),
    /// Three more body bytes.
    SysexCont(u8, u8, u8),
    /// End of a sequence, with no further body byte.
    SysexEnd,
    /// End of a sequence, after one more body byte.
    SysexEnd1(u8),
    /// End of a sequence, after two more body bytes.
    SysexEnd2(u8, u8),
    /// A sequence without a body.
    SysexEmpty,
    /// A sequence with a body of one byte.
    SysexSingleByte(u8),
}

impl Message {
    /// The message is a fragment of a system-exclusive sequence.
    pub open spec fn is_sysex(self) -> bool {
        match self {
            Message::SysexBegin(_, _)
            | Message::SysexCont(_, _, _)
            | Message::SysexEnd
            | Message::SysexEnd1(_)
            | Message::SysexEnd2(_, _)
            | Message::SysexEmpty
            | Message::SysexSingleByte(_) => true,
            _ => false,
        }
    }

    /// Every body byte of a system-exclusive fragment is a data byte. Any
    /// other message has no such byte.
    pub open spec fn body_is_data(self) -> bool {
        match self {
            Message::SysexBegin(b1, b2) => b1 < 0x80 && b2 < 0x80,
            Message::SysexCont(b1, b2, b3) => b1 < 0x80 && b2 < 0x80 && b3 < 0x80,
            Message::SysexEnd1(b1) => b1 < 0x80,
            Message::SysexEnd2(b1, b2) => b1 < 0x80 && b2 < 0x80,
            Message::SysexSingleByte(b1) => b1 < 0x80,
            _ => true,
        }
    }

    /// Every field of the message is within the range of its type.
    pub open spec fn wf(self) -> bool {
        match self {
            Message::NoteOff(ch, note, vel) => ch.wf() && note.wf() && vel.wf(),
            Message::NoteOn(ch, note, vel) => ch.wf() && note.wf() && vel.wf(),
            Message::NotePressure(ch, note, pres) => ch.wf() && note.wf() && pres.wf(),
            Message::ChannelPressure(ch, pres) => ch.wf() && pres.wf(),
            Message::ProgramChange(ch, patch) => ch.wf() && patch.wf(),
            Message::ControlChange(ch, ctrl, val) => ch.wf() && ctrl.wf() && val.wf(),
            Message::PitchBend(ch, bend) => ch.wf() && bend.wf(),
            Message::TimeCodeQuarterFrame(val) => val.wf(),
            Message::SongPositionPointer(lsb, msb) => lsb.wf() && msb.wf(),
            Message::SongSelect(song) => song.wf(),
            Message::MeasureEnd(val) => val.wf(),
            _ => true,
        }
    }
}

/// The result of `note_on` once both arguments are converted.
pub open spec fn note_on_spec(
    channel: Channel,
    note: Option<Note>,
    velocity: Option<Velocity>,
) -> Result<Message, MidiError> {
    match (note, velocity) {
        (None, _) => Err(MidiError::InvalidNote),
        (Some(_), None) => Err(MidiError::InvalidVelocity),
        (Some(n), Some(v)) => Ok(Message::NoteOn(channel, n, v)),
    }
}

/// The result of `note_off` once both arguments are converted.
pub open spec fn note_off_spec(
    channel: Channel,
    note: Option<Note>,
    velocity: Option<Velocity>,
) -> Result<Message, MidiError> {
    match (note, velocity) {
        (None, _) => Err(MidiError::InvalidNote),
        (Some(_), None) => Err(MidiError::InvalidVelocity),
        (Some(n), Some(v)) => Ok(Message::NoteOff(channel, n, v)),
    }
}

/// The result of `program_change` once the argument is converted.
pub open spec fn program_change_spec(channel: Channel, program: Option<Program>) -> Result<
    Message,
    MidiError,
> {
    match program {
        None => Err(MidiError::InvalidProgram),
        Some(p) => Ok(Message::ProgramChange(channel, p)),
    }
}

/// Builds a note-on message. A note that does not convert gives
/// `InvalidNote`; otherwise a velocity that does not convert gives
/// `InvalidVelocity`.
pub fn note_on<N: TryInto<Note>, V: TryInto<Velocity>>(channel: Channel, note: N, velocity: V) -> (r:
    Result<Message, MidiError>)
    ensures
        N::obeys_try_into_spec() && V::obeys_try_into_spec() ==> r == note_on_spec(
            channel,
            converted(note.try_into_spec()),
            converted(velocity.try_into_spec()),
        ),
        r matches Ok(m) ==> m matches Message::NoteOn(c, _, _) && c == channel,
        r matches Err(e) ==> e == MidiError::InvalidNote || e == MidiError::InvalidVelocity,
{
    let note = match note.try_into() {
        Ok(n) => n,
        Err(_) => {
            return Err(MidiError::InvalidNote);
        },
    };
    let velocity = match velocity.try_into() {
        Ok(v) => v,
        Err(_) => {
            return Err(MidiError::InvalidVelocity);
        },
    };
    Ok(Message::NoteOn(channel, note, velocity))
}

/// Builds a note-off message. A note that does not convert gives
/// `InvalidNote`; otherwise a velocity that does not convert gives
/// `InvalidVelocity`.
pub fn note_off<N: TryInto<Note>, V: TryInto<Velocity>>(channel: Channel, note: N, velocity: V) -> (r:
    Result<Message, MidiError>)
    ensures
        N::obeys_try_into_spec() && V::obeys_try_into_spec() ==> r == note_off_spec(
            channel,
            converted(note.try_into_spec()),
            converted(velocity.try_into_spec()),
        ),
        r matches Ok(m) ==> m matches Message::NoteOff(c, _, _) && c == channel,
        r matches Err(e) ==> e == MidiError::InvalidNote || e == MidiError::InvalidVelocity,
{
    let note = match note.try_into() {
        Ok(n) => n,
        Err(_) => {
            return Err(MidiError::InvalidNote);
        },
    };
    let velocity = match velocity.try_into() {
        Ok(v) => v,
        Err(_) => {
            return Err(MidiError::InvalidVelocity);
        },
    };
    Ok(Message::NoteOff(channel, note, velocity))
}

/// Builds a program-change message. A program that does not convert gives
/// `InvalidProgram`.
pub fn program_change<P: TryInto<Program>>(channel: Channel, program: P) -> (r: Result<
    Message,
    MidiError,
>)
    ensures
        P::obeys_try_into_spec() ==> r == program_change_spec(
            channel,
            converted(program.try_into_spec()),
        ),
        r matches Ok(m) ==> m matches Message::ProgramChange(c, _) && c == channel,
        r matches Err(e) ==> e == MidiError::InvalidProgram,
{
    match program.try_into() {
        Ok(p) => Ok(Message::ProgramChange(channel, p)),
        Err(_) => Err(MidiError::InvalidProgram),
    }
}

/// A velocity read from a data byte.
pub open spec fn velocity_spec(byte: u8) -> Result<Velocity, MidiError> {
    if byte > 0x7F {
        Err(MidiError::InvalidVelocity)
    } else {
        Ok(U7(byte))
    }
}

/// A program number read from a data byte.
pub open spec fn program_spec(byte: u8) -> Result<Program, MidiError> {
    if byte > 0x7F {
        Err(MidiError::InvalidProgram)
    } else {
        Ok(U7(byte))
    }
}

/// The message of a packet that holds a channel-voice status byte.
///
/// The packet must carry as many payload bytes as the message has; each
/// data byte must fit in seven bits, and the first one that does not
/// decides the error: `InvalidNote` for a note, `InvalidVelocity` for a
/// velocity, `InvalidProgram` for a program, `InvalidInteger` for any other
/// value.
pub open spec fn decode_channel_voice(packet: Packet, status: Status) -> Result<
    Message,
    MidiError,
> {
    let b = packet@;
    let len = packet.spec_payload().len();
    match packet.channel() {
        None => Err(MidiError::BadPacket(packet)),
        Some(ch) => match status {
            Status::NoteOff => if len < 3 {
                Err(MidiError::BadPacket(packet))
            } else {
                match (Note::try_from(b[2]), velocity_spec(b[3])) {
                    (Err(e), _) => Err(e),
                    (Ok(_), Err(e)) => Err(e),
                    (Ok(note), Ok(vel)) => Ok(Message::NoteOff(ch, note, vel)),
                }
            },
            Status::NoteOn => if len < 3 {
                Err(MidiError::BadPacket(packet))
            } else {
                match (Note::try_from(b[2]), velocity_spec(b[3])) {
                    (Err(e), _) => Err(e),
                    (Ok(_), Err(e)) => Err(e),
                    (Ok(note), Ok(vel)) => Ok(Message::NoteOn(ch, note, vel)),
                }
            },
            Status::NotePressure => if len < 3 {
                Err(MidiError::BadPacket(packet))
            } else {
                match (Note::try_from(b[2]), U7::try_from(b[3])) {
                    (Err(e), _) => Err(e),
                    (Ok(_), Err(e)) => Err(e),
                    (Ok(note), Ok(pres)) => Ok(Message::NotePressure(ch, note, pres)),
                }
            },
            Status::ChannelPressure => if len < 2 {
                Err(MidiError::BadPacket(packet))
            } else {
                match U7::try_from(b[2]) {
                    Err(e) => Err(e),
                    Ok(pres) => Ok(Message::ChannelPressure(ch, pres)),
                }
            },
            Status::ProgramChange => if len < 2 {
                Err(MidiError::BadPacket(packet))
            } else {
                match program_spec(b[2]) {
                    Err(e) => Err(e),
                    Ok(patch) => Ok(Message::ProgramChange(ch, patch)),
                }
            },
            Status::ControlChange => if len < 3 {
                Err(MidiError::BadPacket(packet))
            } else {
                match (U7::try_from(b[2]), U7::try_from(b[3])) {
                    (Err(e), _) => Err(e),
                    (Ok(_), Err(e)) => Err(e),
                    (Ok(ctrl), Ok(val)) => Ok(Message::ControlChange(ch, ctrl, val)),
                }
            },
            Status::PitchBend => if len < 3 {
                Err(MidiError::BadPacket(packet))
            } else {
                match U14::try_join(b[2], b[3]) {
                    Err(e) => Err(e),
                    Ok(bend) => Ok(Message::PitchBend(ch, bend)),
                }
            },
            _ => Err(MidiError::BadPacket(packet)),
        },
    }
}

/// The message of a packet that holds the status byte of a system message.
///
/// The Code Index Number must be the one for the size of the message. Of a
/// data byte the low seven bits are taken.
pub open spec fn decode_system(packet: Packet, status: Status) -> Result<Message, MidiError> {
    let b = packet@;
    match (packet.code_index_number(), status) {
        (CodeIndexNumber::SystemCommonLen1, Status::TimingClock) => Ok(Message::TimingClock),
        (CodeIndexNumber::SystemCommonLen1, Status::TuneRequest) => Ok(Message::TuneRequest),
        (CodeIndexNumber::SystemCommonLen1, Status::Start) => Ok(Message::Start),
        (CodeIndexNumber::SystemCommonLen1, Status::Continue) => Ok(Message::Continue),
        (CodeIndexNumber::SystemCommonLen1, Status::Stop) => Ok(Message::Stop),
        (CodeIndexNumber::SystemCommonLen1, Status::ActiveSensing) => Ok(Message::ActiveSensing),
        (CodeIndexNumber::SystemCommonLen1, Status::SystemReset) => Ok(Message::SystemReset),
        (CodeIndexNumber::SystemCommonLen2, Status::TimeCodeQuarterFrame) => Ok(
            Message::TimeCodeQuarterFrame(U7::spec_cull(b[2])),
        ),
        (CodeIndexNumber::SystemCommonLen2, Status::SongSelect) => Ok(
            Message::SongSelect(U7::spec_cull(b[2])),
        ),
        (CodeIndexNumber::SystemCommonLen2, Status::MeasureEnd) => Ok(
            Message::MeasureEnd(U7::spec_cull(b[2])),
        ),
        (CodeIndexNumber::SystemCommonLen3, Status::SongPositionPointer) => Ok(
            Message::SongPositionPointer(U7::spec_cull(b[2]), U7::spec_cull(b[3])),
        ),
        _ => Err(MidiError::BadPacket(packet)),
    }
}

/// The message that a packet carries.
///
/// The Code Index Number decides first. A packet that starts or continues
/// a system-exclusive sequence is a continuation with three body bytes if
/// its first payload byte is a data byte, else a start with the two bytes
/// after the start marker. A packet that ends a sequence with two or three
/// bytes is a whole sequence if it begins with the start marker, else the
/// end of one. A one-byte packet with the terminator ends a sequence. Any
/// other packet is decoded by the status byte at the head of its payload;
/// a packet that fits none of these is refused as `BadPacket`.
pub open spec fn decode_spec(packet: Packet) -> Result<Message, MidiError> {
    let b = packet@;
    match packet.code_index_number() {
        CodeIndexNumber::Sysex => if b[1] < 0x80 {
            Ok(Message::SysexCont(b[1], b[2], b[3]))
        } else {
            Ok(Message::SysexBegin(b[2], b[3]))
        },
        CodeIndexNumber::SysexEndsNext2 => if b[1] == SYSEX_START {
            Ok(Message::SysexEmpty)
        } else {
            Ok(Message::SysexEnd1(b[1]))
        },
        CodeIndexNumber::SysexEndsNext3 => if b[1] == SYSEX_START {
            Ok(Message::SysexSingleByte(b[2]))
        } else {
            Ok(Message::SysexEnd2(b[1], b[2]))
        },
        cin => if cin == CodeIndexNumber::SystemCommonLen1 && b[1] == SYSEX_END {
            Ok(Message::SysexEnd)
        } else {
            match packet.status() {
                None => Err(MidiError::BadPacket(packet)),
                Some(status) => if status.is_channel_voice() {
                    decode_channel_voice(packet, status)
                } else {
                    decode_system(packet, status)
                },
            }
        },
    }
}

/// Decoding undoes encoding: the packet of a message whose fields are all
/// in range, and which is no fragment of a system-exclusive sequence,
/// decodes to that message.
pub proof fn lemma_decode_encode(message: Message)
    requires
        message.wf(),
        !message.is_sysex(),
    ensures
        decode_spec(Packet::of_message(message)) == Ok::<Message, MidiError>(message),
{
    let packet = Packet::of_message(message);
    Packet::lemma_of_message(message);
    packet.lemma_len();
    CodeIndexNumber::lemma_of_byte(CodeIndexNumber::of_message(message));
    match message {
        Message::NoteOff(_, _, _) => Status::lemma_with_code(Status::NoteOff),
        Message::NoteOn(_, _, _) => Status::lemma_with_code(Status::NoteOn),
        Message::NotePressure(_, _, _) => Status::lemma_with_code(Status::NotePressure),
        Message::ChannelPressure(_, _) => Status::lemma_with_code(Status::ChannelPressure),
        Message::ProgramChange(_, _) => Status::lemma_with_code(Status::ProgramChange),
        Message::ControlChange(_, _, _) => Status::lemma_with_code(Status::ControlChange),
        Message::PitchBend(_, _) => Status::lemma_with_code(Status::PitchBend),
        Message::TimeCodeQuarterFrame(_) => Status::lemma_with_code(Status::TimeCodeQuarterFrame),
        Message::SongPositionPointer(_, _) => Status::lemma_with_code(Status::SongPositionPointer),
        Message::SongSelect(_) => Status::lemma_with_code(Status::SongSelect),
        Message::TuneRequest => Status::lemma_with_code(Status::TuneRequest),
        Message::TimingClock => Status::lemma_with_code(Status::TimingClock),
        Message::MeasureEnd(_) => Status::lemma_with_code(Status::MeasureEnd),
        Message::Start => Status::lemma_with_code(Status::Start),
        Message::Continue => Status::lemma_with_code(Status::Continue),
        Message::Stop => Status::lemma_with_code(Status::Stop),
        Message::ActiveSensing => Status::lemma_with_code(Status::ActiveSensing),
        Message::SystemReset => Status::lemma_with_code(Status::SystemReset),
        _ => {},
    }
}

/// A fragment of a system-exclusive sequence whose body bytes are all data
/// bytes survives encoding and decoding as well. One that holds a status
/// byte need not: a continuation that begins with one decodes as a start,
/// and an end that begins with the start marker as a whole sequence.
pub proof fn lemma_decode_encode_sysex(message: Message)
    requires
        message.is_sysex(),
        message.body_is_data(),
    ensures
        decode_spec(Packet::of_message(message)) == Ok::<Message, MidiError>(message),
{
    let packet = Packet::of_message(message);
    Packet::lemma_of_message(message);
    packet.lemma_len();
    CodeIndexNumber::lemma_of_byte(CodeIndexNumber::of_message(message));
}

fn velocity_of(byte: u8) -> (r: Result<Velocity, MidiError>)
    ensures
        r == velocity_spec(byte),
{
    if byte > 0x7F {
        Err(MidiError::InvalidVelocity)
    } else {
        Ok(U7(byte))
    }
}

fn program_of(byte: u8) -> (r: Result<Program, MidiError>)
    ensures
        r == program_spec(byte),
{
    if byte > 0x7F {
        Err(MidiError::InvalidProgram)
    } else {
        Ok(U7(byte))
    }
}

fn channel_voice(packet: Packet, status: Status, ch: Channel) -> (r: Result<Message, MidiError>)
    requires
        status.is_channel_voice(),
        packet.channel() == Some(ch),
    ensures
        r == decode_channel_voice(packet, status),
{
    let payload = packet.payload();
    let len = payload.len();
    proof {
        packet.lemma_len();
    }
    match status {
        Status::NoteOff => {
            if len < 3 {
                return Err(MidiError::BadPacket(packet));
            }
            let note = Note::try_from(payload[1])?;
            let vel = velocity_of(payload[2])?;
            Ok(Message::NoteOff(ch, note, vel))
        },
        Status::NoteOn => {
            if len < 3 {
                return Err(MidiError::BadPacket(packet));
            }
            let note = Note::try_from(payload[1])?;
            let vel = velocity_of(payload[2])?;
            Ok(Message::NoteOn(ch, note, vel))
        },
        Status::NotePressure => {
            if len < 3 {
                return Err(MidiError::BadPacket(packet));
            }
            let note = Note::try_from(payload[1])?;
            let pres = U7::try_from(payload[2])?;
            Ok(Message::NotePressure(ch, note, pres))
        },
        Status::ChannelPressure => {
            if len < 2 {
                return Err(MidiError::BadPacket(packet));
            }
            let pres = U7::try_from(payload[1])?;
            Ok(Message::ChannelPressure(ch, pres))
        },
        Status::ProgramChange => {
            if len < 2 {
                return Err(MidiError::BadPacket(packet));
            }
            let patch = program_of(payload[1])?;
            Ok(Message::ProgramChange(ch, patch))
        },
        Status::ControlChange => {
            if len < 3 {
                return Err(MidiError::BadPacket(packet));
            }
            let ctrl = U7::try_from(payload[1])?;
            let val = U7::try_from(payload[2])?;
            Ok(Message::ControlChange(ch, ctrl, val))
        },
        Status::PitchBend => {
            if len < 3 {
                return Err(MidiError::BadPacket(packet));
            }
            let bend = U14::try_join(payload[1], payload[2])?;
            Ok(Message::PitchBend(ch, bend))
        },
        _ => Err(MidiError::BadPacket(packet)),
    }
}

fn system(packet: Packet, status: Status) -> (r: Result<Message, MidiError>)
    requires
        !status.is_channel_voice(),
        packet.spec_payload().len() > 0,
    ensures
        r == decode_system(packet, status),
{
    let payload = packet.payload();
    proof {
        packet.lemma_len();
    }
    match (packet.code_index_number(), status) {
        (CodeIndexNumber::SystemCommonLen1, Status::TimingClock) => Ok(Message::TimingClock),
        (CodeIndexNumber::SystemCommonLen1, Status::TuneRequest) => Ok(Message::TuneRequest),
        (CodeIndexNumber::SystemCommonLen1, Status::Start) => Ok(Message::Start),
        (CodeIndexNumber::SystemCommonLen1, Status::Continue) => Ok(Message::Continue),
        (CodeIndexNumber::SystemCommonLen1, Status::Stop) => Ok(Message::Stop),
        (CodeIndexNumber::SystemCommonLen1, Status::ActiveSensing) => Ok(Message::ActiveSensing),
        (CodeIndexNumber::SystemCommonLen1, Status::SystemReset) => Ok(Message::SystemReset),
        (CodeIndexNumber::SystemCommonLen2, Status::TimeCodeQuarterFrame) => Ok(
            Message::TimeCodeQuarterFrame(U7::cull(payload[1])),
        ),
        (CodeIndexNumber::SystemCommonLen2, Status::SongSelect) => Ok(
            Message::SongSelect(U7::cull(payload[1])),
        ),
        (CodeIndexNumber::SystemCommonLen2, Status::MeasureEnd) => Ok(
            Message::MeasureEnd(U7::cull(payload[1])),
        ),
        (CodeIndexNumber::SystemCommonLen3, Status::SongPositionPointer) => Ok(
            Message::SongPositionPointer(U7::cull(payload[1]), U7::cull(payload[2])),
        ),
        _ => Err(MidiError::BadPacket(packet)),
    }
}

impl TryFromSpecImpl<Packet> for Message {
    open spec fn obeys_try_from_spec() -> bool {
        true
    }

    open spec fn try_from_spec(packet: Packet) -> Result<Self, Self::Error> {
        decode_spec(packet)
    }
}

/// Decodes the message that a packet carries.
impl TryFrom<Packet> for Message {
    type Error = MidiError;

    fn try_from(packet: Packet) -> (r: Result<Self, Self::Error>) {
        let payload = packet.payload();
        proof {
            packet.lemma_len();
        }
        match packet.code_index_number() {
            CodeIndexNumber::Sysex => {
                if payload[0] < 0x80 {
                    Ok(Message::SysexCont(payload[0], payload[1], payload[2]))
                } else {
                    Ok(Message::SysexBegin(payload[1], payload[2]))
                }
            },
            CodeIndexNumber::SysexEndsNext2 => {
                if payload[0] == SYSEX_START {
                    Ok(Message::SysexEmpty)
                } else {
                    Ok(Message::SysexEnd1(payload[0]))
                }
            },
            CodeIndexNumber::SysexEndsNext3 => {
                if payload[0] == SYSEX_START {
                    Ok(Message::SysexSingleByte(payload[1]))
                } else {
                    Ok(Message::SysexEnd2(payload[0], payload[1]))
                }
            },
            CodeIndexNumber::SystemCommonLen1 if payload[0] == SYSEX_END => Ok(Message::SysexEnd),
            _ => match (packet.status(), packet.channel()) {
                (Some(status), Some(ch)) => channel_voice(packet, status, ch),
                (Some(status), None) => system(packet, status),
                _ => Err(MidiError::BadPacket(packet)),
            },
        }
    }
}

} // verus!
