use midi::note_off;
use midi::note_on;
use midi::program_change;
use midi::Channel;
use midi::Message;
use midi::MidiError;
use midi::Note;
use midi::Packet;
use midi::U14;
use midi::U7;

fn decode(bytes: [u8; 4]) -> Result<Message, MidiError> {
    Message::try_from(Packet::from_raw(bytes))
}

#[test]
fn builders_validate_their_arguments() {
    assert_eq!(note_on(Channel(1), 60u8, 100u8), Ok(Message::NoteOn(Channel(1), Note(60), U7(100))));
    assert_eq!(note_off(Channel(1), 60u8, 0u8), Ok(Message::NoteOff(Channel(1), Note(60), U7(0))));
    assert_eq!(program_change(Channel(2), 5u8), Ok(Message::ProgramChange(Channel(2), U7(5))));
    assert_eq!(note_on(Channel(1), 128u8, 100u8), Err(MidiError::InvalidNote));
    assert_eq!(note_on(Channel(1), 60u8, 128u8), Err(MidiError::InvalidVelocity));
    assert_eq!(note_on(Channel(1), 200u8, 200u8), Err(MidiError::InvalidNote));
    assert_eq!(note_off(Channel(1), 128u8, 100u8), Err(MidiError::InvalidNote));
    assert_eq!(note_off(Channel(1), 60u8, 128u8), Err(MidiError::InvalidVelocity));
    assert_eq!(program_change(Channel(2), 128u8), Err(MidiError::InvalidProgram));
}

#[test]
fn builders_take_typed_values_too() {
    assert_eq!(note_on(Channel(1), Note(60), U7(100)), Ok(Message::NoteOn(Channel(1), Note(60), U7(100))));
    assert_eq!(program_change(Channel(2), U7(5)), Ok(Message::ProgramChange(Channel(2), U7(5))));
}

#[test]
fn decode_channel_voice_packets() {
    assert_eq!(decode([0x08, 0x81, 0x40, 0x10]), Ok(Message::NoteOff(Channel(1), Note(0x40), U7(0x10))));
    assert_eq!(decode([0x09, 0x90, 0x40, 0x7F]), Ok(Message::NoteOn(Channel(0), Note(0x40), U7(0x7F))));
    assert_eq!(decode([0x0A, 0xA2, 0x41, 0x11]), Ok(Message::NotePressure(Channel(2), Note(0x41), U7(0x11))));
    assert_eq!(decode([0x0B, 0xB3, 7, 100]), Ok(Message::ControlChange(Channel(3), U7(7), U7(100))));
    assert_eq!(decode([0x0C, 0xC4, 9, 0]), Ok(Message::ProgramChange(Channel(4), U7(9))));
    assert_eq!(decode([0x0D, 0xD5, 99, 0]), Ok(Message::ChannelPressure(Channel(5), U7(99))));
    assert_eq!(decode([0x0E, 0xEF, 0x45, 0x46]), Ok(Message::PitchBend(Channel(15), U14(0x2345))));
}

#[test]
fn decode_ignores_the_cable_number() {
    assert_eq!(decode([0x39, 0x90, 0x40, 0x7F]), Ok(Message::NoteOn(Channel(0), Note(0x40), U7(0x7F))));
}

#[test]
fn decode_reports_the_value_that_is_out_of_range() {
    assert_eq!(decode([0x09, 0x90, 0x40, 0xFF]), Err(MidiError::InvalidVelocity));
    assert_eq!(decode([0x09, 0x90, 0x80, 0x40]), Err(MidiError::InvalidNote));
    assert_eq!(decode([0x09, 0x90, 0x80, 0x80]), Err(MidiError::InvalidNote));
    assert_eq!(decode([0x08, 0x80, 0x40, 0x80]), Err(MidiError::InvalidVelocity));
    assert_eq!(decode([0x0A, 0xA0, 0x40, 0x80]), Err(MidiError::InvalidInteger));
    assert_eq!(decode([0x0A, 0xA0, 0x80, 0x40]), Err(MidiError::InvalidNote));
    assert_eq!(decode([0x0B, 0xB0, 0x80, 0x00]), Err(MidiError::InvalidInteger));
    assert_eq!(decode([0x0B, 0xB0, 0x00, 0x80]), Err(MidiError::InvalidInteger));
    assert_eq!(decode([0x0C, 0xC0, 0x80, 0x00]), Err(MidiError::InvalidProgram));
    assert_eq!(decode([0x0D, 0xD0, 0x80, 0x00]), Err(MidiError::InvalidInteger));
    assert_eq!(decode([0x0E, 0xE0, 0x80, 0x00]), Err(MidiError::InvalidInteger));
    assert_eq!(decode([0x0E, 0xE0, 0x00, 0x80]), Err(MidiError::InvalidInteger));
}

#[test]
fn decode_channel_voice_under_another_code_index_number() {
    assert_eq!(decode([0x03, 0x90, 0x40, 0x7F]), Ok(Message::NoteOn(Channel(0), Note(0x40), U7(0x7F))));
    assert_eq!(decode([0x08, 0x90, 0x40, 0x7F]), Ok(Message::NoteOn(Channel(0), Note(0x40), U7(0x7F))));
    assert_eq!(decode([0x02, 0xC1, 0x05, 0x00]), Ok(Message::ProgramChange(Channel(1), U7(5))));
}

#[test]
fn decode_refuses_a_payload_too_short_for_the_message() {
    let p = Packet::from_raw([0x05, 0x90, 0x40, 0x7F]);
    assert_eq!(Message::try_from(p), Err(MidiError::BadPacket(p)));
    let p = Packet::from_raw([0x0C, 0x90, 0x40, 0x7F]);
    assert_eq!(Message::try_from(p), Err(MidiError::BadPacket(p)));
    let p = Packet::from_raw([0x0F, 0xC0, 0x40, 0x00]);
    assert_eq!(Message::try_from(p), Err(MidiError::BadPacket(p)));
}

#[test]
fn decode_system_packets() {
    assert_eq!(decode([0x02, 0xF1, 0x35, 0]), Ok(Message::TimeCodeQuarterFrame(U7(0x35))));
    assert_eq!(decode([0x03, 0xF2, 1, 2]), Ok(Message::SongPositionPointer(U7(1), U7(2))));
    assert_eq!(decode([0x02, 0xF3, 3, 0]), Ok(Message::SongSelect(U7(3))));
    assert_eq!(decode([0x02, 0xF9, 4, 0]), Ok(Message::MeasureEnd(U7(4))));
    assert_eq!(decode([0x05, 0xF6, 0, 0]), Ok(Message::TuneRequest));
    assert_eq!(decode([0x05, 0xF8, 0, 0]), Ok(Message::TimingClock));
    assert_eq!(decode([0x05, 0xFA, 0, 0]), Ok(Message::Start));
    assert_eq!(decode([0x05, 0xFB, 0, 0]), Ok(Message::Continue));
    assert_eq!(decode([0x05, 0xFC, 0, 0]), Ok(Message::Stop));
    assert_eq!(decode([0x05, 0xFE, 0, 0]), Ok(Message::ActiveSensing));
    assert_eq!(decode([0x05, 0xFF, 0, 0]), Ok(Message::SystemReset));
}

#[test]
fn decode_masks_the_data_of_system_packets() {
    assert_eq!(decode([0x02, 0xF3, 0x85, 0]), Ok(Message::SongSelect(U7(5))));
    assert_eq!(decode([0x03, 0xF2, 0x81, 0xFF]), Ok(Message::SongPositionPointer(U7(1), U7(0x7F))));
}

#[test]
fn decode_sysex_packets() {
    assert_eq!(decode([0x04, 0xF0, 1, 2]), Ok(Message::SysexBegin(1, 2)));
    assert_eq!(decode([0x04, 3, 4, 5]), Ok(Message::SysexCont(3, 4, 5)));
    assert_eq!(decode([0x05, 0xF7, 0, 0]), Ok(Message::SysexEnd));
    assert_eq!(decode([0x06, 6, 0xF7, 0]), Ok(Message::SysexEnd1(6)));
    assert_eq!(decode([0x07, 7, 8, 0xF7]), Ok(Message::SysexEnd2(7, 8)));
    assert_eq!(decode([0x06, 0xF0, 0xF7, 0]), Ok(Message::SysexEmpty));
    assert_eq!(decode([0x07, 0xF0, 9, 0xF7]), Ok(Message::SysexSingleByte(9)));
}

#[test]
fn decode_takes_a_sysex_packet_that_begins_with_the_terminator_as_a_start() {
    assert_eq!(decode([0x04, 0xF7, 1, 2]), Ok(Message::SysexBegin(1, 2)));
}

#[test]
fn decode_refuses_what_fits_no_message() {
    for bytes in [
        [0x00, 0x90, 0x40, 0x7F],
        [0x01, 0x90, 0x40, 0x7F],
        [0x09, 0x40, 0x40, 0x7F],
        [0x05, 0xF4, 0x00, 0x00],
        [0x05, 0xF1, 0x00, 0x00],
        [0x02, 0xF8, 0x00, 0x00],
        [0x03, 0xF0, 0x01, 0x02],
        [0x0F, 0xF8, 0x00, 0x00],
        [0x02, 0xF2, 0x01, 0x02],
    ] {
        let p = Packet::from_raw(bytes);
        assert_eq!(Message::try_from(p), Err(MidiError::BadPacket(p)));
    }
}

#[test]
fn round_trip_of_every_channel_voice_message() {
    for ch in 0u8..16 {
        for a in [0u8, 1, 0x3F, 0x40, 0x7E, 0x7F] {
            for b in [0u8, 1, 0x3F, 0x40, 0x7E, 0x7F] {
                let all = [
                    Message::NoteOff(Channel(ch), Note(a), U7(b)),
                    Message::NoteOn(Channel(ch), Note(a), U7(b)),
                    Message::NotePressure(Channel(ch), Note(a), U7(b)),
                    Message::ControlChange(Channel(ch), U7(a), U7(b)),
                    Message::ProgramChange(Channel(ch), U7(a)),
                    Message::ChannelPressure(Channel(ch), U7(a)),
                    Message::PitchBend(Channel(ch), U14(((b as u16) << 7) | a as u16)),
                ];
                for m in all {
                    assert_eq!(Message::try_from(Packet::from(m)), Ok(m));
                }
            }
        }
    }
}

#[test]
fn round_trip_of_every_pitch_bend() {
    for n in 0u16..16384 {
        let m = Message::PitchBend(Channel(7), U14(n));
        assert_eq!(Message::try_from(Packet::from(m)), Ok(m));
    }
}

#[test]
fn round_trip_of_every_system_message() {
    for a in 0u8..128 {
        let all = [
            Message::TimeCodeQuarterFrame(U7(a)),
            Message::SongPositionPointer(U7(a), U7(127 - a)),
            Message::SongSelect(U7(a)),
            Message::MeasureEnd(U7(a)),
        ];
        for m in all {
            assert_eq!(Message::try_from(Packet::from(m)), Ok(m));
        }
    }
    let all = [
        Message::TuneRequest,
        Message::TimingClock,
        Message::Start,
        Message::Continue,
        Message::Stop,
        Message::ActiveSensing,
        Message::SystemReset,
    ];
    for m in all {
        assert_eq!(Message::try_from(Packet::from(m)), Ok(m));
    }
}

#[test]
fn round_trip_of_sysex_fragments_with_data_bytes() {
    let all = [
        Message::SysexBegin(1, 2),
        Message::SysexCont(3, 4, 5),
        Message::SysexEnd,
        Message::SysexEnd1(6),
        Message::SysexEnd2(7, 8),
        Message::SysexEmpty,
        Message::SysexSingleByte(9),
    ];
    for m in all {
        assert_eq!(Message::try_from(Packet::from(m)), Ok(m));
    }
}

#[test]
fn sysex_fragments_with_status_bytes_need_not_round_trip() {
    assert_eq!(
        Message::try_from(Packet::from(Message::SysexCont(0x90, 1, 2))),
        Ok(Message::SysexBegin(1, 2))
    );
    assert_eq!(Message::try_from(Packet::from(Message::SysexEnd1(0xF0))), Ok(Message::SysexEmpty));
    assert_eq!(
        Message::try_from(Packet::from(Message::SysexEnd2(0xF0, 5))),
        Ok(Message::SysexSingleByte(5))
    );
}
