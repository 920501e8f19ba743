use midi::parser::PacketBuffer;
use midi::Channel;
use midi::CodeIndexNumber;
use midi::Message;
use midi::MidiError;
use midi::Note;
use midi::Packet;
use midi::PacketParser;
use midi::U7;

fn feed(parser: &mut PacketParser, bytes: &[u8]) -> Vec<Option<Packet>> {
    let mut out = Vec::new();
    for b in bytes {
        out.push(parser.advance(*b).unwrap());
    }
    out
}

fn packets(parser: &mut PacketParser, bytes: &[u8]) -> Vec<[u8; 4]> {
    let mut out = Vec::new();
    for p in feed(parser, bytes).into_iter().flatten() {
        let b = p.bytes();
        out.push([b[0], b[1], b[2], b[3]]);
    }
    out
}

#[test]
fn note_on_completes_at_the_third_byte() {
    let mut parser = PacketParser::new();
    assert_eq!(parser.advance(0x90), Ok(None));
    assert_eq!(parser.advance(0x40), Ok(None));
    let r = parser.advance(0x7F);
    let packet = r.unwrap().unwrap();
    assert_eq!(packet.bytes(), &[0x09, 0x90, 0x40, 0x7F]);
    assert_eq!(Message::try_from(packet), Ok(Message::NoteOn(Channel(0), Note(0x40), U7(0x7F))));
}

#[test]
fn running_status_repeats_the_status_byte() {
    let mut parser = PacketParser::new();
    let first = feed(&mut parser, &[0x90, 0x40, 0x7F]);
    assert!(first[2].is_some());
    assert_eq!(parser.advance(0x50), Ok(None));
    let packet = parser.advance(0x10).unwrap().unwrap();
    assert_eq!(packet.bytes(), &[0x09, 0x90, 0x50, 0x10]);
    assert_eq!(Message::try_from(packet), Ok(Message::NoteOn(Channel(0), Note(0x50), U7(0x10))));
}

#[test]
fn running_status_keeps_the_channel() {
    let mut parser = PacketParser::new();
    let got = packets(&mut parser, &[0x95, 0x40, 0x7F, 0x41, 0x7E, 0x42, 0x00]);
    assert_eq!(got, vec![[0x09, 0x95, 0x40, 0x7F], [0x09, 0x95, 0x41, 0x7E], [0x09, 0x95, 0x42, 0x00]]);
    let m = Message::try_from(Packet::from_raw(got[1]));
    assert_eq!(m, Ok(Message::NoteOn(Channel(5), Note(0x41), U7(0x7E))));
}

#[test]
fn running_status_of_two_byte_messages() {
    let mut parser = PacketParser::new();
    let got = packets(&mut parser, &[0xC3, 0x05, 0x06, 0x07]);
    assert_eq!(got, vec![[0x0C, 0xC3, 0x05, 0x00], [0x0C, 0xC3, 0x06, 0x00], [0x0C, 0xC3, 0x07, 0x00]]);
}

#[test]
fn sysex_leaves_in_packets_of_three_bytes() {
    let mut parser = PacketParser::new();
    let out = feed(&mut parser, &[0xF0, 0x01, 0x02, 0x03, 0xF7]);
    assert!(out[0].is_none());
    assert!(out[1].is_none());
    let first = out[2].unwrap();
    assert_eq!(first.bytes(), &[0x04, 0xF0, 0x01, 0x02]);
    assert_eq!(first.code_index_number(), CodeIndexNumber::Sysex);
    assert_eq!(Message::try_from(first), Ok(Message::SysexBegin(0x01, 0x02)));
    assert!(out[3].is_none());
    let last = out[4].unwrap();
    assert_eq!(last.bytes(), &[0x06, 0x03, 0xF7, 0x00]);
    assert_eq!(Message::try_from(last), Ok(Message::SysexEnd1(0x03)));
}

#[test]
fn sysex_ends_with_one_two_or_three_bytes() {
    let mut parser = PacketParser::new();
    let got = packets(&mut parser, &[0xF0, 1, 2, 3, 4, 5, 0xF7]);
    assert_eq!(got, vec![[0x04, 0xF0, 1, 2], [0x04, 3, 4, 5], [0x05, 0xF7, 0, 0]]);
    let got = packets(&mut parser, &[0xF0, 1, 2, 3, 4, 0xF7]);
    assert_eq!(got, vec![[0x04, 0xF0, 1, 2], [0x07, 3, 4, 0xF7]]);
    let got = packets(&mut parser, &[0xF0, 1, 2, 3, 0xF7]);
    assert_eq!(got, vec![[0x04, 0xF0, 1, 2], [0x06, 3, 0xF7, 0]]);
}

#[test]
fn short_sysex_sequences() {
    let mut parser = PacketParser::new();
    let got = packets(&mut parser, &[0xF0, 0xF7]);
    assert_eq!(got, vec![[0x06, 0xF0, 0xF7, 0]]);
    assert_eq!(Message::try_from(Packet::from_raw(got[0])), Ok(Message::SysexEmpty));
    let got = packets(&mut parser, &[0xF0, 0x11, 0xF7]);
    assert_eq!(got, vec![[0x07, 0xF0, 0x11, 0xF7]]);
    assert_eq!(Message::try_from(Packet::from_raw(got[0])), Ok(Message::SysexSingleByte(0x11)));
}

#[test]
fn data_without_a_status_is_dropped() {
    let mut parser = PacketParser::new();
    assert_eq!(parser.advance(0x40), Ok(None));
    assert_eq!(parser.advance(0x7F), Ok(None));
    assert_eq!(parser.advance(0xF7), Ok(None));
    let got = packets(&mut parser, &[0x90, 0x40, 0x7F]);
    assert_eq!(got, vec![[0x09, 0x90, 0x40, 0x7F]]);
}

#[test]
fn the_terminator_clears_the_latch() {
    let mut parser = PacketParser::new();
    let got = packets(&mut parser, &[0xF0, 1, 0xF7, 2, 3, 4]);
    assert_eq!(got, vec![[0x07, 0xF0, 1, 0xF7]]);
}

#[test]
fn single_byte_messages_are_given_at_once() {
    let mut parser = PacketParser::new();
    for (byte, first) in [(0xF6u8, 0x05u8), (0xF8, 0x05), (0xFA, 0x05), (0xFB, 0x05), (0xFC, 0x05), (0xFE, 0x05), (0xFF, 0x05)] {
        let packet = parser.advance(byte).unwrap().unwrap();
        assert_eq!(packet.bytes(), &[first, byte, 0, 0]);
    }
}

#[test]
fn a_single_byte_message_clears_the_latch() {
    let mut parser = PacketParser::new();
    let got = packets(&mut parser, &[0x90, 0x40, 0xF8, 0x7F, 0x41, 0x42]);
    assert_eq!(got, vec![[0x05, 0xF8, 0, 0]]);
}

#[test]
fn a_new_status_drops_the_message_in_progress() {
    let mut parser = PacketParser::new();
    let got = packets(&mut parser, &[0x90, 0x40, 0x80, 0x41, 0x10]);
    assert_eq!(got, vec![[0x08, 0x80, 0x41, 0x10]]);
}

#[test]
fn unassigned_status_bytes_change_nothing() {
    let mut parser = PacketParser::new();
    let got = packets(&mut parser, &[0x90, 0x40, 0xF4, 0xF5, 0xFD, 0x7F]);
    assert_eq!(got, vec![[0x09, 0x90, 0x40, 0x7F]]);
    assert_eq!(PacketParser::new().advance(0xF4), Ok(None));
}

#[test]
fn system_common_messages_with_data() {
    let mut parser = PacketParser::default();
    let got = packets(&mut parser, &[0xF2, 0x01, 0x02, 0xF3, 0x05, 0xF1, 0x33]);
    assert_eq!(got, vec![[0x03, 0xF2, 0x01, 0x02], [0x02, 0xF3, 0x05, 0x00], [0x02, 0xF1, 0x33, 0x00]]);
}

#[test]
fn a_system_status_is_not_repeated() {
    let mut parser = PacketParser::new();
    let got = packets(&mut parser, &[0xF3, 0x05, 0x06, 0x07]);
    assert_eq!(got, vec![[0x02, 0xF3, 0x05, 0x00], [0x02, 0x06, 0x07, 0x00]]);
}

#[test]
fn the_terminator_ends_any_message() {
    let mut parser = PacketParser::new();
    let got = packets(&mut parser, &[0x90, 0xF7]);
    assert_eq!(got, vec![[0x06, 0x90, 0xF7, 0x00]]);
    let got = packets(&mut parser, &[0x90, 0x40, 0xF7]);
    assert_eq!(got, vec![[0x07, 0x90, 0x40, 0xF7]]);
}

#[test]
fn no_byte_sequence_makes_the_parser_fail() {
    let mut parser = PacketParser::new();
    let mut x: u32 = 12345;
    for _ in 0..200000 {
        x = x.wrapping_mul(1664525).wrapping_add(1013904223);
        let byte = (x >> 24) as u8;
        assert!(parser.advance(byte).is_ok());
    }
    for a in 0u8..=255 {
        for b in [0x00u8, 0x7F, 0x80, 0x9F, 0xC0, 0xF0, 0xF3, 0xF7, 0xF8, 0xFF] {
            let mut parser = PacketParser::new();
            assert!(parser.advance(b).is_ok());
            assert!(parser.advance(a).is_ok());
            assert!(parser.advance(a).is_ok());
            assert!(parser.advance(b).is_ok());
        }
    }
}

#[test]
fn buffer_collects_up_to_its_limit() {
    let mut buffer = PacketBuffer::default();
    assert!(!buffer.is_started());
    assert!(buffer.is_full());
    assert_eq!(buffer.push(1), Err(MidiError::SysexOutOfBounds));
    buffer.clear(2);
    assert!(!buffer.is_full());
    assert_eq!(buffer.push(0xC0), Ok(()));
    assert!(buffer.is_started());
    assert!(!buffer.is_full());
    assert_eq!(buffer.count(), 1);
    assert_eq!(buffer.push(0x05), Ok(()));
    assert!(buffer.is_full());
    assert_eq!(buffer.count(), 2);
    assert_eq!(buffer.push(0x06), Err(MidiError::SysexOutOfBounds));
    assert_eq!(buffer.count(), 2);
    let packet = buffer.build(CodeIndexNumber::ProgramChange);
    assert_eq!(packet.bytes(), &[0x0C, 0xC0, 0x05, 0x00]);
    assert!(!buffer.is_started());
    assert!(!buffer.is_full());
    assert_eq!(buffer.push(0x07), Ok(()));
    let packet = buffer.build(CodeIndexNumber::SystemCommonLen1);
    assert_eq!(packet.bytes(), &[0x05, 0x07, 0x00, 0x00]);
}

#[test]
fn buffer_never_holds_more_than_a_packet_carries() {
    let mut buffer = PacketBuffer::default();
    buffer.clear(200);
    assert_eq!(buffer.push(1), Ok(()));
    assert_eq!(buffer.push(2), Ok(()));
    assert_eq!(buffer.push(3), Ok(()));
    assert!(!buffer.is_full());
    assert_eq!(buffer.push(4), Err(MidiError::SysexOutOfBounds));
    assert_eq!(buffer.build(CodeIndexNumber::Sysex).bytes(), &[0x04, 1, 2, 3]);
}

#[test]
fn a_sysex_sequence_of_any_length_comes_out_whole() {
    for len in 0usize..20 {
        let body: Vec<u8> = (0..len).map(|i| (i as u8 * 7 + 1) & 0x7F).collect();
        let mut stream = vec![0xF0u8];
        stream.extend_from_slice(&body);
        stream.push(0xF7);
        let mut parser = PacketParser::new();
        let mut carried = Vec::new();
        let mut count = 0;
        for p in feed(&mut parser, &stream).into_iter().flatten() {
            carried.extend_from_slice(p.sysex_body());
            count += 1;
        }
        assert_eq!(carried, body);
        assert_eq!(count, (len + 1) / 3 + 1);
        assert_eq!(parser.advance(0x11), Ok(None));
    }
}

#[test]
fn a_sysex_sequence_interrupts_a_message_in_progress() {
    let mut parser = PacketParser::new();
    let got = packets(&mut parser, &[0x90, 0x40, 0xF0, 1, 2, 3, 4, 0xF7]);
    assert_eq!(got, vec![[0x04, 0xF0, 1, 2], [0x07, 3, 4, 0xF7]]);
}

#[test]
fn every_message_parses_to_its_own_packet() {
    let all = [
        Message::NoteOff(Channel(1), Note(0x40), U7(0x10)),
        Message::NoteOn(Channel(9), Note(0x40), U7(0x7F)),
        Message::NotePressure(Channel(2), Note(0x41), U7(0x11)),
        Message::ControlChange(Channel(3), U7(7), U7(100)),
        Message::ProgramChange(Channel(4), U7(9)),
        Message::ChannelPressure(Channel(5), U7(99)),
        Message::PitchBend(Channel(15), midi::U14(0x2345)),
        Message::TimeCodeQuarterFrame(U7(0x35)),
        Message::SongPositionPointer(U7(1), U7(2)),
        Message::SongSelect(U7(3)),
        Message::MeasureEnd(U7(4)),
        Message::TuneRequest,
        Message::TimingClock,
        Message::Start,
        Message::Continue,
        Message::Stop,
        Message::ActiveSensing,
        Message::SystemReset,
    ];
    let mut parser = PacketParser::new();
    for m in all {
        let expected = Packet::from(m);
        let wire = expected.payload().to_vec();
        let got: Vec<Packet> = feed(&mut parser, &wire).into_iter().flatten().collect();
        assert_eq!(got, vec![expected]);
        assert_eq!(Message::try_from(got[0]), Ok(m));
    }
}
