//! The stream parser: it takes a serial MIDI stream one byte at a time and
//! gives out USB-MIDI event packets.
//!
//! The parser latches the status byte of the message in progress. Data
//! bytes collect behind it until the message is complete; a channel-voice
//! status stays latched afterwards, so that further messages of the same
//! kind may omit it (running status). A system-exclusive sequence leaves
//! in packets of three bytes and ends at its terminator.
use vstd::prelude::*;
use crate::cin::CodeIndexNumber;
use crate::error::MidiError;
use crate::message::Message;
use crate::packet::sysex_body_of;
use crate::packet::Packet;
use crate::status::is_channel_status;
use crate::status::is_non_status;
use crate::status::status_byte;
use crate::status::Status;
use crate::status::SYSEX_END;
use crate::status::SYSEX_START;

verus! {

/// The most bytes of MIDI that one packet carries.
pub const MAX_PAYLOAD: u8 = 3;

/// `bytes` followed by as many zeros as it takes to make three bytes.
pub open spec fn pad3(bytes: Seq<u8>) -> Seq<u8> {
    Seq::new(
        3,
        |i: int|
            if i < bytes.len() {
                bytes[i]
            } else {
                0u8
            },
    )
}

/// The four bytes of the packet with the given classification and content.
pub open spec fn packet_bytes(cin: CodeIndexNumber, content: Seq<u8>) -> Seq<u8> {
    seq![cin.code()] + pad3(content)
}

/// The bytes of one message while they come in: at most three, and no more
/// than a limit that is set when the buffer is cleared.
#[derive(Copy, Clone, Debug)]
pub struct PacketBuffer {
    expected_len: u8,
    len: u8,
    bytes: [u8; 4],
}

impl PacketBuffer {
    #[verifier::type_invariant]
    spec fn inv(self) -> bool {
        &&& self.len <= MAX_PAYLOAD
        &&& forall|i: int| 0 <= i < 4 && !(1 <= i <= self.len) ==> self.bytes@[i] == 0
    }

    /// How many bytes the message in progress has when it is complete.
    pub closed spec fn limit(self) -> u8 {
        self.expected_len
    }

    /// The bytes that came in so far.
    pub closed spec fn pending(self) -> Seq<u8> {
        self.bytes@.subrange(1, 1 + self.len)
    }

    /// The buffer holds as many bytes as its limit allows.
    pub open spec fn spec_is_full(&self) -> bool {
        self.pending().len() >= self.limit()
    }

    /// The buffer holds a byte.
    pub open spec fn spec_is_started(&self) -> bool {
        self.pending().len() != 0
    }

    /// The buffer takes one more byte: it is below its limit and below the
    /// size of a packet.
    pub open spec fn has_room(self) -> bool {
        self.pending().len() < self.limit() && self.pending().len() < MAX_PAYLOAD
    }

    #[verifier::when_used_as_spec(spec_is_full)]
    pub fn is_full(&self) -> (r: bool)
        ensures
            r == self.spec_is_full(),
    {
        proof {
            use_type_invariant(self);
        }
        self.len >= self.expected_len
    }

    #[verifier::when_used_as_spec(spec_is_started)]
    pub fn is_started(&self) -> (r: bool)
        ensures
            r == self.spec_is_started(),
    {
        proof {
            use_type_invariant(self);
        }
        self.len != 0
    }

    /// How many bytes the buffer holds.
    pub fn count(&self) -> (r: u8)
        ensures
            r == self.pending().len(),
            r <= MAX_PAYLOAD,
    {
        proof {
            use_type_invariant(self);
        }
        self.len
    }

    /// Appends a byte. A buffer without room refuses it and stays as it
    /// is.
    pub fn push(&mut self, byte: u8) -> (r: Result<(), MidiError>)
        ensures
            old(self).has_room() ==> r == Ok::<(), MidiError>(()) && final(self).pending() == old(
                self,
            ).pending().push(byte) && final(self).limit() == old(self).limit(),
            !old(self).has_room() ==> r == Err::<(), MidiError>(MidiError::SysexOutOfBounds)
                && *final(self) == *old(self),
    {
        proof {
            use_type_invariant(&*self);
        }
        if self.len >= self.expected_len || self.len >= MAX_PAYLOAD {
            return Err(MidiError::SysexOutOfBounds);
        }
        let ghost before = self.pending();
        self.len = self.len + 1;
        self.bytes[self.len as usize] = byte;
        assert(self.pending() =~= before.push(byte));
        Ok(())
    }

    /// Hands out the content as a packet with the given classification, on
    /// cable zero and padded with zeros, and empties the buffer. The limit
    /// stays.
    pub fn build(&mut self, cin: CodeIndexNumber) -> (r: Packet)
        ensures
            r@ == packet_bytes(cin, old(self).pending()),
            final(self).pending() == Seq::<u8>::empty(),
            final(self).limit() == old(self).limit(),
    {
        proof {
            use_type_invariant(&*self);
        }
        let mut bytes = self.bytes;
        bytes[0] = cin.code();
        let packet = Packet::from_raw(bytes);
        assert(packet@ =~= packet_bytes(cin, self.pending()));
        self.clear(self.expected_len);
        packet
    }

    /// Empties the buffer and sets its limit.
    pub fn clear(&mut self, new_limit: u8)
        ensures
            final(self).pending() == Seq::<u8>::empty(),
            final(self).limit() == new_limit,
    {
        *self = PacketBuffer { expected_len: new_limit, len: 0, bytes: [0u8; 4] };
        assert(self.pending() =~= Seq::<u8>::empty());
    }
}

impl Default for PacketBuffer {
    /// An empty buffer with limit zero.
    fn default() -> (r: PacketBuffer)
        ensures
            r.pending() == Seq::<u8>::empty(),
            r.limit() == 0,
    {
        let r = PacketBuffer { expected_len: 0, len: 0, bytes: [0u8; 4] };
        assert(r.pending() =~= Seq::<u8>::empty());
        r
    }
}

/// What a parser remembers between two bytes.
pub struct ParserState {
    /// The latched status byte, as it came in: that of the message in
    /// progress, or that of the last channel-voice message, kept for
    /// running status.
    pub status: Option<u8>,
    /// The bytes that came in for the packet in progress, beginning with
    /// the status byte where they begin a message. Empty while no status is
    /// latched.
    pub pending: Seq<u8>,
}

impl ParserState {
    /// The state of a parser that has seen nothing.
    pub open spec fn initial() -> ParserState {
        ParserState { status: None, pending: Seq::empty() }
    }

    /// The states that a parser can be in: a latched byte is the status byte
    /// of a message of two or three bytes, of which fewer than all are
    /// pending.
    pub open spec fn wf(self) -> bool {
        match self.status {
            None => self.pending.len() == 0,
            Some(lead) => Status::try_from(lead) matches Ok(status) && status.expected_len() >= 2
                && self.pending.len() < status.expected_len(),
        }
    }

    /// The state after `byte`, and the bytes of the packet that `byte`
    /// completes, if it completes one.
    ///
    /// A data byte, or the system-exclusive terminator, is dropped while no
    /// status is latched. Otherwise it joins the pending bytes, before
    /// which the latched byte is put back if it is a channel-voice status
    /// and nothing is pending (running status). The terminator then ends
    /// the message at once, whatever its length, and clears the latch; any
    /// other byte ends it when the size that the status announces is
    /// reached, and the latch stays.
    ///
    /// The status byte of a single-byte message gives its packet at once
    /// and clears the latch. Any other status byte is latched and starts a
    /// new message; what was pending is dropped. A byte that is neither
    /// changes nothing.
    pub open spec fn step(self, byte: u8) -> (ParserState, Option<Seq<u8>>) {
        if is_non_status(byte) {
            match self.status {
                None => (self, None),
                Some(lead) => {
                    let status = Status::try_from(lead).unwrap();
                    let seeded = if self.pending.len() == 0 && is_channel_status(lead) {
                        seq![lead]
                    } else {
                        self.pending
                    };
                    let content = seeded.push(byte);
                    if byte == SYSEX_END {
                        (
                            ParserState::initial(),
                            Some(
                                packet_bytes(
                                    CodeIndexNumber::end_sysex(content.len() as u8).unwrap(),
                                    content,
                                ),
                            ),
                        )
                    } else if content.len() >= status.expected_len() {
                        (
                            ParserState { status: Some(lead), pending: Seq::empty() },
                            Some(packet_bytes(CodeIndexNumber::of_status(status), content)),
                        )
                    } else {
                        (ParserState { status: Some(lead), pending: content }, None)
                    }
                },
            }
        } else {
            match Status::try_from(byte) {
                Err(_) => (self, None),
                Ok(status) => if status.expected_len() == 1 {
                    (
                        ParserState::initial(),
                        Some(packet_bytes(CodeIndexNumber::of_status(status), seq![byte])),
                    )
                } else {
                    (ParserState { status: Some(byte), pending: seq![byte] }, None)
                },
            }
        }
    }

    /// Every step leads from a possible state to a possible state, and a
    /// packet that it gives has four bytes.
    pub proof fn lemma_step_wf(self, byte: u8)
        requires
            self.wf(),
        ensures
            self.step(byte).0.wf(),
            self.step(byte).1 matches Some(bytes) ==> bytes.len() == 4,
    {
    }
}

/// The bytes of `message` in a serial stream: its status byte and its data
/// bytes, which are the payload of its packet.
pub open spec fn wire_bytes(message: Message) -> Seq<u8> {
    Packet::encode_spec(message).subrange(
        1,
        1 + CodeIndexNumber::of_message(message).payload_len(),
    )
}

/// The system-exclusive data that a row of packets carries.
pub open spec fn sysex_bodies(packets: Seq<Seq<u8>>) -> Seq<u8>
    decreases packets.len(),
{
    if packets.len() == 0 {
        Seq::empty()
    } else {
        sysex_bodies(packets.drop_last()) + sysex_body_of(packets.last())
    }
}

/// Every byte is a data byte.
pub open spec fn all_data(bytes: Seq<u8>) -> bool {
    forall|i: int| 0 <= i < bytes.len() ==> bytes[i] < 0x80
}

/// Pending bytes without the start marker at their head.
spec fn unmarked(pending: Seq<u8>) -> Seq<u8> {
    if pending.len() > 0 && pending[0] == SYSEX_START {
        pending.drop_first()
    } else {
        pending
    }
}

impl ParserState {
    /// The state after a run of bytes, and the packets that they complete,
    /// in their order.
    pub open spec fn run(self, bytes: Seq<u8>) -> (ParserState, Seq<Seq<u8>>)
        decreases bytes.len(),
    {
        if bytes.len() == 0 {
            (self, Seq::empty())
        } else {
            let (before, packets) = self.run(bytes.drop_last());
            let (after, packet) = before.step(bytes.last());
            (
                after,
                match packet {
                    Some(p) => packets.push(p),
                    None => packets,
                },
            )
        }
    }

    /// The state in which a parser waits with `lead` latched and nothing
    /// pending.
    pub open spec fn idle(lead: u8) -> ParserState {
        ParserState { status: Some(lead), pending: Seq::empty() }
    }

    /// A run of one more byte is the run without it, then one step.
    pub proof fn lemma_run_push(self, bytes: Seq<u8>, byte: u8)
        ensures
            self.run(bytes.push(byte)).0 == self.run(bytes).0.step(byte).0,
            self.run(bytes.push(byte)).1 == match self.run(bytes).0.step(byte).1 {
                Some(p) => self.run(bytes).1.push(p),
                None => self.run(bytes).1,
            },
    {
        assert(bytes.push(byte).drop_last() =~= bytes);
    }

    /// Whatever a parser was doing, the serial bytes of a message make it
    /// give the packet of that message and no other. This holds of every
    /// message whose fields are in range and which is no fragment of a
    /// system-exclusive sequence.
    pub proof fn lemma_parse_message(self, message: Message)
        requires
            message.wf(),
            !message.is_sysex(),
        ensures
            self.run(wire_bytes(message)).1 == seq![Packet::encode_spec(message)],
            self.run(wire_bytes(message)).0.wf(),
    {
        let wire = wire_bytes(message);
        let lead = wire[0];
        let none = Seq::<u8>::empty();
        Self::lemma_status_of(message);
        self.lemma_run_push(none, lead);
        if wire.len() == 1 {
            assert(wire =~= none.push(lead));
            assert(packet_bytes(CodeIndexNumber::of_message(message), seq![lead])
                =~= Packet::encode_spec(message));
        } else if wire.len() == 2 {
            assert(wire =~= none.push(lead).push(wire[1]));
            self.lemma_run_push(none.push(lead), wire[1]);
            assert(packet_bytes(CodeIndexNumber::of_message(message), seq![lead].push(wire[1]))
                =~= Packet::encode_spec(message));
        } else {
            assert(wire =~= none.push(lead).push(wire[1]).push(wire[2]));
            self.lemma_run_push(none.push(lead), wire[1]);
            self.lemma_run_push(none.push(lead).push(wire[1]), wire[2]);
            assert(packet_bytes(
                CodeIndexNumber::of_message(message),
                seq![lead].push(wire[1]).push(wire[2]),
            ) =~= Packet::encode_spec(message));
        }
    }

    /// Running status: after a channel-voice message, the data bytes of
    /// another message of the same kind on the same channel are enough to
    /// give its packet.
    pub proof fn lemma_running_status(message: Message)
        requires
            message.wf(),
            status_byte(&message) matches Some(lead) && is_channel_status(lead),
        ensures
            ({
                let idle = ParserState::idle(status_byte(&message).unwrap());
                idle.run(wire_bytes(message).drop_first()) == (
                    idle,
                    seq![Packet::encode_spec(message)],
                )
            }),
    {
        let wire = wire_bytes(message);
        let lead = wire[0];
        let data = wire.drop_first();
        let none = Seq::<u8>::empty();
        let idle = ParserState::idle(lead);
        Self::lemma_status_of(message);
        idle.lemma_run_push(none, data[0]);
        if data.len() == 1 {
            assert(data =~= none.push(data[0]));
            assert(packet_bytes(CodeIndexNumber::of_message(message), seq![lead].push(data[0]))
                =~= Packet::encode_spec(message));
        } else {
            assert(data =~= none.push(data[0]).push(data[1]));
            idle.lemma_run_push(none.push(data[0]), data[1]);
            assert(packet_bytes(
                CodeIndexNumber::of_message(message),
                seq![lead].push(data[0]).push(data[1]),
            ) =~= Packet::encode_spec(message));
        }
    }

    /// A system-exclusive sequence comes out whole: whatever a parser was
    /// doing, the start marker, a body of data bytes of any length and the
    /// terminator make it give packets that carry exactly the body, and
    /// leave it with nothing latched.
    pub proof fn lemma_parse_sysex(self, body: Seq<u8>)
        requires
            all_data(body),
        ensures
            ({
                let (state, packets) = self.run(seq![SYSEX_START] + body + seq![SYSEX_END]);
                state == ParserState::initial() && sysex_bodies(packets) == body
            }),
    {
        let head = seq![SYSEX_START] + body;
        self.lemma_sysex_prefix(body);
        self.lemma_run_push(head, SYSEX_END);
        assert(head.push(SYSEX_END) =~= seq![SYSEX_START] + body + seq![SYSEX_END]);
        let (before, packets) = self.run(head);
        Status::lemma_with_code(Status::SysexStart);
        let content = before.pending.push(SYSEX_END);
        let cin = CodeIndexNumber::end_sysex(content.len() as u8).unwrap();
        let last = packet_bytes(cin, content);
        CodeIndexNumber::lemma_of_byte(cin);
        assert(sysex_body_of(last) =~= unmarked(before.pending));
        assert(packets.push(last).drop_last() =~= packets);
    }

    /// While a system-exclusive sequence comes in, the packets given so far
    /// and the bytes that are pending hold its body between them.
    proof fn lemma_sysex_prefix(self, body: Seq<u8>)
        requires
            all_data(body),
        ensures
            ({
                let (state, packets) = self.run(seq![SYSEX_START] + body);
                &&& state.status == Some(SYSEX_START)
                &&& state.pending.len() <= 2
                &&& sysex_bodies(packets) + unmarked(state.pending) == body
            }),
        decreases body.len(),
    {
        Status::lemma_with_code(Status::SysexStart);
        let none = Seq::<u8>::empty();
        if body.len() == 0 {
            self.lemma_run_push(none, SYSEX_START);
            assert(none.push(SYSEX_START) =~= seq![SYSEX_START] + body);
            assert(unmarked(seq![SYSEX_START]) =~= body);
            assert(sysex_bodies(Seq::<Seq<u8>>::empty()) + unmarked(seq![SYSEX_START]) =~= body);
        } else {
            let shorter = body.drop_last();
            let byte = body.last();
            let head = seq![SYSEX_START] + shorter;
            self.lemma_sysex_prefix(shorter);
            self.lemma_run_push(head, byte);
            assert(head.push(byte) =~= seq![SYSEX_START] + body);
            let (before, packets) = self.run(head);
            let content = before.pending.push(byte);
            assert(unmarked(content) =~= unmarked(before.pending).push(byte));
            assert(body =~= shorter.push(byte));
            if content.len() >= 3 {
                let full = packet_bytes(CodeIndexNumber::Sysex, content);
                CodeIndexNumber::lemma_of_byte(CodeIndexNumber::Sysex);
                assert(sysex_body_of(full) =~= unmarked(content));
                assert(packets.push(full).drop_last() =~= packets);
                assert(sysex_bodies(packets.push(full)) + unmarked(Seq::<u8>::empty()) =~= body);
            } else {
                assert(sysex_bodies(packets) + unmarked(content) =~= body);
            }
        }
    }

    /// The status byte of a message resolves to the command of the message,
    /// which announces as many bytes as the packet of the message carries.
    proof fn lemma_status_of(message: Message)
        requires
            message.wf(),
            !message.is_sysex(),
        ensures
            status_byte(&message) matches Some(lead) && Status::try_from(lead) matches Ok(status)
                && CodeIndexNumber::of_status(status) == CodeIndexNumber::of_message(message)
                && status.expected_len() == CodeIndexNumber::of_message(message).payload_len(),
    {
        match message {
            Message::NoteOff(_, _, _) => Status::lemma_with_code(Status::NoteOff),
            Message::NoteOn(_, _, _) => Status::lemma_with_code(Status::NoteOn),
            Message::NotePressure(_, _, _) => Status::lemma_with_code(Status::NotePressure),
            Message::ChannelPressure(_, _) => Status::lemma_with_code(Status::ChannelPressure),
            Message::ProgramChange(_, _) => Status::lemma_with_code(Status::ProgramChange),
            Message::ControlChange(_, _, _) => Status::lemma_with_code(Status::ControlChange),
            Message::PitchBend(_, _) => Status::lemma_with_code(Status::PitchBend),
            Message::TimeCodeQuarterFrame(_) => Status::lemma_with_code(
                Status::TimeCodeQuarterFrame,
            ),
            Message::SongPositionPointer(_, _) => Status::lemma_with_code(
                Status::SongPositionPointer,
            ),
            Message::SongSelect(_) => Status::lemma_with_code(Status::SongSelect),
            Message::TuneRequest => Status::lemma_with_code(Status::TuneRequest),
            Message::TimingClock => Status::lemma_with_code(Status::TimingClock),
            Message::MeasureEnd(_) => Status::lemma_with_code(Status::MeasureEnd),
            Message::Start => Status::lemma_with_code(Status::Start),
            Message::Continue => Status::lemma_with_code(Status::Continue),
            Message::Stop => Status::lemma_with_code(Status::Stop),
            Message::ActiveSensing => Status::lemma_with_code(Status::ActiveSensing),
            Message::SystemReset => Status::lemma_with_code(Status::SystemReset),
            _ => {},
        }
    }
}

/// Turns a serial MIDI stream into event packets, byte by byte.
#[derive(Debug)]
pub struct PacketParser {
    status: Option<Status>,
    lead: u8,
    buffer: PacketBuffer,
}

impl View for PacketParser {
    type V = ParserState;

    closed spec fn view(&self) -> ParserState {
        match self.status {
            None => ParserState::initial(),
            Some(_) => ParserState { status: Some(self.lead), pending: self.buffer.pending() },
        }
    }
}

impl PacketParser {
    #[verifier::type_invariant]
    spec fn inv(self) -> bool {
        self.status matches Some(status) ==> {
            &&& Status::try_from(self.lead) == Ok::<Status, MidiError>(status)
            &&& status.expected_len() >= 2
            &&& self.buffer.limit() == status.expected_len()
            &&& self.buffer.pending().len() < status.expected_len()
        }
    }

    /// A parser that has seen nothing.
    pub fn new() -> (r: PacketParser)
        ensures
            r@ == ParserState::initial(),
    {
        PacketParser { status: None, lead: 0, buffer: PacketBuffer::default() }
    }

    /// Takes the next byte of the stream. The result is the packet that
    /// the byte completes, or `None` while the message is incomplete or the
    /// byte is dropped. No byte makes the parser fail.
    pub fn advance(&mut self, byte: u8) -> (r: Result<Option<Packet>, MidiError>)
        ensures
            final(self)@ == old(self)@.step(byte).0,
            final(self)@.wf(),
            match old(self)@.step(byte).1 {
                None => r == Ok::<Option<Packet>, MidiError>(None),
                Some(bytes) => r matches Ok(Some(packet)) && packet@ == bytes,
            },
    {
        proof {
            use_type_invariant(&*self);
            old(self)@.lemma_step_wf(byte);
        }
        if is_non_status(byte) {
            let status = match self.status {
                None => {
                    return Ok(None);
                },
                Some(status) => status,
            };
            let lead = self.lead;
            let mut buffer = self.buffer;
            if !buffer.is_started() && is_channel_status(lead) {
                // running status: the message begins with the latched byte
                buffer.clear(status.expected_len());
                buffer.push(lead)?;
            }
            buffer.push(byte)?;
            if byte == SYSEX_END {
                let cin = CodeIndexNumber::end_sysex(buffer.count())?;
                let packet = buffer.build(cin);
                *self = PacketParser { status: None, lead, buffer };
                return Ok(Some(packet));
            }
            if buffer.is_full() {
                let packet = buffer.build(CodeIndexNumber::of_status(status));
                *self = PacketParser { status: Some(status), lead, buffer };
                return Ok(Some(packet));
            }
            *self = PacketParser { status: Some(status), lead, buffer };
            return Ok(None);
        }
        if let Ok(status) = Status::try_from(byte) {
            let expected_len = status.expected_len();
            if expected_len == 1 {
                // a single-byte message needs no buffer
                let first = CodeIndexNumber::of_status(status).code();
                let packet = Packet::from_raw([first, byte, 0, 0]);
                assert(packet@ =~= packet_bytes(CodeIndexNumber::of_status(status), seq![byte]));
                *self = PacketParser { status: None, lead: self.lead, buffer: self.buffer };
                return Ok(Some(packet));
            } else {
                let mut buffer = self.buffer;
                buffer.clear(expected_len);
                buffer.push(byte)?;
                *self = PacketParser { status: Some(status), lead: byte, buffer };
            }
        }
        Ok(None)
    }
}

impl Default for PacketParser {
    fn default() -> (r: PacketParser)
        ensures
            r@ == ParserState::initial(),
    {
        PacketParser::new()
    }
}

} // verus!
