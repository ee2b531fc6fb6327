//! Parsing of raw MIDI messages: one parser per message kind, tried in turn
//! by a [MessageParserRegistry]. Reading the messages from a device and
//! printing them is left to the caller.

use vstd::prelude::*;

verus! {

/// A parsed MIDI message. Channels are numbered from 1.
#[allow(inconsistent_fields)]
#[derive(Debug, Clone, PartialEq, Eq)]
pub enum MidiMessage {
    /// A key was released.
    NoteOff { channel: u8, note: u8, velocity: u8 },
    /// A key was pressed.
    NoteOn { channel: u8, note: u8, velocity: u8 },
    /// The pressure on a held key changed.
    PolyphonicAftertouch { channel: u8, note: u8, pressure: u8 },
    /// A controller changed its value.
    ControlChange { channel: u8, controller: u8, value: u8 },
    /// The instrument program changed.
    ProgramChange { channel: u8, program: u8 },
    /// The pressure on the whole channel changed.
    ChannelAftertouch { channel: u8, pressure: u8 },
    /// The pitch wheel moved; `value` is the 14-bit wheel position.
    PitchBend { channel: u8, value: u16 },
    /// Any other (e.g. system) message, kept as raw bytes.
    Unknown { raw_data: Vec<u8> },
}

/// A [MidiMessage] with its raw bytes as a sequence.
#[allow(inconsistent_fields)]
pub ghost enum MidiMessageView {
    NoteOff { channel: u8, note: u8, velocity: u8 },
    NoteOn { channel: u8, note: u8, velocity: u8 },
    PolyphonicAftertouch { channel: u8, note: u8, pressure: u8 },
    ControlChange { channel: u8, controller: u8, value: u8 },
    ProgramChange { channel: u8, program: u8 },
    ChannelAftertouch { channel: u8, pressure: u8 },
    PitchBend { channel: u8, value: u16 },
    Unknown { raw_data: Seq<u8> },
}

impl View for MidiMessage {
    type V = MidiMessageView;

    open spec fn view(&self) -> MidiMessageView {
        match self {
            MidiMessage::NoteOff { channel, note, velocity } => MidiMessageView::NoteOff {
                channel: *channel,
                note: *note,
                velocity: *velocity,
            },
            MidiMessage::NoteOn { channel, note, velocity } => MidiMessageView::NoteOn {
                channel: *channel,
                note: *note,
                velocity: *velocity,
            },
            MidiMessage::PolyphonicAftertouch { channel, note, pressure } => MidiMessageView::PolyphonicAftertouch {
                channel: *channel,
                note: *note,
                pressure: *pressure,
            },
            MidiMessage::ControlChange { channel, controller, value } => MidiMessageView::ControlChange {
                channel: *channel,
                controller: *controller,
                value: *value,
            },
            MidiMessage::ProgramChange { channel, program } => MidiMessageView::ProgramChange {
                channel: *channel,
                program: *program,
            },
            MidiMessage::ChannelAftertouch { channel, pressure } => MidiMessageView::ChannelAftertouch {
                channel: *channel,
                pressure: *pressure,
            },
            MidiMessage::PitchBend { channel, value } => MidiMessageView::PitchBend {
                channel: *channel,
                value: *value,
            },
            MidiMessage::Unknown { raw_data } => MidiMessageView::Unknown { raw_data: raw_data@ },
        }
    }
}

impl MidiMessage {
    /// The channel the message is on, for channel messages.
    pub fn get_channel(&self) -> (r: Option<u8>)
        ensures
            r == message_channel(self@),
    {
        match self {
            MidiMessage::NoteOff { channel, .. } => Some(*channel),
            MidiMessage::NoteOn { channel, .. } => Some(*channel),
            MidiMessage::PolyphonicAftertouch { channel, .. } => Some(*channel),
            MidiMessage::ControlChange { channel, .. } => Some(*channel),
            MidiMessage::ProgramChange { channel, .. } => Some(*channel),
            MidiMessage::ChannelAftertouch { channel, .. } => Some(*channel),
            MidiMessage::PitchBend { channel, .. } => Some(*channel),
            MidiMessage::Unknown { .. } => None,
        }
    }
}

/// The channel of a channel message; [None] for unknown messages.
pub open spec fn message_channel(m: MidiMessageView) -> Option<u8> {
    match m {
        MidiMessageView::NoteOff { channel, .. } => Some(channel),
        MidiMessageView::NoteOn { channel, .. } => Some(channel),
        MidiMessageView::PolyphonicAftertouch { channel, .. } => Some(channel),
        MidiMessageView::ControlChange { channel, .. } => Some(channel),
        MidiMessageView::ProgramChange { channel, .. } => Some(channel),
        MidiMessageView::ChannelAftertouch { channel, .. } => Some(channel),
        MidiMessageView::PitchBend { channel, .. } => Some(channel),
        MidiMessageView::Unknown { .. } => None,
    }
}

/// The message kinds a parser can recognize, in the order the default
/// registry tries them.
#[derive(Debug, Clone, Copy, PartialEq, Eq, Structural)]
pub enum MessageParser {
    NoteOffParser,
    NoteOnParser,
    PolyphonicAftertouchParser,
    ControlChangeParser,
    ProgramChangeParser,
    ChannelAftertouchParser,
    PitchBendParser,
    /// Accepts every message (the fallback).
    UnknownMessageParser,
}

/// The high nibble of the status byte of `data`.
pub open spec fn status_kind(data: Seq<u8>) -> int {
    (data[0] as int / 16) * 16
}

/// The channel (numbered from 1) of the status byte of `data`.
pub open spec fn status_channel(data: Seq<u8>) -> u8 {
    ((data[0] as int % 16) + 1) as u8
}

/// Whether `parser` accepts `data`: the status byte has the parser's kind
/// and the message is long enough.
pub open spec fn accepts(parser: MessageParser, data: Seq<u8>) -> bool {
    match parser {
        MessageParser::NoteOffParser => data.len() >= 3 && status_kind(data) == 0x80,
        MessageParser::NoteOnParser => data.len() >= 3 && status_kind(data) == 0x90,
        MessageParser::PolyphonicAftertouchParser => data.len() >= 3 && status_kind(data) == 0xA0,
        MessageParser::ControlChangeParser => data.len() >= 3 && status_kind(data) == 0xB0,
        MessageParser::ProgramChangeParser => data.len() >= 2 && status_kind(data) == 0xC0,
        MessageParser::ChannelAftertouchParser => data.len() >= 2 && status_kind(data) == 0xD0,
        MessageParser::PitchBendParser => data.len() >= 3 && status_kind(data) == 0xE0,
        MessageParser::UnknownMessageParser => true,
    }
}

/// The message `parser` reads from `data` (when it accepts it). A Note On
/// with velocity 0 is read as a Note Off; a pitch bend's value is
/// `data[2] << 7 | data[1]`.
pub open spec fn interpret(parser: MessageParser, data: Seq<u8>) -> MidiMessageView {
    let channel = status_channel(data);
    match parser {
        MessageParser::NoteOffParser => MidiMessageView::NoteOff { channel, note: data[1], velocity: data[2] },
        MessageParser::NoteOnParser => if data[2] == 0 {
            MidiMessageView::NoteOff { channel, note: data[1], velocity: 0 }
        } else {
            MidiMessageView::NoteOn { channel, note: data[1], velocity: data[2] }
        },
        MessageParser::PolyphonicAftertouchParser => MidiMessageView::PolyphonicAftertouch {
            channel,
            note: data[1],
            pressure: data[2],
        },
        MessageParser::ControlChangeParser => MidiMessageView::ControlChange {
            channel,
            controller: data[1],
            value: data[2],
        },
        MessageParser::ProgramChangeParser => MidiMessageView::ProgramChange { channel, program: data[1] },
        MessageParser::ChannelAftertouchParser => MidiMessageView::ChannelAftertouch { channel, pressure: data[1] },
        MessageParser::PitchBendParser => MidiMessageView::PitchBend {
            channel,
            value: ((data[2] as u16) << 7u16) | (data[1] as u16),
        },
        MessageParser::UnknownMessageParser => MidiMessageView::Unknown { raw_data: data },
    }
}

/// The high nibble of a status byte, with the channel bits cleared.
fn kind_of(status: u8) -> (r: u8)
    ensures
        r == (status as int / 16) * 16,
{
    assert(status & 0xF0u8 == (status / 16) * 16) by (bit_vector);
    status & 0xF0
}

/// The channel (numbered from 1) of a status byte.
fn channel_of(status: u8) -> (r: u8)
    ensures
        r == (status as int % 16) + 1,
{
    assert(status & 0x0Fu8 == status % 16) by (bit_vector);
    (status & 0x0F) + 1
}

impl MessageParser {
    /// Whether this parser can read `data`.
    pub fn can_parse(&self, data: &[u8]) -> (r: bool)
        ensures
            r == accepts(*self, data@),
    {
        if data.len() == 0 {
            return match self {
                MessageParser::UnknownMessageParser => true,
                _ => false,
            };
        }
        let kind = kind_of(data[0]);
        let len = data.len();
        match self {
            MessageParser::NoteOffParser => kind == 0x80 && len >= 3,
            MessageParser::NoteOnParser => kind == 0x90 && len >= 3,
            MessageParser::PolyphonicAftertouchParser => kind == 0xA0 && len >= 3,
            MessageParser::ControlChangeParser => kind == 0xB0 && len >= 3,
            MessageParser::ProgramChangeParser => kind == 0xC0 && len >= 2,
            MessageParser::ChannelAftertouchParser => kind == 0xD0 && len >= 2,
            MessageParser::PitchBendParser => kind == 0xE0 && len >= 3,
            MessageParser::UnknownMessageParser => true,
        }
    }

    /// Read `data`, which this parser must accept (see [Self::can_parse]).
    pub fn parse(&self, data: &[u8]) -> (r: Option<MidiMessage>)
        requires
            accepts(*self, data@),
        ensures
            r matches Some(m) && m@ == interpret(*self, data@),
    {
        if let MessageParser::UnknownMessageParser = self {
            let raw_data = vstd::slice::slice_to_vec(data);
            return Some(MidiMessage::Unknown { raw_data });
        }
        let channel = channel_of(data[0]);
        match self {
            MessageParser::NoteOffParser => Some(MidiMessage::NoteOff { channel, note: data[1], velocity: data[2] }),
            MessageParser::NoteOnParser => if data[2] == 0 {
                Some(MidiMessage::NoteOff { channel, note: data[1], velocity: 0 })
            } else {
                Some(MidiMessage::NoteOn { channel, note: data[1], velocity: data[2] })
            },
            MessageParser::PolyphonicAftertouchParser => Some(
                MidiMessage::PolyphonicAftertouch { channel, note: data[1], pressure: data[2] },
            ),
            MessageParser::ControlChangeParser => Some(
                MidiMessage::ControlChange { channel, controller: data[1], value: data[2] },
            ),
            MessageParser::ProgramChangeParser => Some(MidiMessage::ProgramChange { channel, program: data[1] }),
            MessageParser::ChannelAftertouchParser => Some(MidiMessage::ChannelAftertouch { channel, pressure: data[1] }),
            MessageParser::PitchBendParser => {
                let value = (data[2] as u16) << 7 | (data[1] as u16);
                Some(MidiMessage::PitchBend { channel, value })
            },
            MessageParser::UnknownMessageParser => {
                assert(false);
                None
            },
        }
    }
}

/// The message the first parser in `parsers` that accepts `data` reads
/// from it, or [None] if none accepts it.
pub open spec fn first_parse(parsers: Seq<MessageParser>, data: Seq<u8>) -> Option<MidiMessageView>
    decreases parsers.len(),
{
    if parsers.len() == 0 {
        None
    } else if accepts(parsers[0], data) {
        Some(interpret(parsers[0], data))
    } else {
        first_parse(parsers.drop_first(), data)
    }
}

/// The parsers the default registry tries, in order; the last accepts
/// everything.
pub open spec fn default_parsers() -> Seq<MessageParser> {
    seq![
        MessageParser::NoteOffParser,
        MessageParser::NoteOnParser,
        MessageParser::PolyphonicAftertouchParser,
        MessageParser::ControlChangeParser,
        MessageParser::ProgramChangeParser,
        MessageParser::ChannelAftertouchParser,
        MessageParser::PitchBendParser,
        MessageParser::UnknownMessageParser,
    ]
}

/// A list of parsers, tried in order.
pub struct MessageParserRegistry {
    parsers: Vec<MessageParser>,
}

impl View for MessageParserRegistry {
    type V = Seq<MessageParser>;

    /// The parsers, in the order they are tried.
    closed spec fn view(&self) -> Seq<MessageParser> {
        self.parsers@
    }
}

impl MessageParserRegistry {
    /// A registry with a parser for every channel message kind, followed by
    /// the fallback that reads anything as an unknown message.
    pub fn new() -> (r: Self)
        ensures
            r@ == default_parsers(),
    {
        let mut registry = MessageParserRegistry { parsers: Vec::new() };
        registry.register(MessageParser::NoteOffParser);
        registry.register(MessageParser::NoteOnParser);
        registry.register(MessageParser::PolyphonicAftertouchParser);
        registry.register(MessageParser::ControlChangeParser);
        registry.register(MessageParser::ProgramChangeParser);
        registry.register(MessageParser::ChannelAftertouchParser);
        registry.register(MessageParser::PitchBendParser);
        registry.register(MessageParser::UnknownMessageParser);
        assert(registry@ =~= default_parsers());
        registry
    }

    /// Add a parser, tried after all the ones already registered.
    pub fn register(&mut self, parser: MessageParser)
        ensures
            final(self)@ == old(self)@.push(parser),
    {
        self.parsers.push(parser);
    }

    /// Read `data` with the first registered parser that accepts it; [None]
    /// if none does.
    pub fn parse(&self, data: &[u8]) -> (r: Option<MidiMessage>)
        ensures
            r is Some <==> first_parse(self@, data@) is Some,
            r matches Some(m) ==> first_parse(self@, data@) == Some(m@),
    {
        let mut i: usize = 0;
        assert(self.parsers@.skip(0) =~= self.parsers@);
        while i < self.parsers.len()
            invariant
                i <= self.parsers@.len(),
                first_parse(self.parsers@, data@) == first_parse(self.parsers@.skip(i as int), data@),
            decreases self.parsers@.len() - i,
        {
            let parser = self.parsers[i];
            proof {
                assert(self.parsers@.skip(i as int)[0] == parser);
                assert(self.parsers@.skip(i as int).drop_first() =~= self.parsers@.skip(i + 1));
            }
            if parser.can_parse(data) {
                return parser.parse(data);
            }
            i = i + 1;
        }
        None
    }
}

/// The default registry reads every message: a channel message of a known
/// kind and length by its kind, and anything else as an unknown message.
pub proof fn lemma_default_registry_total(data: Seq<u8>)
    ensures
        first_parse(default_parsers(), data) is Some,
{
    reveal_with_fuel(first_parse, 9);
}

} // verus!
